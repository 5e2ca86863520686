//! Fleet telemetry engine for network-connected host devices ("holoports").
//!
//! Each device periodically pushes a signed status report. The library
//! authenticates a report against a registry of enrolled devices, retains
//! accepted reports in a bounded time window, aggregates the most recent
//! report per device, classifies fleet capacity from uptime measurements,
//! and reconciles the device-reported telemetry with an independently
//! sourced network-membership snapshot, flagging every inconsistency.
//!
//! All I/O (HTTP routing, database access) lives outside this crate; the
//! engine works on plain, already-decoded values.

pub mod capacity;
pub mod errors;
pub mod identity;
pub mod merge;
pub mod registry;
pub mod signature;
pub mod store;
pub mod types;
