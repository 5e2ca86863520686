//! Error taxonomy shared by every component of the engine.
//!
//! Caller errors (bad request parameters, malformed payloads, failed
//! authentication, unknown devices) are distinguished from store faults so
//! that an HTTP layer can map each variant to a status code. Reconciliation
//! findings are *not* errors in this sense: they are reported as data inside
//! a fleet view (see the merge module).

use vstd::prelude::*;

verus! {

/// A caller error: an invalid request parameter or payload.
#[derive(Debug)]
pub enum Error400 {
    Info(String),
    Message(&'static str),
}

/// An authentication failure: a missing or unverifiable signature.
#[derive(Debug)]
pub enum Error401 {
    Info(String),
    Message(&'static str),
}

/// A lookup failure: the requested record does not exist.
#[derive(Debug)]
pub enum Error404 {
    Info(String),
    Message(&'static str),
}

/// A persistence-layer fault, surfaced as-is and never retried here.
#[derive(Debug)]
pub struct Error500 {
    pub message: String,
}

/// The one error type every fallible engine operation returns.
#[derive(Debug)]
pub enum ApiError {
    BadRequest(Error400),
    Database(Error500),
    InvalidPayload(Error400),
    MissingRecord(Error404),
    MissingSignature(Error401),
    InvalidSignature(Error401),
}

/// Failure to decode a device identity string into a verification key.
#[derive(Debug, PartialEq, Eq)]
pub enum DecodeError {
    /// The identity string holds a character outside the expected alphabet.
    InvalidEncoding,
    /// The string decodes, but not to the fixed verification-key width.
    WrongKeyLength,
    /// The decoded bytes are not a valid point for the signature scheme.
    InvalidKeyPoint,
}

} // verus!
