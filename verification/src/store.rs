//! Telemetry store and window aggregator.
//!
//! The store appends accepted reports with a server-assigned timestamp and
//! purges reports older than a fixed retention horizon. The aggregator
//! answers window queries: the most recent report per device within a
//! lookback cutoff, and the set of device identities seen in the window.
//!
//! All cutoffs are given in hours of lookback from a caller-supplied
//! current time (seconds since the epoch); a cutoff so large that it would
//! reach before the epoch is rejected as a caller error, never clamped.

use vstd::prelude::*;

use crate::errors::{ApiError, Error400, Error404};
use crate::registry::no_host_msg;
use crate::registry::spec_key_registered;
use crate::registry::verify_host;
use crate::signature::authenticate_stats;
use crate::signature::spec_authenticates;
use crate::types::{HostRegistration, HostStats, HostStatsView};

verus! {

/// How long a report is retained, in hours: fourteen days.
pub const RETENTION_HOURS: u64 = 14 * 24;

/// The epoch timestamp (seconds) a lookback of `hours` before `now_secs`
/// reaches, or nothing when it would reach before the epoch.
pub open spec fn spec_cutoff_timestamp(now_secs: u64, hours: u64) -> Option<i64> {
    if 3600 * hours <= now_secs {
        Some((now_secs - 3600 * hours) as i64)
    } else {
        None
    }
}

/// Compute the cutoff timestamp for a lookback of `hours` before
/// `now_secs`, refusing a lookback that reaches before the epoch.
pub fn get_cutoff_timestamp(now_secs: u64, hours: u64) -> (r: Option<i64>)
    requires
        now_secs <= i64::MAX as u64,
    ensures
        r == spec_cutoff_timestamp(now_secs, hours),
{
    let secs = match hours.checked_mul(3600) {
        Some(s) => s,
        None => {
            return None;
        },
    };
    match now_secs.checked_sub(secs) {
        Some(c) => Some(c as i64),
        None => None,
    }
}

/// The ghost views of a report sequence, in order.
pub open spec fn stats_views(s: Seq<HostStats>) -> Seq<HostStatsView> {
    s.map_values(|h: HostStats| h@)
}

/// Whether a report falls inside the window starting at `cutoff`: it bears
/// a timestamp no older than the cutoff. A report without a timestamp is
/// never inside any window.
pub open spec fn spec_in_window(v: HostStatsView, cutoff: i64) -> bool {
    v.timestamp matches Some(t) && t >= cutoff
}

/// Whether the purge removes a report: it bears a timestamp strictly older
/// than the cutoff. A report without a timestamp is never removed.
pub open spec fn spec_purgeable(v: HostStatsView, cutoff: i64) -> bool {
    v.timestamp matches Some(t) && t < cutoff
}

/// A report's view with the server-assigned ingestion timestamp.
pub open spec fn spec_stamped(v: HostStatsView, now_secs: u64) -> HostStatsView {
    HostStatsView { timestamp: Some(now_secs as i64), ..v }
}

/// The rejection text for a lookback reaching before the epoch.
pub open spec fn hours_too_large_msg() -> Seq<char> {
    "Hours specified is too large. Cutoff is earlier than start of unix epoch"@
}

/// The telemetry store: accepted reports in ingestion order. Its view is
/// the sequence of report views.
pub struct TelemetryStore {
    reports: Vec<HostStats>,
}

impl View for TelemetryStore {
    type V = Seq<HostStatsView>;

    closed spec fn view(&self) -> Seq<HostStatsView> {
        stats_views(self.reports@)
    }
}

impl TelemetryStore {
    /// An empty store.
    pub fn new() -> (r: Self)
        ensures
            r@ == Seq::<HostStatsView>::empty(),
    {
        let r = TelemetryStore { reports: Vec::new() };
        proof {
            assert(r@ =~= Seq::<HostStatsView>::empty());
        }
        r
    }

    /// Append one report, assigning the ingestion timestamp at acceptance
    /// time; a timestamp the device supplied is never trusted for
    /// retention decisions.
    pub fn add_holoport_status(&mut self, hs: HostStats, now_secs: u64)
        requires
            now_secs <= i64::MAX as u64,
        ensures
            final(self)@ == old(self)@.push(spec_stamped(hs@, now_secs)),
    {
        let stamped = HostStats { timestamp: Some(now_secs as i64), ..hs };
        proof {
            assert(stamped@ =~= spec_stamped(hs@, now_secs));
        }
        self.reports.push(stamped);
        proof {
            assert(self@ =~= old(self)@.push(spec_stamped(hs@, now_secs)));
        }
    }

    /// Authenticated ingestion of one report: verify the device's
    /// signature over the exact payload bytes, check that the device's
    /// network identity is enrolled in the registration directory, and
    /// only then append the report with a server-assigned timestamp.
    ///
    /// `network_identity` is the registry lookup key derived from the
    /// device's verification key by the enrollment convention; the caller
    /// supplies it alongside the raw report.
    ///
    /// The store gains exactly the accepted report, and nothing on any
    /// rejection: it never holds an unauthenticated report.
    pub fn add_host_stats(
        &mut self,
        stats: HostStats,
        payload: &Vec<u8>,
        signature_b64: &str,
        network_identity: &String,
        registrations: &Vec<HostRegistration>,
        now_secs: u64,
    ) -> (r: Result<(), ApiError>)
        requires
            now_secs <= i64::MAX as u64,
        ensures
            r is Ok <==> (spec_authenticates(payload@, signature_b64@, stats.holoport_id@)
                && spec_key_registered(registrations@, network_identity@)),
            r is Ok ==> final(self)@ == old(self)@.push(spec_stamped(stats@, now_secs)),
            r is Err ==> final(self)@ == old(self)@,
            (spec_authenticates(payload@, signature_b64@, stats.holoport_id@)
                && !spec_key_registered(registrations@, network_identity@)) ==> (r matches Err(
                ApiError::MissingRecord(Error404::Info(m)),
            ) && m@ == no_host_msg(network_identity@)),
    {
        match authenticate_stats(payload, signature_b64, stats.holoport_id.as_str()) {
            Ok(_) => (),
            Err(e) => {
                return Err(e);
            },
        }
        match verify_host(network_identity, registrations) {
            Ok(_) => (),
            Err(e) => {
                return Err(e);
            },
        }
        self.add_holoport_status(stats, now_secs);
        Ok(())
    }

    /// Delete every report strictly older than `horizon_hours` before
    /// `now_secs` and leave all others untouched, returning how many were
    /// removed. A horizon reaching before the epoch is rejected unchanged.
    pub fn purge_older_than(&mut self, now_secs: u64, horizon_hours: u64) -> (r: Result<
        usize,
        ApiError,
    >)
        requires
            now_secs <= i64::MAX as u64,
        ensures
            match spec_cutoff_timestamp(now_secs, horizon_hours) {
                Some(c) => {
                    &&& r matches Ok(count)
                    &&& final(self)@ == old(self)@.filter(|v: HostStatsView| !spec_purgeable(v, c))
                    &&& count == old(self)@.len() - final(self)@.len()
                },
                None => {
                    &&& final(self)@ == old(self)@
                    &&& r matches Err(ApiError::BadRequest(Error400::Message(m))) && m@
                        == hours_too_large_msg()
                },
            },
    {
        let cutoff = match get_cutoff_timestamp(now_secs, horizon_hours) {
            Some(c) => c,
            None => {
                return Err(
                    ApiError::BadRequest(
                        Error400::Message(
                            "Hours specified is too large. Cutoff is earlier than start of unix epoch",
                        ),
                    ),
                );
            },
        };
        let ghost pred = |v: HostStatsView| !spec_purgeable(v, cutoff);
        let mut kept: Vec<HostStats> = Vec::new();
        let n = self.reports.len();
        for i in 0..n
            invariant
                n == self.reports@.len(),
                kept@.len() <= i,
                stats_views(kept@) == stats_views(self.reports@).subrange(0, i as int).filter(
                    pred,
                ),
                pred == (|v: HostStatsView| !spec_purgeable(v, cutoff)),
        {
            let keep = match self.reports[i].timestamp {
                Some(t) => t >= cutoff,
                None => true,
            };
            proof {
                let all = stats_views(self.reports@);
                let single = seq![all[i as int]];
                assert(all.subrange(0, i + 1) =~= all.subrange(0, i as int) + single);
                Seq::filter_distributes_over_add(all.subrange(0, i as int), single, pred);
                reveal_with_fuel(Seq::filter, 2);
                assert(single.drop_last() =~= Seq::<HostStatsView>::empty());
                assert(single.filter(pred) =~= (if pred(all[i as int]) {
                    single
                } else {
                    Seq::<HostStatsView>::empty()
                }));
            }
            if keep {
                let ghost kept_before = stats_views(kept@);
                kept.push(self.reports[i].clone());
                proof {
                    assert(stats_views(kept@) =~= kept_before.push(self.reports@[i as int]@));
                }
            }
        }
        proof {
            assert(stats_views(self.reports@).subrange(0, n as int) =~= stats_views(
                self.reports@,
            ));
        }
        let removed = self.reports.len() - kept.len();
        self.reports = kept;
        Ok(removed)
    }

    /// Delete every report older than the fixed retention horizon,
    /// returning how many were removed.
    pub fn cleanup_database(&mut self, now_secs: u64) -> (r: Result<usize, ApiError>)
        requires
            now_secs <= i64::MAX as u64,
        ensures
            match spec_cutoff_timestamp(now_secs, RETENTION_HOURS) {
                Some(c) => {
                    &&& r matches Ok(count)
                    &&& final(self)@ == old(self)@.filter(|v: HostStatsView| !spec_purgeable(v, c))
                    &&& count == old(self)@.len() - final(self)@.len()
                },
                None => {
                    &&& final(self)@ == old(self)@
                    &&& r matches Err(ApiError::BadRequest(Error400::Message(m))) && m@
                        == hours_too_large_msg()
                },
            },
    {
        self.purge_older_than(now_secs, RETENTION_HOURS)
    }

    /// The number of reports held.
    pub fn len(&self) -> (r: usize)
        ensures
            r == self@.len(),
    {
        self.reports.len()
    }

    /// A copy of the report at `index`, in ingestion order.
    pub fn report_at(&self, index: usize) -> (r: HostStats)
        requires
            index < self@.len(),
        ensures
            r@ == self@[index as int],
    {
        self.reports[index].clone()
    }

    /// Return the most recent report of each device whose latest activity
    /// falls within `cutoff_hours` before `now_secs`:
    ///
    /// - every returned report is one of the stored reports and lies in
    ///   the window;
    /// - no two returned reports name the same device;
    /// - every device with a report in the window is represented;
    /// - no stored in-window report of a device is newer than the returned
    ///   report of that device.
    ///
    /// A lookback reaching before the epoch is rejected as a caller error.
    pub fn get_hosts_stats(&self, now_secs: u64, cutoff_hours: u64) -> (r: Result<
        Vec<HostStats>,
        ApiError,
    >)
        requires
            now_secs <= i64::MAX as u64,
        ensures
            match spec_cutoff_timestamp(now_secs, cutoff_hours) {
                Some(c) => r matches Ok(v) && spec_latest_per_device(self@, c, stats_views(v@)),
                None => r matches Err(ApiError::BadRequest(Error400::Message(m))) && m@
                    == hours_too_large_msg(),
            },
    {
        let cutoff = match get_cutoff_timestamp(now_secs, cutoff_hours) {
            Some(c) => c,
            None => {
                return Err(
                    ApiError::BadRequest(
                        Error400::Message(
                            "Hours specified is too large. Cutoff is earlier than start of unix epoch",
                        ),
                    ),
                );
            },
        };
        Ok(self.latest_per_device(cutoff))
    }

    /// The window aggregation proper, against an explicit cutoff timestamp.
    fn latest_per_device(&self, cutoff: i64) -> (r: Vec<HostStats>)
        ensures
            spec_latest_per_device(self@, cutoff, stats_views(r@)),
    {
        let mut result: Vec<HostStats> = Vec::new();
        let n = self.reports.len();
        for j in 0..n
            invariant
                n == self.reports@.len(),
                spec_distinct_devices(stats_views(result@)),
                forall|a: int|
                    0 <= a < result@.len() ==> spec_in_window(
                        #[trigger] stats_views(result@)[a],
                        cutoff,
                    ) && self@.contains(stats_views(result@)[a]),
                forall|x: int|
                    0 <= x < j && spec_in_window(#[trigger] self@[x], cutoff) ==> exists|a: int|
                        0 <= a < result@.len() && stats_views(result@)[a].holoport_id
                            == self@[x].holoport_id,
                forall|a: int, x: int|
                    #![trigger stats_views(result@)[a], self@[x]]
                    0 <= a < result@.len() && 0 <= x < j && spec_in_window(self@[x], cutoff)
                        && self@[x].holoport_id == stats_views(result@)[a].holoport_id
                        ==> self@[x].timestamp->Some_0 <= stats_views(
                        result@,
                    )[a].timestamp->Some_0,
        {
            let in_window = match self.reports[j].timestamp {
                Some(t) => t >= cutoff,
                None => false,
            };
            if in_window {
                let ghost sv = self@;
                let ghost rv0 = stats_views(result@);
                proof {
                    assert(sv[j as int] == self.reports@[j as int]@);
                    assert(spec_in_window(sv[j as int], cutoff));
                }
                match find_device_index(&result, &self.reports[j].holoport_id) {
                    None => {
                        result.push(self.reports[j].clone());
                        proof {
                            let rv = stats_views(result@);
                            assert(rv =~= rv0.push(sv[j as int]));
                            assert(sv.contains(sv[j as int]));
                            let last = rv.len() - 1;
                            assert forall|a: int, b: int|
                                0 <= a < b < rv.len() implies (#[trigger] rv[a]).holoport_id != (
                            #[trigger] rv[b]).holoport_id by {
                                if b == last {
                                    assert(rv[a] == rv0[a]);
                                    assert(rv0[a].holoport_id != sv[j as int].holoport_id);
                                }
                            }
                            assert forall|x: int|
                                0 <= x < j + 1 && spec_in_window(
                                    #[trigger] sv[x],
                                    cutoff,
                                ) implies exists|a: int|
                                0 <= a < rv.len() && rv[a].holoport_id == sv[x].holoport_id by {
                                if x < j {
                                    let a = choose|a: int|
                                        0 <= a < rv0.len() && rv0[a].holoport_id
                                            == sv[x].holoport_id;
                                    assert(rv[a].holoport_id == sv[x].holoport_id);
                                } else {
                                    assert(rv[last].holoport_id == sv[j as int].holoport_id);
                                }
                            }
                            assert forall|a: int, x: int|
                                #![trigger rv[a], sv[x]]
                                0 <= a < rv.len() && 0 <= x < j + 1 && spec_in_window(sv[x], cutoff)
                                    && sv[x].holoport_id == rv[a].holoport_id implies
                                sv[x].timestamp->Some_0 <= rv[a].timestamp->Some_0 by {
                                if a < last && x == j {
                                    assert(rv[a] == rv0[a]);
                                    assert(rv0[a].holoport_id != sv[j as int].holoport_id);
                                } else if a == last && x < j {
                                    let w = choose|w: int|
                                        0 <= w < rv0.len() && rv0[w].holoport_id
                                            == sv[x].holoport_id;
                                    assert(rv0[w].holoport_id != sv[j as int].holoport_id);
                                } else if a < last && x < j {
                                    assert(rv[a] == rv0[a]);
                                }
                            }
                        }
                    },
                    Some(a) => {
                        proof {
                            assert(rv0[a as int] == result@[a as int]@);
                        }
                        let newer = match result[a].timestamp {
                            Some(e) => e < self.reports[j].timestamp_value(),
                            None => {
                                proof {
                                    assert(spec_in_window(rv0[a as int], cutoff));
                                    assert(false);
                                }
                                true
                            },
                        };
                        if newer {
                            result[a] = self.reports[j].clone();
                            proof {
                                let rv = stats_views(result@);
                                assert(rv =~= rv0.update(a as int, sv[j as int]));
                                assert(sv.contains(sv[j as int]));
                                assert(rv0[a as int].holoport_id == sv[j as int].holoport_id);
                                assert forall|k: int| 0 <= k < rv.len() implies (
                                #[trigger] rv[k]).holoport_id == rv0[k].holoport_id by {
                                    if k != a {
                                        assert(rv[k] == rv0[k]);
                                    }
                                }
                                assert forall|x: int|
                                    0 <= x < j + 1 && spec_in_window(
                                        #[trigger] sv[x],
                                        cutoff,
                                    ) implies exists|w: int|
                                    0 <= w < rv.len() && rv[w].holoport_id == sv[x].holoport_id by {
                                    if x < j {
                                        let w = choose|w: int|
                                            0 <= w < rv0.len() && rv0[w].holoport_id
                                                == sv[x].holoport_id;
                                        assert(rv[w].holoport_id == sv[x].holoport_id);
                                    } else {
                                        assert(rv[a as int].holoport_id
                                            == sv[j as int].holoport_id);
                                    }
                                }
                                assert forall|k: int, x: int|
                                    #![trigger rv[k], sv[x]]
                                    0 <= k < rv.len() && 0 <= x < j + 1 && spec_in_window(
                                        sv[x],
                                        cutoff,
                                    ) && sv[x].holoport_id == rv[k].holoport_id implies
                                    sv[x].timestamp->Some_0 <= rv[k].timestamp->Some_0 by {
                                    if k != a {
                                        assert(rv[k] == rv0[k]);
                                        if x == j {
                                            assert(rv0[k].holoport_id != rv0[a as int].holoport_id);
                                        }
                                    } else {
                                        if x < j {
                                            assert(sv[x].timestamp->Some_0
                                                <= rv0[a as int].timestamp->Some_0);
                                        }
                                    }
                                }
                            }
                        } else {
                            proof {
                                assert(rv0[a as int].holoport_id == sv[j as int].holoport_id);
                                assert(sv[j as int].timestamp->Some_0
                                    <= rv0[a as int].timestamp->Some_0);
                                assert forall|x: int|
                                    0 <= x < j + 1 && spec_in_window(
                                        #[trigger] sv[x],
                                        cutoff,
                                    ) implies exists|w: int|
                                    0 <= w < rv0.len() && rv0[w].holoport_id
                                        == sv[x].holoport_id by {
                                    if x == j {
                                        assert(rv0[a as int].holoport_id
                                            == sv[j as int].holoport_id);
                                    }
                                }
                                assert forall|k: int, x: int|
                                    #![trigger rv0[k], sv[x]]
                                    0 <= k < rv0.len() && 0 <= x < j + 1 && spec_in_window(
                                        sv[x],
                                        cutoff,
                                    ) && sv[x].holoport_id == rv0[k].holoport_id implies
                                    sv[x].timestamp->Some_0 <= rv0[k].timestamp->Some_0 by {
                                    if x == j && k != a {
                                        assert(rv0[k].holoport_id != rv0[a as int].holoport_id);
                                    }
                                }
                            }
                        }
                    },
                }
            }
        }
        result
    }

    /// The set of device identities with at least one report within
    /// `cutoff_hours` before `now_secs`: each such identity exactly once,
    /// independent of which of its reports is latest.
    pub fn distinct_device_names(&self, now_secs: u64, cutoff_hours: u64) -> (r: Result<
        Vec<String>,
        ApiError,
    >)
        requires
            now_secs <= i64::MAX as u64,
        ensures
            match spec_cutoff_timestamp(now_secs, cutoff_hours) {
                Some(c) => r matches Ok(v) && {
                    &&& forall|a: int, b: int|
                        0 <= a < b < v.deep_view().len() ==> v.deep_view()[a] != v.deep_view()[b]
                    &&& forall|a: int|
                        0 <= a < v.deep_view().len() ==> spec_device_in_window(
                            self@,
                            c,
                            #[trigger] v.deep_view()[a],
                        )
                    &&& forall|x: int|
                        0 <= x < self@.len() && spec_in_window(#[trigger] self@[x], c)
                            ==> v.deep_view().contains(self@[x].holoport_id)
                },
                None => r matches Err(ApiError::BadRequest(Error400::Message(m))) && m@
                    == hours_too_large_msg(),
            },
    {
        let cutoff = match get_cutoff_timestamp(now_secs, cutoff_hours) {
            Some(c) => c,
            None => {
                return Err(
                    ApiError::BadRequest(
                        Error400::Message(
                            "Hours specified is too large. Cutoff is earlier than start of unix epoch",
                        ),
                    ),
                );
            },
        };
        let mut names: Vec<String> = Vec::new();
        let n = self.reports.len();
        for j in 0..n
            invariant
                n == self.reports@.len(),
                forall|a: int, b: int|
                    0 <= a < b < names.deep_view().len() ==> names.deep_view()[a]
                        != names.deep_view()[b],
                forall|a: int|
                    0 <= a < names.deep_view().len() ==> spec_device_in_window(
                        self@,
                        cutoff,
                        #[trigger] names.deep_view()[a],
                    ),
                forall|x: int|
                    0 <= x < j && spec_in_window(#[trigger] self@[x], cutoff)
                        ==> names.deep_view().contains(self@[x].holoport_id),
        {
            let in_window = match self.reports[j].timestamp {
                Some(t) => t >= cutoff,
                None => false,
            };
            proof {
                assert(self@[j as int] == self.reports@[j as int]@);
            }
            if in_window {
                if !crate::types::vec_contains_string(&names, &self.reports[j].holoport_id) {
                    let ghost old_names = names.deep_view();
                    names.push(self.reports[j].holoport_id.clone());
                    proof {
                        assert(names.deep_view() =~= old_names.push(self@[j as int].holoport_id));
                        let nv = names.deep_view();
                        let last = nv.len() - 1;
                        assert forall|a: int, b: int| 0 <= a < b < nv.len() implies #[trigger] nv[a]
                            != #[trigger] nv[b] by {
                            if b == last {
                                assert(!old_names.contains(nv[b]));
                                assert(old_names[a] == nv[a]);
                            }
                        }
                        assert forall|a: int| 0 <= a < nv.len() implies spec_device_in_window(
                            self@,
                            cutoff,
                            #[trigger] nv[a],
                        ) by {
                            if a < last {
                                assert(old_names[a] == nv[a]);
                                assert(spec_device_in_window(self@, cutoff, old_names[a]));
                            } else {
                                assert(spec_in_window(self@[j as int], cutoff)
                                    && self@[j as int].holoport_id == nv[a]);
                            }
                        }
                        assert forall|x: int|
                            0 <= x < j + 1 && spec_in_window(
                                #[trigger] self@[x],
                                cutoff,
                            ) implies nv.contains(self@[x].holoport_id) by {
                            if x < j {
                                let a = choose|a: int|
                                    0 <= a < old_names.len() && old_names[a]
                                        == self@[x].holoport_id;
                                assert(nv[a] == self@[x].holoport_id);
                            } else {
                                assert(nv[last] == self@[j as int].holoport_id);
                            }
                        }
                    }
                } else {
                    proof {
                        assert(names.deep_view().contains(self@[j as int].holoport_id));
                    }
                }
            }
        }
        Ok(names)
    }
}

impl HostStats {
    /// The report's timestamp value; only meaningful when one is present.
    fn timestamp_value(&self) -> (r: i64)
        requires
            self@.timestamp is Some,
        ensures
            r == self@.timestamp->Some_0,
    {
        match self.timestamp {
            Some(t) => t,
            None => 0,
        }
    }
}

/// Whether some report of `s` lies in the window at `c` and names the
/// device `id`.
pub open spec fn spec_device_in_window(s: Seq<HostStatsView>, c: i64, id: Seq<char>) -> bool {
    exists|x: int| 0 <= x < s.len() && spec_in_window(#[trigger] s[x], c) && s[x].holoport_id == id
}

/// No two entries name the same device.
pub open spec fn spec_distinct_devices(v: Seq<HostStatsView>) -> bool {
    forall|a: int, b: int|
        0 <= a < b < v.len() ==> (#[trigger] v[a]).holoport_id != (#[trigger] v[b]).holoport_id
}

/// What the window aggregation returns for stored reports `s`, cutoff
/// timestamp `c` and result `v`: every result entry is a stored in-window
/// report; no device occurs twice; every device with an in-window report
/// occurs; and each result entry is at least as recent as every stored
/// in-window report of its device.
pub open spec fn spec_latest_per_device(
    s: Seq<HostStatsView>,
    c: i64,
    v: Seq<HostStatsView>,
) -> bool {
    &&& forall|a: int|
        0 <= a < v.len() ==> spec_in_window(#[trigger] v[a], c) && s.contains(v[a])
    &&& spec_distinct_devices(v)
    &&& forall|x: int|
        0 <= x < s.len() && spec_in_window(#[trigger] s[x], c) ==> exists|a: int|
            0 <= a < v.len() && v[a].holoport_id == s[x].holoport_id
    &&& forall|a: int, x: int|
        #![trigger v[a], s[x]]
        0 <= a < v.len() && 0 <= x < s.len() && spec_in_window(s[x], c) && s[x].holoport_id
            == v[a].holoport_id ==> s[x].timestamp->Some_0 <= v[a].timestamp->Some_0
}

/// The first index of `v` whose report names the device `id`, if any.
fn find_device_index(v: &Vec<HostStats>, id: &String) -> (r: Option<usize>)
    ensures
        match r {
            Some(a) => a < v@.len() && stats_views(v@)[a as int].holoport_id == id@,
            None => forall|a: int|
                0 <= a < v@.len() ==> (#[trigger] stats_views(v@)[a]).holoport_id != id@,
        },
{
    let n = v.len();
    for a in 0..n
        invariant
            n == v@.len(),
            forall|k: int| 0 <= k < a ==> (#[trigger] stats_views(v@)[k]).holoport_id != id@,
    {
        if v[a].holoport_id == *id {
            proof {
                assert(stats_views(v@)[a as int] == v@[a as int]@);
            }
            return Some(a);
        }
        proof {
            assert(stats_views(v@)[a as int] == v@[a as int]@);
        }
    }
    None
}

/// A longer lookback from one instant reaches an earlier cutoff: where
/// the longer lookback is accepted, so is the shorter, and its cutoff is
/// no earlier.
pub proof fn lemma_cutoff_monotonic(now_secs: u64, h1: u64, h2: u64)
    requires
        now_secs <= i64::MAX as u64,
        h1 <= h2,
        spec_cutoff_timestamp(now_secs, h2) is Some,
    ensures
        spec_cutoff_timestamp(now_secs, h1) is Some,
        spec_cutoff_timestamp(now_secs, h2)->Some_0 <= spec_cutoff_timestamp(
            now_secs,
            h1,
        )->Some_0,
{
}

/// Two window aggregations from one instant, the second over a lookback at
/// least as long as the first: every device of the first result is also a
/// device of the second. The aggregation's device set grows with the
/// lookback.
pub proof fn lemma_wider_window_covers_devices(
    s: Seq<HostStatsView>,
    now_secs: u64,
    h1: u64,
    h2: u64,
    v1: Seq<HostStatsView>,
    v2: Seq<HostStatsView>,
)
    requires
        now_secs <= i64::MAX as u64,
        h1 <= h2,
        spec_cutoff_timestamp(now_secs, h2) is Some,
        spec_latest_per_device(s, spec_cutoff_timestamp(now_secs, h1)->Some_0, v1),
        spec_latest_per_device(s, spec_cutoff_timestamp(now_secs, h2)->Some_0, v2),
    ensures
        forall|a: int|
            0 <= a < v1.len() ==> exists|b: int|
                0 <= b < v2.len() && v2[b].holoport_id == (#[trigger] v1[a]).holoport_id,
{
    lemma_cutoff_monotonic(now_secs, h1, h2);
    lemma_latest_devices_monotonic(
        s,
        spec_cutoff_timestamp(now_secs, h1)->Some_0,
        spec_cutoff_timestamp(now_secs, h2)->Some_0,
        v1,
        v2,
    );
}

/// Two window aggregations over one report sequence, the second with a
/// cutoff no later than the first (a lookback at least as long): every
/// device of the first result is also a device of the second. The
/// aggregation's device set grows with the lookback.
pub proof fn lemma_latest_devices_monotonic(
    s: Seq<HostStatsView>,
    c1: i64,
    c2: i64,
    v1: Seq<HostStatsView>,
    v2: Seq<HostStatsView>,
)
    requires
        c2 <= c1,
        spec_latest_per_device(s, c1, v1),
        spec_latest_per_device(s, c2, v2),
    ensures
        forall|a: int|
            0 <= a < v1.len() ==> exists|b: int|
                0 <= b < v2.len() && v2[b].holoport_id == (#[trigger] v1[a]).holoport_id,
{
    assert forall|a: int| 0 <= a < v1.len() implies exists|b: int|
        0 <= b < v2.len() && v2[b].holoport_id == (#[trigger] v1[a]).holoport_id by {
        assert(s.contains(v1[a]));
        let x = choose|x: int| 0 <= x < s.len() && s[x] == v1[a];
        assert(spec_in_window(s[x], c2));
    }
}

} // verus!
