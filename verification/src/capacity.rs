//! Capacity classifier: folds uptime measurements into fleet-level
//! capacity tiers.
//!
//! Uptime is expressed in parts per thousand of the observation period.
//! A device is counted read-capable at half uptime or better, and
//! source-chain-capable at nine tenths or better. The fold is commutative
//! in effect and associative over concatenation (see
//! [`lemma_fold_capacity_concat`]), so partial folds may be computed
//! independently and combined.

use vstd::prelude::*;

use crate::types::{Capacity, Performance, Uptime};

verus! {

/// Uptime (parts per thousand) at or above which a device can serve reads.
pub const READ_ONLY_THRESHOLD: u32 = 500;

/// Uptime (parts per thousand) at or above which a device can host a
/// source chain.
pub const SOURCE_CHAIN_THRESHOLD: u32 = 900;

/// The tally with every counter at zero.
pub open spec fn spec_empty_capacity() -> Capacity {
    Capacity { total_hosts: 0, read_only: 0, source_chain: 0 }
}

/// One step of the fold: count the device, and count it again for each
/// capacity tier whose uptime threshold it meets.
pub open spec fn spec_add_host(c: Capacity, uptime: u32) -> Capacity {
    Capacity {
        total_hosts: (c.total_hosts + 1) as u16,
        read_only: if uptime >= READ_ONLY_THRESHOLD {
            (c.read_only + 1) as u16
        } else {
            c.read_only
        },
        source_chain: if uptime >= SOURCE_CHAIN_THRESHOLD {
            (c.source_chain + 1) as u16
        } else {
            c.source_chain
        },
    }
}

/// The tally after folding every uptime of `s`, in order, into `c`.
pub open spec fn spec_fold_capacity(c: Capacity, s: Seq<u32>) -> Capacity
    decreases s.len(),
{
    if s.len() == 0 {
        c
    } else {
        spec_add_host(spec_fold_capacity(c, s.drop_last()), s.last())
    }
}

impl Capacity {
    /// Count one more device into the tally.
    pub fn add_host(&mut self, uptime: u32)
        requires
            old(self).total_hosts < u16::MAX,
            old(self).read_only < u16::MAX,
            old(self).source_chain < u16::MAX,
        ensures
            *final(self) == spec_add_host(*old(self), uptime),
    {
        self.total_hosts += 1;
        if uptime >= READ_ONLY_THRESHOLD {
            self.read_only += 1;
        }
        if uptime >= SOURCE_CHAIN_THRESHOLD {
            self.source_chain += 1;
        }
    }
}

/// Folding an empty collection returns the initial tally unchanged.
pub proof fn lemma_fold_capacity_empty(c: Capacity)
    ensures
        spec_fold_capacity(c, Seq::empty()) == c,
{
}

/// Folding the concatenation of two collections equals folding the first
/// and then folding the second into its result. Together with
/// [`lemma_fold_capacity_empty`] this lets partial folds over report
/// shards be combined into the fleet-wide tally.
pub proof fn lemma_fold_capacity_concat(c: Capacity, s1: Seq<u32>, s2: Seq<u32>)
    ensures
        spec_fold_capacity(c, s1 + s2) == spec_fold_capacity(spec_fold_capacity(c, s1), s2),
    decreases s2.len(),
{
    if s2.len() == 0 {
        assert(s1 + s2 =~= s1);
    } else {
        assert((s1 + s2).drop_last() =~= s1 + s2.drop_last());
        assert((s1 + s2).last() == s2.last());
        lemma_fold_capacity_concat(c, s1, s2.drop_last());
    }
}

/// Every counter of the fold is bounded by the starting counter plus the
/// number of measurements folded in.
pub proof fn lemma_fold_capacity_bounds(c: Capacity, s: Seq<u32>)
    ensures
        spec_fold_capacity(c, s).total_hosts <= c.total_hosts + s.len(),
        spec_fold_capacity(c, s).read_only <= c.read_only + s.len(),
        spec_fold_capacity(c, s).source_chain <= c.source_chain + s.len(),
    decreases s.len(),
{
    if s.len() > 0 {
        lemma_fold_capacity_bounds(c, s.drop_last());
    }
}

/// Fold a collection of uptime measurements into a running tally.
pub fn fold_capacity(initial: Capacity, uptimes: &Vec<u32>) -> (r: Capacity)
    requires
        initial.total_hosts + uptimes@.len() <= u16::MAX,
        initial.read_only + uptimes@.len() <= u16::MAX,
        initial.source_chain + uptimes@.len() <= u16::MAX,
    ensures
        r == spec_fold_capacity(initial, uptimes@),
{
    let mut tally = initial;
    let n = uptimes.len();
    for i in 0..n
        invariant
            n == uptimes@.len(),
            tally == spec_fold_capacity(initial, uptimes@.take(i as int)),
            initial.total_hosts + n <= u16::MAX,
            initial.read_only + n <= u16::MAX,
            initial.source_chain + n <= u16::MAX,
    {
        proof {
            lemma_fold_capacity_bounds(initial, uptimes@.take(i as int));
        }
        tally.add_host(uptimes[i]);
        proof {
            assert(uptimes@.take(i + 1).drop_last() =~= uptimes@.take(i as int));
            assert(uptimes@.take(i + 1).last() == uptimes@[i as int]);
        }
    }
    proof {
        assert(uptimes@.take(n as int) =~= uptimes@);
    }
    tally
}

/// The uptime measurements of a performance summary, in order.
pub open spec fn spec_uptimes_of(records: Seq<Performance>) -> Seq<u32> {
    records.map_values(|p: Performance| p.uptime)
}

/// Calculate the fleet's capacity tally from every record of the
/// performance summary.
pub fn network_capacity(records: &Vec<Performance>) -> (r: Capacity)
    requires
        records@.len() <= u16::MAX,
    ensures
        r == spec_fold_capacity(spec_empty_capacity(), spec_uptimes_of(records@)),
{
    let mut uptimes: Vec<u32> = Vec::new();
    let n = records.len();
    for i in 0..n
        invariant
            n == records@.len(),
            uptimes@ =~= spec_uptimes_of(records@.take(i as int)),
    {
        uptimes.push(records[i].uptime);
        proof {
            assert(records@.take(i + 1) =~= records@.take(i as int).push(records@[i as int]));
        }
    }
    proof {
        assert(records@.take(n as int) =~= records@);
    }
    fold_capacity(
        Capacity { total_hosts: 0, read_only: 0, source_chain: 0 },
        &uptimes,
    )
}

/// Find the uptime of the device named `name` in the performance summary:
/// the first record with that name, or nothing when no record matches.
pub fn host_uptime(name: String, records: &Vec<Performance>) -> (r: Option<Uptime>)
    ensures
        match r {
            Some(u) => exists|i: int|
                0 <= i < records@.len() && records@[i].name@ == name@ && u.uptime
                    == records@[i].uptime && forall|k: int|
                    0 <= k < i ==> records@[k].name@ != name@,
            None => forall|i: int| 0 <= i < records@.len() ==> records@[i].name@ != name@,
        },
{
    let n = records.len();
    for i in 0..n
        invariant
            n == records@.len(),
            forall|k: int| 0 <= k < i ==> records@[k].name@ != name@,
    {
        if records[i].name == name {
            return Some(Uptime { uptime: records[i].uptime });
        }
    }
    None
}

} // verus!
