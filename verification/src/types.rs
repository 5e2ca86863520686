//! Data model of the engine: telemetry reports, membership snapshots,
//! enrollment records, fleet views and the capacity tally.
//!
//! Every executable type has a ghost view made of mathematical values
//! (`Seq<char>` for strings, `Option` of plain values for nullable fields);
//! all contracts in this crate are stated over those views.
//!
//! The installed-application roster of a report is modeled as the list of
//! application identifiers: the engine only ever carries the roster through
//! and compares rosters by their identifier sets.

use vstd::prelude::*;

verus! {

/// Fleet-level capacity counters derived by thresholding uptime measurements.
/// Counters only ever grow while folding over a report collection.
#[derive(Clone, Copy, PartialEq, Eq, Structural, Debug)]
pub struct Capacity {
    pub total_hosts: u16,
    pub read_only: u16,
    pub source_chain: u16,
}

/// One row of the performance summary: a device's name and its measured
/// uptime, expressed in parts per thousand of the observation period.
pub struct Performance {
    pub name: String,
    pub description: String,
    pub physical_address: Option<String>,
    pub zt_ipaddress: String,
    pub created_at: i64,
    pub uptime: u32,
}

/// A device's uptime, in parts per thousand of the observation period.
#[derive(Clone, Copy, PartialEq, Eq, Structural, Debug)]
pub struct Uptime {
    pub uptime: u32,
}

/// One row of the device-assignment directory.
pub struct Assignment {
    pub name: String,
}

/// Ghost view of a telemetry report.
pub ghost struct HostStatsView {
    pub holo_network: Option<Seq<char>>,
    pub channel: Option<Seq<char>>,
    pub holoport_model: Option<Seq<char>>,
    pub ssh_status: Option<bool>,
    pub zt_ip: Option<Seq<char>>,
    pub wan_ip: Option<Seq<char>>,
    pub holoport_id: Seq<char>,
    pub timestamp: Option<i64>,
    pub hpos_app_list: Option<Seq<Seq<char>>>,
    pub channel_version: Option<Seq<char>>,
    pub hpos_version: Option<Seq<char>>,
}

/// One telemetry report submitted by a device. Every metadata field is
/// optional: a device whose collector failed sends null for that field.
/// The timestamp is assigned by the server at acceptance time.
pub struct HostStats {
    pub holo_network: Option<String>,
    pub channel: Option<String>,
    pub holoport_model: Option<String>,
    pub ssh_status: Option<bool>,
    pub zt_ip: Option<String>,
    pub wan_ip: Option<String>,
    pub holoport_id: String,
    pub timestamp: Option<i64>,
    pub hpos_app_list: Option<Vec<String>>,
    pub channel_version: Option<String>,
    pub hpos_version: Option<String>,
}

impl View for HostStats {
    type V = HostStatsView;

    open spec fn view(&self) -> HostStatsView {
        HostStatsView {
            holo_network: self.holo_network.deep_view(),
            channel: self.channel.deep_view(),
            holoport_model: self.holoport_model.deep_view(),
            ssh_status: self.ssh_status,
            zt_ip: self.zt_ip.deep_view(),
            wan_ip: self.wan_ip.deep_view(),
            holoport_id: self.holoport_id@,
            timestamp: self.timestamp,
            hpos_app_list: self.hpos_app_list.deep_view(),
            channel_version: self.channel_version.deep_view(),
            hpos_version: self.hpos_version.deep_view(),
        }
    }
}

/// The view of a report with no data: every field absent, the identity empty.
pub open spec fn empty_stats_view() -> HostStatsView {
    HostStatsView {
        holo_network: None,
        channel: None,
        holoport_model: None,
        ssh_status: None,
        zt_ip: None,
        wan_ip: None,
        holoport_id: Seq::empty(),
        timestamp: None,
        hpos_app_list: None,
        channel_version: None,
        hpos_version: None,
    }
}

impl Default for HostStats {
    /// A report with no data, used as the stand-in when no report matches.
    fn default() -> (r: Self)
        ensures
            r@ == empty_stats_view(),
    {
        let r = HostStats {
            holo_network: None,
            channel: None,
            holoport_model: None,
            ssh_status: None,
            zt_ip: None,
            wan_ip: None,
            holoport_id: String::new(),
            timestamp: None,
            hpos_app_list: None,
            channel_version: None,
            hpos_version: None,
        };
        proof {
            assert(r@ =~= empty_stats_view());
        }
        r
    }
}

impl Clone for HostStats {
    fn clone(&self) -> (r: Self)
        ensures
            r@ == self@,
    {
        let r = HostStats {
            holo_network: clone_opt_string(&self.holo_network),
            channel: clone_opt_string(&self.channel),
            holoport_model: clone_opt_string(&self.holoport_model),
            ssh_status: self.ssh_status,
            zt_ip: clone_opt_string(&self.zt_ip),
            wan_ip: clone_opt_string(&self.wan_ip),
            holoport_id: self.holoport_id.clone(),
            timestamp: self.timestamp,
            hpos_app_list: clone_opt_string_vec(&self.hpos_app_list),
            channel_version: clone_opt_string(&self.channel_version),
            hpos_version: clone_opt_string(&self.hpos_version),
        };
        proof {
            assert(r@ =~= self@);
        }
        r
    }
}

/// Ghost view of a membership-snapshot entry.
pub ghost struct ZerotierMemberView {
    pub last_online: i64,
    pub zerotier_ip: Option<Seq<char>>,
    pub physical_address: Option<Seq<char>>,
    pub name: Option<Seq<char>>,
    pub description: Option<Seq<char>>,
}

/// One entry of the externally sourced network-membership snapshot,
/// keyed by assigned network address rather than device identity.
/// A `last_online` of zero means the device was never seen.
pub struct ZerotierMember {
    pub last_online: i64,
    pub zerotier_ip: Option<String>,
    pub physical_address: Option<String>,
    pub name: Option<String>,
    pub description: Option<String>,
}

impl View for ZerotierMember {
    type V = ZerotierMemberView;

    open spec fn view(&self) -> ZerotierMemberView {
        ZerotierMemberView {
            last_online: self.last_online,
            zerotier_ip: self.zerotier_ip.deep_view(),
            physical_address: self.physical_address.deep_view(),
            name: self.name.deep_view(),
            description: self.description.deep_view(),
        }
    }
}

/// Ghost view of a reconciled fleet entry.
pub ghost struct HostInfoView {
    pub zerotier_ip: Option<Seq<char>>,
    pub wan_ip: Option<Seq<char>>,
    pub last_zerotier_online: Option<i64>,
    pub last_netstatsd_reported: Option<i64>,
    pub holoport_id: Option<Seq<char>>,
    pub registered_email: Option<Seq<char>>,
    pub holo_network: Option<Seq<char>>,
    pub channel: Option<Seq<char>>,
    pub holoport_model: Option<Seq<char>>,
    pub ssh_status: Option<bool>,
    pub hpos_app_list: Option<Seq<Seq<char>>>,
    pub channel_version: Option<Seq<char>>,
    pub hpos_version: Option<Seq<char>>,
    pub errors: Seq<Seq<char>>,
}

/// One reconciled fleet entry: the union of a device's latest telemetry
/// report and its membership-snapshot entry, with a list of human-readable
/// findings for every detected mismatch or omission (empty when the two
/// sources agree).
#[derive(Debug)]
pub struct HostInfo {
    pub zerotier_ip: Option<String>,
    pub wan_ip: Option<String>,
    pub last_zerotier_online: Option<i64>,
    pub last_netstatsd_reported: Option<i64>,
    pub holoport_id: Option<String>,
    pub registered_email: Option<String>,
    pub holo_network: Option<String>,
    pub channel: Option<String>,
    pub holoport_model: Option<String>,
    pub ssh_status: Option<bool>,
    pub hpos_app_list: Option<Vec<String>>,
    pub channel_version: Option<String>,
    pub hpos_version: Option<String>,
    pub errors: Vec<String>,
}

impl View for HostInfo {
    type V = HostInfoView;

    open spec fn view(&self) -> HostInfoView {
        HostInfoView {
            zerotier_ip: self.zerotier_ip.deep_view(),
            wan_ip: self.wan_ip.deep_view(),
            last_zerotier_online: self.last_zerotier_online,
            last_netstatsd_reported: self.last_netstatsd_reported,
            holoport_id: self.holoport_id.deep_view(),
            registered_email: self.registered_email.deep_view(),
            holo_network: self.holo_network.deep_view(),
            channel: self.channel.deep_view(),
            holoport_model: self.holoport_model.deep_view(),
            ssh_status: self.ssh_status,
            hpos_app_list: self.hpos_app_list.deep_view(),
            channel_version: self.channel_version.deep_view(),
            hpos_version: self.hpos_version.deep_view(),
            errors: self.errors.deep_view(),
        }
    }
}

/// Whether two application rosters list the same application identifiers,
/// element for element by membership and count.
pub open spec fn spec_keys_match(a: Seq<Seq<char>>, b: Seq<Seq<char>>) -> bool {
    a.len() == b.len() && forall|i: int| 0 <= i < a.len() ==> b.contains(#[trigger] a[i])
}

/// Whether two optional application rosters agree: both absent, or both
/// present and listing the same identifiers.
pub open spec fn spec_app_lists_match(
    a: Option<Seq<Seq<char>>>,
    b: Option<Seq<Seq<char>>>,
) -> bool {
    match (a, b) {
        (None, None) => true,
        (Some(x), Some(y)) => spec_keys_match(x, y),
        _ => false,
    }
}

/// What equality of two fleet entries means: field-by-field agreement of the
/// views, with application rosters compared by their identifier sets.
pub open spec fn host_info_eq_view(a: HostInfoView, b: HostInfoView) -> bool {
    &&& a.zerotier_ip == b.zerotier_ip
    &&& a.wan_ip == b.wan_ip
    &&& a.last_zerotier_online == b.last_zerotier_online
    &&& a.last_netstatsd_reported == b.last_netstatsd_reported
    &&& a.holoport_id == b.holoport_id
    &&& a.registered_email == b.registered_email
    &&& a.holo_network == b.holo_network
    &&& a.channel == b.channel
    &&& a.holoport_model == b.holoport_model
    &&& a.ssh_status == b.ssh_status
    &&& spec_app_lists_match(a.hpos_app_list, b.hpos_app_list)
    &&& a.channel_version == b.channel_version
    &&& a.hpos_version == b.hpos_version
    &&& a.errors == b.errors
}

impl vstd::std_specs::cmp::PartialEqSpecImpl for HostInfo {
    open spec fn obeys_eq_spec() -> bool {
        true
    }

    open spec fn eq_spec(&self, other: &HostInfo) -> bool {
        host_info_eq_view(self@, other@)
    }
}

impl PartialEq for HostInfo {
    fn eq(&self, other: &HostInfo) -> (r: bool) {
        opt_string_eq(&self.zerotier_ip, &other.zerotier_ip)
            && opt_string_eq(&self.wan_ip, &other.wan_ip)
            && opt_i64_eq(&self.last_zerotier_online, &other.last_zerotier_online)
            && opt_i64_eq(&self.last_netstatsd_reported, &other.last_netstatsd_reported)
            && opt_string_eq(&self.holoport_id, &other.holoport_id)
            && opt_string_eq(&self.registered_email, &other.registered_email)
            && opt_string_eq(&self.holo_network, &other.holo_network)
            && opt_string_eq(&self.channel, &other.channel)
            && opt_string_eq(&self.holoport_model, &other.holoport_model)
            && opt_bool_eq(&self.ssh_status, &other.ssh_status)
            && is_hashmap_equal(&self.hpos_app_list, &other.hpos_app_list)
            && opt_string_eq(&self.channel_version, &other.channel_version)
            && opt_string_eq(&self.hpos_version, &other.hpos_version)
            && string_vec_eq(&self.errors, &other.errors)
    }
}

/// Whether two optional application rosters agree, comparing only the
/// application identifiers (the original status values of a roster carry no
/// usable equality and are not part of the model).
pub fn is_hashmap_equal(first: &Option<Vec<String>>, second: &Option<Vec<String>>) -> (r: bool)
    ensures
        r == spec_app_lists_match(first.deep_view(), second.deep_view()),
{
    match (first, second) {
        (None, None) => true,
        (Some(first_map), Some(second_map)) => keys_match(first_map, second_map),
        _ => false,
    }
}

/// Whether two rosters have the same length and every identifier of the
/// first occurs in the second.
pub fn keys_match(map1: &Vec<String>, map2: &Vec<String>) -> (r: bool)
    ensures
        r == spec_keys_match(map1.deep_view(), map2.deep_view()),
{
    proof {
        assert(map1.deep_view().len() == map1@.len());
        assert(map2.deep_view().len() == map2@.len());
    }
    if map1.len() != map2.len() {
        return false;
    }
    let n = map1.len();
    for i in 0..n
        invariant
            n == map1.deep_view().len(),
            map1.deep_view().len() == map2.deep_view().len(),
            forall|k: int| 0 <= k < i ==> map2.deep_view().contains(#[trigger] map1.deep_view()[k]),
    {
        proof {
            assert(map1.deep_view()[i as int] == map1@[i as int]@);
        }
        if !vec_contains_string(map2, &map1[i]) {
            return false;
        }
    }
    true
}

/// Whether `v` holds a string equal to `s`.
pub fn vec_contains_string(v: &Vec<String>, s: &String) -> (r: bool)
    ensures
        r == v.deep_view().contains(s@),
{
    let n = v.len();
    for i in 0..n
        invariant
            n == v.deep_view().len(),
            forall|k: int| 0 <= k < i ==> v.deep_view()[k] != s@,
    {
        if v[i] == *s {
            proof {
                assert(v.deep_view()[i as int] == s@);
            }
            return true;
        }
        proof {
            assert(v.deep_view()[i as int] == v@[i as int]@);
        }
    }
    false
}

/// Equality of optional strings, by their character sequences.
pub fn opt_string_eq(a: &Option<String>, b: &Option<String>) -> (r: bool)
    ensures
        r == (a.deep_view() == b.deep_view()),
{
    match (a, b) {
        (None, None) => true,
        (Some(x), Some(y)) => *x == *y,
        _ => false,
    }
}

/// Equality of optional integers.
pub fn opt_i64_eq(a: &Option<i64>, b: &Option<i64>) -> (r: bool)
    ensures
        r == (*a == *b),
{
    match (a, b) {
        (None, None) => true,
        (Some(x), Some(y)) => *x == *y,
        _ => false,
    }
}

/// Equality of optional booleans.
pub fn opt_bool_eq(a: &Option<bool>, b: &Option<bool>) -> (r: bool)
    ensures
        r == (*a == *b),
{
    match (a, b) {
        (None, None) => true,
        (Some(x), Some(y)) => *x == *y,
        _ => false,
    }
}

/// Equality of string vectors, by their character sequences.
pub fn string_vec_eq(a: &Vec<String>, b: &Vec<String>) -> (r: bool)
    ensures
        r == (a.deep_view() == b.deep_view()),
{
    if a.len() != b.len() {
        return false;
    }
    let n = a.len();
    for i in 0..n
        invariant
            n == a.deep_view().len(),
            a.deep_view().len() == b.deep_view().len(),
            forall|k: int| 0 <= k < i ==> a.deep_view()[k] == b.deep_view()[k],
    {
        proof {
            assert(a.deep_view()[i as int] == a@[i as int]@);
            assert(b.deep_view()[i as int] == b@[i as int]@);
        }
        if !(a[i] == b[i]) {
            return false;
        }
    }
    proof {
        assert(a.deep_view() =~= b.deep_view());
    }
    true
}

/// A copy of an optional string with the same characters.
pub fn clone_opt_string(v: &Option<String>) -> (r: Option<String>)
    ensures
        r.deep_view() == v.deep_view(),
{
    match v {
        None => None,
        Some(s) => Some(s.clone()),
    }
}

/// A copy of a string vector with the same character sequences.
pub fn clone_string_vec(v: &Vec<String>) -> (r: Vec<String>)
    ensures
        r.deep_view() == v.deep_view(),
{
    let mut r: Vec<String> = Vec::new();
    let n = v.len();
    for i in 0..n
        invariant
            n == v.deep_view().len(),
            r.deep_view().len() == i,
            forall|k: int| 0 <= k < i ==> r.deep_view()[k] == v.deep_view()[k],
    {
        r.push(v[i].clone());
    }
    proof {
        assert(r.deep_view() =~= v.deep_view());
    }
    r
}

/// A copy of an optional roster with the same identifiers.
pub fn clone_opt_string_vec(v: &Option<Vec<String>>) -> (r: Option<Vec<String>>)
    ensures
        r.deep_view() == v.deep_view(),
{
    match v {
        None => None,
        Some(inner) => Some(clone_string_vec(inner)),
    }
}

/// A 32-bit counter wrapped by the enrollment store's export format.
pub struct NumberInt {
    pub number_int: u16,
}

/// A 64-bit counter wrapped by the enrollment store's export format.
pub struct NumberLong {
    pub number_long: u64,
}

/// The creation time of an enrollment record.
pub struct DateCreated {
    pub date: NumberLong,
}

/// One public key authorized for a device, together with its role.
pub struct AgentPubKeys {
    pub pub_key: String,
    pub role: String,
}

/// One enrollment code: its role and the keys registered under it.
pub struct RegistrationCode {
    pub code: String,
    pub role: String,
    pub agent_pub_keys: Vec<AgentPubKeys>,
}

/// A device identity superseded by a re-registration.
pub struct OldHoloportIds {
    pub _id: String,
    pub processed: bool,
    pub new_id: String,
}

/// One device enrollment, created out-of-band by the registration workflow
/// and read-only for this engine.
pub struct HostRegistration {
    pub given_names: String,
    pub email: String,
    pub last_name: String,
    pub is_jurisdiction_not_in_list: bool,
    pub legal_jurisdiction: String,
    pub created: DateCreated,
    pub old_holoport_ids: Vec<OldHoloportIds>,
    pub registration_code: Vec<RegistrationCode>,
}

} // verus!
