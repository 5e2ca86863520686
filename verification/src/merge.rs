//! Reconciliation engine: merges the latest telemetry reports with an
//! independently sourced network-membership snapshot.
//!
//! Each snapshot entry is matched to at most one telemetry report by
//! assigned network address; the matched report leaves the pool so that it
//! cannot satisfy a second entry. Every entry found in only one of the two
//! sources, and every disagreement about a device's identity, is reported
//! as a human-readable finding *inside* the merged record — discrepancies
//! never suppress a record and never abort the merge.

use vstd::prelude::*;

use crate::errors::ApiError;
use crate::types::{empty_stats_view, HostInfo, HostInfoView, HostStats, HostStatsView};
use crate::types::{ZerotierMember, ZerotierMemberView};

verus! {

/// The ghost views of a report sequence, in order.
pub open spec fn hosts_views(s: Seq<HostStats>) -> Seq<HostStatsView> {
    s.map_values(|h: HostStats| h@)
}

/// The ghost views of a snapshot sequence, in order.
pub open spec fn members_views(s: Seq<ZerotierMember>) -> Seq<ZerotierMemberView> {
    s.map_values(|m: ZerotierMember| m@)
}

/// The ghost views of a merged-record sequence, in order.
pub open spec fn infos_views(s: Seq<HostInfo>) -> Seq<HostInfoView> {
    s.map_values(|h: HostInfo| h@)
}

/// Normalize a last-seen value: zero means "never seen" and becomes
/// absent, never a literal zero timestamp.
pub open spec fn spec_zero_to_none(num: i64) -> Option<i64> {
    if num == 0 {
        None
    } else {
        Some(num)
    }
}

/// Normalize a last-seen value: zero means "never seen" and becomes
/// absent, never a literal zero timestamp.
pub fn zero_to_none(num: i64) -> (r: Option<i64>)
    ensures
        r == spec_zero_to_none(num),
{
    if num == 0 {
        return None;
    }
    Some(num)
}

/// The finding for a snapshot entry with no assigned network address.
pub open spec fn no_ip_msg() -> Seq<char> {
    "This holoport does not have IP assigned in ZT network"@
}

/// The finding for a snapshot address no telemetry report claims.
pub open spec fn not_reported_msg(ip: Seq<char>) -> Seq<char> {
    "IP "@ + ip
        + " is listed in Zerotier Central as active, but no holoport reported this IP via netstatsd within queried timeframe"@
}

/// The finding for a device whose two sources disagree about its identity.
pub open spec fn mismatch_msg(name: Option<Seq<char>>, id: Seq<char>) -> Seq<char> {
    "Mismatched holoport ID between data from zerotier ("@ + (match name {
        Some(n) => n,
        None => "???"@,
    }) + ") and netstatsd ("@ + id + ")"@
}

/// The finding for a telemetry address the snapshot never claimed.
pub open spec fn unknown_ip_msg(ip: Option<Seq<char>>) -> Seq<char> {
    "Netstatsd reported zerotier IP as "@ + (match ip {
        Some(a) => a,
        None => "None"@,
    }) + " but Zerotier Central has no knowledge of it"@
}

fn make_no_ip_msg() -> (r: String)
    ensures
        r@ == no_ip_msg(),
{
    String::from_str("This holoport does not have IP assigned in ZT network")
}

fn make_not_reported_msg(ip: &String) -> (r: String)
    ensures
        r@ == not_reported_msg(ip@),
{
    let mut m = String::from_str("IP ");
    m.append(ip.as_str());
    m.append(
        " is listed in Zerotier Central as active, but no holoport reported this IP via netstatsd within queried timeframe",
    );
    m
}

fn make_mismatch_msg(name: &Option<String>, id: &String) -> (r: String)
    ensures
        r@ == mismatch_msg(name.deep_view(), id@),
{
    let mut m = String::from_str("Mismatched holoport ID between data from zerotier (");
    match name {
        Some(n) => m.append(n.as_str()),
        None => m.append("???"),
    }
    m.append(") and netstatsd (");
    m.append(id.as_str());
    m.append(")");
    m
}

fn make_unknown_ip_msg(ip: &Option<String>) -> (r: String)
    ensures
        r@ == unknown_ip_msg(ip.deep_view()),
{
    let mut m = String::from_str("Netstatsd reported zerotier IP as ");
    match ip {
        Some(a) => m.append(a.as_str()),
        None => m.append("None"),
    }
    m.append(" but Zerotier Central has no knowledge of it");
    m
}

/// The index of the first report claiming the address `ip`, if any.
pub open spec fn spec_first_host_with_ip(hosts: Seq<HostStatsView>, ip: Seq<char>) -> Option<int>
    decreases hosts.len(),
{
    if hosts.len() == 0 {
        None
    } else if hosts[0].zt_ip == Some(ip) {
        Some(0int)
    } else {
        match spec_first_host_with_ip(hosts.drop_first(), ip) {
            None => None,
            Some(i) => Some(i + 1),
        }
    }
}

/// A match at `i` with no earlier match is the first match.
proof fn lemma_first_match(hosts: Seq<HostStatsView>, ip: Seq<char>, i: int)
    requires
        0 <= i < hosts.len(),
        hosts[i].zt_ip == Some(ip),
        forall|k: int| 0 <= k < i ==> (#[trigger] hosts[k]).zt_ip != Some(ip),
    ensures
        spec_first_host_with_ip(hosts, ip) == Some(i),
    decreases i,
{
    if i == 0 {
    } else {
        assert(hosts[0].zt_ip != Some(ip));
        let rest = hosts.drop_first();
        assert forall|k: int| 0 <= k < i - 1 implies (#[trigger] rest[k]).zt_ip != Some(ip) by {
            assert(rest[k] == hosts[k + 1]);
        }
        assert(rest[i - 1] == hosts[i]);
        lemma_first_match(rest, ip, i - 1);
    }
}

/// With no match anywhere there is no first match.
proof fn lemma_no_match(hosts: Seq<HostStatsView>, ip: Seq<char>)
    requires
        forall|k: int| 0 <= k < hosts.len() ==> (#[trigger] hosts[k]).zt_ip != Some(ip),
    ensures
        spec_first_host_with_ip(hosts, ip) is None,
    decreases hosts.len(),
{
    if hosts.len() > 0 {
        let rest = hosts.drop_first();
        assert forall|k: int| 0 <= k < rest.len() implies (#[trigger] rest[k]).zt_ip != Some(
            ip,
        ) by {
            assert(rest[k] == hosts[k + 1]);
        }
        lemma_no_match(rest, ip);
    }
}

/// A report pool after removing index `i` by swapping in the last report.
pub open spec fn spec_swap_remove(s: Seq<HostStatsView>, i: int) -> Seq<HostStatsView> {
    s.update(i, s.last()).drop_last()
}

/// What taking a snapshot entry's report from the pool yields: the chosen
/// report (or the empty stand-in), the remaining pool, and the findings
/// added. An entry without an address takes nothing and is flagged; an
/// address no report claims takes nothing and is flagged with the address;
/// a claimed address takes the first report claiming it, silently.
pub open spec fn spec_find_in_hosts(hosts: Seq<HostStatsView>, ip: Option<Seq<char>>) -> (
    HostStatsView,
    Seq<HostStatsView>,
    Seq<Seq<char>>,
) {
    match ip {
        None => (empty_stats_view(), hosts, seq![no_ip_msg()]),
        Some(a) => match spec_first_host_with_ip(hosts, a) {
            Some(i) => (hosts[i], spec_swap_remove(hosts, i), Seq::empty()),
            None => (empty_stats_view(), hosts, seq![not_reported_msg(a)]),
        },
    }
}

/// What resolving the two identity claims yields: the identity kept and
/// the findings added. An empty telemetry identity resolves to absent; a
/// non-empty one is kept — it is the directly authenticated source — and
/// any disagreement with the snapshot's claimed name is flagged, naming
/// both values.
pub open spec fn spec_resolve(id: Seq<char>, name: Option<Seq<char>>) -> (
    Option<Seq<char>>,
    Seq<Seq<char>>,
) {
    if id.len() == 0 {
        (None, Seq::empty())
    } else if name == Some(id) {
        (Some(id), Seq::empty())
    } else {
        (Some(id), seq![mismatch_msg(name, id)])
    }
}

/// The merged record for one snapshot entry: snapshot fields, the fields
/// of its matched report (absent when none matched), the resolved
/// identity, and the findings. A zero last-seen is normalized to absent.
pub open spec fn spec_member_info(
    m: ZerotierMemberView,
    h: HostStatsView,
    resolved: Option<Seq<char>>,
    errs: Seq<Seq<char>>,
) -> HostInfoView {
    HostInfoView {
        zerotier_ip: m.zerotier_ip,
        wan_ip: m.physical_address,
        last_zerotier_online: spec_zero_to_none(m.last_online),
        last_netstatsd_reported: h.timestamp,
        holoport_id: resolved,
        registered_email: m.description,
        holo_network: h.holo_network,
        channel: h.channel,
        holoport_model: h.holoport_model,
        ssh_status: h.ssh_status,
        hpos_app_list: h.hpos_app_list,
        channel_version: h.channel_version,
        hpos_version: h.hpos_version,
        errors: errs,
    }
}

/// The merged record for a report no snapshot entry claimed: its own
/// fields, flagged as independently reported.
pub open spec fn spec_leftover_info(h: HostStatsView) -> HostInfoView {
    HostInfoView {
        zerotier_ip: h.zt_ip,
        wan_ip: None,
        last_zerotier_online: None,
        last_netstatsd_reported: h.timestamp,
        holoport_id: Some(h.holoport_id),
        registered_email: None,
        holo_network: h.holo_network,
        channel: h.channel,
        holoport_model: h.holoport_model,
        ssh_status: h.ssh_status,
        hpos_app_list: h.hpos_app_list,
        channel_version: h.channel_version,
        hpos_version: h.hpos_version,
        errors: seq![unknown_ip_msg(h.zt_ip)],
    }
}

/// The whole reconciliation, at view level: snapshot entries are consumed
/// from the last to the first, each taking at most one report from the
/// pool; the reports left unclaimed follow, from the last to the first,
/// each flagged as independently reported.
pub open spec fn spec_merge(
    hosts: Seq<HostStatsView>,
    members: Seq<ZerotierMemberView>,
) -> Seq<HostInfoView>
    decreases members.len(), hosts.len(),
{
    if members.len() > 0 {
        let m = members.last();
        let (h, rest, find_errs) = spec_find_in_hosts(hosts, m.zerotier_ip);
        let (resolved, resolve_errs) = spec_resolve(h.holoport_id, m.name);
        seq![spec_member_info(m, h, resolved, find_errs + resolve_errs)] + spec_merge(
            rest,
            members.drop_last(),
        )
    } else if hosts.len() > 0 {
        seq![spec_leftover_info(hosts.last())] + spec_merge(hosts.drop_last(), members)
    } else {
        Seq::empty()
    }
}

/// The index of the first report of `hosts` claiming the address `ip`.
fn find_ip_index(hosts: &Vec<HostStats>, ip: &String) -> (r: Option<usize>)
    ensures
        match r {
            Some(i) => i < hosts@.len() && spec_first_host_with_ip(hosts_views(hosts@), ip@)
                == Some(i as int),
            None => spec_first_host_with_ip(hosts_views(hosts@), ip@) is None,
        },
{
    let n = hosts.len();
    for i in 0..n
        invariant
            n == hosts@.len(),
            forall|k: int|
                0 <= k < i ==> (#[trigger] hosts_views(hosts@)[k]).zt_ip != Some(ip@),
    {
        let matches_ip = match &hosts[i].zt_ip {
            Some(z) => *z == *ip,
            None => false,
        };
        proof {
            assert(hosts_views(hosts@)[i as int] == hosts@[i as int]@);
        }
        if matches_ip {
            proof {
                lemma_first_match(hosts_views(hosts@), ip@, i as int);
            }
            return Some(i);
        }
    }
    proof {
        lemma_no_match(hosts_views(hosts@), ip@);
    }
    None
}

/// Take the snapshot entry's report out of the pool, flagging a missing
/// address or an unclaimed address; an entry whose address no report
/// claims, or that has no address, yields the empty stand-in report.
pub fn find_in_hosts(
    hosts: &mut Vec<HostStats>,
    zerotier_ip: &Option<String>,
    errors: &mut Vec<String>,
) -> (host: HostStats)
    ensures
        ({
            let (h, rest, errs) = spec_find_in_hosts(
                hosts_views(old(hosts)@),
                zerotier_ip.deep_view(),
            );
            &&& host@ == h
            &&& hosts_views(final(hosts)@) == rest
            &&& final(errors).deep_view() == old(errors).deep_view() + errs
        }),
{
    let ip = match zerotier_ip {
        Some(a) => a,
        None => {
            let msg = make_no_ip_msg();
            let ghost old_errs = errors.deep_view();
            errors.push(msg);
            proof {
                assert(errors.deep_view() =~= old_errs + seq![no_ip_msg()]);
            }
            return HostStats::default();
        },
    };
    match find_ip_index(hosts, ip) {
        Some(index) => {
            let host = hosts.swap_remove(index);
            proof {
                assert(hosts_views(hosts@) =~= spec_swap_remove(
                    hosts_views(old(hosts)@),
                    index as int,
                ));
                assert(errors.deep_view() =~= errors.deep_view() + Seq::<Seq<char>>::empty());
            }
            host
        },
        None => {
            let msg = make_not_reported_msg(ip);
            let ghost old_errs = errors.deep_view();
            errors.push(msg);
            proof {
                assert(errors.deep_view() =~= old_errs + seq![not_reported_msg(ip@)]);
            }
            HostStats::default()
        },
    }
}

/// Compare the identities the two sources report for one device, flag a
/// disagreement naming both values, and keep the telemetry-reported
/// identity — the directly authenticated source — normalizing an empty
/// identity to absent.
pub fn resolve_holoport_id(
    holoport_id: String,
    zerotier_name: Option<String>,
    errors: &mut Vec<String>,
) -> (r: Option<String>)
    ensures
        ({
            let (resolved, errs) = spec_resolve(holoport_id@, zerotier_name.deep_view());
            &&& r.deep_view() == resolved
            &&& final(errors).deep_view() == old(errors).deep_view() + errs
        }),
{
    if holoport_id.as_str().unicode_len() == 0 {
        proof {
            assert(errors.deep_view() =~= errors.deep_view() + Seq::<Seq<char>>::empty());
        }
        return None;
    }
    let name_matches = match &zerotier_name {
        Some(n) => *n == holoport_id,
        None => false,
    };
    if !name_matches {
        let msg = make_mismatch_msg(&zerotier_name, &holoport_id);
        let ghost old_errs = errors.deep_view();
        errors.push(msg);
        proof {
            assert(errors.deep_view() =~= old_errs + seq![mismatch_msg(
                zerotier_name.deep_view(),
                holoport_id@,
            )]);
        }
    } else {
        proof {
            assert(errors.deep_view() =~= errors.deep_view() + Seq::<Seq<char>>::empty());
        }
    }
    Some(holoport_id)
}

/// Merge the telemetry reports with the membership snapshot.
///
/// Every snapshot entry yields exactly one merged record, consuming at
/// most one report (matched by address); every report left unclaimed
/// yields one more record flagged as independently reported. The result is
/// exactly [`spec_merge`] of the two inputs.
pub fn merge_host_info(hosts: Vec<HostStats>, members: Vec<ZerotierMember>) -> (r: Vec<HostInfo>)
    ensures
        infos_views(r@) == spec_merge(hosts_views(hosts@), members_views(members@)),
{
    let ghost hosts0 = hosts_views(hosts@);
    let ghost members0 = members_views(members@);
    let mut hosts = hosts;
    let mut members = members;
    let mut host_info_vec: Vec<HostInfo> = Vec::new();

    while members.len() > 0
        invariant
            spec_merge(hosts0, members0) == infos_views(host_info_vec@) + spec_merge(
                hosts_views(hosts@),
                members_views(members@),
            ),
        decreases members.len(),
    {
        let ghost hv = hosts_views(hosts@);
        let ghost mv = members_views(members@);
        let member = match members.pop() {
            Some(m) => m,
            None => {
                proof {
                    assert(false);
                }
                continue ;
            },
        };
        proof {
            assert(member@ == mv.last());
            assert(members_views(members@) =~= mv.drop_last());
        }
        let mut errors: Vec<String> = Vec::new();
        let host = find_in_hosts(&mut hosts, &member.zerotier_ip, &mut errors);
        let holoport_id = resolve_holoport_id(host.holoport_id, member.name, &mut errors);

        let ghost m = mv.last();
        let ghost found = spec_find_in_hosts(hv, m.zerotier_ip);
        let ghost res = spec_resolve(found.0.holoport_id, m.name);
        proof {
            assert(errors.deep_view() =~= Seq::<Seq<char>>::empty() + found.2 + res.1);
            assert(errors.deep_view() =~= found.2 + res.1);
        }

        let info = HostInfo {
            zerotier_ip: member.zerotier_ip,
            wan_ip: member.physical_address,
            last_zerotier_online: zero_to_none(member.last_online),
            last_netstatsd_reported: host.timestamp,
            holoport_id,
            registered_email: member.description,
            holo_network: host.holo_network,
            channel: host.channel,
            holoport_model: host.holoport_model,
            ssh_status: host.ssh_status,
            hpos_app_list: host.hpos_app_list,
            channel_version: host.channel_version,
            hpos_version: host.hpos_version,
            errors,
        };
        proof {
            assert(info@ == spec_member_info(m, found.0, res.0, found.2 + res.1));
        }
        let ghost old_infos = infos_views(host_info_vec@);
        host_info_vec.push(info);
        proof {
            assert(infos_views(host_info_vec@) =~= old_infos.push(
                spec_member_info(m, found.0, res.0, found.2 + res.1),
            ));
            assert(spec_merge(hv, mv) == seq![
                spec_member_info(m, found.0, res.0, found.2 + res.1),
            ] + spec_merge(hosts_views(hosts@), members_views(members@)));
            assert(infos_views(host_info_vec@) + spec_merge(
                hosts_views(hosts@),
                members_views(members@),
            ) =~= (old_infos + spec_merge(hv, mv)));
        }
    }

    while hosts.len() > 0
        invariant
            members@.len() == 0,
            spec_merge(hosts0, members0) == infos_views(host_info_vec@) + spec_merge(
                hosts_views(hosts@),
                members_views(members@),
            ),
        decreases hosts.len(),
    {
        let ghost hv = hosts_views(hosts@);
        let host = match hosts.pop() {
            Some(h) => h,
            None => {
                proof {
                    assert(false);
                }
                continue ;
            },
        };
        proof {
            assert(host@ == hv.last());
            assert(hosts_views(hosts@) =~= hv.drop_last());
        }
        let msg = make_unknown_ip_msg(&host.zt_ip);
        let mut errors: Vec<String> = Vec::new();
        errors.push(msg);
        proof {
            assert(errors.deep_view() =~= seq![unknown_ip_msg(hv.last().zt_ip)]);
        }
        let info = HostInfo {
            zerotier_ip: host.zt_ip,
            wan_ip: None,
            last_zerotier_online: None,
            last_netstatsd_reported: host.timestamp,
            holoport_id: Some(host.holoport_id),
            registered_email: None,
            holo_network: host.holo_network,
            channel: host.channel,
            holoport_model: host.holoport_model,
            ssh_status: host.ssh_status,
            hpos_app_list: host.hpos_app_list,
            channel_version: host.channel_version,
            hpos_version: host.hpos_version,
            errors,
        };
        proof {
            assert(info@ == spec_leftover_info(hv.last()));
        }
        let ghost old_infos = infos_views(host_info_vec@);
        host_info_vec.push(info);
        proof {
            assert(infos_views(host_info_vec@) =~= old_infos.push(spec_leftover_info(hv.last())));
            assert(spec_merge(hv, members_views(members@)) == seq![
                spec_leftover_info(hv.last()),
            ] + spec_merge(hosts_views(hosts@), members_views(members@)));
            assert(infos_views(host_info_vec@) + spec_merge(
                hosts_views(hosts@),
                members_views(members@),
            ) =~= (old_infos + spec_merge(hv, members_views(members@))));
        }
    }

    proof {
        assert(spec_merge(hosts_views(hosts@), members_views(members@)) =~= Seq::<
            HostInfoView,
        >::empty());
        assert(infos_views(host_info_vec@) + Seq::<HostInfoView>::empty() =~= infos_views(
            host_info_vec@,
        ));
    }
    host_info_vec
}

/// Return every merged fleet record for the given telemetry reports and
/// membership snapshot; merge conflicts are resolved and reported in each
/// record's findings, never dropped.
pub fn list_available_hosts(hosts: Vec<HostStats>, members: Vec<ZerotierMember>) -> (r: Result<
    Vec<HostInfo>,
    ApiError,
>)
    ensures
        r matches Ok(v) && infos_views(v@) == spec_merge(
            hosts_views(hosts@),
            members_views(members@),
        ),
{
    Ok(merge_host_info(hosts, members))
}

} // verus!
