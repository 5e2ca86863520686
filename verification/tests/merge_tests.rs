use host_statistics::merge::{find_in_hosts, list_available_hosts, merge_host_info};
use host_statistics::merge::{resolve_holoport_id, zero_to_none};
use host_statistics::registry::verify_host;
use host_statistics::errors::ApiError;
use host_statistics::types::{AgentPubKeys, DateCreated, HostRegistration, NumberLong};
use host_statistics::types::{is_hashmap_equal, keys_match, HostInfo, HostStats, RegistrationCode};
use host_statistics::types::ZerotierMember;

fn telemetry(ip: &str, id: &str, ts: i64) -> HostStats {
    HostStats {
        zt_ip: Some(ip.to_string()),
        holoport_id: id.to_string(),
        timestamp: Some(ts),
        ..Default::default()
    }
}

fn presence(ip: &str, name: &str, last_online: i64) -> ZerotierMember {
    ZerotierMember {
        last_online,
        zerotier_ip: Some(ip.to_string()),
        physical_address: Some("198.51.100.7".to_string()),
        name: Some(name.to_string()),
        description: Some("owner@example.net".to_string()),
    }
}

#[test]
fn matching_sources_merge_without_findings() {
    let hosts = vec![telemetry("10.0.0.1", "D1", 42)];
    let members = vec![presence("10.0.0.1", "D1", 5)];
    let out = merge_host_info(hosts, members);
    assert_eq!(out.len(), 1);
    let v = &out[0];
    assert_eq!(v.errors, Vec::<String>::new());
    assert_eq!(v.zerotier_ip, Some("10.0.0.1".to_string()));
    assert_eq!(v.holoport_id, Some("D1".to_string()));
    assert_eq!(v.last_netstatsd_reported, Some(42));
    assert_eq!(v.last_zerotier_online, Some(5));
    assert_eq!(v.wan_ip, Some("198.51.100.7".to_string()));
    assert_eq!(v.registered_email, Some("owner@example.net".to_string()));
}

#[test]
fn identity_disagreement_is_flagged_naming_both_values() {
    let hosts = vec![telemetry("10.0.0.1", "D1", 42)];
    let members = vec![presence("10.0.0.1", "D2", 5)];
    let out = merge_host_info(hosts, members);
    assert_eq!(out.len(), 1);
    let v = &out[0];
    assert_eq!(
        v.errors,
        vec!["Mismatched holoport ID between data from zerotier (D2) and netstatsd (D1)"
            .to_string()]
    );
    // the telemetry-reported identity wins, and the record is still emitted
    assert_eq!(v.holoport_id, Some("D1".to_string()));
    assert_eq!(v.last_netstatsd_reported, Some(42));
}

#[test]
fn unclaimed_telemetry_address_is_flagged() {
    let hosts = vec![telemetry("10.0.0.9", "D1", 42)];
    let members: Vec<ZerotierMember> = Vec::new();
    let out = merge_host_info(hosts, members);
    assert_eq!(out.len(), 1);
    let v = &out[0];
    assert_eq!(
        v.errors,
        vec!["Netstatsd reported zerotier IP as 10.0.0.9 but Zerotier Central has no knowledge of it"
            .to_string()]
    );
    assert_eq!(v.holoport_id, Some("D1".to_string()));
    assert_eq!(v.zerotier_ip, Some("10.0.0.9".to_string()));
    assert_eq!(v.last_netstatsd_reported, Some(42));
    assert_eq!(v.last_zerotier_online, None);
}

#[test]
fn never_seen_last_online_becomes_absent() {
    let hosts = vec![telemetry("10.0.0.1", "D1", 42)];
    let members = vec![presence("10.0.0.1", "D1", 0)];
    let out = merge_host_info(hosts, members);
    assert_eq!(out.len(), 1);
    assert_eq!(out[0].last_zerotier_online, None);
    assert_eq!(out[0].errors, Vec::<String>::new());
}

#[test]
fn presence_without_address_is_flagged() {
    let members = vec![ZerotierMember {
        last_online: 5,
        zerotier_ip: None,
        physical_address: None,
        name: Some("D1".to_string()),
        description: None,
    }];
    let out = merge_host_info(Vec::new(), members);
    assert_eq!(out.len(), 1);
    let v = &out[0];
    assert_eq!(v.errors, vec!["This holoport does not have IP assigned in ZT network".to_string()]);
    // no telemetry was consumed, so the identity comes out absent
    assert_eq!(v.holoport_id, None);
    assert_eq!(v.zerotier_ip, None);
}

#[test]
fn presence_address_nobody_reported_is_flagged() {
    let members = vec![presence("10.0.0.1", "D1", 5)];
    let out = merge_host_info(Vec::new(), members);
    assert_eq!(out.len(), 1);
    assert_eq!(
        out[0].errors,
        vec!["IP 10.0.0.1 is listed in Zerotier Central as active, but no holoport reported this IP via netstatsd within queried timeframe"
            .to_string()]
    );
    assert_eq!(out[0].holoport_id, None);
}

#[test]
fn a_report_satisfies_at_most_one_presence_entry() {
    let hosts = vec![telemetry("10.0.0.1", "D1", 42)];
    let members = vec![presence("10.0.0.1", "D1", 5), presence("10.0.0.1", "D1", 6)];
    let out = merge_host_info(hosts, members);
    assert_eq!(out.len(), 2);
    let clean = out.iter().filter(|v| v.errors.is_empty()).count();
    let flagged = out.iter().filter(|v| !v.errors.is_empty()).count();
    assert_eq!(clean, 1);
    assert_eq!(flagged, 1);
}

#[test]
fn every_input_record_yields_exactly_one_output_record() {
    let hosts = vec![telemetry("10.0.0.1", "D1", 42), telemetry("10.0.0.2", "D2", 43)];
    let members = vec![presence("10.0.0.2", "D2", 5), presence("10.0.0.3", "D3", 6)];
    let out = merge_host_info(hosts, members);
    // two presence entries plus one unclaimed report
    assert_eq!(out.len(), 3);
}

#[test]
fn list_available_hosts_returns_the_merge() {
    let hosts = vec![telemetry("10.0.0.1", "D1", 42)];
    let members = vec![presence("10.0.0.1", "D1", 5)];
    let out = list_available_hosts(hosts, members).ok().unwrap();
    assert_eq!(out.len(), 1);
    assert_eq!(out[0].errors, Vec::<String>::new());
}

#[test]
fn mismatch_against_missing_name_prints_placeholder() {
    let hosts = vec![telemetry("10.0.0.1", "D1", 42)];
    let members = vec![ZerotierMember {
        last_online: 5,
        zerotier_ip: Some("10.0.0.1".to_string()),
        physical_address: None,
        name: None,
        description: None,
    }];
    let out = merge_host_info(hosts, members);
    assert_eq!(out.len(), 1);
    assert_eq!(
        out[0].errors,
        vec!["Mismatched holoport ID between data from zerotier (???) and netstatsd (D1)"
            .to_string()]
    );
}

#[test]
fn zero_to_none_maps_only_zero() {
    assert_eq!(zero_to_none(0), None);
    assert_eq!(zero_to_none(7), Some(7));
    assert_eq!(zero_to_none(-3), Some(-3));
}

#[test]
fn resolve_holoport_id_keeps_telemetry_identity() {
    let mut errors: Vec<String> = Vec::new();
    let r = resolve_holoport_id("D1".to_string(), Some("D1".to_string()), &mut errors);
    assert_eq!(r, Some("D1".to_string()));
    assert_eq!(errors, Vec::<String>::new());
}

#[test]
fn resolve_holoport_id_flags_disagreement() {
    let mut errors: Vec<String> = Vec::new();
    let r = resolve_holoport_id("D1".to_string(), Some("D2".to_string()), &mut errors);
    assert_eq!(r, Some("D1".to_string()));
    assert_eq!(errors.len(), 1);
    assert!(errors[0].contains("D1") && errors[0].contains("D2"));
}

#[test]
fn resolve_holoport_id_empty_identity_is_silent() {
    let mut errors: Vec<String> = Vec::new();
    let r = resolve_holoport_id(String::new(), Some("D2".to_string()), &mut errors);
    assert_eq!(r, None);
    assert_eq!(errors, Vec::<String>::new());
}

#[test]
fn find_in_hosts_consumes_the_matched_report() {
    let mut hosts = vec![telemetry("10.0.0.1", "D1", 1), telemetry("10.0.0.2", "D2", 2)];
    let mut errors: Vec<String> = Vec::new();
    let found = find_in_hosts(&mut hosts, &Some("10.0.0.1".to_string()), &mut errors);
    assert_eq!(found.holoport_id, "D1");
    assert_eq!(hosts.len(), 1);
    assert_eq!(hosts[0].holoport_id, "D2");
    assert_eq!(errors, Vec::<String>::new());
}

#[test]
fn host_info_equality_ignores_roster_order() {
    let base = HostInfo {
        zerotier_ip: Some("10.0.0.1".to_string()),
        wan_ip: None,
        last_zerotier_online: Some(5),
        last_netstatsd_reported: Some(42),
        holoport_id: Some("D1".to_string()),
        registered_email: None,
        holo_network: None,
        channel: None,
        holoport_model: None,
        ssh_status: Some(true),
        hpos_app_list: Some(vec!["app-a".to_string(), "app-b".to_string()]),
        channel_version: None,
        hpos_version: None,
        errors: Vec::new(),
    };
    let reordered = HostInfo {
        hpos_app_list: Some(vec!["app-b".to_string(), "app-a".to_string()]),
        zerotier_ip: Some("10.0.0.1".to_string()),
        wan_ip: None,
        last_zerotier_online: Some(5),
        last_netstatsd_reported: Some(42),
        holoport_id: Some("D1".to_string()),
        registered_email: None,
        holo_network: None,
        channel: None,
        holoport_model: None,
        ssh_status: Some(true),
        channel_version: None,
        hpos_version: None,
        errors: Vec::new(),
    };
    assert!(base == reordered);
    let different = HostInfo { ssh_status: Some(false), ..reordered };
    assert!(base != different);
}

#[test]
fn keys_match_compares_membership_and_length() {
    let a = vec!["x".to_string(), "y".to_string()];
    let b = vec!["y".to_string(), "x".to_string()];
    let c = vec!["x".to_string()];
    let d = vec!["x".to_string(), "z".to_string()];
    assert!(keys_match(&a, &b));
    assert!(!keys_match(&a, &c));
    assert!(!keys_match(&a, &d));
}

#[test]
fn roster_comparison_requires_both_present_or_both_absent() {
    let some = Some(vec!["x".to_string()]);
    assert!(is_hashmap_equal(&None, &None));
    assert!(!is_hashmap_equal(&some, &None));
    assert!(!is_hashmap_equal(&None, &some));
    assert!(is_hashmap_equal(&some, &Some(vec!["x".to_string()])));
}

#[test]
fn verify_host_finds_a_registered_key() {
    let regs = vec![HostRegistration {
        given_names: "Ada".to_string(),
        email: "ada@example.net".to_string(),
        last_name: "L.".to_string(),
        is_jurisdiction_not_in_list: false,
        legal_jurisdiction: "somewhere".to_string(),
        created: DateCreated { date: NumberLong { number_long: 1 } },
        old_holoport_ids: Vec::new(),
        registration_code: vec![RegistrationCode {
            code: "c1".to_string(),
            role: "host".to_string(),
            agent_pub_keys: vec![
                AgentPubKeys { pub_key: "key-one".to_string(), role: "host".to_string() },
                AgentPubKeys { pub_key: "key-two".to_string(), role: "host".to_string() },
            ],
        }],
    }];
    assert!(verify_host(&"key-two".to_string(), &regs).is_ok());
    match verify_host(&"key-three".to_string(), &regs) {
        Err(ApiError::MissingRecord(_)) => (),
        other => panic!("expected MissingRecord, got {:?}", other),
    }
}
