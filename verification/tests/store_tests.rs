use base64::Engine as _;
use ed25519_dalek::Signer;

use host_statistics::errors::ApiError;
use host_statistics::store::{get_cutoff_timestamp, TelemetryStore, RETENTION_HOURS};
use host_statistics::types::{AgentPubKeys, HostRegistration, HostStats, RegistrationCode};
use host_statistics::types::{DateCreated, NumberLong};

fn stats(id: &str) -> HostStats {
    HostStats { holoport_id: id.to_string(), ..Default::default() }
}

fn registration(keys: &[&str]) -> HostRegistration {
    HostRegistration {
        given_names: "Ada".to_string(),
        email: "ada@example.net".to_string(),
        last_name: "L.".to_string(),
        is_jurisdiction_not_in_list: false,
        legal_jurisdiction: "somewhere".to_string(),
        created: DateCreated { date: NumberLong { number_long: 0 } },
        old_holoport_ids: Vec::new(),
        registration_code: vec![RegistrationCode {
            code: "code".to_string(),
            role: "host".to_string(),
            agent_pub_keys: keys
                .iter()
                .map(|k| AgentPubKeys { pub_key: k.to_string(), role: "host".to_string() })
                .collect(),
        }],
    }
}

#[test]
fn cutoff_timestamp_subtracts_the_lookback() {
    assert_eq!(get_cutoff_timestamp(7200, 1), Some(3600));
    assert_eq!(get_cutoff_timestamp(7200, 2), Some(0));
}

#[test]
fn cutoff_timestamp_rejects_lookback_before_epoch() {
    assert_eq!(get_cutoff_timestamp(3599, 1), None);
    assert_eq!(get_cutoff_timestamp(1_000_000, u64::MAX / 2), None);
}

#[test]
fn append_assigns_the_server_timestamp() {
    let mut store = TelemetryStore::new();
    let mut report = stats("dev1");
    report.timestamp = Some(999); // a device-supplied timestamp is overridden
    store.add_holoport_status(report, 1234);
    assert_eq!(store.len(), 1);
    assert_eq!(store.report_at(0).timestamp, Some(1234));
    assert_eq!(store.report_at(0).holoport_id, "dev1");
}

#[test]
fn purge_removes_exactly_the_older_reports() {
    let mut store = TelemetryStore::new();
    store.add_holoport_status(stats("a1"), 900_000);
    store.add_holoport_status(stats("b2"), 950_000);
    store.add_holoport_status(stats("c3"), 999_000);
    // cutoff = 1_000_000 - 20 * 3600 = 928_000: only the 900_000 report is older
    let removed = store.purge_older_than(1_000_000, 20).ok().unwrap();
    assert_eq!(removed, 1);
    assert_eq!(store.len(), 2);
    // the survivors are untouched, in order
    assert_eq!(store.report_at(0).holoport_id, "b2");
    assert_eq!(store.report_at(0).timestamp, Some(950_000));
    assert_eq!(store.report_at(1).holoport_id, "c3");
    assert_eq!(store.report_at(1).timestamp, Some(999_000));
    // a second run removes nothing more
    let removed_again = store.purge_older_than(1_000_000, 20).ok().unwrap();
    assert_eq!(removed_again, 0);
    assert_eq!(store.len(), 2);
}

#[test]
fn purge_keeps_a_report_exactly_at_the_cutoff() {
    let mut store = TelemetryStore::new();
    store.add_holoport_status(stats("edge"), 928_000);
    let removed = store.purge_older_than(1_000_000, 20).ok().unwrap();
    assert_eq!(removed, 0);
    assert_eq!(store.len(), 1);
}

#[test]
fn purge_rejects_a_horizon_before_the_epoch() {
    let mut store = TelemetryStore::new();
    store.add_holoport_status(stats("a1"), 100);
    match store.purge_older_than(1000, 1) {
        Err(ApiError::BadRequest(_)) => (),
        other => panic!("expected BadRequest, got {:?}", other.err()),
    }
    assert_eq!(store.len(), 1);
}

#[test]
fn cleanup_applies_the_fixed_retention_horizon() {
    let horizon_secs = RETENTION_HOURS * 3600;
    let now = horizon_secs + 1000;
    let mut store = TelemetryStore::new();
    store.add_holoport_status(stats("old"), 999);
    store.add_holoport_status(stats("fresh"), 2000);
    let removed = store.cleanup_database(now).ok().unwrap();
    assert_eq!(removed, 1);
    assert_eq!(store.len(), 1);
    assert_eq!(store.report_at(0).holoport_id, "fresh");
}

#[test]
fn latest_per_device_returns_one_newest_report_per_device() {
    let mut store = TelemetryStore::new();
    store.add_holoport_status(stats("a1"), 9_000_000);
    store.add_holoport_status(stats("b2"), 9_200_000);
    store.add_holoport_status(stats("a1"), 9_500_000);
    // cutoff = 10_000_000 - 500 * 3600 = 8_200_000: everything is in window
    let hosts = store.get_hosts_stats(10_000_000, 500).ok().unwrap();
    assert_eq!(hosts.len(), 2);
    let mut a1_ts = None;
    let mut b2_ts = None;
    for h in &hosts {
        if h.holoport_id == "a1" {
            assert!(a1_ts.is_none(), "device a1 listed twice");
            a1_ts = h.timestamp;
        } else if h.holoport_id == "b2" {
            assert!(b2_ts.is_none(), "device b2 listed twice");
            b2_ts = h.timestamp;
        } else {
            panic!("unexpected device {}", h.holoport_id);
        }
    }
    assert_eq!(a1_ts, Some(9_500_000));
    assert_eq!(b2_ts, Some(9_200_000));
}

#[test]
fn latest_per_device_prunes_reports_before_the_cutoff() {
    let mut store = TelemetryStore::new();
    store.add_holoport_status(stats("a1"), 9_000_000);
    store.add_holoport_status(stats("b2"), 9_200_000);
    store.add_holoport_status(stats("a1"), 9_500_000);
    // cutoff = 10_000_000 - 200 * 3600 = 9_280_000: only a1@9_500_000 is in window
    let hosts = store.get_hosts_stats(10_000_000, 200).ok().unwrap();
    assert_eq!(hosts.len(), 1);
    assert_eq!(hosts[0].holoport_id, "a1");
    assert_eq!(hosts[0].timestamp, Some(9_500_000));
}

#[test]
fn wider_window_covers_every_device_of_the_narrower_one() {
    let mut store = TelemetryStore::new();
    store.add_holoport_status(stats("a1"), 9_000_000);
    store.add_holoport_status(stats("b2"), 9_200_000);
    store.add_holoport_status(stats("a1"), 9_500_000);
    let narrow = store.get_hosts_stats(10_000_000, 200).ok().unwrap();
    let wide = store.get_hosts_stats(10_000_000, 500).ok().unwrap();
    for h in &narrow {
        assert!(
            wide.iter().any(|w| w.holoport_id == h.holoport_id),
            "device {} lost in the wider window",
            h.holoport_id
        );
    }
}

#[test]
fn window_query_rejects_lookback_before_epoch() {
    let store = TelemetryStore::new();
    match store.get_hosts_stats(1000, 1) {
        Err(ApiError::BadRequest(_)) => (),
        other => panic!("expected BadRequest, got {:?}", other.err()),
    }
}

#[test]
fn distinct_device_names_lists_each_device_once() {
    let mut store = TelemetryStore::new();
    store.add_holoport_status(stats("a1"), 9_000_000);
    store.add_holoport_status(stats("b2"), 9_200_000);
    store.add_holoport_status(stats("a1"), 9_500_000);
    let names = store.distinct_device_names(10_000_000, 500).ok().unwrap();
    assert_eq!(names.len(), 2);
    assert!(names.contains(&"a1".to_string()));
    assert!(names.contains(&"b2".to_string()));
    let narrow = store.distinct_device_names(10_000_000, 200).ok().unwrap();
    assert_eq!(narrow, vec!["a1".to_string()]);
}

#[test]
fn add_host_stats_accepts_a_registered_signed_report() {
    let sk = ed25519_dalek::SigningKey::from_bytes(&[7u8; 32]);
    let id = base36::encode(&sk.verifying_key().to_bytes());
    let payload = b"{\"sshStatus\":true}".to_vec();
    let sig_b64 = base64::engine::general_purpose::STANDARD.encode(sk.sign(&payload).to_bytes());
    let network_identity = "uhCAk-network-identity".to_string();
    let registrations = vec![registration(&["uhCAk-network-identity"])];

    let mut store = TelemetryStore::new();
    let r = store.add_host_stats(stats(&id), &payload, &sig_b64, &network_identity, &registrations, 4242);
    assert!(r.is_ok());
    assert_eq!(store.len(), 1);
    assert_eq!(store.report_at(0).timestamp, Some(4242));
    assert_eq!(store.report_at(0).holoport_id, id);
}

#[test]
fn add_host_stats_rejects_an_unregistered_device() {
    let sk = ed25519_dalek::SigningKey::from_bytes(&[7u8; 32]);
    let id = base36::encode(&sk.verifying_key().to_bytes());
    let payload = b"{}".to_vec();
    let sig_b64 = base64::engine::general_purpose::STANDARD.encode(sk.sign(&payload).to_bytes());
    let network_identity = "uhCAk-network-identity".to_string();
    let registrations = vec![registration(&["uhCAk-someone-else"])];

    let mut store = TelemetryStore::new();
    match store.add_host_stats(stats(&id), &payload, &sig_b64, &network_identity, &registrations, 4242) {
        Err(ApiError::MissingRecord(_)) => (),
        other => panic!("expected MissingRecord, got {:?}", other),
    }
    assert_eq!(store.len(), 0);
}

#[test]
fn add_host_stats_rejects_a_tampered_payload() {
    let sk = ed25519_dalek::SigningKey::from_bytes(&[7u8; 32]);
    let id = base36::encode(&sk.verifying_key().to_bytes());
    let payload = b"{}".to_vec();
    let sig_b64 = base64::engine::general_purpose::STANDARD.encode(sk.sign(&payload).to_bytes());
    let tampered = b"{ }".to_vec();
    let network_identity = "uhCAk-network-identity".to_string();
    let registrations = vec![registration(&["uhCAk-network-identity"])];

    let mut store = TelemetryStore::new();
    match store.add_host_stats(stats(&id), &tampered, &sig_b64, &network_identity, &registrations, 4242) {
        Err(ApiError::InvalidSignature(_)) => (),
        other => panic!("expected InvalidSignature, got {:?}", other),
    }
    assert_eq!(store.len(), 0);
}
