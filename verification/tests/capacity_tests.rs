use host_statistics::capacity::{fold_capacity, host_uptime, network_capacity};
use host_statistics::types::{Capacity, Performance, Uptime};

fn performance(name: &str, uptime: u32) -> Performance {
    Performance {
        name: name.to_string(),
        description: String::new(),
        physical_address: None,
        zt_ipaddress: String::new(),
        created_at: 0,
        uptime,
    }
}

#[test]
fn add_host_applies_both_thresholds_exactly() {
    let mut c = Capacity { total_hosts: 0, read_only: 0, source_chain: 0 };
    c.add_host(1000);
    assert_eq!(c, Capacity { total_hosts: 1, read_only: 1, source_chain: 1 });
    c.add_host(500);
    assert_eq!(c, Capacity { total_hosts: 2, read_only: 2, source_chain: 1 });
    c.add_host(499);
    assert_eq!(c, Capacity { total_hosts: 3, read_only: 2, source_chain: 1 });
    c.add_host(900);
    assert_eq!(c, Capacity { total_hosts: 4, read_only: 3, source_chain: 2 });
    c.add_host(899);
    assert_eq!(c, Capacity { total_hosts: 5, read_only: 4, source_chain: 2 });
    c.add_host(0);
    assert_eq!(c, Capacity { total_hosts: 6, read_only: 4, source_chain: 2 });
}

#[test]
fn fold_over_empty_stream_returns_initial_tally() {
    let initial = Capacity { total_hosts: 2, read_only: 1, source_chain: 1 };
    let folded = fold_capacity(initial, &Vec::new());
    assert_eq!(folded, initial);
}

#[test]
fn fold_of_concatenation_equals_fold_of_folds() {
    let initial = Capacity { total_hosts: 1, read_only: 0, source_chain: 0 };
    let s1: Vec<u32> = vec![1000, 400];
    let s2: Vec<u32> = vec![900, 501, 250];
    let mut joined = s1.clone();
    joined.extend_from_slice(&s2);
    let all_at_once = fold_capacity(initial, &joined);
    let two_steps = fold_capacity(fold_capacity(initial, &s1), &s2);
    assert_eq!(all_at_once, two_steps);
}

#[test]
fn network_capacity_counts_each_tier() {
    let records = vec![
        performance("a", 1000),
        performance("b", 450),
        performance("c", 900),
        performance("d", 500),
    ];
    let c = network_capacity(&records);
    assert_eq!(c, Capacity { total_hosts: 4, read_only: 3, source_chain: 2 });
}

#[test]
fn network_capacity_of_no_records_is_zero() {
    let c = network_capacity(&Vec::new());
    assert_eq!(c, Capacity { total_hosts: 0, read_only: 0, source_chain: 0 });
}

#[test]
fn host_uptime_finds_the_named_device() {
    let records = vec![performance("alpha", 750), performance("beta", 250)];
    assert_eq!(host_uptime("beta".to_string(), &records), Some(Uptime { uptime: 250 }));
    assert_eq!(host_uptime("alpha".to_string(), &records), Some(Uptime { uptime: 750 }));
}

#[test]
fn host_uptime_returns_first_match() {
    let records = vec![performance("alpha", 750), performance("alpha", 100)];
    assert_eq!(host_uptime("alpha".to_string(), &records), Some(Uptime { uptime: 750 }));
}

#[test]
fn host_uptime_absent_device_is_none() {
    let records = vec![performance("alpha", 750)];
    assert_eq!(host_uptime("gamma".to_string(), &records), None);
}
