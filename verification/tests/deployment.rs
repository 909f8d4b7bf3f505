use oz::deployment::{all_hosts, core_deployment, situation_deployment, host_address, situation_peers, test_nodes};
use oz::containers::{deployed_containers, ueransim_name};
use std::collections::HashSet;

#[test]
fn hosts_and_deployments() {
    let hosts = all_hosts();
    assert_eq!(hosts.len(), 21);
    assert_eq!(hosts[0], "gnb1.free5gc.org:192.0.0.1");
    assert_eq!(hosts[20], "smf1.free5gc.org:192.0.0.21");
    let core = core_deployment();
    assert_eq!(core.len(), 15);
    assert_eq!(core[0], ("upf", 6, 3));
    assert_eq!(core[1], ("mongodb", 18, 3));
    assert_eq!(core[14], ("webserver", 252, 3));
    assert_eq!(situation_deployment(), vec![("upf1", 20, 3), ("smf1", 21, 3)]);
    assert_eq!(host_address(6), "192.0.0.6/24");
    assert_eq!(host_address(252), "192.0.0.252/24");
    assert_eq!(situation_peers().len(), 18);
    assert_eq!(test_nodes().len(), 20);
}

#[test]
fn demo_addresses_are_distinct() {
    let mut seen = HashSet::new();
    for (_, n, _) in core_deployment().into_iter().chain(situation_deployment()) {
        assert!(seen.insert(host_address(n)));
    }
    for i in 1..=5u8 {
        assert!(seen.insert(host_address(i)));
    }
    assert_eq!(seen.len(), 22);
}

#[test]
fn hosts_point_at_the_deployment_addresses() {
    let hosts = all_hosts();
    assert_eq!(hosts.len(), 21);
    for (n, entry) in hosts.iter().enumerate() {
        let address = entry.split(':').nth(1).unwrap();
        assert_eq!(address, format!("192.0.0.{}", n + 1));
    }
    for (name, number, bridge) in core_deployment() {
        assert_eq!(bridge, 3);
        if name == "webserver" {
            assert!(number > 21);
            continue;
        }
        let label = hosts[number as usize - 1].split(':').next().unwrap().split('.').next().unwrap();
        let expected = match name {
            "mongodb" => "db",
            "n3iwue" => "n3ue",
            other => other,
        };
        assert_eq!(label, expected);
    }
}

#[test]
fn cleanup_removes_exactly_what_the_demo_starts() {
    let removed: HashSet<String> = deployed_containers().into_iter().map(|s| s.to_string()).collect();
    let mut started: HashSet<String> = core_deployment().into_iter().map(|(n, _, _)| n.to_string()).collect();
    for i in 1..=5u8 {
        started.insert(ueransim_name(i));
    }
    assert_eq!(deployed_containers().len(), 20);
    assert_eq!(removed, started);
}
