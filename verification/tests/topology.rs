use oz::topology::{bridge_name, connect_bridges_with_mac, connect_bridges, demo_links, delete_bridge_connections, link_setup_commands, bridge_setup_commands, bridge_teardown_commands, set_bridge_ports, port_listing_commands, bridge_ports_plan};
use std::collections::HashSet;

fn argv(v: &[&str]) -> Vec<String> {
    v.iter().map(|s| s.to_string()).collect()
}

#[test]
fn bridge_names() {
    assert_eq!(bridge_name(1), "s1");
    assert_eq!(bridge_name(14), "s14");
}

#[test]
fn connect_bridges_with_given_mac() {
    assert_eq!(
        connect_bridges_with_mac("s1", "s7", "02:aa:bb:cc:dd:ee"),
        vec![
            argv(&["ip", "link", "add", "s1s7s", "type", "veth", "peer", "name", "s1s7e"]),
            argv(&["ip", "link", "set", "dev", "s1s7e", "address", "02:aa:bb:cc:dd:ee"]),
            argv(&["ovs-vsctl", "add-port", "s1", "s1s7s"]),
            argv(&["ovs-vsctl", "add-port", "s7", "s1s7e"]),
        ]
    );
}

#[test]
fn connect_bridges_uses_a_random_address() {
    let cmds = connect_bridges("s12", "s13").expect("the test machine has entropy");
    assert_eq!(cmds.len(), 4);
    assert_eq!(cmds[0], argv(&["ip", "link", "add", "s12s13s", "type", "veth", "peer", "name", "s12s13e"]));
    assert_eq!(cmds[1][..6].to_vec(), argv(&["ip", "link", "set", "dev", "s12s13e", "address"]));
    assert_eq!(cmds[1][6].len(), 17);
    assert_eq!(cmds[2], argv(&["ovs-vsctl", "add-port", "s12", "s12s13s"]));
    assert_eq!(cmds[3], argv(&["ovs-vsctl", "add-port", "s13", "s12s13e"]));
}

#[test]
fn demo_links_are_the_topology() {
    let links = demo_links();
    assert_eq!(links.len(), 25);
    assert_eq!(links[0], (1, 7));
    assert_eq!(links[24], (13, 14));
}

#[test]
fn delete_bridge_connections_deletes_the_s_ends() {
    let cmds = delete_bridge_connections();
    assert_eq!(cmds.len(), 25);
    assert_eq!(cmds[0], argv(&["ip", "link", "delete", "s1s7s"]));
    assert_eq!(cmds[6], argv(&["ip", "link", "delete", "s3s10s"]));
    assert_eq!(cmds[24], argv(&["ip", "link", "delete", "s13s14s"]));
}

#[test]
fn teardown_deletes_what_setup_created() {
    let setup = link_setup_commands().expect("the test machine has entropy");
    let teardown = delete_bridge_connections();
    assert_eq!(setup.len(), 100);
    for k in 0..25 {
        assert_eq!(teardown[k][3], setup[4 * k][3]);
        assert_eq!(setup[4 * k + 2][3], setup[4 * k][3]);
    }
}

#[test]
fn demo_veth_names_are_distinct() {
    let setup = link_setup_commands().expect("the test machine has entropy");
    let mut names = HashSet::new();
    for k in 0..25 {
        assert!(names.insert(setup[4 * k][3].clone()));
        assert!(names.insert(setup[4 * k][8].clone()));
    }
    assert_eq!(names.len(), 50);
}

#[test]
fn bridge_setup_and_teardown() {
    let setup = bridge_setup_commands();
    assert_eq!(setup.len(), 42);
    assert_eq!(setup[0], argv(&["ovs-vsctl", "add-br", "s1"]));
    assert_eq!(setup[3 * 13], argv(&["ovs-vsctl", "add-br", "s14"]));
    assert_eq!(setup[3 * 13 + 2], argv(&["ovs-vsctl", "set-controller", "s14", "tcp:127.0.0.1:6653"]));
    let teardown = bridge_teardown_commands();
    assert_eq!(teardown.len(), 14);
    assert_eq!(teardown[13], argv(&["ovs-vsctl", "del-br", "s14"]));
}

#[test]
fn set_bridge_ports_numbers_the_ports() {
    let mut next_ip: u8 = 32;
    let cmds = set_bridge_ports("s1s7s\ns1s8s\r\nue11\n", &mut next_ip);
    assert_eq!(next_ip, 35);
    assert_eq!(
        cmds,
        vec![
            argv(&["ip", "addr", "add", "192.0.0.32/24", "dev", "s1s7s"]),
            argv(&["ip", "link", "set", "s1s7s", "up"]),
            argv(&["ip", "addr", "add", "192.0.0.33/24", "dev", "s1s8s"]),
            argv(&["ip", "link", "set", "s1s8s", "up"]),
            argv(&["ip", "addr", "add", "192.0.0.34/24", "dev", "ue11"]),
            argv(&["ip", "link", "set", "ue11", "up"]),
        ]
    );
    let mut unchanged: u8 = 200;
    assert!(set_bridge_ports("", &mut unchanged).is_empty());
    assert_eq!(unchanged, 200);
}

#[test]
fn set_bridge_ports_reaches_the_last_address() {
    let mut next_ip: u8 = 254;
    let cmds = set_bridge_ports("p\n", &mut next_ip);
    assert_eq!(next_ip, 255);
    assert_eq!(cmds[0], argv(&["ip", "addr", "add", "192.0.0.254/24", "dev", "p"]));
}

#[test]
fn port_listing_walks_the_bridges_in_order() {
    let cmds = port_listing_commands();
    assert_eq!(cmds.len(), 14);
    assert_eq!(cmds[0], argv(&["sh", "-c", "ovs-vsctl list-ports s1"]));
    assert_eq!(cmds[13], argv(&["sh", "-c", "ovs-vsctl list-ports s14"]));
}

#[test]
fn ports_are_numbered_from_32_across_bridges() {
    let mut outputs = vec![String::new(); 14];
    outputs[0] = "s1s7s\ns1s8s\n".to_string();
    outputs[6] = "s1s7e\n".to_string();
    outputs[13] = "s11s14e\r\ns12s14e".to_string();
    let cmds = bridge_ports_plan(&outputs);
    assert_eq!(cmds.len(), 10);
    assert_eq!(cmds[0], argv(&["ip", "addr", "add", "192.0.0.32/24", "dev", "s1s7s"]));
    assert_eq!(cmds[1], argv(&["ip", "link", "set", "s1s7s", "up"]));
    assert_eq!(cmds[2], argv(&["ip", "addr", "add", "192.0.0.33/24", "dev", "s1s8s"]));
    assert_eq!(cmds[4], argv(&["ip", "addr", "add", "192.0.0.34/24", "dev", "s1s7e"]));
    assert_eq!(cmds[6], argv(&["ip", "addr", "add", "192.0.0.35/24", "dev", "s11s14e"]));
    assert_eq!(cmds[8], argv(&["ip", "addr", "add", "192.0.0.36/24", "dev", "s12s14e"]));
    assert!(bridge_ports_plan(&vec![String::new(); 14]).is_empty());
}
