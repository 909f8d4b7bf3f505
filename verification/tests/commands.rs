use oz::commands::{add_bridge_command, del_bridge_command, set_bridge_commands, wipe_ovsdb_command, list_ports_command, add_veth_commands, add_veth_ovs_command, del_veth_command, set_veth_up_command, set_veth_ip_command, add_veth_container_command, signed_decimal_string, container_addr_script, container_up_script, show_eth0_script, shell_command};

fn argv(v: &[&str]) -> Vec<String> {
    v.iter().map(|s| s.to_string()).collect()
}

#[test]
fn bridge_commands() {
    assert_eq!(add_bridge_command("s1"), argv(&["ovs-vsctl", "add-br", "s1"]));
    assert_eq!(del_bridge_command("s14"), argv(&["ovs-vsctl", "del-br", "s14"]));
    assert_eq!(
        set_bridge_commands("s3"),
        vec![
            argv(&[
                "ovs-vsctl",
                "set",
                "bridge",
                "s3",
                "protocols=OpenFlow14",
                "other_config:disable-in-band=true",
                "other_config:enable-stateless-reply=true",
                "other_config:inactivity_probe=10000",
                "other_config:max_backoff=20000",
            ]),
            argv(&["ovs-vsctl", "set-controller", "s3", "tcp:127.0.0.1:6653"]),
        ]
    );
    assert_eq!(wipe_ovsdb_command(), argv(&["ovs-vsctl", "emer-reset"]));
    assert_eq!(list_ports_command("s2"), argv(&["sh", "-c", "ovs-vsctl list-ports s2"]));
}

#[test]
fn veth_commands() {
    assert_eq!(
        add_veth_commands("a", "b", "02:00:00:00:00:01"),
        vec![
            argv(&["ip", "link", "add", "a", "type", "veth", "peer", "name", "b"]),
            argv(&["ip", "link", "set", "dev", "b", "address", "02:00:00:00:00:01"]),
        ]
    );
    assert_eq!(add_veth_ovs_command("s3", "upf"), argv(&["ovs-vsctl", "add-port", "s3", "upf"]));
    assert_eq!(del_veth_command("s1s7s"), argv(&["ip", "link", "delete", "s1s7s"]));
    assert_eq!(set_veth_up_command("ue11"), argv(&["ip", "link", "set", "ue11", "up"]));
    assert_eq!(set_veth_ip_command("eth0", "192.0.0.6/24"), argv(&["ip", "addr", "add", "192.0.0.6/24", "dev", "eth0"]));
}

#[test]
fn netns_command_writes_the_pid() {
    assert_eq!(add_veth_container_command("eth0", 4242), argv(&["ip", "link", "set", "eth0", "netns", "4242"]));
    assert_eq!(add_veth_container_command("eth0", -7), argv(&["ip", "link", "set", "eth0", "netns", "-7"]));
    assert_eq!(signed_decimal_string(i64::MIN), i64::MIN.to_string());
    assert_eq!(signed_decimal_string(0), "0");
}

#[test]
fn container_scripts() {
    assert_eq!(container_addr_script("eth0", "192.0.0.1/24"), "ip addr add 192.0.0.1/24 dev eth0");
    assert_eq!(container_up_script("eth0"), "ip link set eth0 up");
    assert_eq!(show_eth0_script(), "ip addr show dev eth0");
    assert_eq!(shell_command("true".to_string()), argv(&["sh", "-c", "true"]));
}
