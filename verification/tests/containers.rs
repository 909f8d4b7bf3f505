use oz::containers::{
    fgc_container_spec, fgc_image_name, container_spec, ueransim_spec, ueransim_name, ueransim_step,
    attach_container_commands, deployed_containers, json_to_bollard, compose_service_config, device_from_compose, remove_address,
    pid_step, PidStep,
    keep_alphabetic, strs_to_strings, ComposeService, DeviceMap, FGCContainerOptions, MyContainerOptions,
};

fn strings(v: &[&str]) -> Vec<String> {
    v.iter().map(|s| s.to_string()).collect()
}

fn tun() -> DeviceMap {
    DeviceMap {
        path_on_host: Some("/dev/net/tun".to_string()),
        path_in_container: Some("/dev/net/tun".to_string()),
        cgroup_permissions: Some("rw".to_string()),
    }
}

fn same_device(a: &DeviceMap, b: &DeviceMap) -> bool {
    a.path_on_host == b.path_on_host && a.path_in_container == b.path_in_container
        && a.cgroup_permissions == b.cgroup_permissions
}

#[test]
fn image_names() {
    assert_eq!(fgc_image_name("upf1"), "upf");
    assert_eq!(fgc_image_name("smf1"), "smf");
    assert_eq!(fgc_image_name("nrf"), "nrf");
    assert_eq!(fgc_image_name("n3iwf"), "n3iwf");
    assert_eq!(fgc_image_name("n3iwue"), "n3iwue");
    assert_eq!(keep_alphabetic("a1b2-c_3é"), "abcé");
}

#[test]
fn fgc_spec_with_defaults() {
    let opts = FGCContainerOptions {
        name: "nrf",
        cmd: None,
        cap_add: Some(vec!["NET_ADMIN"]),
        binds: Some(vec!["/home/paul/projects/free5gc-compose/cert:/free5gc/cert"]),
        env: Some(vec!["DB_URI=mongodb://db/free5gc"]),
        devices: None,
        extra_hosts: Some(vec!["db:192.0.0.18"]),
    };
    let spec = fgc_container_spec(opts);
    assert_eq!(spec.image, Some("docker.io/free5gc/nrf:v3.4.1".to_string()));
    assert_eq!(spec.cmd, Some(strings(&["sh", "-c", "sleep 25s && ./nrf -c ./config/nrfcfg.yaml"])));
    assert_eq!(spec.env, Some(strings(&["GIN_MODE=release", "DB_URI=mongodb://db/free5gc"])));
    assert_eq!(spec.cap_add, Some(strings(&["NET_ADMIN"])));
    assert!(spec.devices.is_none());
    assert_eq!(
        spec.binds,
        Some(strings(&[
            "/home/paul/projects/free5gc-compose/config/nrfcfg.yaml:/free5gc/config/nrfcfg.yaml",
            "/home/paul/projects/free5gc-compose/cert:/free5gc/cert",
        ]))
    );
    assert_eq!(spec.network_mode, Some("none".to_string()));
    assert_eq!(spec.extra_hosts, Some(strings(&["db:192.0.0.18"])));
}

#[test]
fn fgc_spec_with_given_command() {
    let opts = FGCContainerOptions {
        name: "upf1",
        cmd: Some(vec!["bash", "-c", "sleep 25s && ./upf-iptables.sh && ./upf -c ./config/upfcfg1.yaml"]),
        cap_add: None,
        binds: None,
        env: None,
        devices: Some(vec![tun()]),
        extra_hosts: Some(vec![]),
    };
    let spec = fgc_container_spec(opts);
    assert_eq!(spec.image, Some("docker.io/free5gc/upf:v3.4.1".to_string()));
    assert_eq!(spec.cmd, Some(strings(&["bash", "-c", "sleep 25s && ./upf-iptables.sh && ./upf -c ./config/upfcfg1.yaml"])));
    assert!(spec.env.is_none());
    assert!(spec.cap_add.is_none());
    assert!(same_device(&spec.devices.unwrap()[0], &tun()));
    assert_eq!(spec.binds, Some(strings(&["/home/paul/projects/free5gc-compose/config/upf1cfg.yaml:/free5gc/config/upf1cfg.yaml"])));
    assert_eq!(spec.extra_hosts, Some(vec![]));
}

#[test]
fn plain_container_spec() {
    let opts = MyContainerOptions {
        name: "mongodb",
        image: "docker.io/mongo:7.0.12-jammy",
        cmd: Some(vec!["mongod", "--port", "27017"]),
        cap_add: Some(vec!["NET_ADMIN"]),
        binds: None,
        env: Some(vec!["DB_URI=mongodb://db/free5gc"]),
        devices: None,
    };
    let spec = container_spec(opts);
    assert_eq!(spec.image, Some("docker.io/mongo:7.0.12-jammy".to_string()));
    assert_eq!(spec.cmd, Some(strings(&["mongod", "--port", "27017"])));
    assert_eq!(spec.env, Some(strings(&["DB_URI=mongodb://db/free5gc"])));
    assert!(spec.binds.is_none());
    assert_eq!(spec.network_mode, Some("none".to_string()));
    assert!(spec.extra_hosts.is_none());
}

#[test]
fn ueransim_specs() {
    let hosts = vec!["gnb1.free5gc.org:192.0.0.1"];
    let gnb = ueransim_spec(2, &hosts, false);
    assert_eq!(ueransim_name(2), "ueransim2");
    assert_eq!(gnb.image, Some("docker.io/free5gc/ueransim:v3.4.1".to_string()));
    assert_eq!(gnb.cmd, Some(strings(&["sh", "-c", "sleep 25s && ./nr-gnb -c ./config/gnbcfg.yaml"])));
    assert_eq!(gnb.binds, Some(strings(&["/home/paul/projects/free5gc-compose/config/gnb/gnb2cfg.yaml:/ueransim/config/gnbcfg.yaml"])));
    assert_eq!(gnb.cap_add, Some(strings(&["NET_ADMIN"])));
    assert!(same_device(&gnb.devices.unwrap()[0], &tun()));
    assert_eq!(gnb.extra_hosts, Some(strings(&["gnb1.free5gc.org:192.0.0.1"])));
    let ue = ueransim_spec(5, &hosts, true);
    assert_eq!(ue.cmd, Some(strings(&["sh", "-c", "sleep infinity"])));
    assert_eq!(
        ue.binds,
        Some(strings(&[
            "/home/paul/projects/free5gc-compose/config/gnb/gnb5cfg.yaml:/ueransim/config/gnbcfg.yaml",
            "/home/paul/projects/free5gc-compose/config/ue:/ueransim/config/ue",
        ]))
    );
}

#[test]
fn ueransim_fleet_steps() {
    let first = ueransim_step(1);
    assert_eq!(first.name, "ueransim1");
    assert_eq!(first.address, "192.0.0.1/24");
    assert_eq!(first.host_veth, "ue11");
    assert_eq!(first.container_veth, "eth0");
    assert_eq!(first.bridge, "s1");
    assert!(!first.is_ue);
    assert_eq!(ueransim_step(2).bridge, "s2");
    assert_eq!(ueransim_step(3).bridge, "s4");
    let last = ueransim_step(5);
    assert_eq!(last.bridge, "s6");
    assert_eq!(last.host_veth, "ue51");
    assert!(last.is_ue);
}

#[test]
fn attach_commands() {
    let cmds = attach_container_commands("upf", "s3", "02:00:00:00:00:06");
    assert_eq!(cmds[0], strings(&["ip", "link", "add", "upf", "type", "veth", "peer", "name", "eth0"]));
    assert_eq!(cmds[1], strings(&["ip", "link", "set", "dev", "eth0", "address", "02:00:00:00:00:06"]));
    assert_eq!(cmds[2], strings(&["ovs-vsctl", "add-port", "s3", "upf"]));
}

#[test]
fn cleanup_containers() {
    let names = deployed_containers();
    assert_eq!(names.len(), 20);
    assert_eq!(names[0], "upf");
    assert_eq!(names[14], "mongodb");
    assert_eq!(names[19], "ueransim5");
}

#[test]
fn compose_devices() {
    let d = device_from_compose("/dev/net/tun:/dev/net/tun");
    assert_eq!(d.path_on_host, Some("/dev/net/tun".to_string()));
    assert_eq!(d.path_in_container, Some("/dev/net/tun".to_string()));
    assert_eq!(d.cgroup_permissions, Some("rw".to_string()));
    let e = device_from_compose("/dev/a:/dev/b:rwm");
    assert_eq!(e.path_on_host, Some("/dev/a".to_string()));
    assert_eq!(e.path_in_container, Some("/dev/b".to_string()));
    let f = device_from_compose("/dev/kvm");
    assert_eq!(f.path_on_host, Some("/dev/kvm".to_string()));
    assert_eq!(f.path_in_container, Some("/dev/kvm".to_string()));
}

#[test]
fn compose_service_to_container() {
    let service = ComposeService {
        image: Some("free5gc/upf:v3.4.1".to_string()),
        command: Some("./upf -c ./config/upfcfg.yaml".to_string()),
        cap_add: Some(vec![Some("NET_ADMIN".to_string()), None]),
        devices: Some(vec![Some("/dev/net/tun".to_string()), None, Some("/dev/x:/dev/y".to_string())]),
        volumes: None,
    };
    let spec = json_to_bollard(service, strings(&["db:192.0.0.18"]));
    assert_eq!(spec.image, Some("free5gc/upf:v3.4.1".to_string()));
    assert_eq!(spec.cmd, Some(strings(&["./upf -c ./config/upfcfg.yaml"])));
    assert_eq!(spec.cap_add, Some(strings(&["NET_ADMIN"])));
    let devices = spec.devices.unwrap();
    assert_eq!(devices.len(), 2);
    assert_eq!(devices[1].path_on_host, Some("/dev/x".to_string()));
    assert_eq!(devices[1].path_in_container, Some("/dev/y".to_string()));
    assert!(spec.binds.is_none());
    assert!(spec.env.is_none());
    assert_eq!(spec.network_mode, Some("none".to_string()));
    assert_eq!(spec.extra_hosts, Some(strings(&["db:192.0.0.18"])));
}

#[test]
fn remove_address_points_at_localhost() {
    let mut hosts = strings(&["upf.free5gc.org:192.0.0.6", "upf1.free5gc.org:192.0.0.20", "webui:192.0.0.17", "upf"]);
    let printed = remove_address("upf", &mut hosts);
    assert_eq!(printed, strings(&["upf.free5gc.org:127.0.0.1", "upf:127.0.0.1"]));
    assert_eq!(hosts, strings(&["upf.free5gc.org:127.0.0.1", "upf1.free5gc.org:192.0.0.20", "webui:192.0.0.17", "upf:127.0.0.1"]));
    let once = hosts.clone();
    let again = remove_address("upf", &mut hosts);
    assert_eq!(again, strings(&["upf.free5gc.org:127.0.0.1", "upf:127.0.0.1"]));
    assert_eq!(hosts, once);
}

#[test]
fn borrowed_strings_are_copied() {
    assert_eq!(strs_to_strings(&vec!["a", "b"]), strings(&["a", "b"]));
}

#[test]
fn pid_step_moves_or_cleans_up() {
    match pid_step("eth0", Some(4242)) {
        PidStep::MoveVeth(cmd) => assert_eq!(cmd, vec!["ip", "link", "set", "eth0", "netns", "4242"]),
        PidStep::CleanUp => panic!("a process id was found"),
    }
    assert!(matches!(pid_step("eth0", None), PidStep::CleanUp));
}

const COMPOSE: &str = "services:
  free5gc-upf:
    image: free5gc/upf:v3.4.1
    command: ./upf -c ./config/upfcfg.yaml
    cap_add:
      - NET_ADMIN
      - 7
    devices:
      - /dev/net/tun
      - /dev/x:/dev/y
  free5gc-nrf:
    image: free5gc/nrf:v3.4.1
    volumes:
      - ./config/nrfcfg.yaml:/free5gc/config/nrfcfg.yaml
";

#[test]
fn compose_file_service_to_container() {
    let spec = compose_service_config(COMPOSE.as_bytes(), "free5gc-upf", strings(&["db:192.0.0.18"])).unwrap();
    assert_eq!(spec.image, Some("free5gc/upf:v3.4.1".to_string()));
    assert_eq!(spec.cmd, Some(strings(&["./upf -c ./config/upfcfg.yaml"])));
    assert_eq!(spec.cap_add, Some(strings(&["NET_ADMIN"])));
    let devices = spec.devices.unwrap();
    assert_eq!(devices.len(), 2);
    assert_eq!(devices[0].path_on_host, Some("/dev/net/tun".to_string()));
    assert_eq!(devices[1].path_in_container, Some("/dev/y".to_string()));
    assert!(spec.binds.is_none());
    assert_eq!(spec.network_mode, Some("none".to_string()));
    assert_eq!(spec.extra_hosts, Some(strings(&["db:192.0.0.18"])));
}

#[test]
fn compose_file_failures() {
    assert!(compose_service_config(COMPOSE.as_bytes(), "free5gc-nrf", vec![]).is_none());
    assert!(compose_service_config(COMPOSE.as_bytes(), "free5gc-amf", vec![]).is_none());
    assert!(compose_service_config(b"services: [unclosed", "free5gc-upf", vec![]).is_none());
}
