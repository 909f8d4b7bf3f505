use oz::options::{core_fgc_options, plain_options, situation_options};
use oz::deployment::all_hosts;

const CERT: &str = "/home/paul/projects/free5gc-compose/cert:/free5gc/cert";

#[test]
fn upf_options() {
    let o = core_fgc_options("upf");
    assert_eq!(o.name, "upf");
    assert_eq!(o.cmd, Some(vec!["bash", "-c", "sleep 25s && ./upf-iptables.sh && ./upf -c ./config/upfcfg.yaml"]));
    assert_eq!(o.cap_add, Some(vec!["NET_ADMIN"]));
    assert_eq!(
        o.binds,
        Some(vec![
            "/home/paul/projects/free5gc-compose/config/upf-iptables.sh:/free5gc/upf-iptables.sh",
            "/home/paul/go-gtp5gnl:/free5gc/go-gtp5gnl",
        ])
    );
    assert_eq!(o.env, None);
    assert!(o.devices.is_none());
    assert_eq!(o.extra_hosts, Some(all_hosts()));
}

#[test]
fn database_users_get_the_database_uri() {
    for name in ["nrf", "udr", "chf"] {
        let o = core_fgc_options(name);
        assert_eq!(o.env, Some(vec!["DB_URI=mongodb://db/free5gc"]));
        assert_eq!(o.binds, Some(vec![CERT]));
        assert_eq!(o.cmd, None);
    }
    for name in ["amf", "ausf", "nssf", "pcf", "udm"] {
        let o = core_fgc_options(name);
        assert_eq!(o.env, None);
        assert_eq!(o.binds, Some(vec![CERT]));
    }
}

#[test]
fn smf_n3iwf_webui_n3iwue_options() {
    let smf = core_fgc_options("smf");
    assert_eq!(smf.cmd, Some(vec!["sh", "-c", "sleep 25s && ./smf -c ./config/smfcfg.yaml -u ./config/uerouting.yaml"]));
    assert_eq!(
        smf.binds,
        Some(vec!["/home/paul/projects/free5gc-compose/config/uerouting.yaml:/free5gc/config/uerouting.yaml", CERT])
    );
    let n3iwf = core_fgc_options("n3iwf");
    assert_eq!(
        n3iwf.binds,
        Some(vec!["/home/paul/projects/free5gc-compose/config/n3iwf-ipsec.sh:/free5gc/n3iwf-ipsec.sh", CERT])
    );
    let webui = core_fgc_options("webui");
    assert_eq!(webui.binds, None);
    assert_eq!(webui.cmd, None);
    let ue = core_fgc_options("n3iwue");
    assert_eq!(ue.cmd, Some(vec!["sleep", "infinity"]));
    assert_eq!(ue.binds, None);
    let devices = ue.devices.unwrap();
    assert_eq!(devices.len(), 1);
    assert_eq!(devices[0].path_on_host.as_deref(), Some("/dev/net/tun"));
    assert_eq!(devices[0].cgroup_permissions.as_deref(), Some("rw"));
}

#[test]
fn plain_containers() {
    let db = plain_options("mongodb").unwrap();
    assert_eq!(db.image, "docker.io/mongo:7.0.12-jammy");
    assert_eq!(db.cmd, Some(vec!["mongod", "--port", "27017"]));
    assert_eq!(db.env, Some(vec!["DB_URI=mongodb://db/free5gc"]));
    let web = plain_options("webserver").unwrap();
    assert_eq!(web.image, "webservice:latest");
    assert_eq!(web.cmd, None);
    assert_eq!(web.cap_add, Some(vec!["NET_ADMIN"]));
    assert!(plain_options("upf").is_none());
}

#[test]
fn situation_upf_and_smf() {
    let upf = situation_options("upf1", true);
    assert_eq!(upf.cap_add, Some(vec!["NET_ADMIN"]));
    assert_eq!(upf.binds.as_ref().unwrap().len(), 3);
    assert_eq!(upf.binds.as_ref().unwrap()[2], "/home/paul/go-gtp5gnl:/free5gc/go-gtp5gnl");
    assert_eq!(situation_options("upf1", false).binds.unwrap().len(), 2);
    let smf = situation_options("smf1", true);
    assert_eq!(smf.name, "smf1");
    assert_eq!(smf.cap_add, None);
    assert_eq!(smf.cmd, Some(vec!["sh", "-c", "sleep 25s && ./smf -c ./config/smfcfg1.yaml -u ./config/uerouting.yaml"]));
    assert_eq!(smf.binds.unwrap()[2], CERT);
}
