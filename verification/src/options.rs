//! What the demo asks of each container it starts: the options of the
//! free5GC network functions of the core, of the database and the web
//! server, and of the UPF and SMF that the situation adds.

use vstd::prelude::*;
use crate::text::same_text;
use crate::containers::{FGCContainerOptions, MyContainerOptions, DeviceMap, tun_device, tun_device_map,
    reads_config, mounts_config, config_bind, lemma_default_command_reads_mounted_config};
use crate::deployment::{all_hosts, all_hosts_spec};

verus! {

/// The bind that mounts the certificates.
pub open spec fn cert_bind() -> Seq<char> {
    "/home/paul/projects/free5gc-compose/cert:/free5gc/cert"@
}

/// The environment of the functions that reach the database.
pub open spec fn db_env() -> Seq<Seq<char>> {
    seq!["DB_URI=mongodb://db/free5gc"@]
}

/// The capabilities that every core container gets.
pub open spec fn net_admin() -> Seq<Seq<char>> {
    seq!["NET_ADMIN"@]
}

/// The command of a core network function, where it has its own: the UPF
/// sets up its iptables rules first, the SMF reads its UE routing, the
/// N3IWF sets up IPsec first, and the N3IWUE only sleeps.
pub open spec fn core_cmd(name: Seq<char>) -> Option<Seq<Seq<char>>> {
    if name == "upf"@ {
        Some(seq!["bash"@, "-c"@, "sleep 25s && ./upf-iptables.sh && ./upf -c ./config/upfcfg.yaml"@])
    } else if name == "smf"@ {
        Some(seq!["sh"@, "-c"@, "sleep 25s && ./smf -c ./config/smfcfg.yaml -u ./config/uerouting.yaml"@])
    } else if name == "n3iwf"@ {
        Some(seq!["sh"@, "-c"@, "sleep 25s && ./n3iwf-ipsec.sh && ./n3iwf -c ./config/n3iwfcfg.yaml"@])
    } else if name == "n3iwue"@ {
        Some(seq!["sleep"@, "infinity"@])
    } else {
        None
    }
}

/// The binds of a core network function: the UPF's iptables script and
/// the GTP tools, the SMF's UE routing and the N3IWF's IPsec script (both
/// with the certificates), none for the web UI and the N3IWUE, and the
/// certificates for every other function.
pub open spec fn core_binds(name: Seq<char>) -> Option<Seq<Seq<char>>> {
    if name == "upf"@ {
        Some(seq![
            "/home/paul/projects/free5gc-compose/config/upf-iptables.sh:/free5gc/upf-iptables.sh"@,
            "/home/paul/go-gtp5gnl:/free5gc/go-gtp5gnl"@,
        ])
    } else if name == "smf"@ {
        Some(seq![
            "/home/paul/projects/free5gc-compose/config/uerouting.yaml:/free5gc/config/uerouting.yaml"@,
            cert_bind(),
        ])
    } else if name == "n3iwf"@ {
        Some(seq!["/home/paul/projects/free5gc-compose/config/n3iwf-ipsec.sh:/free5gc/n3iwf-ipsec.sh"@, cert_bind()])
    } else if name == "webui"@ || name == "n3iwue"@ {
        None
    } else {
        Some(seq![cert_bind()])
    }
}

/// The environment of a core network function: the NRF, UDR and CHF reach
/// the database.
pub open spec fn core_env(name: Seq<char>) -> Option<Seq<Seq<char>>> {
    if name == "nrf"@ || name == "udr"@ || name == "chf"@ {
        Some(db_env())
    } else {
        None
    }
}

/// The devices of a core network function: the N3IWUE gets the TUN device.
pub open spec fn core_devices(name: Seq<char>) -> Option<Seq<(Option<Seq<char>>, Option<Seq<char>>, Option<Seq<char>>)>> {
    if name == "n3iwue"@ {
        Some(seq![tun_device()])
    } else {
        None
    }
}

/// The names the option tables branch on are different names.
proof fn lemma_core_names_differ()
    ensures
        "upf"@ != "smf"@,
        "upf"@ != "n3iwf"@,
        "upf"@ != "n3iwue"@,
        "smf"@ != "n3iwf"@,
        "smf"@ != "n3iwue"@,
        "n3iwf"@ != "n3iwue"@,
        "webui"@ != "n3iwf"@,
        "webui"@ != "upf"@,
        "webui"@ != "smf"@,
{
    reveal_strlit("upf");
    reveal_strlit("smf");
    reveal_strlit("n3iwf");
    reveal_strlit("n3iwue");
    reveal_strlit("webui");
    assert("upf"@[0] != "smf"@[0]);
    assert("webui"@[0] != "n3iwf"@[0]);
    assert("upf"@.len() != "n3iwf"@.len());
    assert("upf"@.len() != "n3iwue"@.len());
    assert("smf"@.len() != "n3iwf"@.len());
    assert("smf"@.len() != "n3iwue"@.len());
    assert("n3iwf"@.len() != "n3iwue"@.len());
    assert("webui"@.len() != "upf"@.len());
    assert("webui"@.len() != "smf"@.len());
}

/// The names of the core network functions that have their own command.
pub open spec fn has_own_command(name: Seq<char>) -> bool {
    name == "upf"@ || name == "smf"@ || name == "n3iwf"@ || name == "n3iwue"@
}

/// Law: what each core network function is started with, by name. The UPF
/// sets up iptables and mounts its script and the GTP tools; the SMF runs
/// with its UE routing and mounts it with the certificates; the N3IWF sets
/// up IPsec first and mounts its script with the certificates; the N3IWUE
/// only sleeps, with the TUN device and no binds; the web UI has neither
/// command nor binds; the NRF, UDR and CHF reach the database; every other
/// function runs its default command with the certificates mounted.
pub proof fn lemma_core_options_by_name(name: Seq<char>)
    ensures
        name == "upf"@ ==> core_cmd(name) == Some(seq!["bash"@, "-c"@, "sleep 25s && ./upf-iptables.sh && ./upf -c ./config/upfcfg.yaml"@]) && core_binds(name) == Some(seq![
            "/home/paul/projects/free5gc-compose/config/upf-iptables.sh:/free5gc/upf-iptables.sh"@,
            "/home/paul/go-gtp5gnl:/free5gc/go-gtp5gnl"@,
        ]),
        name == "smf"@ ==> core_cmd(name) == Some(seq!["sh"@, "-c"@, "sleep 25s && ./smf -c ./config/smfcfg.yaml -u ./config/uerouting.yaml"@]) && core_binds(name) == Some(seq![
            "/home/paul/projects/free5gc-compose/config/uerouting.yaml:/free5gc/config/uerouting.yaml"@,
            "/home/paul/projects/free5gc-compose/cert:/free5gc/cert"@,
        ]),
        name == "n3iwf"@ ==> core_cmd(name) == Some(seq!["sh"@, "-c"@, "sleep 25s && ./n3iwf-ipsec.sh && ./n3iwf -c ./config/n3iwfcfg.yaml"@]) && core_binds(name) == Some(seq![
            "/home/paul/projects/free5gc-compose/config/n3iwf-ipsec.sh:/free5gc/n3iwf-ipsec.sh"@,
            "/home/paul/projects/free5gc-compose/cert:/free5gc/cert"@,
        ]),
        name == "n3iwue"@ ==> core_cmd(name) == Some(seq!["sleep"@, "infinity"@]) && core_binds(name) is None
            && core_devices(name) == Some(seq![(Some("/dev/net/tun"@), Some("/dev/net/tun"@), Some("rw"@))]),
        name != "n3iwue"@ ==> core_devices(name) is None,
        !has_own_command(name) ==> core_cmd(name) is None,
        name == "webui"@ ==> core_binds(name) is None,
        !has_own_command(name) && name != "webui"@ ==> core_binds(name) == Some(seq!["/home/paul/projects/free5gc-compose/cert:/free5gc/cert"@]),
        name == "nrf"@ || name == "udr"@ || name == "chf"@ ==> core_env(name) == Some(seq![
            "DB_URI=mongodb://db/free5gc"@,
        ]),
        name != "nrf"@ && name != "udr"@ && name != "chf"@ ==> core_env(name) is None,
{
    lemma_core_names_differ();
}

fn net_admin_caps() -> (res: Option<Vec<&'static str>>)
    ensures
        res.deep_view() == Some(net_admin()),
{
    let v = vec!["NET_ADMIN"];
    assert(v.deep_view() =~= net_admin());
    Some(v)
}

fn core_cmd_of(name: &str) -> (res: Option<Vec<&'static str>>)
    ensures
        res.deep_view() == core_cmd(name@),
{
    if same_text(name, "upf") {
        let v = vec!["bash", "-c", "sleep 25s && ./upf-iptables.sh && ./upf -c ./config/upfcfg.yaml"];
        assert(v.deep_view() =~= core_cmd(name@)->0);
        Some(v)
    } else if same_text(name, "smf") {
        let v = vec!["sh", "-c", "sleep 25s && ./smf -c ./config/smfcfg.yaml -u ./config/uerouting.yaml"];
        assert(v.deep_view() =~= core_cmd(name@)->0);
        Some(v)
    } else if same_text(name, "n3iwf") {
        let v = vec!["sh", "-c", "sleep 25s && ./n3iwf-ipsec.sh && ./n3iwf -c ./config/n3iwfcfg.yaml"];
        assert(v.deep_view() =~= core_cmd(name@)->0);
        Some(v)
    } else if same_text(name, "n3iwue") {
        let v = vec!["sleep", "infinity"];
        assert(v.deep_view() =~= core_cmd(name@)->0);
        Some(v)
    } else {
        None
    }
}

fn core_binds_of(name: &str) -> (res: Option<Vec<&'static str>>)
    ensures
        res.deep_view() == core_binds(name@),
{
    let cert = "/home/paul/projects/free5gc-compose/cert:/free5gc/cert";
    if same_text(name, "upf") {
        let v = vec![
            "/home/paul/projects/free5gc-compose/config/upf-iptables.sh:/free5gc/upf-iptables.sh",
            "/home/paul/go-gtp5gnl:/free5gc/go-gtp5gnl",
        ];
        assert(v.deep_view() =~= core_binds(name@)->0);
        Some(v)
    } else if same_text(name, "smf") {
        let v = vec!["/home/paul/projects/free5gc-compose/config/uerouting.yaml:/free5gc/config/uerouting.yaml", cert];
        assert(v.deep_view() =~= core_binds(name@)->0);
        Some(v)
    } else if same_text(name, "n3iwf") {
        let v = vec!["/home/paul/projects/free5gc-compose/config/n3iwf-ipsec.sh:/free5gc/n3iwf-ipsec.sh", cert];
        assert(v.deep_view() =~= core_binds(name@)->0);
        Some(v)
    } else if same_text(name, "webui") || same_text(name, "n3iwue") {
        None
    } else {
        let v = vec![cert];
        assert(v.deep_view() =~= core_binds(name@)->0);
        Some(v)
    }
}

/// The options of a free5GC network function of the core deployment: its
/// own command, binds, environment and devices (see `core_cmd`,
/// `core_binds`, `core_env`, `core_devices`), `NET_ADMIN`, and every host
/// of the deployment to resolve.
pub fn core_fgc_options(name: &'static str) -> (res: FGCContainerOptions<'static>)
    ensures
        res.name@ == name@,
        res.cmd.deep_view() == core_cmd(name@),
        name@ == "upf"@ ==> res.cmd.deep_view() == Some(seq!["bash"@, "-c"@, "sleep 25s && ./upf-iptables.sh && ./upf -c ./config/upfcfg.yaml"@]),
        name@ == "smf"@ ==> res.cmd.deep_view() == Some(seq!["sh"@, "-c"@, "sleep 25s && ./smf -c ./config/smfcfg.yaml -u ./config/uerouting.yaml"@]),
        name@ == "n3iwf"@ ==> res.cmd.deep_view() == Some(seq!["sh"@, "-c"@, "sleep 25s && ./n3iwf-ipsec.sh && ./n3iwf -c ./config/n3iwfcfg.yaml"@]),
        name@ == "n3iwue"@ ==> res.cmd.deep_view() == Some(seq!["sleep"@, "infinity"@]),
        !has_own_command(name@) ==> res.cmd is None,
        res.cap_add.deep_view() == Some(seq!["NET_ADMIN"@]),
        res.cap_add.deep_view() == Some(net_admin()),
        res.binds.deep_view() == core_binds(name@),
        res.env.deep_view() == core_env(name@),
        res.devices.deep_view() == core_devices(name@),
        res.extra_hosts.deep_view() == Some(all_hosts_spec()),
{
    proof {
        lemma_core_names_differ();
    }
    let env = if same_text(name, "nrf") || same_text(name, "udr") || same_text(name, "chf") {
        let v = vec!["DB_URI=mongodb://db/free5gc"];
        assert(v.deep_view() =~= db_env());
        Some(v)
    } else {
        None
    };
    let devices: Option<Vec<DeviceMap>> = if same_text(name, "n3iwue") {
        let tun = tun_device_map();
        let ghost tv = tun.deep_view();
        let v = vec![tun];
        assert(v.deep_view() =~= seq![tv]);
        Some(v)
    } else {
        None
    };
    FGCContainerOptions {
        name,
        env,
        cmd: core_cmd_of(name),
        cap_add: net_admin_caps(),
        devices,
        binds: core_binds_of(name),
        extra_hosts: Some(all_hosts()),
    }
}

/// The options of the containers of the core that are not free5GC network
/// functions: the MongoDB database and the web server; `None` for any
/// other name.
pub fn plain_options(name: &'static str) -> (res: Option<MyContainerOptions<'static>>)
    ensures
        name@ == "mongodb"@ ==> (res matches Some(o) && {
            &&& o.name@ == name@
            &&& o.image@ == "docker.io/mongo:7.0.12-jammy"@
            &&& o.cmd.deep_view() == Some(seq!["mongod"@, "--port"@, "27017"@])
            &&& o.cap_add.deep_view() == Some(net_admin())
            &&& o.binds is None
            &&& o.env.deep_view() == Some(db_env())
            &&& o.devices is None
        }),
        name@ != "mongodb"@ && name@ == "webserver"@ ==> (res matches Some(o) && {
            &&& o.name@ == name@
            &&& o.image@ == "webservice:latest"@
            &&& o.cmd is None
            &&& o.cap_add.deep_view() == Some(net_admin())
            &&& o.binds is None
            &&& o.env is None
            &&& o.devices is None
        }),
        name@ != "mongodb"@ && name@ != "webserver"@ ==> res is None,
{
    if same_text(name, "mongodb") {
        let cmd = vec!["mongod", "--port", "27017"];
        assert(cmd.deep_view() =~= seq!["mongod"@, "--port"@, "27017"@]);
        let env = vec!["DB_URI=mongodb://db/free5gc"];
        assert(env.deep_view() =~= db_env());
        Some(MyContainerOptions {
            name,
            image: "docker.io/mongo:7.0.12-jammy",
            env: Some(env),
            cmd: Some(cmd),
            cap_add: net_admin_caps(),
            devices: None,
            binds: None,
        })
    } else if same_text(name, "webserver") {
        Some(MyContainerOptions {
            name,
            image: "webservice:latest",
            env: None,
            cmd: None,
            cap_add: net_admin_caps(),
            devices: None,
            binds: None,
        })
    } else {
        None
    }
}

/// The command of the UPF or SMF that the situation adds.
pub open spec fn situation_cmd(name: Seq<char>) -> Seq<Seq<char>> {
    if name == "upf1"@ {
        seq!["bash"@, "-c"@, "sleep 25s && ./upf-iptables.sh && ./upf -c ./config/upfcfg1.yaml"@]
    } else {
        seq!["sh"@, "-c"@, "sleep 25s && ./smf -c ./config/smfcfg1.yaml -u ./config/uerouting.yaml"@]
    }
}

/// The binds of the UPF or SMF that the situation adds: the UPF gets its
/// iptables script and configuration, and the GTP tools when `with_gtp`;
/// the SMF gets its UE routing, its configuration and the certificates.
pub open spec fn situation_binds(name: Seq<char>, with_gtp: bool) -> Seq<Seq<char>> {
    if name == "upf1"@ {
        seq![
            "/home/paul/projects/free5gc-compose/config/upf-iptables.sh:/free5gc/upf-iptables.sh"@,
            "/home/paul/projects/free5gc-compose/config/upfcfg1.yaml:/free5gc/config/upfcfg1.yaml"@,
        ] + if with_gtp {
            seq!["/home/paul/go-gtp5gnl:/free5gc/go-gtp5gnl"@]
        } else {
            Seq::<Seq<char>>::empty()
        }
    } else {
        seq![
            "/home/paul/projects/free5gc-compose/config/uerouting.yaml:/free5gc/config/uerouting.yaml"@,
            "/home/paul/projects/free5gc-compose/config/smfcfg1.yaml:/free5gc/config/smfcfg1.yaml"@,
            cert_bind(),
        ]
    }
}

/// Law: what the situation's added UPF and SMF are started with. The UPF
/// (`upf1`) sets up iptables and runs on `upfcfg1.yaml`, mounting its
/// iptables script and that configuration, and the GTP tools after them
/// when `with_gtp`; any other name gives the SMF, which runs on
/// `smfcfg1.yaml` with the UE routing, mounting both and the certificates.
pub proof fn lemma_situation_options_by_name(name: Seq<char>, with_gtp: bool)
    ensures
        name == "upf1"@ ==> situation_cmd(name) == seq!["bash"@, "-c"@, "sleep 25s && ./upf-iptables.sh && ./upf -c ./config/upfcfg1.yaml"@],
        name == "upf1"@ && with_gtp ==> situation_binds(name, with_gtp) == seq![
            "/home/paul/projects/free5gc-compose/config/upf-iptables.sh:/free5gc/upf-iptables.sh"@,
            "/home/paul/projects/free5gc-compose/config/upfcfg1.yaml:/free5gc/config/upfcfg1.yaml"@,
        ].push("/home/paul/go-gtp5gnl:/free5gc/go-gtp5gnl"@),
        name == "upf1"@ && !with_gtp ==> situation_binds(name, with_gtp) == seq![
            "/home/paul/projects/free5gc-compose/config/upf-iptables.sh:/free5gc/upf-iptables.sh"@,
            "/home/paul/projects/free5gc-compose/config/upfcfg1.yaml:/free5gc/config/upfcfg1.yaml"@,
        ],
        name != "upf1"@ ==> situation_cmd(name) == seq!["sh"@, "-c"@, "sleep 25s && ./smf -c ./config/smfcfg1.yaml -u ./config/uerouting.yaml"@],
        name != "upf1"@ ==> situation_binds(name, with_gtp) == seq![
            "/home/paul/projects/free5gc-compose/config/uerouting.yaml:/free5gc/config/uerouting.yaml"@,
            "/home/paul/projects/free5gc-compose/config/smfcfg1.yaml:/free5gc/config/smfcfg1.yaml"@,
            "/home/paul/projects/free5gc-compose/cert:/free5gc/cert"@,
        ],
{
    let u = seq![
            "/home/paul/projects/free5gc-compose/config/upf-iptables.sh:/free5gc/upf-iptables.sh"@,
            "/home/paul/projects/free5gc-compose/config/upfcfg1.yaml:/free5gc/config/upfcfg1.yaml"@,
        ];
    assert(u + seq!["/home/paul/go-gtp5gnl:/free5gc/go-gtp5gnl"@] =~= u.push("/home/paul/go-gtp5gnl:/free5gc/go-gtp5gnl"@));
    assert(u + Seq::<Seq<char>>::empty() =~= u);
}

/// Law: the core functions with their own command other than the N3IWUE
/// (upf, smf, n3iwf) start on the configuration file `<name>cfg.yaml` that
/// `fgc_container_spec`'s configuration bind mounts for them (see
/// `lemma_default_command_reads_mounted_config`).
pub proof fn lemma_core_commands_read_mounted_config(name: Seq<char>)
    requires
        has_own_command(name),
        name != "n3iwue"@,
    ensures
        core_cmd(name) is Some,
        core_cmd(name)->0.len() == 3,
        reads_config(core_cmd(name)->0[2], name + "cfg.yaml"@),
        mounts_config(config_bind(name), name + "cfg.yaml"@),
{
    lemma_core_names_differ();
    lemma_default_command_reads_mounted_config(name);
    reveal_strlit(" -c ./config/");
    reveal_strlit("upf");
    reveal_strlit("smf");
    reveal_strlit("n3iwf");
    reveal_strlit("cfg.yaml");
    if name == "upf"@ {
        reveal_strlit("sleep 25s && ./upf-iptables.sh && ./upf -c ./config/upfcfg.yaml");
        reveal_strlit("upfcfg.yaml");
        let script = "sleep 25s && ./upf-iptables.sh && ./upf -c ./config/upfcfg.yaml"@;
        assert(script.subrange(39, 63) =~= " -c ./config/"@ + "upfcfg.yaml"@);
    }
    if name == "smf"@ {
        reveal_strlit("sleep 25s && ./smf -c ./config/smfcfg.yaml -u ./config/uerouting.yaml");
        reveal_strlit("smfcfg.yaml");
        let script = "sleep 25s && ./smf -c ./config/smfcfg.yaml -u ./config/uerouting.yaml"@;
        assert(script.subrange(18, 42) =~= " -c ./config/"@ + "smfcfg.yaml"@);
    }
    if name == "n3iwf"@ {
        reveal_strlit("sleep 25s && ./n3iwf-ipsec.sh && ./n3iwf -c ./config/n3iwfcfg.yaml");
        reveal_strlit("n3iwfcfg.yaml");
        let script = "sleep 25s && ./n3iwf-ipsec.sh && ./n3iwf -c ./config/n3iwfcfg.yaml"@;
        assert(script.subrange(40, 66) =~= " -c ./config/"@ + "n3iwfcfg.yaml"@);
    }
    assert(name == "upf"@ ==> name + "cfg.yaml"@ =~= "upfcfg.yaml"@);
    assert(name == "smf"@ ==> name + "cfg.yaml"@ =~= "smfcfg.yaml"@);
    assert(name == "n3iwf"@ ==> name + "cfg.yaml"@ =~= "n3iwfcfg.yaml"@);
}

/// The configuration file of the UPF or SMF that the situation adds.
pub open spec fn situation_config(name: Seq<char>) -> Seq<char> {
    if name == "upf1"@ {
        "upfcfg1.yaml"@
    } else {
        "smfcfg1.yaml"@
    }
}

/// Law: the UPF and SMF that the situation adds start on their own
/// configuration file (`upfcfg1.yaml`, `smfcfg1.yaml`), and one of their
/// binds mounts exactly that file, whether or not the GTP tools are added.
pub proof fn lemma_situation_commands_read_mounted_config(name: Seq<char>, with_gtp: bool)
    ensures
        reads_config(situation_cmd(name)[2], situation_config(name)),
        exists|k: int|
            0 <= k < situation_binds(name, with_gtp).len() && mounts_config(
                #[trigger] situation_binds(name, with_gtp)[k],
                situation_config(name),
            ),
{
    reveal_strlit(" -c ./config/");
    reveal_strlit(":/free5gc/config/");
    if name == "upf1"@ {
        reveal_strlit("sleep 25s && ./upf-iptables.sh && ./upf -c ./config/upfcfg1.yaml");
        reveal_strlit("upfcfg1.yaml");
        let script = "sleep 25s && ./upf-iptables.sh && ./upf -c ./config/upfcfg1.yaml"@;
        assert(script.subrange(39, 64) =~= " -c ./config/"@ + "upfcfg1.yaml"@);
    }
    if name != "upf1"@ {
        reveal_strlit("sleep 25s && ./smf -c ./config/smfcfg1.yaml -u ./config/uerouting.yaml");
        reveal_strlit("smfcfg1.yaml");
        let script = "sleep 25s && ./smf -c ./config/smfcfg1.yaml -u ./config/uerouting.yaml"@;
        assert(script.subrange(18, 43) =~= " -c ./config/"@ + "smfcfg1.yaml"@);
    }
    let binds = situation_binds(name, with_gtp);
    if name == "upf1"@ {
        let b = "/home/paul/projects/free5gc-compose/config/upfcfg1.yaml:/free5gc/config/upfcfg1.yaml"@;
        reveal_strlit("/home/paul/projects/free5gc-compose/config/upfcfg1.yaml:/free5gc/config/upfcfg1.yaml");
        reveal_strlit("upfcfg1.yaml");
        assert(binds[1] == b);
        assert(b.subrange(b.len() - (":/free5gc/config/"@ + "upfcfg1.yaml"@).len(), b.len() as int)
            =~= ":/free5gc/config/"@ + "upfcfg1.yaml"@);
        assert(mounts_config(binds[1], situation_config(name)));
    } else {
        let b = "/home/paul/projects/free5gc-compose/config/smfcfg1.yaml:/free5gc/config/smfcfg1.yaml"@;
        reveal_strlit("/home/paul/projects/free5gc-compose/config/smfcfg1.yaml:/free5gc/config/smfcfg1.yaml");
        reveal_strlit("smfcfg1.yaml");
        assert(binds[1] == b);
        assert(b.subrange(b.len() - (":/free5gc/config/"@ + "smfcfg1.yaml"@).len(), b.len() as int)
            =~= ":/free5gc/config/"@ + "smfcfg1.yaml"@);
        assert(mounts_config(binds[1], situation_config(name)));
    }
}

/// The options of the UPF (`upf1`) or, for any other name, the SMF that
/// the situation adds: `with_gtp` mounts the GTP tools into the UPF; the
/// UPF gets `NET_ADMIN`, the SMF no added capability; no environment, no
/// devices, and every host of the deployment to resolve.
pub fn situation_options(name: &'static str, with_gtp: bool) -> (res: FGCContainerOptions<'static>)
    ensures
        res.name@ == name@,
        res.cmd.deep_view() == Some(situation_cmd(name@)),
        name@ == "upf1"@ ==> res.cmd.deep_view() == Some(seq!["bash"@, "-c"@, "sleep 25s && ./upf-iptables.sh && ./upf -c ./config/upfcfg1.yaml"@]),
        name@ != "upf1"@ ==> res.cmd.deep_view() == Some(seq!["sh"@, "-c"@, "sleep 25s && ./smf -c ./config/smfcfg1.yaml -u ./config/uerouting.yaml"@]),
        name@ == "upf1"@ ==> res.cap_add.deep_view() == Some(seq!["NET_ADMIN"@]),
        res.cap_add.deep_view() == (if name@ == "upf1"@ { Some(net_admin()) } else { None }),
        res.binds.deep_view() == Some(situation_binds(name@, with_gtp)),
        res.env is None,
        res.devices is None,
        res.extra_hosts.deep_view() == Some(all_hosts_spec()),
{
    if same_text(name, "upf1") {
        let cmd = vec!["bash", "-c", "sleep 25s && ./upf-iptables.sh && ./upf -c ./config/upfcfg1.yaml"];
        assert(cmd.deep_view() =~= situation_cmd(name@));
        let mut binds = vec![
            "/home/paul/projects/free5gc-compose/config/upf-iptables.sh:/free5gc/upf-iptables.sh",
            "/home/paul/projects/free5gc-compose/config/upfcfg1.yaml:/free5gc/config/upfcfg1.yaml",
        ];
        if with_gtp {
            binds.push("/home/paul/go-gtp5gnl:/free5gc/go-gtp5gnl");
        }
        assert(binds.deep_view() =~= situation_binds(name@, with_gtp));
        FGCContainerOptions {
            name,
            env: None,
            cmd: Some(cmd),
            cap_add: net_admin_caps(),
            devices: None,
            binds: Some(binds),
            extra_hosts: Some(all_hosts()),
        }
    } else {
        let cmd = vec!["sh", "-c", "sleep 25s && ./smf -c ./config/smfcfg1.yaml -u ./config/uerouting.yaml"];
        assert(cmd.deep_view() =~= situation_cmd(name@));
        let binds = vec![
            "/home/paul/projects/free5gc-compose/config/uerouting.yaml:/free5gc/config/uerouting.yaml",
            "/home/paul/projects/free5gc-compose/config/smfcfg1.yaml:/free5gc/config/smfcfg1.yaml",
            "/home/paul/projects/free5gc-compose/cert:/free5gc/cert",
        ];
        assert(binds.deep_view() =~= situation_binds(name@, with_gtp));
        FGCContainerOptions {
            name,
            env: None,
            cmd: Some(cmd),
            cap_add: None,
            devices: None,
            binds: Some(binds),
            extra_hosts: Some(all_hosts()),
        }
    }
}

} // verus!
