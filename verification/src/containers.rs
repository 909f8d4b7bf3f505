//! The containers of the free5GC deployment: what the caller asks for, and
//! the container configuration (image, command, environment, capabilities,
//! devices, binds, network mode, extra hosts) that is handed to Docker.

use vstd::prelude::*;
use crate::text::{decimal, decimal_string, concat2, concat3, same_text, before_first, after_first,
    split_before, split_after, has_char};
use crate::commands::{CommandLine, owned, signed_decimal};
use serde_yaml::Value;

verus! {

/// A device made visible inside a container.
pub struct DeviceMap {
    pub path_on_host: Option<String>,
    pub path_in_container: Option<String>,
    pub cgroup_permissions: Option<String>,
}

impl DeepView for DeviceMap {
    type V = (Option<Seq<char>>, Option<Seq<char>>, Option<Seq<char>>);

    open spec fn deep_view(&self) -> Self::V {
        (self.path_on_host.deep_view(), self.path_in_container.deep_view(), self.cgroup_permissions.deep_view())
    }
}

/// What is asked of a free5GC network-function container.
pub struct FGCContainerOptions<'a> {
    pub name: &'a str,
    pub env: Option<Vec<&'a str>>,
    pub cmd: Option<Vec<&'a str>>,
    pub cap_add: Option<Vec<&'a str>>,
    pub devices: Option<Vec<DeviceMap>>,
    pub binds: Option<Vec<&'a str>>,
    pub extra_hosts: Option<Vec<&'a str>>,
}

/// What is asked of any other container.
pub struct MyContainerOptions<'a> {
    pub name: &'a str,
    pub image: &'a str,
    pub env: Option<Vec<&'a str>>,
    pub cmd: Option<Vec<&'a str>>,
    pub cap_add: Option<Vec<&'a str>>,
    pub devices: Option<Vec<DeviceMap>>,
    pub binds: Option<Vec<&'a str>>,
}

/// The configuration of a container as Docker is asked to create it.
pub struct ContainerSpec {
    pub image: Option<String>,
    pub cmd: Option<Vec<String>>,
    pub env: Option<Vec<String>>,
    pub cap_add: Option<Vec<String>>,
    pub devices: Option<Vec<DeviceMap>>,
    pub binds: Option<Vec<String>>,
    pub network_mode: Option<String>,
    pub extra_hosts: Option<Vec<String>>,
}

/// A container on the network: its name and the MAC address of its `eth0`.
pub struct Node {
    pub name: String,
    pub mac_id: String,
}

/// Owned copies of borrowed strings, in order.
pub fn strs_to_strings(v: &Vec<&str>) -> (res: Vec<String>)
    ensures
        res.deep_view() == v.deep_view(),
{
    let mut res: Vec<String> = Vec::new();
    let mut i: usize = 0;
    while i < v.len()
        invariant
            i <= v.len(),
            res.deep_view() == v.deep_view().take(i as int),
        decreases v.len() - i,
    {
        let ghost before = res.deep_view();
        res.push(owned(v[i]));
        assert(res.deep_view() =~= before.push(v[i as int]@));
        assert(v.deep_view().take(i + 1) =~= v.deep_view().take(i as int).push(v[i as int]@));
        i = i + 1;
    }
    assert(v.deep_view().take(i as int) =~= v.deep_view());
    res
}

/// Owned copies of an optional list of borrowed strings.
pub fn opt_strs_to_strings(v: &Option<Vec<&str>>) -> (res: Option<Vec<String>>)
    ensures
        res.deep_view() == v.deep_view(),
{
    match v {
        Some(items) => Some(strs_to_strings(items)),
        None => None,
    }
}

/// Whether a character is alphabetic in Unicode's sense.
pub uninterp spec fn is_alphabetic_char(c: char) -> bool;

/// `char::is_alphabetic` of std: whether `c` has the Unicode `Alphabetic`
/// property. The answer is named `is_alphabetic_char(c)`. Of the ASCII
/// characters, the Unicode Character Database gives that property to the
/// letters `a` to `z` and `A` to `Z` alone; nothing more is stated of the
/// other characters.
#[verifier::external_body]
fn char_is_alphabetic(c: char) -> (res: bool)
    ensures
        res == is_alphabetic_char(c),
        (c as u32) < 128 ==> (res <==> (97 <= (c as u32) <= 122 || 65 <= (c as u32) <= 90)),
{
    c.is_alphabetic()
}

/// The alphabetic characters of `s`, in order.
pub open spec fn alphabetic_only(s: Seq<char>) -> Seq<char>
    decreases s.len(),
{
    if s.len() == 0 {
        s
    } else if is_alphabetic_char(s.last()) {
        alphabetic_only(s.drop_last()).push(s.last())
    } else {
        alphabetic_only(s.drop_last())
    }
}

/// Whether `c` is an ASCII letter, `a` to `z` or `A` to `Z`.
pub open spec fn is_ascii_letter(c: char) -> bool {
    97 <= (c as u32) <= 122 || 65 <= (c as u32) <= 90
}

/// Whether every character of `s` is ASCII.
pub open spec fn all_ascii(s: Seq<char>) -> bool {
    forall|j: int| 0 <= j < s.len() ==> (#[trigger] s[j] as u32) < 128
}

/// The ASCII letters of `s`, in order.
pub open spec fn ascii_letters(s: Seq<char>) -> Seq<char>
    decreases s.len(),
{
    if s.len() == 0 {
        s
    } else if is_ascii_letter(s.last()) {
        ascii_letters(s.drop_last()).push(s.last())
    } else {
        ascii_letters(s.drop_last())
    }
}

/// Keeps the alphabetic characters of `s`; of an ASCII text, its letters.
pub fn keep_alphabetic(s: &str) -> (res: String)
    ensures
        res@ == alphabetic_only(s@),
        all_ascii(s@) ==> res@ == ascii_letters(s@),
{
    let n = s.unicode_len();
    let mut res = String::new();
    let mut i: usize = 0;
    assert(s@.take(0) =~= Seq::<char>::empty());
    while i < n
        invariant
            n == s@.len(),
            i <= n,
            res@ == alphabetic_only(s@.take(i as int)),
            all_ascii(s@.take(i as int)) ==> res@ == ascii_letters(s@.take(i as int)),
        decreases n - i,
    {
        let c = s.get_char(i);
        let ghost before = s@.take(i as int);
        let ghost after = s@.take(i + 1);
        assert(after.drop_last() =~= before);
        assert(after.last() == c);
        assert(all_ascii(after) ==> all_ascii(before)) by {
            if all_ascii(after) {
                assert forall|j: int| 0 <= j < before.len() implies (#[trigger] before[j] as u32) < 128 by {
                    assert(before[j] == after[j]);
                }
            }
        }
        assert(all_ascii(after) ==> (c as u32) < 128) by {
            if all_ascii(after) {
                assert(after[i as int] == c);
            }
        }
        if char_is_alphabetic(c) {
            let one = s.substring_char(i, i + 1);
            assert(one@ =~= seq![c]);
            res.append(one);
        }
        i = i + 1;
    }
    assert(s@.take(n as int) =~= s@);
    res
}

/// The image name of a free5GC network function: `n3iwue` and `n3iwf`
/// keep their names, any other name keeps only its alphabetic characters
/// (`upf1` runs the `upf` image).
pub open spec fn fgc_image(name: Seq<char>) -> Seq<char> {
    if name == "n3iwue"@ || name == "n3iwf"@ {
        name
    } else {
        alphabetic_only(name)
    }
}

/// The bind that mounts a network function's configuration file.
pub open spec fn config_bind(name: Seq<char>) -> Seq<char> {
    "/home/paul/projects/free5gc-compose/config/"@ + name + "cfg.yaml:/free5gc/config/"@ + name + "cfg.yaml"@
}

/// The command a network function runs when none is given: wait 25 s, then
/// start it on its configuration file.
pub open spec fn default_fgc_cmd(name: Seq<char>) -> Seq<Seq<char>> {
    seq!["sh"@, "-c"@, "sleep 25s && ./"@ + name + " -c ./config/"@ + name + "cfg.yaml"@]
}

/// Whether `s` ends with `t`.
pub open spec fn ends_with(s: Seq<char>, t: Seq<char>) -> bool {
    t.len() <= s.len() && s.subrange(s.len() - t.len(), s.len() as int) == t
}

/// Whether the shell text `script` starts a program on the configuration
/// file `./config/<file>` (its working directory being `/free5gc`): it
/// holds ` -c ./config/<file>`.
pub open spec fn reads_config(script: Seq<char>, file: Seq<char>) -> bool {
    exists|i: int, j: int|
        0 <= i <= j <= script.len() && #[trigger] script.subrange(i, j) == " -c ./config/"@ + file
}

/// Whether the bind `bind` mounts a file at `/free5gc/config/<file>` in the
/// container.
pub open spec fn mounts_config(bind: Seq<char>, file: Seq<char>) -> bool {
    ends_with(bind, ":/free5gc/config/"@ + file)
}

/// Law: the command a network function runs when none is given reads the
/// configuration file `<name>cfg.yaml` that its configuration bind mounts.
pub proof fn lemma_default_command_reads_mounted_config(name: Seq<char>)
    ensures
        reads_config(default_fgc_cmd(name)[2], name + "cfg.yaml"@),
        mounts_config(config_bind(name), name + "cfg.yaml"@),
{
    reveal_strlit("cfg.yaml:/free5gc/config/");
    reveal_strlit(":/free5gc/config/");
    reveal_strlit("cfg.yaml");
    let script = default_fgc_cmd(name)[2];
    let pre = "sleep 25s && ./"@ + name;
    let target = " -c ./config/"@ + (name + "cfg.yaml"@);
    assert(script =~= pre + target);
    assert(script.subrange(pre.len() as int, script.len() as int) =~= target);
    let bind = config_bind(name);
    let tail = ":/free5gc/config/"@ + (name + "cfg.yaml"@);
    let head = "/home/paul/projects/free5gc-compose/config/"@ + name + "cfg.yaml"@;
    assert("cfg.yaml:/free5gc/config/"@ =~= "cfg.yaml"@ + ":/free5gc/config/"@);
    assert(bind =~= head + tail);
    assert(bind.subrange(bind.len() - tail.len(), bind.len() as int) =~= tail);
}

/// Writes the image name of a free5GC network function; of an ASCII name
/// other than `n3iwue` and `n3iwf`, its letters.
pub fn fgc_image_name(name: &str) -> (res: String)
    ensures
        res@ == fgc_image(name@),
        all_ascii(name@) && name@ != "n3iwue"@ && name@ != "n3iwf"@ ==> res@ == ascii_letters(name@),
{
    if same_text(name, "n3iwue") || same_text(name, "n3iwf") {
        owned(name)
    } else {
        keep_alphabetic(name)
    }
}

/// The container configuration of a free5GC network function
/// (`add_container_fgc`): the `docker.io/free5gc/<image>:v3.4.1` image
/// (of an ASCII name, its letters: `upf1` runs `upf`); the
/// given command, or the default one; the given environment after
/// `GIN_MODE=release`; the configuration-file bind before the given binds;
/// capabilities, devices and extra hosts as given; no network.
pub fn fgc_container_spec(opts: FGCContainerOptions) -> (res: ContainerSpec)
    requires
        opts.extra_hosts is Some,
    ensures
        res.image.deep_view() == Some("docker.io/free5gc/"@ + fgc_image(opts.name@) + ":v3.4.1"@),
        all_ascii(opts.name@) && opts.name@ != "n3iwue"@ && opts.name@ != "n3iwf"@ ==> res.image.deep_view()
            == Some("docker.io/free5gc/"@ + ascii_letters(opts.name@) + ":v3.4.1"@),
        res.cmd.deep_view() == (match opts.cmd.deep_view() {
            Some(c) => Some(c),
            None => Some(default_fgc_cmd(opts.name@)),
        }),
        res.env.deep_view() == (match opts.env.deep_view() {
            Some(e) => Some(seq!["GIN_MODE=release"@] + e),
            None => None,
        }),
        res.cap_add.deep_view() == opts.cap_add.deep_view(),
        res.devices.deep_view() == opts.devices.deep_view(),
        res.binds.deep_view() == Some(seq![config_bind(opts.name@)] + match opts.binds.deep_view() {
            Some(b) => b,
            None => Seq::<Seq<char>>::empty(),
        }),
        res.network_mode.deep_view() == Some("none"@),
        res.extra_hosts.deep_view() == opts.extra_hosts.deep_view(),
{
    let name = opts.name;
    let image_name = fgc_image_name(name);
    let mut image = concat2("docker.io/free5gc/", image_name.as_str());
    image.append(":v3.4.1");
    let cap_add = opt_strs_to_strings(&opts.cap_add);
    let mut bind = concat3("/home/paul/projects/free5gc-compose/config/", name, "cfg.yaml:/free5gc/config/");
    bind.append(name);
    bind.append("cfg.yaml");
    let ghost bind_view = bind@;
    let mut binds: Vec<String> = vec![bind];
    assert(binds.deep_view() =~= seq![bind_view]);
    match &opts.binds {
        Some(given) => {
            let mut rest = strs_to_strings(given);
            let ghost before = binds.deep_view();
            let ghost rv = rest.deep_view();
            let ghost bv = binds@;
            let ghost rw = rest@;
            binds.append(&mut rest);
            assert(binds@ == bv + rw);
            assert(binds.deep_view() =~= before + rv);
        },
        None => {},
    }
    let cmd = match &opts.cmd {
        Some(given) => strs_to_strings(given),
        None => {
            let mut script = concat3("sleep 25s && ./", name, " -c ./config/");
            script.append(name);
            script.append("cfg.yaml");
            let ghost sv = script@;
            let c = vec![owned("sh"), owned("-c"), script];
            assert(c.deep_view() =~= default_fgc_cmd(name@));
            c
        },
    };
    let env = match &opts.env {
        Some(given) => {
            let mut e: Vec<String> = vec![owned("GIN_MODE=release")];
            let mut rest = strs_to_strings(given);
            let ghost ev = e@;
            let ghost rw = rest@;
            let ghost rv = rest.deep_view();
            e.append(&mut rest);
            assert(e@ == ev + rw);
            assert(e.deep_view() =~= seq!["GIN_MODE=release"@] + rv);
            Some(e)
        },
        None => None,
    };
    let extra_hosts = opt_strs_to_strings(&opts.extra_hosts);
    ContainerSpec {
        image: Some(image),
        cmd: Some(cmd),
        env,
        cap_add,
        devices: opts.devices,
        binds: Some(binds),
        network_mode: Some(owned("none")),
        extra_hosts,
    }
}

/// The container configuration of any other container (`add_container`):
/// the given image, command, environment, capabilities, devices and binds;
/// no network and no extra hosts.
pub fn container_spec(opts: MyContainerOptions) -> (res: ContainerSpec)
    ensures
        res.image.deep_view() == Some(opts.image@),
        res.cmd.deep_view() == opts.cmd.deep_view(),
        res.env.deep_view() == opts.env.deep_view(),
        res.cap_add.deep_view() == opts.cap_add.deep_view(),
        res.devices.deep_view() == opts.devices.deep_view(),
        res.binds.deep_view() == opts.binds.deep_view(),
        res.network_mode.deep_view() == Some("none"@),
        res.extra_hosts is None,
{
    ContainerSpec {
        image: Some(owned(opts.image)),
        cmd: opt_strs_to_strings(&opts.cmd),
        env: opt_strs_to_strings(&opts.env),
        cap_add: opt_strs_to_strings(&opts.cap_add),
        devices: opts.devices,
        binds: opt_strs_to_strings(&opts.binds),
        network_mode: Some(owned("none")),
        extra_hosts: None,
    }
}

/// The TUN device, read-write, at the same path inside the container.
pub open spec fn tun_device() -> (Option<Seq<char>>, Option<Seq<char>>, Option<Seq<char>>) {
    (Some("/dev/net/tun"@), Some("/dev/net/tun"@), Some("rw"@))
}

/// The TUN device that UERANSIM and the N3IWUE need.
pub fn tun_device_map() -> (res: DeviceMap)
    ensures
        res.deep_view() == tun_device(),
{
    DeviceMap {
        path_on_host: Some(owned("/dev/net/tun")),
        path_in_container: Some(owned("/dev/net/tun")),
        cgroup_permissions: Some(owned("rw")),
    }
}

/// The name of UERANSIM container number `num`.
pub open spec fn ueransim_name_spec(num: nat) -> Seq<char> {
    "ueransim"@ + decimal(num)
}

/// Writes the name of UERANSIM container number `num`.
pub fn ueransim_name(num: u8) -> (res: String)
    ensures
        res@ == ueransim_name_spec(num as nat),
{
    let digits = decimal_string(num as u64);
    concat2("ueransim", digits.as_str())
}

/// The bind that mounts the configuration of gNodeB number `num`.
pub open spec fn gnb_bind(num: nat) -> Seq<char> {
    "/home/paul/projects/free5gc-compose/config/gnb/gnb"@ + decimal(num) + "cfg.yaml:/ueransim/config/gnbcfg.yaml"@
}

/// The container configuration of UERANSIM number `num` (`add_ueransim`):
/// the `ueransim:v3.4.1` image with `NET_ADMIN`, the TUN device, its gNodeB
/// configuration and, for the user-equipment container, the UE
/// configuration directory; a gNodeB starts `nr-gnb` after 25 s, the UE
/// container only sleeps; no network; the given extra hosts.
pub fn ueransim_spec(num: u8, hosts: &Vec<&str>, is_ue: bool) -> (res: ContainerSpec)
    ensures
        res.image.deep_view() == Some("docker.io/free5gc/ueransim:v3.4.1"@),
        res.cmd.deep_view() == Some(seq![
            "sh"@,
            "-c"@,
            if is_ue { "sleep infinity"@ } else { "sleep 25s && ./nr-gnb -c ./config/gnbcfg.yaml"@ },
        ]),
        res.env is None,
        res.cap_add.deep_view() == Some(seq!["NET_ADMIN"@]),
        res.devices.deep_view() == Some(seq![tun_device()]),
        res.binds.deep_view() == Some(if is_ue {
            seq![gnb_bind(num as nat), "/home/paul/projects/free5gc-compose/config/ue:/ueransim/config/ue"@]
        } else {
            seq![gnb_bind(num as nat)]
        }),
        res.network_mode.deep_view() == Some("none"@),
        res.extra_hosts.deep_view() == Some(hosts.deep_view()),
{
    let digits = decimal_string(num as u64);
    let bind = concat3(
        "/home/paul/projects/free5gc-compose/config/gnb/gnb",
        digits.as_str(),
        "cfg.yaml:/ueransim/config/gnbcfg.yaml",
    );
    let ghost bv = bind@;
    let mut binds: Vec<String> = vec![bind];
    if is_ue {
        binds.push(owned("/home/paul/projects/free5gc-compose/config/ue:/ueransim/config/ue"));
    }
    assert(binds.deep_view() =~= if is_ue {
        seq![bv, "/home/paul/projects/free5gc-compose/config/ue:/ueransim/config/ue"@]
    } else {
        seq![bv]
    });
    let script = if is_ue {
        owned("sleep infinity")
    } else {
        owned("sleep 25s && ./nr-gnb -c ./config/gnbcfg.yaml")
    };
    let ghost sv = script@;
    let cmd = vec![owned("sh"), owned("-c"), script];
    assert(cmd.deep_view() =~= seq!["sh"@, "-c"@, sv]);
    let tun = tun_device_map();
    let ghost tv = tun.deep_view();
    let devices = vec![tun];
    assert(devices.deep_view() =~= seq![tv]);
    let cap_add = vec![owned("NET_ADMIN")];
    assert(cap_add.deep_view() =~= seq!["NET_ADMIN"@]);
    ContainerSpec {
        image: Some(owned("docker.io/free5gc/ueransim:v3.4.1")),
        cmd: Some(cmd),
        env: None,
        cap_add: Some(cap_add),
        devices: Some(devices),
        binds: Some(binds),
        network_mode: Some(owned("none")),
        extra_hosts: Some(strs_to_strings(hosts)),
    }
}

/// One step of the UERANSIM fleet: the container, its address, the host
/// end of its veth pair and the bridge that end joins.
pub struct UeransimStep {
    pub name: String,
    pub address: String,
    pub host_veth: String,
    pub container_veth: String,
    pub bridge: String,
    pub is_ue: bool,
}

/// Step `i` of the UERANSIM fleet (`ueransim_fleet`): container
/// `ueransim<i>` at `192.0.0.<i>/24`, host veth `ue<i>1` on bridge `s<i>`
/// for the first two and `s<i + 1>` after them, container veth `eth0`;
/// the fifth container holds the user equipment.
pub fn ueransim_step(i: u8) -> (res: UeransimStep)
    requires
        i < 255,
    ensures
        res.name@ == ueransim_name_spec(i as nat),
        res.address@ == "192.0.0."@ + decimal(i as nat) + "/24"@,
        res.host_veth@ == "ue"@ + decimal(i as nat) + "1"@,
        res.container_veth@ == "eth0"@,
        res.bridge@ == seq!['s'] + decimal(if i <= 2 { i as nat } else { (i + 1) as nat }),
        res.is_ue == (i == 5),
{
    let digits = decimal_string(i as u64);
    let bridge_number: u8 = if i <= 2 { i } else { i + 1 };
    let bridge = crate::topology::bridge_name(bridge_number);
    UeransimStep {
        name: concat2("ueransim", digits.as_str()),
        address: concat3("192.0.0.", digits.as_str(), "/24"),
        host_veth: concat3("ue", digits.as_str(), "1"),
        container_veth: owned("eth0"),
        bridge,
        is_ue: i == 5,
    }
}

/// What the UERANSIM fleet does once it has asked Docker for the process
/// of a container.
pub enum PidStep {
    /// Run this command, which moves the container's veth end into the
    /// network namespace of its process.
    MoveVeth(CommandLine),
    /// The container has no process: tear the whole deployment down.
    CleanUp,
}

/// Decides the step after looking up a container's process: with a process
/// id, move `container_veth` into its namespace; without one, clean up.
pub fn pid_step(container_veth: &str, pid: Option<i64>) -> (res: PidStep)
    ensures
        match pid {
            Some(id) => res matches PidStep::MoveVeth(c) && c.deep_view() == seq![
                "ip"@,
                "link"@,
                "set"@,
                container_veth@,
                "netns"@,
                signed_decimal(id as int),
            ],
            None => res is CleanUp,
        },
{
    match pid {
        Some(id) => PidStep::MoveVeth(crate::commands::add_veth_container_command(container_veth, id)),
        None => PidStep::CleanUp,
    }
}

/// The commands that attach a new container to a bridge: a veth pair whose
/// host end carries the container's name and whose other end, `eth0`, gets
/// the address `mac`, then the host end joins `bridge`.
pub fn attach_container_commands(name: &str, bridge: &str, mac: &str) -> (res: Vec<CommandLine>)
    ensures
        res.deep_view() == seq![
            seq!["ip"@, "link"@, "add"@, name@, "type"@, "veth"@, "peer"@, "name"@, "eth0"@],
            seq!["ip"@, "link"@, "set"@, "dev"@, "eth0"@, "address"@, mac@],
            seq!["ovs-vsctl"@, "add-port"@, bridge@, name@],
        ],
{
    let mut res = crate::commands::add_veth_commands(name, "eth0", mac);
    let port = crate::commands::add_veth_ovs_command(bridge, name);
    let ghost before = res.deep_view();
    let ghost pv = port.deep_view();
    res.push(port);
    assert(res.deep_view() =~= before.push(pv));
    res
}

/// The names of every container of the deployment, as `cleanup` stops and
/// removes them.
pub open spec fn deployed_containers_spec() -> Seq<Seq<char>> {
    seq![
        "upf"@, "nrf"@, "amf"@, "ausf"@, "nssf"@, "pcf"@, "smf"@, "udm"@, "udr"@, "chf"@,
        "n3iwf"@, "webui"@, "webserver"@, "n3iwue"@, "mongodb"@,
        "ueransim1"@, "ueransim2"@, "ueransim3"@, "ueransim4"@, "ueransim5"@,
    ]
}

/// The containers that `cleanup` stops and then removes.
pub fn deployed_containers() -> (res: Vec<&'static str>)
    ensures
        res.deep_view() == deployed_containers_spec(),
{
    let res = vec![
        "upf", "nrf", "amf", "ausf", "nssf", "pcf", "smf", "udm", "udr", "chf",
        "n3iwf", "webui", "webserver", "n3iwue", "mongodb",
        "ueransim1", "ueransim2", "ueransim3", "ueransim4", "ueransim5",
    ];
    assert(res.deep_view() =~= deployed_containers_spec());
    res
}

/// A service of a compose file, as far as `json_to_bollard` reads it:
/// each field is `None` when the key is missing or holds another kind of
/// value; a list item is `None` when it is not a string.
pub struct ComposeService {
    pub image: Option<String>,
    pub command: Option<String>,
    pub cap_add: Option<Vec<Option<String>>>,
    pub devices: Option<Vec<Option<String>>>,
    pub volumes: Option<Vec<Option<String>>>,
}

/// The string items of a list, in order.
pub open spec fn strings_of(items: Seq<Option<Seq<char>>>) -> Seq<Seq<char>>
    decreases items.len(),
{
    if items.len() == 0 {
        Seq::<Seq<char>>::empty()
    } else {
        match items.last() {
            Some(t) => strings_of(items.drop_last()).push(t),
            None => strings_of(items.drop_last()),
        }
    }
}

/// Keeps the string items of a list.
pub fn string_items(items: &Vec<Option<String>>) -> (res: Vec<String>)
    ensures
        res.deep_view() == strings_of(items.deep_view()),
{
    let mut res: Vec<String> = Vec::new();
    let mut i: usize = 0;
    assert(items.deep_view().take(0) =~= Seq::<Option<Seq<char>>>::empty());
    while i < items.len()
        invariant
            i <= items.len(),
            res.deep_view() == strings_of(items.deep_view().take(i as int)),
        decreases items.len() - i,
    {
        let ghost before = res.deep_view();
        let ghost t = items.deep_view().take(i + 1);
        assert(t.drop_last() =~= items.deep_view().take(i as int));
        assert(t.last() == items[i as int].deep_view());
        match &items[i] {
            Some(text) => {
                res.push(owned(text.as_str()));
                assert(res.deep_view() =~= before.push(text@));
            },
            None => {},
        }
        i = i + 1;
    }
    assert(items.deep_view().take(i as int) =~= items.deep_view());
    res
}

/// A device line of a compose file: `host:container` maps the host path
/// to the container path (only the text up to a second `:` counts); a line
/// without `:` maps the path to itself; always read-write.
pub open spec fn compose_device(v: Seq<char>) -> (Option<Seq<char>>, Option<Seq<char>>, Option<Seq<char>>) {
    if v.contains(':') {
        (Some(before_first(v, ':')), Some(before_first(after_first(v, ':'), ':')), Some("rw"@))
    } else {
        (Some(v), Some(v), Some("rw"@))
    }
}

/// Reads a device line of a compose file.
pub fn device_from_compose(v: &str) -> (res: DeviceMap)
    ensures
        res.deep_view() == compose_device(v@),
{
    if has_char(v, ':') {
        let host = split_before(v, ':');
        let rest = split_after(v, ':');
        let container = split_before(rest, ':');
        DeviceMap {
            path_on_host: Some(owned(host)),
            path_in_container: Some(owned(container)),
            cgroup_permissions: Some(owned("rw")),
        }
    } else {
        DeviceMap {
            path_on_host: Some(owned(v)),
            path_in_container: Some(owned(v)),
            cgroup_permissions: Some(owned("rw")),
        }
    }
}

/// The device lines of a list, in order, skipping items that are not strings.
pub open spec fn compose_devices(items: Seq<Option<Seq<char>>>) -> Seq<(Option<Seq<char>>, Option<Seq<char>>, Option<Seq<char>>)> {
    strings_of(items).map_values(|v: Seq<char>| compose_device(v))
}

/// What a compose-file service holds, as contracts see it: its image, its
/// command, and its `cap_add`, `devices` and `volumes` lists.
pub open spec fn compose_view(val: ComposeService) -> (Option<Seq<char>>, Option<Seq<char>>, Option<Seq<Option<Seq<char>>>>, Option<Seq<Option<Seq<char>>>>, Option<Seq<Option<Seq<char>>>>) {
    (
        val.image.deep_view(),
        val.command.deep_view(),
        val.cap_add.deep_view(),
        val.devices.deep_view(),
        val.volumes.deep_view(),
    )
}

/// `res` is the container configuration of the compose-file service `v`:
/// its image, its command as the only argument, the string items of
/// `cap_add`, `devices` (read as device lines) and `volumes` (a missing list
/// stays unset), no environment, no network, and the given extra hosts.
pub open spec fn compose_config(v: (Option<Seq<char>>, Option<Seq<char>>, Option<Seq<Option<Seq<char>>>>, Option<Seq<Option<Seq<char>>>>, Option<Seq<Option<Seq<char>>>>), extra_hosts: Seq<Seq<char>>, res: ContainerSpec) -> bool {
    &&& res.image.deep_view() == v.0
    &&& res.cmd.deep_view() == Some(seq![v.1->0])
    &&& res.env is None
    &&& res.cap_add.deep_view() == (match v.2 {
        Some(items) => Some(strings_of(items)),
        None => None,
    })
    &&& res.devices.deep_view() == (match v.3 {
        Some(items) => Some(compose_devices(items)),
        None => None,
    })
    &&& res.binds.deep_view() == (match v.4 {
        Some(items) => Some(strings_of(items)),
        None => None,
    })
    &&& res.network_mode.deep_view() == Some("none"@)
    &&& res.extra_hosts.deep_view() == Some(extra_hosts)
}

/// The container configuration of a compose-file service
/// (`json_to_bollard`), see `compose_config`.
pub fn json_to_bollard(val: ComposeService, extra_hosts: Vec<String>) -> (res: ContainerSpec)
    requires
        val.image is Some,
        val.command is Some,
    ensures
        compose_config(compose_view(val), extra_hosts.deep_view(), res),
{
    let cap_add = match &val.cap_add {
        Some(items) => Some(string_items(items)),
        None => None,
    };
    let devices = match &val.devices {
        Some(items) => {
            let paths = string_items(items);
            let mut maps: Vec<DeviceMap> = Vec::new();
            let mut i: usize = 0;
            while i < paths.len()
                invariant
                    i <= paths.len(),
                    paths.deep_view() == strings_of(items.deep_view()),
                    maps.deep_view() == paths.deep_view().take(i as int).map_values(
                        |v: Seq<char>| compose_device(v),
                    ),
                decreases paths.len() - i,
            {
                let ghost before = maps.deep_view();
                let d = device_from_compose(paths[i].as_str());
                let ghost dv = d.deep_view();
                maps.push(d);
                assert(maps.deep_view() =~= before.push(dv));
                assert(paths.deep_view().take(i + 1) =~= paths.deep_view().take(i as int).push(paths[i as int]@));
                assert(maps.deep_view() =~= paths.deep_view().take(i + 1).map_values(
                    |v: Seq<char>| compose_device(v),
                ));
                i = i + 1;
            }
            assert(paths.deep_view().take(i as int) =~= paths.deep_view());
            Some(maps)
        },
        None => None,
    };
    let binds = match &val.volumes {
        Some(items) => Some(string_items(items)),
        None => None,
    };
    let image = val.image.unwrap();
    let command = val.command.unwrap();
    let ghost cv = command@;
    let cmd = vec![command];
    assert(cmd.deep_view() =~= seq![cv]);
    ContainerSpec {
        image: Some(image),
        cmd: Some(cmd),
        env: None,
        cap_add,
        devices,
        binds,
        network_mode: Some(owned("none")),
        extra_hosts: Some(extra_hosts),
    }
}

/// What `serde_yaml` finds for service `service` of the compose file
/// `doc`: `None` when `doc` is not YAML; otherwise the service's image and
/// command (when they are strings) and its `cap_add`, `devices` and
/// `volumes` lists (when they are sequences, each item kept when it is a
/// string).
pub uninterp spec fn compose_service_at(doc: Seq<u8>, service: Seq<char>) -> Option<(Option<Seq<char>>, Option<Seq<char>>, Option<Seq<Option<Seq<char>>>>, Option<Seq<Option<Seq<char>>>>, Option<Seq<Option<Seq<char>>>>)>;

/// Parses `doc` with `serde_yaml::from_slice` into a `serde_yaml::Value`,
/// indexes it with `["services"][service]` (a missing key gives `null`),
/// and reads the service's fields as the compose reading always has: image
/// and command with `Value::as_str`, the three lists only when they are
/// `Value::Sequence`, their items only when they are `Value::String`. The
/// outcome is named `compose_service_at` of the arguments; nothing more is
/// stated of it.
#[verifier::external_body]
fn yaml_compose_service(doc: &[u8], service: &str) -> (res: Option<ComposeService>)
    ensures
        match compose_service_at(doc@, service@) {
            None => res is None,
            Some(v) => res matches Some(s) && compose_view(s) == v,
        },
{
    let root: Value = serde_yaml::from_slice(doc).ok()?;
    let svc = &root["services"][service];
    let text = |k: &str| svc[k].as_str().map(|t| t.to_string());
    let item = |v: &Value| match v { Value::String(t) => Some(t.clone()), _ => None };
    let list = |k: &str| match &svc[k] { Value::Sequence(items) => Some(items.iter().map(item).collect()), _ => None };
    let (cap_add, devices, volumes) = (list("cap_add"), list("devices"), list("volumes"));
    Some(ComposeService { image: text("image"), command: text("command"), cap_add, devices, volumes })
}

/// The container configuration of service `service` of the compose file
/// `doc`, with the given extra hosts; `None` when `doc` is not YAML or the
/// service's image or command is not a string, on which it cannot be
/// created.
pub fn compose_service_config(doc: &[u8], service: &str, extra_hosts: Vec<String>) -> (res: Option<ContainerSpec>)
    ensures
        match compose_service_at(doc@, service@) {
            Some(v) => if v.0 is Some && v.1 is Some {
                res matches Some(spec) && compose_config(v, extra_hosts.deep_view(), spec)
            } else {
                res is None
            },
            None => res is None,
        },
{
    match yaml_compose_service(doc, service) {
        Some(svc) => {
            if svc.image.is_some() && svc.command.is_some() {
                Some(json_to_bollard(svc, extra_hosts))
            } else {
                None
            }
        },
        None => None,
    }
}

/// What `remove_address` makes of an extra-hosts entry `host:address`: when
/// the host's first label is `name`, the entry points the host at
/// `127.0.0.1`; any other entry stays.
pub open spec fn local_host_entry(entry: Seq<char>, name: Seq<char>) -> Seq<char> {
    let host = before_first(entry, ':');
    if before_first(host, '.') == name {
        host + ":127.0.0.1"@
    } else {
        entry
    }
}

/// Whether `remove_address` rewrites the extra-hosts entry `entry`: its
/// host's first label is `name`.
pub open spec fn rewrites_entry(entry: Seq<char>, name: Seq<char>) -> bool {
    before_first(before_first(entry, ':'), '.') == name
}

/// The entries that `remove_address` rewrites, as rewritten, in order.
pub open spec fn rewritten_entries(hosts: Seq<String>, name: Seq<char>) -> Seq<Seq<char>>
    decreases hosts.len(),
{
    if hosts.len() == 0 {
        Seq::<Seq<char>>::empty()
    } else if rewrites_entry(hosts.last()@, name) {
        rewritten_entries(hosts.drop_last(), name).push(local_host_entry(hosts.last()@, name))
    } else {
        rewritten_entries(hosts.drop_last(), name)
    }
}

/// Points every extra-hosts entry whose host's first label is `name` at
/// `127.0.0.1`, leaving the others as they are, and gives back the
/// rewritten entries in order, for the caller to print.
pub fn remove_address(name: &str, hosts: &mut Vec<String>) -> (printed: Vec<String>)
    ensures
        final(hosts)@.len() == old(hosts)@.len(),
        forall|i: int|
            0 <= i < old(hosts)@.len() ==> #[trigger] final(hosts)@[i]@ == local_host_entry(old(hosts)@[i]@, name@),
        printed.deep_view() == rewritten_entries(old(hosts)@, name@),
{
    let ghost given = hosts@;
    let mut printed: Vec<String> = Vec::new();
    let mut i: usize = 0;
    assert(given.take(0) =~= Seq::<String>::empty());
    while i < hosts.len()
        invariant
            hosts@.len() == given.len(),
            i <= hosts.len(),
            forall|j: int| 0 <= j < i ==> #[trigger] hosts@[j]@ == local_host_entry(given[j]@, name@),
            forall|j: int| i <= j < hosts@.len() ==> #[trigger] hosts@[j] == given[j],
            printed.deep_view() == rewritten_entries(given.take(i as int), name@),
        decreases hosts.len() - i,
    {
        let ghost t = given.take(i + 1);
        assert(t.drop_last() =~= given.take(i as int));
        assert(t.last() == given[i as int]);
        let entry = hosts[i].as_str();
        let host = split_before(entry, ':');
        let label = split_before(host, '.');
        if same_text(label, name) {
            let replaced = concat2(host, ":127.0.0.1");
            let ghost before = printed.deep_view();
            printed.push(owned(replaced.as_str()));
            assert(printed.deep_view() =~= before.push(replaced@));
            hosts[i] = replaced;
        }
        i = i + 1;
    }
    assert(given.take(i as int) =~= given);
    printed
}

/// Law: `remove_address` is idempotent: an entry it has pointed at
/// `127.0.0.1` stays as it is when the same name is removed again.
pub proof fn lemma_local_host_entry_idempotent(entry: Seq<char>, name: Seq<char>)
    ensures
        local_host_entry(local_host_entry(entry, name), name) == local_host_entry(entry, name),
{
    let host = before_first(entry, ':');
    if before_first(host, '.') == name {
        crate::text::lemma_first_pos(entry, ':');
        let once = host + ":127.0.0.1"@;
        reveal_strlit(":127.0.0.1");
        assert forall|j: int| 0 <= j < host.len() implies once[j] != ':' by {
            assert(once[j] == entry[j]);
        }
        assert(once[host.len() as int] == ':');
        crate::text::lemma_first_pos_unique(once, ':', host.len() as int);
        assert(before_first(once, ':') =~= host);
    }
}

} // verus!
