//! The command lines that drive `ip` and `ovs-vsctl` on the host and `sh`
//! inside the containers. Each builder gives the argument vector exactly;
//! running it is left to the caller.

use vstd::prelude::*;
use crate::text::{decimal, decimal_string, concat2, concat3};

verus! {

/// A command line: the program followed by its arguments.
pub type CommandLine = Vec<String>;

/// A fresh `String` with the text of `s`.
pub fn owned(s: &str) -> (res: String)
    ensures
        res@ == s@,
{
    String::from_str(s)
}

/// The decimal numeral of a signed number, with a leading `-` when negative.
pub open spec fn signed_decimal(i: int) -> Seq<char> {
    if i < 0 {
        seq!['-'] + decimal((-i) as nat)
    } else {
        decimal(i as nat)
    }
}

/// Writes a signed number as `format!("{}", i)` does.
pub fn signed_decimal_string(i: i64) -> (res: String)
    ensures
        res@ == signed_decimal(i as int),
{
    if i < 0 {
        let m: u64 = (0i128 - i as i128) as u64;
        let digits = decimal_string(m);
        proof {
            reveal_strlit("-");
        }
        concat2("-", digits.as_str())
    } else {
        decimal_string(i as u64)
    }
}

/// `ovs-vsctl add-br <name>`.
pub fn add_bridge_command(name: &str) -> (res: CommandLine)
    ensures
        res.deep_view() == seq!["ovs-vsctl"@, "add-br"@, name@],
{
    vec![owned("ovs-vsctl"), owned("add-br"), owned(name)]
}

/// `ovs-vsctl del-br <name>`.
pub fn del_bridge_command(name: &str) -> (res: CommandLine)
    ensures
        res.deep_view() == seq!["ovs-vsctl"@, "del-br"@, name@],
{
    vec![owned("ovs-vsctl"), owned("del-br"), owned(name)]
}

/// The two commands that configure a bridge: OpenFlow 1.4 with in-band
/// control off, stateless replies on, a 10 s inactivity probe and a 20 s
/// back-off, then the controller at `tcp:127.0.0.1:6653`.
pub fn set_bridge_commands(name: &str) -> (res: Vec<CommandLine>)
    ensures
        res.deep_view() == seq![
            seq!["ovs-vsctl"@, "set"@, "bridge"@, name@, "protocols=OpenFlow14"@,
                "other_config:disable-in-band=true"@, "other_config:enable-stateless-reply=true"@,
                "other_config:inactivity_probe=10000"@, "other_config:max_backoff=20000"@],
            seq!["ovs-vsctl"@, "set-controller"@, name@, "tcp:127.0.0.1:6653"@],
        ],
{
    let configure = vec![
        owned("ovs-vsctl"),
        owned("set"),
        owned("bridge"),
        owned(name),
        owned("protocols=OpenFlow14"),
        owned("other_config:disable-in-band=true"),
        owned("other_config:enable-stateless-reply=true"),
        owned("other_config:inactivity_probe=10000"),
        owned("other_config:max_backoff=20000"),
    ];
    let controller = vec![owned("ovs-vsctl"), owned("set-controller"), owned(name), owned("tcp:127.0.0.1:6653")];
    let ghost c1 = configure.deep_view();
    let ghost c2 = controller.deep_view();
    assert(c1 =~= seq!["ovs-vsctl"@, "set"@, "bridge"@, name@, "protocols=OpenFlow14"@,
        "other_config:disable-in-band=true"@, "other_config:enable-stateless-reply=true"@,
        "other_config:inactivity_probe=10000"@, "other_config:max_backoff=20000"@]);
    assert(c2 =~= seq!["ovs-vsctl"@, "set-controller"@, name@, "tcp:127.0.0.1:6653"@]);
    let res = vec![configure, controller];
    assert(res.deep_view() =~= seq![c1, c2]);
    res
}

/// The two commands that make a veth pair `first`/`second` and give
/// `second` the address `mac`.
pub fn add_veth_commands(first: &str, second: &str, mac: &str) -> (res: Vec<CommandLine>)
    ensures
        res.deep_view() == seq![
            seq!["ip"@, "link"@, "add"@, first@, "type"@, "veth"@, "peer"@, "name"@, second@],
            seq!["ip"@, "link"@, "set"@, "dev"@, second@, "address"@, mac@],
        ],
{
    let make = vec![
        owned("ip"),
        owned("link"),
        owned("add"),
        owned(first),
        owned("type"),
        owned("veth"),
        owned("peer"),
        owned("name"),
        owned(second),
    ];
    let address = vec![owned("ip"), owned("link"), owned("set"), owned("dev"), owned(second), owned("address"), owned(mac)];
    let ghost c1 = make.deep_view();
    let ghost c2 = address.deep_view();
    assert(c1 =~= seq!["ip"@, "link"@, "add"@, first@, "type"@, "veth"@, "peer"@, "name"@, second@]);
    assert(c2 =~= seq!["ip"@, "link"@, "set"@, "dev"@, second@, "address"@, mac@]);
    let res = vec![make, address];
    assert(res.deep_view() =~= seq![c1, c2]);
    res
}

/// `ip link set <name> netns <pid>`: moves an interface into a process's
/// network namespace.
pub fn add_veth_container_command(name: &str, pid: i64) -> (res: CommandLine)
    ensures
        res.deep_view() == seq!["ip"@, "link"@, "set"@, name@, "netns"@, signed_decimal(pid as int)],
{
    let p = signed_decimal_string(pid);
    vec![owned("ip"), owned("link"), owned("set"), owned(name), owned("netns"), p]
}

/// `ovs-vsctl add-port <bridge> <veth>`.
pub fn add_veth_ovs_command(bridge: &str, veth: &str) -> (res: CommandLine)
    ensures
        res.deep_view() == seq!["ovs-vsctl"@, "add-port"@, bridge@, veth@],
{
    vec![owned("ovs-vsctl"), owned("add-port"), owned(bridge), owned(veth)]
}

/// `ip link delete <name>`; deleting one end of a veth pair deletes both.
pub fn del_veth_command(name: &str) -> (res: CommandLine)
    ensures
        res.deep_view() == seq!["ip"@, "link"@, "delete"@, name@],
{
    vec![owned("ip"), owned("link"), owned("delete"), owned(name)]
}

/// `ip link set <veth> up`.
pub fn set_veth_up_command(veth: &str) -> (res: CommandLine)
    ensures
        res.deep_view() == seq!["ip"@, "link"@, "set"@, veth@, "up"@],
{
    vec![owned("ip"), owned("link"), owned("set"), owned(veth), owned("up")]
}

/// `ip addr add <cidr> dev <intf>`: gives an interface an address.
pub fn set_veth_ip_command(intf: &str, cidr: &str) -> (res: CommandLine)
    ensures
        res.deep_view() == seq!["ip"@, "addr"@, "add"@, cidr@, "dev"@, intf@],
{
    vec![owned("ip"), owned("addr"), owned("add"), owned(cidr), owned("dev"), owned(intf)]
}

/// `ovs-vsctl emer-reset`.
pub fn wipe_ovsdb_command() -> (res: CommandLine)
    ensures
        res.deep_view() == seq!["ovs-vsctl"@, "emer-reset"@],
{
    vec![owned("ovs-vsctl"), owned("emer-reset")]
}

/// A command run through `sh -c`.
pub fn shell_command(script: String) -> (res: CommandLine)
    ensures
        res.deep_view() == seq!["sh"@, "-c"@, script@],
{
    vec![owned("sh"), owned("-c"), script]
}

/// `sh -c "ovs-vsctl list-ports <bridge>"`: lists a bridge's ports, one per line.
pub fn list_ports_command(bridge: &str) -> (res: CommandLine)
    ensures
        res.deep_view() == seq!["sh"@, "-c"@, "ovs-vsctl list-ports "@ + bridge@],
{
    shell_command(concat2("ovs-vsctl list-ports ", bridge))
}

/// The shell text run inside a container to give `intf` the address `cidr`.
pub fn container_addr_script(intf: &str, cidr: &str) -> (res: String)
    ensures
        res@ == "ip addr add "@ + cidr@ + " dev "@ + intf@,
{
    let mut r = concat3("ip addr add ", cidr, " dev ");
    r.append(intf);
    r
}

/// The shell text run inside a container to bring `intf` up.
pub fn container_up_script(intf: &str) -> (res: String)
    ensures
        res@ == "ip link set "@ + intf@ + " up"@,
{
    concat3("ip link set ", intf, " up")
}

/// The shell text run inside a container to print the addresses of `eth0`.
pub fn show_eth0_script() -> (res: String)
    ensures
        res@ == "ip addr show dev eth0"@,
{
    owned("ip addr show dev eth0")
}

} // verus!
