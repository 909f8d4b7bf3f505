//! The Open vSwitch topology of the demo network: fourteen bridges joined by
//! veth pairs, and the addresses given to the bridges' ports.

use vstd::prelude::*;
use crate::text::{decimal, decimal_string, concat2, concat3, lines_of, split_lines, is_digit, lemma_decimal,
    lemma_decimal_injective, first_pos, lemma_first_pos_unique};
use crate::mac::{mac_text, local_unicast, random_mac};
use crate::commands::{CommandLine, add_bridge_command, set_bridge_commands, del_bridge_command,
    add_veth_commands, add_veth_ovs_command, del_veth_command, set_veth_ip_command, set_veth_up_command,
    list_ports_command};

verus! {

/// The name of bridge number `n`: `s<n>`.
pub open spec fn bridge_spec(n: nat) -> Seq<char> {
    seq!['s'] + decimal(n)
}

/// Writes the name of bridge number `n`, as `format!("s{}", n)` does.
pub fn bridge_name(n: u8) -> (res: String)
    ensures
        res@ == bridge_spec(n as nat),
{
    let digits = decimal_string(n as u64);
    proof {
        reveal_strlit("s");
    }
    concat2("s", digits.as_str())
}

/// The number of bridges in the demo network.
pub open spec fn bridge_count() -> nat {
    14
}

/// The links of the demo network, as pairs of bridge numbers.
pub open spec fn demo_links_spec() -> Seq<(u8, u8)> {
    seq![
        (1u8, 7u8), (1, 8), (2, 7), (2, 8), (2, 9), (3, 9), (3, 10), (4, 9), (4, 10), (5, 10),
        (5, 11), (6, 10), (6, 11), (7, 12), (8, 12), (8, 13), (9, 12), (9, 13), (10, 12), (10, 13),
        (11, 13), (11, 14), (12, 13), (12, 14), (13, 14),
    ]
}

/// The links of the demo network: which bridges a veth pair joins. Each
/// access bridge `s1` to `s6` is joined to two or three of `s7` to `s11`,
/// those to `s12` to `s14`, and `s12` to `s14` with one another.
pub fn demo_links() -> (res: Vec<(u8, u8)>)
    ensures
        res@ == demo_links_spec(),
        res@ == seq![
            (1u8, 7u8), (1u8, 8u8), (2u8, 7u8), (2u8, 8u8), (2u8, 9u8), (3u8, 9u8), (3u8, 10u8),
            (4u8, 9u8), (4u8, 10u8), (5u8, 10u8), (5u8, 11u8), (6u8, 10u8), (6u8, 11u8), (7u8, 12u8),
            (8u8, 12u8), (8u8, 13u8), (9u8, 12u8), (9u8, 13u8), (10u8, 12u8), (10u8, 13u8),
            (11u8, 13u8), (11u8, 14u8), (12u8, 13u8), (12u8, 14u8), (13u8, 14u8),
        ],
{
    let res = vec![
        (1u8, 7u8), (1, 8), (2, 7), (2, 8), (2, 9), (3, 9), (3, 10), (4, 9), (4, 10), (5, 10),
        (5, 11), (6, 10), (6, 11), (7, 12), (8, 12), (8, 13), (9, 12), (9, 13), (10, 12), (10, 13),
        (11, 13), (11, 14), (12, 13), (12, 14), (13, 14),
    ];
    assert(res@ =~= demo_links_spec());
    res
}

/// Law: the links of the demo network are, in order, s1–s7, s1–s8,
/// s2–s7, s2–s8, s2–s9, s3–s9, s3–s10, s4–s9, s4–s10, s5–s10, s5–s11,
/// s6–s10, s6–s11, s7–s12, s8–s12, s8–s13, s9–s12, s9–s13, s10–s12,
/// s10–s13, s11–s13, s11–s14, s12–s13, s12–s14 and s13–s14.
pub proof fn lemma_demo_links_listed()
    ensures
        demo_links_spec() == seq![
            (1u8, 7u8), (1u8, 8u8), (2u8, 7u8), (2u8, 8u8), (2u8, 9u8), (3u8, 9u8), (3u8, 10u8),
            (4u8, 9u8), (4u8, 10u8), (5u8, 10u8), (5u8, 11u8), (6u8, 10u8), (6u8, 11u8), (7u8, 12u8),
            (8u8, 12u8), (8u8, 13u8), (9u8, 12u8), (9u8, 13u8), (10u8, 12u8), (10u8, 13u8),
            (11u8, 13u8), (11u8, 14u8), (12u8, 13u8), (12u8, 14u8), (13u8, 14u8),
        ],
{
}

/// The veth end that a link between bridges `first` and `second` puts on
/// `first` (`end` is `'s'`) or on `second` (`end` is `'e'`).
pub open spec fn link_veth(first: Seq<char>, second: Seq<char>, end: char) -> Seq<char> {
    first + second + seq![end]
}

/// The commands that link two bridges with a veth pair whose second end gets
/// the address `mac`.
pub open spec fn connect_plan(first: Seq<char>, second: Seq<char>, mac: Seq<char>) -> Seq<Seq<Seq<char>>> {
    let v1 = link_veth(first, second, 's');
    let v2 = link_veth(first, second, 'e');
    seq![
        seq!["ip"@, "link"@, "add"@, v1, "type"@, "veth"@, "peer"@, "name"@, v2],
        seq!["ip"@, "link"@, "set"@, "dev"@, v2, "address"@, mac],
        seq!["ovs-vsctl"@, "add-port"@, first, v1],
        seq!["ovs-vsctl"@, "add-port"@, second, v2],
    ]
}

/// The commands that link bridges `first` and `second`, giving the new
/// veth end the address `mac`.
pub fn connect_bridges_with_mac(first: &str, second: &str, mac: &str) -> (res: Vec<CommandLine>)
    ensures
        res.deep_view() == connect_plan(first@, second@, mac@),
{
    proof {
        reveal_strlit("s");
        reveal_strlit("e");
    }
    let v1 = concat3(first, second, "s");
    let v2 = concat3(first, second, "e");
    assert(v1@ =~= link_veth(first@, second@, 's'));
    assert(v2@ =~= link_veth(first@, second@, 'e'));
    let mut res = add_veth_commands(v1.as_str(), v2.as_str(), mac);
    let p1 = add_veth_ovs_command(first, v1.as_str());
    let p2 = add_veth_ovs_command(second, v2.as_str());
    let ghost d0 = res.deep_view();
    let ghost d1 = p1.deep_view();
    let ghost d2 = p2.deep_view();
    res.push(p1);
    res.push(p2);
    assert(res.deep_view() =~= d0.push(d1).push(d2));
    assert(res.deep_view() =~= connect_plan(first@, second@, mac@));
    res
}

/// Links two bridges with a veth pair, `<first><second>s` on `first` and
/// `<first><second>e` on `second`; the `e` end gets a random locally
/// administered unicast MAC address. `None` when no random address could
/// be drawn.
pub fn connect_bridges(first: &str, second: &str) -> (res: Option<Vec<CommandLine>>)
    ensures
        res matches Some(cmds) ==> exists|b: Seq<u8>|
            b.len() == 6 && cmds.deep_view() == connect_plan(first@, second@, mac_text(local_unicast(b))),
{
    match random_mac() {
        Some(mac) => {
            let res = connect_bridges_with_mac(first, second, mac.as_str());
            let ghost b = choose|b: Seq<u8>| b.len() == 6 && mac@ == mac_text(local_unicast(b));
            assert(b.len() == 6 && res.deep_view() == connect_plan(first@, second@, mac_text(local_unicast(b))));
            Some(res)
        },
        None => None,
    }
}

/// `cmds` holds, from position `3 * n` on, the creation of bridge `s<n + 1>`
/// followed by its two configuration commands.
pub open spec fn bridge_setup_at(cmds: Seq<CommandLine>, n: int) -> bool {
    let name = bridge_spec((n + 1) as nat);
    &&& cmds[3 * n].deep_view() == seq!["ovs-vsctl"@, "add-br"@, name]
    &&& cmds[3 * n + 1].deep_view() == set_bridge_commands_spec(name)[0]
    &&& cmds[3 * n + 2].deep_view() == set_bridge_commands_spec(name)[1]
}

/// The commands that create and configure bridges `s1` to `s14`, each
/// `add-br` followed by its two configuration commands.
pub fn bridge_setup_commands() -> (res: Vec<CommandLine>)
    ensures
        res.len() == 3 * bridge_count(),
        forall|n: int| 0 <= n < bridge_count() ==> #[trigger] bridge_setup_at(res@, n),
{
    let mut res: Vec<CommandLine> = Vec::new();
    let mut i: u8 = 1;
    while i <= 14
        invariant
            1 <= i <= 15,
            res.len() == 3 * (i - 1),
            forall|n: int| 0 <= n < i - 1 ==> #[trigger] bridge_setup_at(res@, n),
        decreases 15 - i,
    {
        let name = bridge_name(i);
        let add = add_bridge_command(name.as_str());
        let mut set = set_bridge_commands(name.as_str());
        let ghost before = res@;
        let ghost sd = set.deep_view();
        let ghost sv = set@;
        assert(sd.len() == 2);
        assert(sv.len() == sd.len());
        assert(sv[0].deep_view() == sd[0] && sv[1].deep_view() == sd[1]);
        res.push(add);
        res.append(&mut set);
        assert(res@ == before.push(add) + sv);
        assert forall|n: int| 0 <= n < i implies #[trigger] bridge_setup_at(res@, n) by {
            if n < i - 1 {
                assert(bridge_setup_at(before, n));
                assert(res@[3 * n] == before[3 * n]);
                assert(res@[3 * n + 1] == before[3 * n + 1]);
                assert(res@[3 * n + 2] == before[3 * n + 2]);
            } else {
                assert(res@[3 * n + 1] == sv[0]);
                assert(res@[3 * n + 2] == sv[1]);
                assert(sd[0] =~= set_bridge_commands_spec(name@)[0]);
                assert(sd[1] =~= set_bridge_commands_spec(name@)[1]);
            }
        }
        i = i + 1;
    }
    res
}

/// The two commands that configure a bridge named `name`.
pub open spec fn set_bridge_commands_spec(name: Seq<char>) -> Seq<Seq<Seq<char>>> {
    seq![
        seq!["ovs-vsctl"@, "set"@, "bridge"@, name, "protocols=OpenFlow14"@,
            "other_config:disable-in-band=true"@, "other_config:enable-stateless-reply=true"@,
            "other_config:inactivity_probe=10000"@, "other_config:max_backoff=20000"@],
        seq!["ovs-vsctl"@, "set-controller"@, name, "tcp:127.0.0.1:6653"@],
    ]
}

/// Law: every bridge speaks OpenFlow 1.4, with in-band control off,
/// stateless replies on, an inactivity probe of 10 s and a maximal backoff
/// of 20 s, and is controlled from `tcp:127.0.0.1:6653`.
pub proof fn lemma_bridge_settings(name: Seq<char>)
    ensures
        set_bridge_commands_spec(name) == seq![
            seq!["ovs-vsctl"@, "set"@, "bridge"@, name, "protocols=OpenFlow14"@,
                "other_config:disable-in-band=true"@, "other_config:enable-stateless-reply=true"@,
                "other_config:inactivity_probe=10000"@, "other_config:max_backoff=20000"@],
            seq!["ovs-vsctl"@, "set-controller"@, name, "tcp:127.0.0.1:6653"@],
        ],
{
}

/// The views of a sequence of command lines.
pub open spec fn commands_view(cmds: Seq<CommandLine>) -> Seq<Seq<Seq<char>>> {
    cmds.map_values(|c: CommandLine| c.deep_view())
}

/// `cmds` holds, from position `4 * k` on, the four commands that join the
/// bridges of link `k` of the demo network, with some random locally
/// administered unicast address on the new veth end.
pub open spec fn link_setup_at(cmds: Seq<CommandLine>, k: int) -> bool {
    let l = demo_links_spec()[k];
    exists|b: Seq<u8>|
        b.len() == 6 && commands_view(cmds.subrange(4 * k, 4 * k + 4)) == connect_plan(
            bridge_spec(l.0 as nat),
            bridge_spec(l.1 as nat),
            mac_text(local_unicast(b)),
        )
}

/// The commands that join the bridges of the demo network: for each link,
/// in order, the four commands of `connect_bridges`. `None` when a random
/// address could not be drawn.
pub fn link_setup_commands() -> (res: Option<Vec<CommandLine>>)
    ensures
        res matches Some(cmds) ==> {
            &&& cmds.len() == 4 * demo_links_spec().len()
            &&& forall|k: int| 0 <= k < demo_links_spec().len() ==> #[trigger] link_setup_at(cmds@, k)
        },
{
    let links = demo_links();
    let mut res: Vec<CommandLine> = Vec::new();
    let mut k: usize = 0;
    while k < links.len()
        invariant
            links@ == demo_links_spec(),
            k <= links.len(),
            res.len() == 4 * k,
            forall|j: int| 0 <= j < k ==> #[trigger] link_setup_at(res@, j),
        decreases links.len() - k,
    {
        let (a, b) = links[k];
        let first = bridge_name(a);
        let second = bridge_name(b);
        let mut cmds = match connect_bridges(first.as_str(), second.as_str()) {
            Some(cmds) => cmds,
            None => return None,
        };
        let ghost before = res@;
        let ghost cv = cmds@;
        let ghost w = choose|w: Seq<u8>|
            w.len() == 6 && cmds.deep_view() == connect_plan(first@, second@, mac_text(local_unicast(w)));
        assert(cmds.deep_view().len() == 4);
        assert(cv.len() == 4);
        res.append(&mut cmds);
        assert(res@ == before + cv);
        assert forall|j: int| 0 <= j <= k implies #[trigger] link_setup_at(res@, j) by {
            if j < k {
                assert(link_setup_at(before, j));
                assert(res@.subrange(4 * j, 4 * j + 4) =~= before.subrange(4 * j, 4 * j + 4));
            } else {
                assert(res@.subrange(4 * j, 4 * j + 4) =~= cv);
                assert(commands_view(cv) =~= connect_plan(first@, second@, mac_text(local_unicast(w))));
            }
        }
        k = k + 1;
    }
    Some(res)
}

/// The command that deletes link `l` of the demo network: the deletion of
/// its `s` veth end, which takes the `e` end with it.
pub open spec fn link_teardown_spec(l: (u8, u8)) -> Seq<Seq<char>> {
    seq!["ip"@, "link"@, "delete"@, link_veth(bridge_spec(l.0 as nat), bridge_spec(l.1 as nat), 's')]
}

/// Deletes the veth pairs that join the bridges of the demo network, one
/// `ip link delete <first><second>s` per link.
pub fn delete_bridge_connections() -> (res: Vec<CommandLine>)
    ensures
        res.deep_view() == demo_links_spec().map_values(|l: (u8, u8)| link_teardown_spec(l)),
{
    let links = demo_links();
    let mut res: Vec<CommandLine> = Vec::new();
    let mut k: usize = 0;
    while k < links.len()
        invariant
            links@ == demo_links_spec(),
            k <= links.len(),
            res.deep_view() == demo_links_spec().take(k as int).map_values(|l: (u8, u8)| link_teardown_spec(l)),
        decreases links.len() - k,
    {
        let (a, b) = links[k];
        let first = bridge_name(a);
        let second = bridge_name(b);
        proof {
            reveal_strlit("s");
        }
        let veth = concat3(first.as_str(), second.as_str(), "s");
        let cmd = del_veth_command(veth.as_str());
        let ghost before = res.deep_view();
        let ghost cd = cmd.deep_view();
        res.push(cmd);
        assert(veth@ =~= link_veth(bridge_spec(a as nat), bridge_spec(b as nat), 's'));
        assert(demo_links_spec()[k as int] == (a, b));
        assert(cd =~= link_teardown_spec((a, b)));
        assert(res.deep_view() =~= before.push(cd));
        assert(demo_links_spec().take(k + 1).drop_last() =~= demo_links_spec().take(k as int));
        assert(res.deep_view() =~= demo_links_spec().take(k + 1).map_values(|l: (u8, u8)| link_teardown_spec(l)));
        k = k + 1;
    }
    assert(demo_links_spec().take(25) =~= demo_links_spec());
    res
}

/// Deletes bridges `s1` to `s14`.
pub fn bridge_teardown_commands() -> (res: Vec<CommandLine>)
    ensures
        res.len() == bridge_count(),
        forall|n: int|
            0 <= n < bridge_count() ==> #[trigger] res@[n].deep_view() == seq![
                "ovs-vsctl"@,
                "del-br"@,
                bridge_spec((n + 1) as nat),
            ],
{
    let mut res: Vec<CommandLine> = Vec::new();
    let mut i: u8 = 1;
    while i <= 14
        invariant
            1 <= i <= 15,
            res.len() == i - 1,
            forall|n: int|
                0 <= n < i - 1 ==> #[trigger] res@[n].deep_view() == seq![
                    "ovs-vsctl"@,
                    "del-br"@,
                    bridge_spec((n + 1) as nat),
                ],
        decreases 15 - i,
    {
        let name = bridge_name(i);
        res.push(del_bridge_command(name.as_str()));
        i = i + 1;
    }
    res
}

/// The address that port number `n` of the demo network gets: `192.0.0.<n>/24`.
pub open spec fn port_address(n: nat) -> Seq<char> {
    "192.0.0."@ + decimal(n) + "/24"@
}

/// The commands that give each port its address and bring it up, the first
/// port getting address number `first`, the next one the number after it.
pub open spec fn port_commands(ports: Seq<Seq<char>>, first: nat) -> Seq<Seq<Seq<char>>>
    decreases ports.len(),
{
    if ports.len() == 0 {
        Seq::<Seq<Seq<char>>>::empty()
    } else {
        let k = (ports.len() - 1) as nat;
        port_commands(ports.drop_last(), first)
            + seq![
                seq!["ip"@, "addr"@, "add"@, port_address(first + k), "dev"@, ports.last()],
                seq!["ip"@, "link"@, "set"@, ports.last(), "up"@],
            ]
    }
}

/// Given what `ovs-vsctl list-ports` printed for a bridge, one port per
/// line, the commands that give each port the next free address of
/// `192.0.0.0/24` and bring it up; `next_ip` moves past the addresses used.
pub fn set_bridge_ports(ports_output: &str, next_ip: &mut u8) -> (res: Vec<CommandLine>)
    requires
        *old(next_ip) + lines_of(ports_output@).len() <= 255,
    ensures
        *final(next_ip) == *old(next_ip) + lines_of(ports_output@).len(),
        res.deep_view() == port_commands(lines_of(ports_output@), *old(next_ip) as nat),
{
    let ports = split_lines(ports_output);
    let ghost lines = lines_of(ports_output@);
    let ghost first = *next_ip as nat;
    let mut res: Vec<CommandLine> = Vec::new();
    let mut i: usize = 0;
    assert(lines.take(0) =~= Seq::<Seq<char>>::empty());
    while i < ports.len()
        invariant
            ports.deep_view() == lines,
            first + lines.len() <= 255,
            i <= ports.len(),
            *next_ip == first + i,
            res.deep_view() == port_commands(lines.take(i as int), first),
        decreases ports.len() - i,
    {
        let port = ports[i].as_str();
        let number = decimal_string(*next_ip as u64);
        proof {
            reveal_strlit("192.0.0.");
            reveal_strlit("/24");
        }
        let address = concat3("192.0.0.", number.as_str(), "/24");
        let set_ip = set_veth_ip_command(port, address.as_str());
        let up = set_veth_up_command(port);
        let ghost before = res.deep_view();
        let ghost d1 = set_ip.deep_view();
        let ghost d2 = up.deep_view();
        res.push(set_ip);
        res.push(up);
        proof {
            let t = lines.take(i + 1);
            assert(t.drop_last() =~= lines.take(i as int));
            assert(t.last() == ports.deep_view()[i as int]);
            assert(address@ =~= port_address((first + i) as nat));
            assert(res.deep_view() =~= before + seq![d1, d2]);
            assert(res.deep_view() =~= port_commands(t, first));
        }
        *next_ip = *next_ip + 1;
        i = i + 1;
    }
    assert(lines.take(i as int) =~= lines);
    res
}

/// The ports of all bridges, bridge after bridge, each bridge's ports in
/// the order its `ovs-vsctl list-ports` output lists them.
pub open spec fn all_ports(outputs: Seq<Seq<char>>) -> Seq<Seq<char>>
    decreases outputs.len(),
{
    if outputs.len() == 0 {
        Seq::<Seq<char>>::empty()
    } else {
        all_ports(outputs.drop_last()) + lines_of(outputs.last())
    }
}

/// The address number from which the demo numbers the bridge ports.
pub open spec fn first_port_number() -> nat {
    32
}

/// Numbering two runs of ports one after the other is numbering the first
/// run, then the second from where the first stopped.
proof fn lemma_port_commands_append(a: Seq<Seq<char>>, b: Seq<Seq<char>>, first: nat)
    ensures
        port_commands(a + b, first) == port_commands(a, first) + port_commands(b, first + a.len()),
    decreases b.len(),
{
    if b.len() == 0 {
        assert(a + b =~= a);
        assert(port_commands(a, first) + port_commands(b, first + a.len()) =~= port_commands(a, first));
    } else {
        lemma_port_commands_append(a, b.drop_last(), first);
        assert((a + b).drop_last() =~= a + b.drop_last());
        assert((a + b).last() == b.last());
        assert(port_commands(a + b, first) =~= port_commands(a, first) + port_commands(b, first + a.len()));
    }
}

/// The ports of the first `i` bridges are no more than those of all.
proof fn lemma_all_ports_prefix(outputs: Seq<Seq<char>>, i: int)
    requires
        0 <= i <= outputs.len(),
    ensures
        all_ports(outputs.take(i)).len() <= all_ports(outputs).len(),
    decreases outputs.len() - i,
{
    if i < outputs.len() {
        lemma_all_ports_prefix(outputs, i + 1);
        assert(outputs.take(i + 1).drop_last() =~= outputs.take(i));
    } else {
        assert(outputs.take(i) =~= outputs);
    }
}

/// The commands that list the ports of the bridges `s1` to `s14`, in order.
pub fn port_listing_commands() -> (res: Vec<CommandLine>)
    ensures
        res.len() == bridge_count(),
        forall|n: int|
            0 <= n < bridge_count() ==> #[trigger] res@[n].deep_view() == seq![
                "sh"@,
                "-c"@,
                "ovs-vsctl list-ports "@ + bridge_spec((n + 1) as nat),
            ],
{
    let mut res: Vec<CommandLine> = Vec::new();
    let mut i: u8 = 1;
    while i <= 14
        invariant
            1 <= i <= 15,
            res.len() == i - 1,
            forall|n: int|
                0 <= n < i - 1 ==> #[trigger] res@[n].deep_view() == seq![
                    "sh"@,
                    "-c"@,
                    "ovs-vsctl list-ports "@ + bridge_spec((n + 1) as nat),
                ],
        decreases 15 - i,
    {
        let bridge = bridge_name(i);
        res.push(list_ports_command(bridge.as_str()));
        i = i + 1;
    }
    res
}

/// Given what `ovs-vsctl list-ports` printed for each bridge, in the order
/// of `port_listing_commands`, the commands that give every port of every
/// bridge, bridge after bridge, the next address of `192.0.0.0/24` from
/// `192.0.0.32` on and bring it up.
pub fn bridge_ports_plan(outputs: &Vec<String>) -> (res: Vec<CommandLine>)
    requires
        first_port_number() + all_ports(outputs.deep_view()).len() <= 255,
    ensures
        res.deep_view() == port_commands(all_ports(outputs.deep_view()), first_port_number()),
{
    let ghost ov = outputs.deep_view();
    let mut next_ip: u8 = 32;
    let mut res: Vec<CommandLine> = Vec::new();
    let mut i: usize = 0;
    assert(ov.take(0) =~= Seq::<Seq<char>>::empty());
    while i < outputs.len()
        invariant
            ov == outputs.deep_view(),
            i <= outputs.len(),
            first_port_number() + all_ports(ov).len() <= 255,
            next_ip == first_port_number() + all_ports(ov.take(i as int)).len(),
            res.deep_view() == port_commands(all_ports(ov.take(i as int)), first_port_number()),
        decreases outputs.len() - i,
    {
        let ghost done = all_ports(ov.take(i as int));
        proof {
            lemma_all_ports_prefix(ov, i + 1);
            assert(ov.take(i + 1).drop_last() =~= ov.take(i as int));
            assert(ov.take(i + 1).last() == outputs[i as int]@);
            lemma_port_commands_append(done, lines_of(outputs[i as int]@), first_port_number());
        }
        let mut cmds = set_bridge_ports(outputs[i].as_str(), &mut next_ip);
        let ghost before = res.deep_view();
        let ghost cv = cmds.deep_view();
        let ghost bw = res@;
        let ghost cw = cmds@;
        res.append(&mut cmds);
        assert(res@ == bw + cw);
        assert(res.deep_view() =~= before + cv);
        i = i + 1;
    }
    assert(ov.take(i as int) =~= ov);
    res
}

/// Law: for every link of the demo network and whatever address its new
/// veth end got, the veth that `delete_bridge_connections` deletes for the
/// link is the one that `connect_bridges` created for it with `ip link add`
/// and attached to the link's first bridge; deleting it removes the pair.
pub proof fn lemma_teardown_deletes_created_veth(k: int, mac: Seq<char>)
    requires
        0 <= k < demo_links_spec().len(),
    ensures
        ({
            let l = demo_links_spec()[k];
            let plan = connect_plan(bridge_spec(l.0 as nat), bridge_spec(l.1 as nat), mac);
            &&& link_teardown_spec(l)[3] == plan[0][3]
            &&& plan[2][3] == plan[0][3]
            &&& plan[0][8] == plan[3][3]
        }),
{
}

/// Law: every link of the demo network joins two different bridges among
/// `s1` to `s14`, the ones that `bridge_setup_commands` creates.
pub proof fn lemma_demo_links_join_demo_bridges()
    ensures
        forall|k: int|
            0 <= k < demo_links_spec().len() ==> {
                let l = #[trigger] demo_links_spec()[k];
                &&& 1 <= l.0 < l.1 <= bridge_count()
            },
{
    assert forall|k: int| 0 <= k < demo_links_spec().len() implies {
        let l = #[trigger] demo_links_spec()[k];
        &&& 1 <= l.0 < l.1 <= bridge_count()
    } by {
        lemma_index_cases(k);
    }
}

/// Splits a small index (of the demo links, or of the demo's containers)
/// into its cases.
pub(crate) proof fn lemma_index_cases(k: int)
    requires
        0 <= k < 25,
    ensures
        k == 0 || k == 1 || k == 2 || k == 3 || k == 4 || k == 5 || k == 6 || k == 7 || k == 8 || k == 9
            || k == 10 || k == 11 || k == 12 || k == 13 || k == 14 || k == 15 || k == 16 || k == 17
            || k == 18 || k == 19 || k == 20 || k == 21 || k == 22 || k == 23 || k == 24,
{
}

/// The order key of a link: links come in increasing key order.
pub open spec fn link_key(l: (u8, u8)) -> int {
    (l.0 as int) * 16 + (l.1 as int)
}

proof fn lemma_demo_links_adjacent(k: int)
    requires
        0 <= k < 24,
    ensures
        link_key(demo_links_spec()[k]) < link_key(demo_links_spec()[k + 1]),
{
    lemma_index_cases(k);
}

proof fn lemma_demo_links_sorted(j: int, k: int)
    requires
        0 <= j < k < 25,
    ensures
        link_key(demo_links_spec()[j]) < link_key(demo_links_spec()[k]),
    decreases k - j,
{
    lemma_demo_links_adjacent(k - 1);
    if j < k - 1 {
        lemma_demo_links_sorted(j, k - 1);
    }
}

/// No two links of the demo network join the same two bridges.
proof fn lemma_demo_links_distinct()
    ensures
        forall|j: int, k: int|
            0 <= j < demo_links_spec().len() && 0 <= k < demo_links_spec().len() && j != k
                ==> #[trigger] demo_links_spec()[j] != #[trigger] demo_links_spec()[k],
{
    assert forall|j: int, k: int|
        0 <= j < demo_links_spec().len() && 0 <= k < demo_links_spec().len() && j != k
        implies #[trigger] demo_links_spec()[j] != #[trigger] demo_links_spec()[k] by {
        if j < k {
            lemma_demo_links_sorted(j, k);
        } else {
            lemma_demo_links_sorted(k, j);
        }
    }
}

/// A decimal numeral holds no `s`.
proof fn lemma_decimal_has_no_s(n: nat)
    ensures
        forall|i: int| 0 <= i < decimal(n).len() ==> #[trigger] decimal(n)[i] != 's',
{
    lemma_decimal(n);
    assert forall|i: int| 0 <= i < decimal(n).len() implies #[trigger] decimal(n)[i] != 's' by {
        assert(is_digit(decimal(n)[i]));
    }
}

/// The numeral that begins `d + [s] + rest` is the text before its first `s`.
proof fn lemma_numeral_before_s(n: nat, rest: Seq<char>)
    ensures
        first_pos(decimal(n) + seq!['s'] + rest, 's') == decimal(n).len(),
{
    let t = decimal(n) + seq!['s'] + rest;
    lemma_decimal_has_no_s(n);
    assert forall|j: int| 0 <= j < decimal(n).len() implies t[j] != 's' by {
        assert(t[j] == decimal(n)[j]);
    }
    assert(t[decimal(n).len() as int] == 's');
    lemma_first_pos_unique(t, 's', decimal(n).len() as int);
}

/// The name of a veth end between two numbered bridges tells the bridges
/// and the end apart: equal names mean equal bridges and the same end.
pub proof fn lemma_link_veth_injective(a: nat, b: nat, c: nat, d: nat, e: char, f: char)
    requires
        link_veth(bridge_spec(a), bridge_spec(b), e) == link_veth(bridge_spec(c), bridge_spec(d), f),
    ensures
        a == c,
        b == d,
        e == f,
{
    let x = link_veth(bridge_spec(a), bridge_spec(b), e);
    let y = link_veth(bridge_spec(c), bridge_spec(d), f);
    let tx = x.skip(1);
    let ty = y.skip(1);
    assert(tx =~= decimal(a) + seq!['s'] + (decimal(b) + seq![e]));
    assert(ty =~= decimal(c) + seq!['s'] + (decimal(d) + seq![f]));
    lemma_numeral_before_s(a, decimal(b) + seq![e]);
    lemma_numeral_before_s(c, decimal(d) + seq![f]);
    let la = decimal(a).len() as int;
    assert(tx.take(la) =~= decimal(a));
    assert(ty.take(la) =~= decimal(c));
    lemma_decimal_injective(a, c);
    let ux = tx.skip(la + 1);
    let uy = ty.skip(la + 1);
    assert(ux =~= decimal(b) + seq![e]);
    assert(uy =~= decimal(d) + seq![f]);
    assert(ux.last() == e && uy.last() == f);
    assert(ux.drop_last() =~= decimal(b));
    assert(uy.drop_last() =~= decimal(d));
    lemma_decimal_injective(b, d);
}

/// Law: the fifty veth ends of the demo network have pairwise different
/// names, so no `ip link add` of `link_setup_commands` collides with another.
pub proof fn lemma_demo_veths_distinct()
    ensures
        forall|j: int, k: int, e: char, f: char|
            0 <= j < demo_links_spec().len() && 0 <= k < demo_links_spec().len() && (e == 's' || e == 'e')
                && (f == 's' || f == 'e') && (j != k || e != f) ==> #[trigger] link_veth(
                bridge_spec(demo_links_spec()[j].0 as nat),
                bridge_spec(demo_links_spec()[j].1 as nat),
                e,
            ) != #[trigger] link_veth(
                bridge_spec(demo_links_spec()[k].0 as nat),
                bridge_spec(demo_links_spec()[k].1 as nat),
                f,
            ),
{
    lemma_demo_links_distinct();
    assert forall|j: int, k: int, e: char, f: char|
        0 <= j < demo_links_spec().len() && 0 <= k < demo_links_spec().len() && (e == 's' || e == 'e')
            && (f == 's' || f == 'e') && (j != k || e != f) implies #[trigger] link_veth(
            bridge_spec(demo_links_spec()[j].0 as nat),
            bridge_spec(demo_links_spec()[j].1 as nat),
            e,
        ) != #[trigger] link_veth(
            bridge_spec(demo_links_spec()[k].0 as nat),
            bridge_spec(demo_links_spec()[k].1 as nat),
            f,
        ) by {
        let lj = demo_links_spec()[j];
        let lk = demo_links_spec()[k];
        if link_veth(bridge_spec(lj.0 as nat), bridge_spec(lj.1 as nat), e) == link_veth(
            bridge_spec(lk.0 as nat),
            bridge_spec(lk.1 as nat),
            f,
        ) {
            lemma_link_veth_injective(lj.0 as nat, lj.1 as nat, lk.0 as nat, lk.1 as nat, e, f);
            assert(lj == lk);
        }
    }
}

/// Law: `set_bridge_ports` never gives two ports the same address: the
/// ports of one call get consecutive, pairwise different addresses.
pub proof fn lemma_port_addresses_distinct(m: nat, n: nat)
    requires
        m != n,
    ensures
        port_address(m) != port_address(n),
{
    reveal_strlit("192.0.0.");
    reveal_strlit("/24");
    if port_address(m) == port_address(n) {
        let pm = port_address(m);
        let pn = port_address(n);
        assert(pm.len() == 8 + decimal(m).len() + 3);
        assert(pn.len() == 8 + decimal(n).len() + 3);
        assert(pm.skip(8).take(decimal(m).len() as int) =~= decimal(m));
        assert(pn.skip(8).take(decimal(n).len() as int) =~= decimal(n));
        lemma_decimal_injective(m, n);
    }
}

/// Law: the bridges that `bridge_teardown_commands` deletes are, one for
/// one and in order, the bridges that `bridge_setup_commands` creates.
pub proof fn lemma_bridge_teardown_matches_setup(setup: Seq<CommandLine>, teardown: Seq<CommandLine>)
    requires
        setup.len() == 3 * bridge_count(),
        forall|n: int| 0 <= n < bridge_count() ==> #[trigger] bridge_setup_at(setup, n),
        teardown.len() == bridge_count(),
        forall|n: int|
            0 <= n < bridge_count() ==> #[trigger] teardown[n].deep_view() == seq![
                "ovs-vsctl"@,
                "del-br"@,
                bridge_spec((n + 1) as nat),
            ],
    ensures
        forall|n: int|
            0 <= n < bridge_count() ==> #[trigger] teardown[n].deep_view()[2] == setup[3 * n].deep_view()[2],
{
    assert forall|n: int| 0 <= n < bridge_count() implies #[trigger] teardown[n].deep_view()[2] == setup[3 * n].deep_view()[2] by {
        assert(bridge_setup_at(setup, n));
    }
}

/// Law: successive calls of `set_bridge_ports`, the second one starting
/// where the first left `next_ip`, never give two ports the same address:
/// port `j` of the first call and port `k` of the second differ.
pub proof fn lemma_successive_port_ranges_disjoint(first: nat, count: nat, j: nat, k: nat)
    requires
        j < count,
    ensures
        port_address(first + j) != port_address(first + count + k),
{
    lemma_port_addresses_distinct(first + j, first + count + k);
}

} // verus!
