//! The free5GC deployment of the demo: which containers run where, the
//! hosts every container can resolve, and the containers whose MAC
//! addresses the intents connect.

use vstd::prelude::*;
use crate::text::{decimal, decimal_string, concat3, before_first, after_first, lemma_first_pos_unique};
use crate::topology::{port_address, lemma_port_addresses_distinct, lemma_index_cases, first_port_number};
use crate::containers::{deployed_containers_spec, ueransim_name_spec};

verus! {

/// The host names that every container resolves, each `name:address`.
pub open spec fn all_hosts_spec() -> Seq<Seq<char>> {
    seq![
        "gnb1.free5gc.org:192.0.0.1"@, "gnb2.free5gc.org:192.0.0.2"@, "gnb3.free5gc.org:192.0.0.3"@,
        "gnb4.free5gc.org:192.0.0.4"@, "ue1.free5gc.org:192.0.0.5"@, "upf.free5gc.org:192.0.0.6"@,
        "nrf.free5gc.org:192.0.0.7"@, "amf.free5gc.org:192.0.0.8"@, "ausf.free5gc.org:192.0.0.9"@,
        "nssf.free5gc.org:192.0.0.10"@, "pcf.free5gc.org:192.0.0.11"@, "smf.free5gc.org:192.0.0.12"@,
        "udm.free5gc.org:192.0.0.13"@, "udr.free5gc.org:192.0.0.14"@, "chf.free5gc.org:192.0.0.15"@,
        "n3iwf.free5gc.org:192.0.0.16"@, "webui:192.0.0.17"@, "db:192.0.0.18"@,
        "n3ue.free5gc.org:192.0.0.19"@, "upf1.free5gc.org:192.0.0.20"@, "smf1.free5gc.org:192.0.0.21"@,
    ]
}

/// The host names that every container resolves.
pub fn all_hosts() -> (res: Vec<&'static str>)
    ensures
        res.deep_view() == all_hosts_spec(),
{
    let res = vec![
        "gnb1.free5gc.org:192.0.0.1", "gnb2.free5gc.org:192.0.0.2", "gnb3.free5gc.org:192.0.0.3",
        "gnb4.free5gc.org:192.0.0.4", "ue1.free5gc.org:192.0.0.5", "upf.free5gc.org:192.0.0.6",
        "nrf.free5gc.org:192.0.0.7", "amf.free5gc.org:192.0.0.8", "ausf.free5gc.org:192.0.0.9",
        "nssf.free5gc.org:192.0.0.10", "pcf.free5gc.org:192.0.0.11", "smf.free5gc.org:192.0.0.12",
        "udm.free5gc.org:192.0.0.13", "udr.free5gc.org:192.0.0.14", "chf.free5gc.org:192.0.0.15",
        "n3iwf.free5gc.org:192.0.0.16", "webui:192.0.0.17", "db:192.0.0.18",
        "n3ue.free5gc.org:192.0.0.19", "upf1.free5gc.org:192.0.0.20", "smf1.free5gc.org:192.0.0.21",
    ];
    assert(res.deep_view() =~= all_hosts_spec());
    res
}

/// The containers that `start_demo` starts, in order: each with the last
/// number of its address in `192.0.0.0/24` and the number of the bridge it
/// joins (all of them `s3`).
pub open spec fn core_deployment_spec() -> Seq<(Seq<char>, u8, u8)> {
    seq![
        ("upf"@, 6u8, 3u8), ("mongodb"@, 18u8, 3u8), ("nrf"@, 7u8, 3u8), ("amf"@, 8u8, 3u8), ("ausf"@, 9u8, 3u8),
        ("nssf"@, 10u8, 3u8), ("pcf"@, 11u8, 3u8), ("smf"@, 12u8, 3u8), ("udm"@, 13u8, 3u8), ("udr"@, 14u8, 3u8),
        ("chf"@, 15u8, 3u8), ("n3iwf"@, 16u8, 3u8), ("webui"@, 17u8, 3u8), ("n3iwue"@, 19u8, 3u8), ("webserver"@, 252u8, 3u8),
    ]
}

/// The containers that `start_demo` starts, in order, with the last number
/// of their address and the number of their bridge.
pub fn core_deployment() -> (res: Vec<(&'static str, u8, u8)>)
    ensures
        res.deep_view() == core_deployment_spec(),
{
    let res = vec![
        ("upf", 6u8, 3u8), ("mongodb", 18u8, 3u8), ("nrf", 7u8, 3u8), ("amf", 8u8, 3u8), ("ausf", 9u8, 3u8),
        ("nssf", 10u8, 3u8), ("pcf", 11u8, 3u8), ("smf", 12u8, 3u8), ("udm", 13u8, 3u8), ("udr", 14u8, 3u8),
        ("chf", 15u8, 3u8), ("n3iwf", 16u8, 3u8), ("webui", 17u8, 3u8), ("n3iwue", 19u8, 3u8), ("webserver", 252u8, 3u8),
    ];
    assert(res.deep_view() =~= core_deployment_spec());
    res
}

/// The containers that `situation` and `situation_test` add, with the last
/// number of their address and the number of their bridge (`s3`).
pub open spec fn situation_deployment_spec() -> Seq<(Seq<char>, u8, u8)> {
    seq![("upf1"@, 20u8, 3u8), ("smf1"@, 21u8, 3u8)]
}

/// The containers that `situation` adds, with the last number of their
/// address and the number of their bridge.
pub fn situation_deployment() -> (res: Vec<(&'static str, u8, u8)>)
    ensures
        res.deep_view() == situation_deployment_spec(),
{
    let res = vec![("upf1", 20u8, 3u8), ("smf1", 21u8, 3u8)];
    assert(res.deep_view() =~= situation_deployment_spec());
    res
}

/// The address `192.0.0.<n>/24` of a container.
pub fn host_address(n: u8) -> (res: String)
    ensures
        res@ == port_address(n as nat),
{
    let digits = decimal_string(n as u64);
    concat3("192.0.0.", digits.as_str(), "/24")
}

/// The containers whose MAC addresses `situation` connects with the new UPF
/// and SMF.
pub open spec fn situation_peers_spec() -> Seq<Seq<char>> {
    seq![
        "db"@, "nrf"@, "amf"@, "ausf"@, "nssf"@, "pcf"@, "udm"@, "udr"@, "chf"@, "n3iwf"@, "webui"@,
        "n3iwue"@, "webserver"@, "ueransim1"@, "ueransim2"@, "ueransim3"@, "ueransim4"@, "ueransim5"@,
    ]
}

/// The containers whose MAC addresses `situation` connects with the new
/// UPF and SMF.
pub fn situation_peers() -> (res: Vec<&'static str>)
    ensures
        res.deep_view() == situation_peers_spec(),
{
    let res = vec![
        "db", "nrf", "amf", "ausf", "nssf", "pcf", "udm", "udr", "chf", "n3iwf", "webui",
        "n3iwue", "webserver", "ueransim1", "ueransim2", "ueransim3", "ueransim4", "ueransim5",
    ];
    assert(res.deep_view() =~= situation_peers_spec());
    res
}

/// The containers whose MAC addresses `test` connects with one another.
pub open spec fn test_nodes_spec() -> Seq<Seq<char>> {
    seq![
        "upf"@, "db"@, "nrf"@, "amf"@, "ausf"@, "nssf"@, "pcf"@, "smf"@, "udm"@, "udr"@, "chf"@,
        "n3iwf"@, "webui"@, "n3iwue"@, "webserver"@, "ueransim1"@, "ueransim2"@, "ueransim3"@,
        "ueransim4"@, "ueransim5"@,
    ]
}

/// The containers whose MAC addresses `test` connects with one another.
pub fn test_nodes() -> (res: Vec<&'static str>)
    ensures
        res.deep_view() == test_nodes_spec(),
{
    let res = vec![
        "upf", "db", "nrf", "amf", "ausf", "nssf", "pcf", "smf", "udm", "udr", "chf",
        "n3iwf", "webui", "n3iwue", "webserver", "ueransim1", "ueransim2", "ueransim3",
        "ueransim4", "ueransim5",
    ];
    assert(res.deep_view() =~= test_nodes_spec());
    res
}

/// The last address numbers of every container of the demo: the core, the
/// two that `situation` adds, and the five UERANSIM containers (`1` to `5`).
pub open spec fn demo_address_numbers() -> Seq<u8> {
    seq![6u8, 18, 7, 8, 9, 10, 11, 12, 13, 14, 15, 16, 17, 19, 252, 20, 21, 1, 2, 3, 4, 5]
}

/// The address numbers follow the deployments in order.
proof fn lemma_demo_address_numbers_follow_deployments()
    ensures
        forall|k: int| 0 <= k < 15 ==> #[trigger] demo_address_numbers()[k] == core_deployment_spec()[k].1,
        forall|k: int| 0 <= k < 2 ==> #[trigger] demo_address_numbers()[15 + k] == situation_deployment_spec()[k].1,
        forall|k: int| 0 <= k < 5 ==> #[trigger] demo_address_numbers()[17 + k] == k + 1,
{
    assert forall|k: int| 0 <= k < 15 implies #[trigger] demo_address_numbers()[k] == core_deployment_spec()[k].1 by {
        lemma_index_cases(k);
    }
    assert forall|k: int| 0 <= k < 5 implies #[trigger] demo_address_numbers()[17 + k] == k + 1 by {
        lemma_index_cases(k);
    }
}

/// Where each address number of the demo comes in its list.
spec fn address_position(v: int) -> int {
    if v == 6 { 0 } else if v == 18 { 1 } else if v == 7 { 2 } else if v == 8 { 3 } else if v == 9 { 4 }
    else if v == 10 { 5 } else if v == 11 { 6 } else if v == 12 { 7 } else if v == 13 { 8 }
    else if v == 14 { 9 } else if v == 15 { 10 } else if v == 16 { 11 } else if v == 17 { 12 }
    else if v == 19 { 13 } else if v == 252 { 14 } else if v == 20 { 15 } else if v == 21 { 16 }
    else if v == 1 { 17 } else if v == 2 { 18 } else if v == 3 { 19 } else if v == 4 { 20 } else { 21 }
}

/// Each address number tells its own position, and all but the web
/// server's lie below 32.
proof fn lemma_address_number_position(k: int)
    requires
        0 <= k < 22,
    ensures
        address_position(demo_address_numbers()[k] as int) == k,
        k != 14 ==> demo_address_numbers()[k] < 32,
{
    lemma_index_cases(k);
}

/// Law: no two containers of the demo get the same address, and every
/// container address but the web server's lies below `192.0.0.32`, where
/// `set_bridge_ports` starts numbering the bridge ports.
pub proof fn lemma_demo_addresses_distinct()
    ensures
        forall|j: int, k: int|
            0 <= j < demo_address_numbers().len() && 0 <= k < demo_address_numbers().len() && j != k
                ==> port_address(demo_address_numbers()[j] as nat) != port_address(
                #[trigger] demo_address_numbers()[k] as nat,
            ) && #[trigger] demo_address_numbers()[j] != demo_address_numbers()[k],
        forall|k: int|
            0 <= k < demo_address_numbers().len() && k != 14 ==> #[trigger] demo_address_numbers()[k] < 32,
{
    lemma_demo_address_numbers_follow_deployments();
    assert forall|j: int, k: int|
        0 <= j < demo_address_numbers().len() && 0 <= k < demo_address_numbers().len() && j != k
        implies port_address(demo_address_numbers()[j] as nat) != port_address(
            #[trigger] demo_address_numbers()[k] as nat,
        ) && #[trigger] demo_address_numbers()[j] != demo_address_numbers()[k] by {
        lemma_address_number_position(j);
        lemma_address_number_position(k);
        lemma_port_addresses_distinct(demo_address_numbers()[j] as nat, demo_address_numbers()[k] as nat);
    }
    assert forall|k: int| 0 <= k < demo_address_numbers().len() && k != 14 implies #[trigger] demo_address_numbers()[k] < 32 by {
        lemma_address_number_position(k);
    }
}

/// Law: when the bridges have at most 220 ports in all, the addresses
/// `bridge_ports_plan` gives them (`192.0.0.32` on) differ from one another
/// and from the address of every container of the demo.
pub proof fn lemma_port_numbers_avoid_containers(count: nat)
    requires
        count <= 220,
    ensures
        forall|j: int, k: int|
            0 <= j < k < count ==> #[trigger] port_address(first_port_number() + j as nat) != #[trigger] port_address(
                first_port_number() + k as nat,
            ),
        forall|k: int, j: int|
            0 <= k < count && 0 <= j < demo_address_numbers().len() ==> #[trigger] port_address(
                first_port_number() + k as nat,
            ) != port_address(#[trigger] demo_address_numbers()[j] as nat),
{
    lemma_demo_addresses_distinct();
    assert forall|j: int, k: int| 0 <= j < k < count implies #[trigger] port_address(first_port_number() + j as nat)
        != #[trigger] port_address(first_port_number() + k as nat) by {
        lemma_port_addresses_distinct(first_port_number() + j as nat, first_port_number() + k as nat);
    }
    assert forall|k: int, j: int| 0 <= k < count && 0 <= j < demo_address_numbers().len() implies #[trigger] port_address(
        first_port_number() + k as nat,
    ) != port_address(#[trigger] demo_address_numbers()[j] as nat) by {
        assert(demo_address_numbers()[14] == 252);
        lemma_port_addresses_distinct(first_port_number() + k as nat, demo_address_numbers()[j] as nat);
    }
}

/// Where each container of the core deployment comes in the cleanup list.
spec fn cleanup_positions() -> Seq<int> {
    seq![0, 14, 1, 2, 3, 4, 5, 6, 7, 8, 9, 10, 11, 13, 12]
}

/// Where each of the first fifteen containers of the cleanup list comes in
/// the core deployment.
spec fn core_positions() -> Seq<int> {
    seq![0, 2, 3, 4, 5, 6, 7, 8, 9, 10, 11, 12, 14, 13, 1]
}

/// Law: `cleanup` stops and removes exactly the containers that
/// `start_demo` starts. Every container of the core deployment and each of
/// the five UERANSIM containers is in its list, and every container in its
/// list is one of them. (The bridges it deletes are the ones `start_demo`
/// creates, `lemma_bridge_teardown_matches_setup`, and so are the links
/// between them, `lemma_teardown_deletes_created_veth`.)
pub proof fn lemma_cleanup_matches_start_demo()
    ensures
        deployed_containers_spec().len() == core_deployment_spec().len() + 5,
        forall|k: int|
            0 <= k < core_deployment_spec().len() ==> deployed_containers_spec().contains(
                #[trigger] core_deployment_spec()[k].0,
            ),
        forall|i: nat| 1 <= i <= 5 ==> deployed_containers_spec().contains(#[trigger] ueransim_name_spec(i)),
        forall|k: int|
            #![trigger deployed_containers_spec()[k]]
            0 <= k < deployed_containers_spec().len() ==> (exists|j: int|
                0 <= j < core_deployment_spec().len() && #[trigger] core_deployment_spec()[j].0
                    == deployed_containers_spec()[k]) || (exists|i: nat|
                1 <= i <= 5 && #[trigger] ueransim_name_spec(i) == deployed_containers_spec()[k]),
{
    let d = deployed_containers_spec();
    let c = core_deployment_spec();
    reveal_strlit("ueransim");
    reveal_strlit("ueransim1");
    reveal_strlit("ueransim2");
    reveal_strlit("ueransim3");
    reveal_strlit("ueransim4");
    reveal_strlit("ueransim5");
    assert forall|k: int| 0 <= k < c.len() implies d.contains(#[trigger] c[k].0) by {
        lemma_index_cases(k);
        assert(d[cleanup_positions()[k]] == c[k].0);
    }
    assert forall|i: nat| 1 <= i <= 5 implies d.contains(#[trigger] ueransim_name_spec(i)) by {
        lemma_index_cases(i as int);
        assert(d[14 + i as int] =~= ueransim_name_spec(i));
    }
    assert forall|k: int| #![trigger d[k]] 0 <= k < d.len() implies (exists|j: int|
        0 <= j < c.len() && #[trigger] c[j].0 == d[k]) || (exists|i: nat|
        1 <= i <= 5 && #[trigger] ueransim_name_spec(i) == d[k]) by {
        lemma_index_cases(k);
        if k < 15 {
            assert(c[core_positions()[k]].0 == d[k]);
        } else {
            let i = (k - 14) as nat;
            assert(ueransim_name_spec(i) =~= d[k]);
        }
    }
}

/// The address `192.0.0.<n>` of a container, without its prefix length.
pub open spec fn container_ip(n: nat) -> Seq<char> {
    "192.0.0."@ + decimal(n)
}

/// The first label of the host of a hosts entry `host:address`: what
/// `remove_address` compares with a container's name.
pub open spec fn host_label(entry: Seq<char>) -> Seq<char> {
    before_first(before_first(entry, ':'), '.')
}

/// The first labels of the hosts entries, in order.
spec fn host_labels() -> Seq<Seq<char>> {
    seq!["gnb1"@, "gnb2"@, "gnb3"@, "gnb4"@, "ue1"@, "upf"@, "nrf"@, "amf"@, "ausf"@, "nssf"@, "pcf"@, "smf"@, "udm"@, "udr"@, "chf"@, "n3iwf"@, "webui"@, "db"@, "n3ue"@, "upf1"@, "smf1"@]
}

/// An entry whose first `:` is at `colon` and whose first `.` before it is
/// at `dot` (or none, when `dot == colon`) splits there.
proof fn lemma_entry_parts(e: Seq<char>, colon: int, dot: int)
    requires
        0 <= dot <= colon < e.len(),
        e[colon] == ':',
        forall|j: int| 0 <= j < colon ==> e[j] != ':',
        dot < colon ==> e[dot] == '.',
        forall|j: int| 0 <= j < dot ==> e[j] != '.',
    ensures
        after_first(e, ':') == e.skip(colon + 1),
        host_label(e) == e.take(dot),
{
    lemma_first_pos_unique(e, ':', colon);
    let host = e.take(colon);
    assert(before_first(e, ':') =~= host);
    lemma_first_pos_unique(host, '.', dot);
    assert(before_first(host, '.') =~= e.take(dot));
}

/// Where the host ends in each hosts entry (its first `:`).
spec fn host_ends() -> Seq<int> {
    seq![16, 16, 16, 16, 15, 15, 15, 15, 16, 16, 15, 15, 15, 15, 15, 17, 5, 2, 16, 16, 16]
}

/// Where the first label ends in each hosts entry (its first `.`, or the
/// end of the host).
spec fn label_ends() -> Seq<int> {
    seq![4, 4, 4, 4, 3, 3, 3, 3, 4, 4, 3, 3, 3, 3, 3, 5, 5, 2, 4, 4, 4]
}

/// Entry `k` of the hosts points at `192.0.0.<k + 1>` and has the `k`-th
/// first label.
proof fn lemma_host_entry(k: int)
    requires
        0 <= k < 21,
    ensures
        after_first(all_hosts_spec()[k], ':') == container_ip((k + 1) as nat),
        host_label(all_hosts_spec()[k]) == host_labels()[k],
{
    reveal_strlit("192.0.0.");
    reveal_with_fuel(decimal, 3);
    reveal_strlit("gnb1.free5gc.org:192.0.0.1");
    reveal_strlit("gnb2.free5gc.org:192.0.0.2");
    reveal_strlit("gnb3.free5gc.org:192.0.0.3");
    reveal_strlit("gnb4.free5gc.org:192.0.0.4");
    reveal_strlit("ue1.free5gc.org:192.0.0.5");
    reveal_strlit("upf.free5gc.org:192.0.0.6");
    reveal_strlit("nrf.free5gc.org:192.0.0.7");
    reveal_strlit("amf.free5gc.org:192.0.0.8");
    reveal_strlit("ausf.free5gc.org:192.0.0.9");
    reveal_strlit("nssf.free5gc.org:192.0.0.10");
    reveal_strlit("pcf.free5gc.org:192.0.0.11");
    reveal_strlit("smf.free5gc.org:192.0.0.12");
    reveal_strlit("udm.free5gc.org:192.0.0.13");
    reveal_strlit("udr.free5gc.org:192.0.0.14");
    reveal_strlit("chf.free5gc.org:192.0.0.15");
    reveal_strlit("n3iwf.free5gc.org:192.0.0.16");
    reveal_strlit("webui:192.0.0.17");
    reveal_strlit("db:192.0.0.18");
    reveal_strlit("n3ue.free5gc.org:192.0.0.19");
    reveal_strlit("upf1.free5gc.org:192.0.0.20");
    reveal_strlit("smf1.free5gc.org:192.0.0.21");
    reveal_strlit("gnb1");
    reveal_strlit("gnb2");
    reveal_strlit("gnb3");
    reveal_strlit("gnb4");
    reveal_strlit("ue1");
    reveal_strlit("upf");
    reveal_strlit("nrf");
    reveal_strlit("amf");
    reveal_strlit("ausf");
    reveal_strlit("nssf");
    reveal_strlit("pcf");
    reveal_strlit("smf");
    reveal_strlit("udm");
    reveal_strlit("udr");
    reveal_strlit("chf");
    reveal_strlit("n3iwf");
    reveal_strlit("webui");
    reveal_strlit("db");
    reveal_strlit("n3ue");
    reveal_strlit("upf1");
    reveal_strlit("smf1");
    lemma_index_cases(k);
    let e = all_hosts_spec()[k];
    lemma_entry_parts(e, host_ends()[k], label_ends()[k]);
    assert(e.skip(host_ends()[k] + 1) =~= container_ip((k + 1) as nat));
    assert(e.take(label_ends()[k]) =~= host_labels()[k]);
}

/// Law: the hosts that every container resolves match the deployment. There
/// are 21 entries; entry `n` points at `192.0.0.<n>`, the address at which
/// the demo starts a container (`host_address` writes it with `/24`). Its
/// first label, which `remove_address` matches, is the container's own name
/// for the core's network functions and the situation's UPF and SMF; the
/// database is `db`, the N3IWUE `n3ue`, the first four UERANSIM containers
/// `gnb1` to `gnb4` and the fifth `ue1`. The web server has no entry.
pub proof fn lemma_hosts_match_deployment()
    ensures
        all_hosts_spec().len() == 21,
        forall|n: nat| 1 <= n <= 21 ==> after_first(#[trigger] all_hosts_spec()[n - 1], ':') == container_ip(n),
        forall|n: nat| port_address(n) == #[trigger] container_ip(n) + "/24"@,
        forall|k: int|
            0 <= k < 15 && k != 1 && k != 13 && k != 14 ==> host_label(
                all_hosts_spec()[core_deployment_spec()[k].1 - 1],
            ) == #[trigger] core_deployment_spec()[k].0,
        core_deployment_spec()[1].0 == "mongodb"@ && host_label(all_hosts_spec()[core_deployment_spec()[1].1 - 1]) == "db"@,
        core_deployment_spec()[13].0 == "n3iwue"@ && host_label(all_hosts_spec()[core_deployment_spec()[13].1 - 1]) == "n3ue"@,
        core_deployment_spec()[14].0 == "webserver"@ && core_deployment_spec()[14].1 > 21,
        forall|k: int|
            0 <= k < 2 ==> host_label(all_hosts_spec()[situation_deployment_spec()[k].1 - 1]) == #[trigger] situation_deployment_spec()[k].0,
        forall|i: nat| 1 <= i <= 4 ==> host_label(#[trigger] all_hosts_spec()[i - 1]) == "gnb"@ + decimal(i),
        host_label(all_hosts_spec()[4]) == "ue1"@,
{
    assert forall|n: nat| 1 <= n <= 21 implies after_first(#[trigger] all_hosts_spec()[n - 1], ':') == container_ip(n) by {
        lemma_host_entry(n - 1);
    }
    assert forall|n: nat| port_address(n) == #[trigger] container_ip(n) + "/24"@ by {
        assert(port_address(n) =~= container_ip(n) + "/24"@);
    }
    assert forall|k: int|
        0 <= k < 15 && k != 1 && k != 13 && k != 14 implies host_label(
            all_hosts_spec()[core_deployment_spec()[k].1 - 1],
        ) == #[trigger] core_deployment_spec()[k].0 by {
        lemma_index_cases(k);
        lemma_host_entry(core_deployment_spec()[k].1 - 1);
    }
    lemma_host_entry(17);
    lemma_host_entry(18);
    lemma_host_entry(19);
    lemma_host_entry(20);
    lemma_host_entry(4);
    assert forall|i: nat| 1 <= i <= 4 implies host_label(#[trigger] all_hosts_spec()[i - 1]) == "gnb"@ + decimal(i) by {
        lemma_host_entry(i - 1);
        reveal_strlit("gnb");
        reveal_strlit("gnb1");
        reveal_strlit("gnb2");
        reveal_strlit("gnb3");
        reveal_strlit("gnb4");
        lemma_index_cases(i as int);
        assert(host_labels()[i - 1] =~= "gnb"@ + decimal(i));
    }
}

/// Law: the demo starts, on bridge `s3`, upf at `192.0.0.6`, mongodb at
/// `.18`, nrf `.7`, amf `.8`, ausf `.9`, nssf `.10`, pcf `.11`, smf `.12`,
/// udm `.13`, udr `.14`, chf `.15`, n3iwf `.16`, webui `.17`, n3iwue `.19`
/// and webserver `.252`, in that order; the situation adds upf1 at `.20`
/// and smf1 at `.21`, also on `s3`; and every container resolves the hosts
/// listed here.
pub proof fn lemma_deployment_listed()
    ensures
        core_deployment_spec() == seq![("upf"@, 6u8, 3u8), ("mongodb"@, 18u8, 3u8), ("nrf"@, 7u8, 3u8), ("amf"@, 8u8, 3u8), ("ausf"@, 9u8, 3u8), ("nssf"@, 10u8, 3u8), ("pcf"@, 11u8, 3u8), ("smf"@, 12u8, 3u8), ("udm"@, 13u8, 3u8), ("udr"@, 14u8, 3u8), ("chf"@, 15u8, 3u8), ("n3iwf"@, 16u8, 3u8), ("webui"@, 17u8, 3u8), ("n3iwue"@, 19u8, 3u8), ("webserver"@, 252u8, 3u8)],
        situation_deployment_spec() == seq![("upf1"@, 20u8, 3u8), ("smf1"@, 21u8, 3u8)],
        all_hosts_spec() == seq!["gnb1.free5gc.org:192.0.0.1"@, "gnb2.free5gc.org:192.0.0.2"@, "gnb3.free5gc.org:192.0.0.3"@, "gnb4.free5gc.org:192.0.0.4"@, "ue1.free5gc.org:192.0.0.5"@, "upf.free5gc.org:192.0.0.6"@, "nrf.free5gc.org:192.0.0.7"@, "amf.free5gc.org:192.0.0.8"@, "ausf.free5gc.org:192.0.0.9"@, "nssf.free5gc.org:192.0.0.10"@, "pcf.free5gc.org:192.0.0.11"@, "smf.free5gc.org:192.0.0.12"@, "udm.free5gc.org:192.0.0.13"@, "udr.free5gc.org:192.0.0.14"@, "chf.free5gc.org:192.0.0.15"@, "n3iwf.free5gc.org:192.0.0.16"@, "webui:192.0.0.17"@, "db:192.0.0.18"@, "n3ue.free5gc.org:192.0.0.19"@, "upf1.free5gc.org:192.0.0.20"@, "smf1.free5gc.org:192.0.0.21"@],
{
}

/// Law: the containers that `test` connects are the ones `start_demo`
/// starts, in its order, with the database under its host name `db` (see
/// `lemma_hosts_match_deployment`), followed by `ueransim1` to `ueransim5`;
/// the peers that `situation` connects with its UPF and SMF are the same
/// list without the core's UPF and SMF.
pub proof fn lemma_intent_nodes_follow_deployment()
    ensures
        test_nodes_spec().len() == core_deployment_spec().len() + 5,
        forall|k: int|
            0 <= k < core_deployment_spec().len() && k != 1 ==> #[trigger] test_nodes_spec()[k]
                == core_deployment_spec()[k].0,
        test_nodes_spec()[1] == host_label(all_hosts_spec()[core_deployment_spec()[1].1 - 1]),
        forall|i: nat| 1 <= i <= 5 ==> test_nodes_spec()[(14 + i) as int] == #[trigger] ueransim_name_spec(i),
        core_deployment_spec()[0].0 == "upf"@ && core_deployment_spec()[7].0 == "smf"@,
        situation_peers_spec() == test_nodes_spec().subrange(1, 7) + test_nodes_spec().subrange(8, 20),
{
    lemma_hosts_match_deployment();
    assert forall|k: int|
        0 <= k < core_deployment_spec().len() && k != 1 implies #[trigger] test_nodes_spec()[k]
            == core_deployment_spec()[k].0 by {
        lemma_index_cases(k);
    }
    assert forall|i: nat| 1 <= i <= 5 implies test_nodes_spec()[(14 + i) as int] == #[trigger] ueransim_name_spec(i) by {
        reveal_strlit("ueransim");
        reveal_strlit("ueransim1");
        reveal_strlit("ueransim2");
        reveal_strlit("ueransim3");
        reveal_strlit("ueransim4");
        reveal_strlit("ueransim5");
        lemma_index_cases(i as int);
        assert(test_nodes_spec()[(14 + i) as int] =~= ueransim_name_spec(i));
    }
    assert(situation_peers_spec() =~= test_nodes_spec().subrange(1, 7) + test_nodes_spec().subrange(8, 20));
}

} // verus!
