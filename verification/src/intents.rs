//! The ONOS host-to-host intents that connect the containers of the
//! deployment, one per pair of hosts and subnet.

use vstd::prelude::*;
use crate::text::concat2;
use crate::commands::owned;

verus! {

/// A host-to-host intent between two ONOS host ids, for one subnet.
pub struct HostIntent {
    pub one: String,
    pub two: String,
    pub subnet: String,
}

impl DeepView for HostIntent {
    type V = (Seq<char>, Seq<char>, Seq<char>);

    open spec fn deep_view(&self) -> Self::V {
        (self.one@, self.two@, self.subnet@)
    }
}

/// The ONOS host id of a MAC address on the untagged VLAN: `<mac>/None`.
pub open spec fn host_id(mac: Seq<char>) -> Seq<char> {
    mac + "/None"@
}

/// Writes the ONOS host id of a MAC address.
pub fn host_id_of(mac: &str) -> (res: String)
    ensures
        res@ == host_id(mac@),
{
    concat2(mac, "/None")
}

/// The subnets that every pair of hosts is connected in, in this order: the
/// management network, then the two user-plane networks.
pub open spec fn subnets() -> Seq<Seq<char>> {
    seq!["192.0.0.0/24"@, "10.60.0.0/24"@, "10.61.0.0/24"@]
}

/// Law: hosts are connected in `192.0.0.0/24`, `10.60.0.0/24` and
/// `10.61.0.0/24`, in that order, and an ONOS host id is the MAC address
/// followed by `/None`.
pub proof fn lemma_subnets_listed(mac: Seq<char>)
    ensures
        subnets() == seq!["192.0.0.0/24"@, "10.60.0.0/24"@, "10.61.0.0/24"@],
        host_id(mac) == mac + "/None"@,
{
}

/// The three intents between two hosts, one per subnet.
pub open spec fn pair_intents(a: Seq<char>, b: Seq<char>) -> Seq<(Seq<char>, Seq<char>, Seq<char>)> {
    seq![
        (host_id(a), host_id(b), subnets()[0]),
        (host_id(a), host_id(b), subnets()[1]),
        (host_id(a), host_id(b), subnets()[2]),
    ]
}

/// The intents from node `i` to nodes `i + 1` up to (not including) `j`.
pub open spec fn intent_row(nodes: Seq<Seq<char>>, i: int, j: int) -> Seq<(Seq<char>, Seq<char>, Seq<char>)>
    decreases j - i,
{
    if j <= i + 1 {
        Seq::empty()
    } else {
        intent_row(nodes, i, j - 1) + pair_intents(nodes[i], nodes[j - 1])
    }
}

/// The intents from nodes `0` up to (not including) `k` to every later node.
pub open spec fn intent_rows(nodes: Seq<Seq<char>>, k: int) -> Seq<(Seq<char>, Seq<char>, Seq<char>)>
    decreases k,
{
    if k <= 0 {
        Seq::empty()
    } else {
        intent_rows(nodes, k - 1) + intent_row(nodes, k - 1, nodes.len() as int)
    }
}

/// The intents of `add_host_intents`: for every node and every later node,
/// in order, one intent per subnet.
pub open spec fn host_intent_plan_spec(nodes: Seq<Seq<char>>) -> Seq<(Seq<char>, Seq<char>, Seq<char>)> {
    intent_rows(nodes, nodes.len() as int)
}

/// A fresh intent between the hosts of two MAC addresses.
fn make_intent(a: &str, b: &str, subnet: &str) -> (res: HostIntent)
    ensures
        res.deep_view() == (host_id(a@), host_id(b@), subnet@),
{
    HostIntent { one: host_id_of(a), two: host_id_of(b), subnet: owned(subnet) }
}

/// Appends the three intents between the hosts of `a` and `b`.
fn push_pair(res: &mut Vec<HostIntent>, a: &str, b: &str)
    ensures
        final(res).deep_view() == old(res).deep_view() + pair_intents(a@, b@),
{
    let ghost before = res.deep_view();
    let i1 = make_intent(a, b, "192.0.0.0/24");
    let i2 = make_intent(a, b, "10.60.0.0/24");
    let i3 = make_intent(a, b, "10.61.0.0/24");
    let ghost (v1, v2, v3) = (i1.deep_view(), i2.deep_view(), i3.deep_view());
    res.push(i1);
    res.push(i2);
    res.push(i3);
    assert(res.deep_view() =~= before + seq![v1, v2, v3]);
    assert(seq![v1, v2, v3] =~= pair_intents(a@, b@));
}

/// The intents that connect every two of the given nodes (MAC addresses) in
/// each subnet (`add_host_intents`): for each node, for each later node, one
/// intent per subnet.
pub fn host_intent_plan(nodes: &Vec<String>) -> (res: Vec<HostIntent>)
    ensures
        res.deep_view() == host_intent_plan_spec(nodes.deep_view()),
{
    let ghost ns = nodes.deep_view();
    let n = nodes.len();
    let mut res: Vec<HostIntent> = Vec::new();
    let mut i: usize = 0;
    while i < n
        invariant
            n == nodes.len(),
            ns == nodes.deep_view(),
            i <= n,
            res.deep_view() == intent_rows(ns, i as int),
        decreases n - i,
    {
        let mut j: usize = i + 1;
        while j < n
            invariant
                n == nodes.len(),
                ns == nodes.deep_view(),
                i < n,
                i + 1 <= j <= n,
                res.deep_view() == intent_rows(ns, i as int) + intent_row(ns, i as int, j as int),
            decreases n - j,
        {
            let ghost before = res.deep_view();
            push_pair(&mut res, nodes[i].as_str(), nodes[j].as_str());
            assert(intent_row(ns, i as int, j + 1) == intent_row(ns, i as int, j as int) + pair_intents(
                ns[i as int],
                ns[j as int],
            ));
            assert(res.deep_view() =~= intent_rows(ns, i as int) + intent_row(ns, i as int, j + 1));
            j = j + 1;
        }
        assert(intent_rows(ns, i + 1) == intent_rows(ns, i as int) + intent_row(ns, i as int, n as int));
        i = i + 1;
    }
    res
}

/// A row holds the intents from node `i` to every node before `j`.
proof fn lemma_row_contains(nodes: Seq<Seq<char>>, i: int, j: int, m: int, s: int)
    requires
        i < m < j,
        0 <= s < 3,
    ensures
        intent_row(nodes, i, j).contains((host_id(nodes[i]), host_id(nodes[m]), subnets()[s])),
    decreases j - i,
{
    let x = (host_id(nodes[i]), host_id(nodes[m]), subnets()[s]);
    let prefix = intent_row(nodes, i, j - 1);
    let pair = pair_intents(nodes[i], nodes[j - 1]);
    assert(intent_row(nodes, i, j) == prefix + pair);
    if m == j - 1 {
        assert((prefix + pair)[prefix.len() + s] == x);
    } else {
        lemma_row_contains(nodes, i, j - 1, m, s);
        let p = choose|p: int| 0 <= p < prefix.len() && prefix[p] == x;
        assert((prefix + pair)[p] == x);
    }
}

/// The rows up to `k` hold the intents from every node before `k`.
proof fn lemma_rows_contain(nodes: Seq<Seq<char>>, k: int, i: int, m: int, s: int)
    requires
        0 <= i < k,
        i < m < nodes.len(),
        0 <= s < 3,
    ensures
        intent_rows(nodes, k).contains((host_id(nodes[i]), host_id(nodes[m]), subnets()[s])),
    decreases k,
{
    let x = (host_id(nodes[i]), host_id(nodes[m]), subnets()[s]);
    let prefix = intent_rows(nodes, k - 1);
    let row = intent_row(nodes, k - 1, nodes.len() as int);
    assert(intent_rows(nodes, k) == prefix + row);
    if i == k - 1 {
        lemma_row_contains(nodes, i, nodes.len() as int, m, s);
        let p = choose|p: int| 0 <= p < row.len() && row[p] == x;
        assert((prefix + row)[prefix.len() + p] == x);
    } else {
        lemma_rows_contain(nodes, k - 1, i, m, s);
        let p = choose|p: int| 0 <= p < prefix.len() && prefix[p] == x;
        assert((prefix + row)[p] == x);
    }
}

/// Law: `add_host_intents` connects every node with every later node in
/// each of the three subnets.
pub proof fn lemma_host_intents_connect_every_pair(nodes: Seq<Seq<char>>, i: int, j: int, s: int)
    requires
        0 <= i < j < nodes.len(),
        0 <= s < 3,
    ensures
        host_intent_plan_spec(nodes).contains((host_id(nodes[i]), host_id(nodes[j]), subnets()[s])),
{
    lemma_rows_contain(nodes, nodes.len() as int, i, j, s);
}

/// The row of intents from node `i` to the nodes before `j` holds three
/// per later node.
proof fn lemma_row_len(nodes: Seq<Seq<char>>, i: int, j: int)
    requires
        i < j,
    ensures
        intent_row(nodes, i, j).len() == 3 * (j - i - 1),
    decreases j - i,
{
    if j > i + 1 {
        lemma_row_len(nodes, i, j - 1);
    }
}

/// The rows of the first `k` nodes hold `3 * k * (2n - k - 1) / 2` intents.
proof fn lemma_rows_len(nodes: Seq<Seq<char>>, k: int)
    requires
        0 <= k <= nodes.len(),
    ensures
        2 * intent_rows(nodes, k).len() == 3 * k * (2 * nodes.len() - k - 1),
    decreases k,
{
    if k > 0 {
        let n = nodes.len() as int;
        lemma_rows_len(nodes, k - 1);
        lemma_row_len(nodes, k - 1, n);
        let before = intent_rows(nodes, k - 1).len() as int;
        let row = intent_row(nodes, k - 1, n).len() as int;
        assert(intent_rows(nodes, k).len() == before + row);
        assert(2 * before == 3 * (k - 1) * (2 * n - (k - 1) - 1));
        assert(row == 3 * (n - (k - 1) - 1));
        assert(2 * (before + row) == 3 * k * (2 * n - k - 1)) by (nonlinear_arith)
            requires
                2 * before == 3 * (k - 1) * (2 * n - (k - 1) - 1),
                row == 3 * (n - (k - 1) - 1),
        ;
    } else {
        assert(3 * k * (2 * nodes.len() - k - 1) == 0) by (nonlinear_arith)
            requires
                k == 0,
        ;
    }
}

/// Law: `add_host_intents` adds `3 * n * (n - 1) / 2` intents for `n`
/// nodes: one per subnet for each pair of nodes `i < j` (each of which is
/// there, see `lemma_host_intents_connect_every_pair`), and no other.
pub proof fn lemma_host_intent_plan_len(nodes: Seq<Seq<char>>)
    ensures
        2 * host_intent_plan_spec(nodes).len() == 3 * nodes.len() * (nodes.len() - 1),
{
    lemma_rows_len(nodes, nodes.len() as int);
    let n = nodes.len() as int;
    assert(3 * n * (2 * n - n - 1) == 3 * n * (n - 1)) by (nonlinear_arith);
}

/// The six intents that `situation` adds for one peer: from the UPF and
/// from the SMF to the peer, in each subnet in turn.
pub open spec fn situation_peer_intents(upf: Seq<char>, smf: Seq<char>, peer: Seq<char>) -> Seq<(Seq<char>, Seq<char>, Seq<char>)> {
    seq![
        (host_id(upf), host_id(peer), subnets()[0]),
        (host_id(smf), host_id(peer), subnets()[0]),
        (host_id(upf), host_id(peer), subnets()[1]),
        (host_id(smf), host_id(peer), subnets()[1]),
        (host_id(upf), host_id(peer), subnets()[2]),
        (host_id(smf), host_id(peer), subnets()[2]),
    ]
}

/// The intents of `situation`, peer after peer.
pub open spec fn situation_plan_spec(upf: Seq<char>, smf: Seq<char>, peers: Seq<Seq<char>>) -> Seq<(Seq<char>, Seq<char>, Seq<char>)>
    decreases peers.len(),
{
    if peers.len() == 0 {
        Seq::empty()
    } else {
        situation_plan_spec(upf, smf, peers.drop_last()) + situation_peer_intents(upf, smf, peers.last())
    }
}

/// What `situation` does once it has looked for the MAC addresses of the
/// new UPF and SMF.
pub enum SituationStep {
    /// Both are up: gather the peers' addresses and connect them with these two.
    Connect { upf: String, smf: String },
    /// One of them is not up: report it and connect nothing.
    NotUp,
}

/// Decides the step of `situation` from the MAC addresses found for the new
/// UPF and SMF: connect when both were found, otherwise report that they
/// are not up.
pub fn situation_step(upf: Option<String>, smf: Option<String>) -> (res: SituationStep)
    ensures
        (upf is Some && smf is Some) ==> (res matches SituationStep::Connect { upf: u, smf: s } && u@
            == upf->0@ && s@ == smf->0@),
        !(upf is Some && smf is Some) ==> res is NotUp,
{
    match (upf, smf) {
        (Some(u), Some(s)) => SituationStep::Connect { upf: u, smf: s },
        _ => SituationStep::NotUp,
    }
}

/// The intents that connect the new UPF and SMF (given by their MAC
/// addresses) with every peer, as `situation` adds them: for each peer, UPF
/// then SMF, in each subnet in turn.
pub fn situation_intents(upf: &str, smf: &str, peers: &Vec<String>) -> (res: Vec<HostIntent>)
    ensures
        res.deep_view() == situation_plan_spec(upf@, smf@, peers.deep_view()),
{
    let ghost ps = peers.deep_view();
    let mut res: Vec<HostIntent> = Vec::new();
    let mut k: usize = 0;
    assert(ps.take(0) =~= Seq::<Seq<char>>::empty());
    while k < peers.len()
        invariant
            ps == peers.deep_view(),
            k <= peers.len(),
            res.deep_view() == situation_plan_spec(upf@, smf@, ps.take(k as int)),
        decreases peers.len() - k,
    {
        let peer = peers[k].as_str();
        let ghost before = res.deep_view();
        let a = make_intent(upf, peer, "192.0.0.0/24");
        let b = make_intent(smf, peer, "192.0.0.0/24");
        let c = make_intent(upf, peer, "10.60.0.0/24");
        let d = make_intent(smf, peer, "10.60.0.0/24");
        let e = make_intent(upf, peer, "10.61.0.0/24");
        let f = make_intent(smf, peer, "10.61.0.0/24");
        let ghost six = seq![a.deep_view(), b.deep_view(), c.deep_view(), d.deep_view(), e.deep_view(), f.deep_view()];
        res.push(a);
        res.push(b);
        res.push(c);
        res.push(d);
        res.push(e);
        res.push(f);
        assert(res.deep_view() =~= before + six);
        assert(six =~= situation_peer_intents(upf@, smf@, peer@));
        assert(ps.take(k + 1).drop_last() =~= ps.take(k as int));
        assert(ps.take(k + 1).last() == peer@);
        k = k + 1;
    }
    assert(ps.take(k as int) =~= ps);
    res
}

/// Law: `situation` connects the new UPF and the new SMF with every peer,
/// in each of the three subnets.
pub proof fn lemma_situation_connects_every_peer(upf: Seq<char>, smf: Seq<char>, peers: Seq<Seq<char>>, k: int, s: int)
    requires
        0 <= k < peers.len(),
        0 <= s < 3,
    ensures
        situation_plan_spec(upf, smf, peers).contains((host_id(upf), host_id(peers[k]), subnets()[s])),
        situation_plan_spec(upf, smf, peers).contains((host_id(smf), host_id(peers[k]), subnets()[s])),
    decreases peers.len(),
{
    let prefix = situation_plan_spec(upf, smf, peers.drop_last());
    let six = situation_peer_intents(upf, smf, peers.last());
    assert(situation_plan_spec(upf, smf, peers) == prefix + six);
    let x = (host_id(upf), host_id(peers[k]), subnets()[s]);
    let y = (host_id(smf), host_id(peers[k]), subnets()[s]);
    if k == peers.len() - 1 {
        assert((prefix + six)[prefix.len() + 2 * s] == x);
        assert((prefix + six)[prefix.len() + 2 * s + 1] == y);
    } else {
        lemma_situation_connects_every_peer(upf, smf, peers.drop_last(), k, s);
        assert(peers.drop_last()[k] == peers[k]);
        let p = choose|p: int| 0 <= p < prefix.len() && prefix[p] == x;
        let q = choose|q: int| 0 <= q < prefix.len() && prefix[q] == y;
        assert((prefix + six)[p] == x);
        assert((prefix + six)[q] == y);
    }
}

} // verus!
