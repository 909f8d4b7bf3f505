//! MAC addresses: the random, locally administered addresses given to new
//! veth ends, and the address read back from a container's `ip addr` output.

use vstd::prelude::*;
use crate::text::digit_char;
use rand::{Rng, SeedableRng};

verus! {

/// The lower-case hexadecimal digit of a nibble.
pub open spec fn hex_digit(n: nat) -> char {
    if n < 10 {
        digit_char(n)
    } else if n == 10 {
        'a'
    } else if n == 11 {
        'b'
    } else if n == 12 {
        'c'
    } else if n == 13 {
        'd'
    } else if n == 14 {
        'e'
    } else {
        'f'
    }
}

/// Law: the digit of nibble `n` is the character `0` to `9` for `n < 10`
/// and `a` to `f` after that: its code is `48 + n`, or `87 + n`.
pub proof fn lemma_hex_digit_value(n: nat)
    requires
        n < 16,
    ensures
        (hex_digit(n) as u32) == (if n < 10 { 48 + n } else { 87 + n }),
{
    crate::topology::lemma_index_cases(n as int);
}

/// The two lower-case hexadecimal digits of a byte, high nibble first.
pub open spec fn hex_byte(b: u8) -> Seq<char> {
    seq![hex_digit((b / 16) as nat), hex_digit((b % 16) as nat)]
}

/// The bytes written as hexadecimal pairs joined by `:`.
pub open spec fn mac_text(bytes: Seq<u8>) -> Seq<char>
    decreases bytes.len(),
{
    if bytes.len() == 0 {
        Seq::<char>::empty()
    } else if bytes.len() == 1 {
        hex_byte(bytes[0])
    } else {
        mac_text(bytes.drop_last()) + seq![':'] + hex_byte(bytes.last())
    }
}

/// The first byte with the multicast bit cleared and the
/// locally-administered bit set.
pub open spec fn local_unicast_byte(b: u8) -> u8 {
    ((b & 0xFE) | 0x02) as u8
}

/// The six bytes with their first byte made locally administered and unicast.
pub open spec fn local_unicast(bytes: Seq<u8>) -> Seq<u8> {
    bytes.update(0, local_unicast_byte(bytes[0]))
}

/// `hex::encode` of a single byte: its two lower-case hexadecimal digits,
/// high nibble first (the crate looks both nibbles up in "0123456789abcdef").
#[verifier::external_body]
fn hex_encode_byte(b: u8) -> (res: String)
    ensures
        res@ == hex_byte(b),
{
    hex::encode(vec![b])
}

/// Six bytes drawn from `rand`'s `StdRng`, seeded from the operating
/// system's random source (`StdRng::from_rng(OsRng)`, which fills the seed
/// with `getrandom` as `from_entropy` does, but reports a failure of the
/// source instead of panicking) and sampled with the `Standard`
/// distribution. `None` when the operating system gave no entropy. Nothing
/// is stated of the bytes: any six bytes may come back.
#[verifier::external_body]
fn random_bytes() -> (res: Option<[u8; 6]>) {
    match rand::rngs::StdRng::from_rng(rand::rngs::OsRng) {
        Ok(mut rng) => Some(rng.sample(rand::distributions::Standard)),
        Err(_) => None,
    }
}

/// The text of a locally administered unicast MAC address made from six
/// bytes: the first byte gets its multicast bit cleared and its
/// locally-administered bit set, then every byte is written as two
/// lower-case hex digits, joined by `:`.
pub fn mac_from_bytes(arr: [u8; 6]) -> (res: String)
    ensures
        res@ == mac_text(local_unicast(arr@)),
{
    let ghost bytes = local_unicast(arr@);
    let first: u8 = (arr[0] & 0xFE) | 0x2;
    let mut mac = String::new();
    let mut i: usize = 0;
    assert(bytes.take(0) =~= Seq::<u8>::empty());
    while i < 6
        invariant
            i <= 6,
            bytes.len() == 6,
            bytes == local_unicast(arr@),
            first == bytes[0],
            forall|k: int| 1 <= k < 6 ==> bytes[k] == arr@[k],
            mac@ == mac_text(bytes.take(i as int)),
        decreases 6 - i,
    {
        let b: u8 = if i == 0 { first } else { arr[i] };
        let pair = hex_encode_byte(b);
        let ghost before = mac@;
        assert(bytes.take(i + 1).drop_last() =~= bytes.take(i as int));
        assert(bytes.take(i + 1).last() == b);
        if i != 0 {
            proof {
                reveal_strlit(":");
            }
            mac.append(":");
            mac.append(pair.as_str());
            assert(mac@ =~= before + seq![':'] + hex_byte(b));
        } else {
            mac.append(pair.as_str());
            assert(mac@ =~= hex_byte(b));
        }
        i = i + 1;
    }
    assert(bytes.take(6) =~= bytes);
    mac
}

/// A random locally administered unicast MAC address, as `ip link set ...
/// address` takes it; `None` when the operating system has no entropy to
/// give.
pub fn random_mac() -> (res: Option<String>)
    ensures
        res matches Some(m) ==> exists|b: Seq<u8>| b.len() == 6 && m@ == mac_text(local_unicast(b)),
{
    match random_bytes() {
        Some(arr) => {
            let mac = mac_from_bytes(arr);
            assert(arr@.len() == 6 && mac@ == mac_text(local_unicast(arr@)));
            Some(mac)
        },
        None => None,
    }
}

/// Whatever byte comes first, the address made from it is unicast (bit 0
/// clear) and locally administered (bit 1 set).
pub proof fn lemma_local_unicast_bits(b: u8)
    ensures
        local_unicast_byte(b) & 0x01 == 0,
        local_unicast_byte(b) & 0x02 == 0x02,
{
    assert(((b & 0xFE) | 0x02) & 0x01 == 0) by (bit_vector);
    assert(((b & 0xFE) | 0x02) & 0x02 == 0x02) by (bit_vector);
}

/// The pattern that finds the MAC address in `ip addr show` output.
pub open spec fn ether_pattern() -> Seq<char> {
    "link\\/ether ([\\d\\w]{2}\\:[\\d\\w]{2}\\:[\\d\\w]{2}\\:[\\d\\w]{2}\\:[\\w\\d]{2}\\:[\\w\\d]{2})"@
}

/// Law: the address is looked for with the pattern `link\/ether ` followed
/// by six groups of two word characters (`[\d\w]{2}`, which takes in the
/// lower-case hex digits of an address) joined by `:`, captured as group 1.
pub proof fn lemma_ether_pattern()
    ensures
        ether_pattern() == "link\\/ether ([\\d\\w]{2}\\:[\\d\\w]{2}\\:[\\d\\w]{2}\\:[\\d\\w]{2}\\:[\\w\\d]{2}\\:[\\w\\d]{2})"@,
{
}

/// What the `regex` crate finds: `None` when `pattern` does not compile
/// (`Regex::new` fails), `Some(None)` when the pattern does not match `text`
/// or the group did not take part in the leftmost-first match, otherwise the
/// text of that group.
pub uninterp spec fn regex_capture(pattern: Seq<char>, text: Seq<char>, group: usize) -> Option<Option<Seq<char>>>;

/// Compiles `pattern` with `regex::Regex::new`, runs `Regex::captures` on
/// `text` and takes group `group` with `Captures::get`. The result is named
/// `regex_capture` of the arguments; nothing more is stated of it.
#[verifier::external_body]
fn regex_group(pattern: &str, text: &str, group: usize) -> (res: Option<Option<String>>)
    ensures
        res.deep_view() == regex_capture(pattern@, text@, group),
{
    match regex::Regex::new(pattern) {
        Err(_) => None,
        Ok(re) => match re.captures(text) {
            None => Some(None),
            Some(caps) => match caps.get(group) {
                None => Some(None),
                Some(m) => Some(Some(m.as_str().to_string())),
            },
        },
    }
}

/// The MAC address that `ip addr show dev eth0` printed after `link/ether`,
/// if there is one. (The pattern is fixed and compiles, so the outcome where
/// it would not is folded into "no address".)
pub fn mac_from_ip_output(output: &str) -> (res: Option<String>)
    ensures
        res.deep_view() == (match regex_capture(ether_pattern(), output@, 1) {
            Some(found) => found,
            None => None,
        }),
        res.deep_view() == (match regex_capture(
            "link\\/ether ([\\d\\w]{2}\\:[\\d\\w]{2}\\:[\\d\\w]{2}\\:[\\d\\w]{2}\\:[\\w\\d]{2}\\:[\\w\\d]{2})"@,
            output@,
            1,
        ) {
            Some(found) => found,
            None => None,
        }),
{
    let pattern = "link\\/ether ([\\d\\w]{2}\\:[\\d\\w]{2}\\:[\\d\\w]{2}\\:[\\d\\w]{2}\\:[\\w\\d]{2}\\:[\\w\\d]{2})";
    match regex_group(pattern, output, 1) {
        Some(found) => found,
        None => None,
    }
}

/// Appends the MAC address that was found, if any, to the list of nodes.
pub fn record_mac(nodes: &mut Vec<String>, mac: Option<String>)
    ensures
        final(nodes)@ == (match mac {
            Some(m) => old(nodes)@.push(m),
            None => old(nodes)@,
        }),
{
    match mac {
        Some(m) => nodes.push(m),
        None => {},
    }
}

} // verus!
