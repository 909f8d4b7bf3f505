//! Text helpers shared by the planners: decimal numerals, line splitting with
//! the semantics of `str::lines`, and splitting at a separator character.

use vstd::prelude::*;
use vstd::string::*;

verus! {

/// The character of a decimal digit.
pub open spec fn digit_char(d: nat) -> char {
    if d == 0 { '0' }
    else if d == 1 { '1' }
    else if d == 2 { '2' }
    else if d == 3 { '3' }
    else if d == 4 { '4' }
    else if d == 5 { '5' }
    else if d == 6 { '6' }
    else if d == 7 { '7' }
    else if d == 8 { '8' }
    else { '9' }
}

/// The decimal numeral of `n`, without leading zeros, as `format!("{}", n)` writes it.
pub open spec fn decimal(n: nat) -> Seq<char>
    decreases n,
{
    if n < 10 {
        seq![digit_char(n)]
    } else {
        decimal(n / 10).push(digit_char(n % 10))
    }
}

/// Writes the decimal numeral of `n`.
pub fn decimal_string(n: u64) -> (res: String)
    ensures
        res@ == decimal(n as nat),
    decreases n,
{
    let digits = "0123456789";
    proof {
        reveal_strlit("0123456789");
    }
    let d = (n % 10) as usize;
    let last = digits.substring_char(d, d + 1);
    assert(last@ =~= seq![digit_char(d as nat)]);
    if n < 10 {
        String::from_str(last)
    } else {
        let mut head = decimal_string(n / 10);
        head.append(last);
        head
    }
}

/// A fresh string holding `a` followed by `b`.
pub fn concat2(a: &str, b: &str) -> (res: String)
    ensures
        res@ == a@ + b@,
{
    let mut r = String::from_str(a);
    r.append(b);
    r
}

/// A fresh string holding `a`, `b` and `c` in turn.
pub fn concat3(a: &str, b: &str, c: &str) -> (res: String)
    ensures
        res@ == a@ + b@ + c@,
{
    let mut r = String::from_str(a);
    r.append(b);
    r.append(c);
    r
}

/// The pieces of `s` between its newline characters: one more piece than
/// there are newlines, the last one possibly empty.
pub open spec fn newline_pieces(s: Seq<char>) -> Seq<Seq<char>>
    decreases s.len(),
{
    if s.len() == 0 {
        seq![Seq::<char>::empty()]
    } else {
        let p = newline_pieces(s.drop_last());
        if s.last() == '\n' {
            p.push(Seq::<char>::empty())
        } else {
            p.update(p.len() - 1, p.last().push(s.last()))
        }
    }
}

/// A line that was ended by `\n` loses one trailing `\r`.
pub open spec fn strip_cr(l: Seq<char>) -> Seq<char> {
    if l.len() > 0 && l.last() == '\r' {
        l.drop_last()
    } else {
        l
    }
}

/// The lines of `s` as `str::lines` yields them: split at `\n`, each line
/// that a `\n` ended loses one trailing `\r`, and a last line that no `\n`
/// ends is kept only when it is not empty.
pub open spec fn lines_of(s: Seq<char>) -> Seq<Seq<char>> {
    let p = newline_pieces(s);
    let ended = p.drop_last().map_values(|l: Seq<char>| strip_cr(l));
    if p.last().len() == 0 {
        ended
    } else {
        ended.push(p.last())
    }
}

/// Splits `s` into its lines, as `s.lines()` does.
pub fn split_lines(s: &str) -> (res: Vec<String>)
    ensures
        res.deep_view() == lines_of(s@),
{
    let n = s.unicode_len();
    let mut done: Vec<String> = Vec::new();
    let mut start: usize = 0;
    let mut i: usize = 0;
    assert(s@.take(0) =~= Seq::<char>::empty());
    while i < n
        invariant
            n == s@.len(),
            start <= i <= n,
            newline_pieces(s@.take(i as int)).len() >= 1,
            newline_pieces(s@.take(i as int)).last() == s@.subrange(start as int, i as int),
            done.deep_view() == newline_pieces(s@.take(i as int)).drop_last().map_values(
                |l: Seq<char>| strip_cr(l),
            ),
        decreases n - i,
    {
        let c = s.get_char(i);
        let ghost prev = newline_pieces(s@.take(i as int));
        assert(s@.take(i + 1).drop_last() =~= s@.take(i as int));
        assert(s@.take(i + 1).last() == c);
        if c == '\n' {
            let piece = if start < i && s.get_char(i - 1) == '\r' {
                s.substring_char(start, i - 1)
            } else {
                s.substring_char(start, i)
            };
            proof {
                let l = s@.subrange(start as int, i as int);
                if start < i && s@[i - 1] == '\r' {
                    assert(l.last() == '\r');
                    assert(l.drop_last() =~= s@.subrange(start as int, i - 1));
                }
                assert(piece@ == strip_cr(l));
            }
            let ghost old_done = done.deep_view();
            done.push(String::from_str(piece));
            start = i + 1;
            proof {
                let next = newline_pieces(s@.take(i + 1));
                assert(done.deep_view() =~= old_done.push(piece@));
                assert(next == prev.push(Seq::<char>::empty()));
                assert(next.drop_last() =~= prev);
                assert(s@.subrange(start as int, i + 1) =~= Seq::<char>::empty());
                assert(done.deep_view() =~= next.drop_last().map_values(
                    |l: Seq<char>| strip_cr(l),
                ));
            }
        } else {
            proof {
                let next = newline_pieces(s@.take(i + 1));
                assert(next == prev.update(prev.len() - 1, prev.last().push(c)));
                assert(next.drop_last() =~= prev.drop_last());
                assert(s@.subrange(start as int, i + 1) =~= s@.subrange(start as int, i as int).push(c));
            }
        }
        i = i + 1;
    }
    assert(s@.take(n as int) =~= s@);
    if start < n {
        let last = s.substring_char(start, n);
        done.push(String::from_str(last));
        assert(done.deep_view() =~= lines_of(s@));
    } else {
        assert(done.deep_view() =~= lines_of(s@));
    }
    done
}

/// The position of the first `c` in `s`, or `s.len()` when there is none.
pub open spec fn first_pos(s: Seq<char>, c: char) -> nat
    decreases s.len(),
{
    if s.len() == 0 {
        0
    } else if s[0] == c {
        0
    } else {
        1 + first_pos(s.drop_first(), c)
    }
}

/// `first_pos` lies within `s`, points at a `c` unless it is the end, and no
/// `c` comes before it.
pub proof fn lemma_first_pos(s: Seq<char>, c: char)
    ensures
        first_pos(s, c) <= s.len(),
        first_pos(s, c) < s.len() ==> s[first_pos(s, c) as int] == c,
        forall|j: int| 0 <= j < first_pos(s, c) ==> s[j] != c,
    decreases s.len(),
{
    if s.len() > 0 && s[0] != c {
        lemma_first_pos(s.drop_first(), c);
        assert forall|j: int| 0 <= j < first_pos(s, c) implies s[j] != c by {
            if j > 0 {
                assert(s[j] == s.drop_first()[j - 1]);
            }
        }
    }
}

/// Only the first `c` is the first `c`: a position with no `c` before it that
/// holds `c` (or is the end) is `first_pos`.
pub proof fn lemma_first_pos_unique(s: Seq<char>, c: char, i: int)
    requires
        0 <= i <= s.len(),
        forall|j: int| 0 <= j < i ==> s[j] != c,
        i < s.len() ==> s[i] == c,
    ensures
        first_pos(s, c) == i,
    decreases s.len(),
{
    if s.len() > 0 && s[0] != c {
        assert forall|j: int| 0 <= j < i - 1 implies s.drop_first()[j] != c by {
            assert(s[j + 1] != c);
        }
        lemma_first_pos_unique(s.drop_first(), c, i - 1);
    }
}

/// The text of `s` before its first `c`; all of `s` when it holds none.
/// This is the first item of `s.split(c)`.
pub open spec fn before_first(s: Seq<char>, c: char) -> Seq<char> {
    s.take(first_pos(s, c) as int)
}

/// The text of `s` after its first `c`; empty when it holds none.
pub open spec fn after_first(s: Seq<char>, c: char) -> Seq<char> {
    if first_pos(s, c) < s.len() {
        s.skip(first_pos(s, c) as int + 1)
    } else {
        Seq::<char>::empty()
    }
}

/// Finds the first `c` in `s`.
pub fn find_char(s: &str, c: char) -> (res: usize)
    ensures
        res == first_pos(s@, c),
{
    let n = s.unicode_len();
    let mut i: usize = 0;
    while i < n
        invariant
            n == s@.len(),
            i <= n,
            forall|j: int| 0 <= j < i ==> s@[j] != c,
        decreases n - i,
    {
        if s.get_char(i) == c {
            proof {
                lemma_first_pos_unique(s@, c, i as int);
            }
            return i;
        }
        i = i + 1;
    }
    proof {
        lemma_first_pos_unique(s@, c, n as int);
    }
    n
}

/// The text of `s` before its first `c`, as `s.split(c).next()` gives it.
pub fn split_before<'a>(s: &'a str, c: char) -> (res: &'a str)
    ensures
        res@ == before_first(s@, c),
{
    let k = find_char(s, c);
    proof {
        lemma_first_pos(s@, c);
    }
    s.substring_char(0, k)
}

/// The text of `s` after its first `c`.
pub fn split_after<'a>(s: &'a str, c: char) -> (res: &'a str)
    ensures
        res@ == after_first(s@, c),
{
    let n = s.unicode_len();
    let k = find_char(s, c);
    proof {
        lemma_first_pos(s@, c);
    }
    if k < n {
        s.substring_char(k + 1, n)
    } else {
        s.substring_char(n, n)
    }
}

/// Whether `s` holds the character `c`.
pub fn has_char(s: &str, c: char) -> (res: bool)
    ensures
        res == s@.contains(c),
{
    let n = s.unicode_len();
    let k = find_char(s, c);
    proof {
        lemma_first_pos(s@, c);
    }
    k < n
}

/// A character is a decimal digit, `0` to `9`.
pub open spec fn is_digit(c: char) -> bool {
    48 <= (c as int) <= 57
}

/// The number that a string of decimal digits writes.
pub open spec fn digits_value(s: Seq<char>) -> int
    decreases s.len(),
{
    if s.len() == 0 {
        0
    } else {
        digits_value(s.drop_last()) * 10 + ((s.last() as int) - 48)
    }
}

proof fn lemma_digit_char(d: nat)
    requires
        d < 10,
    ensures
        is_digit(digit_char(d)),
        (digit_char(d) as int) - 48 == d,
{
}

/// A decimal numeral is a non-empty string of digits that writes its number.
pub proof fn lemma_decimal(n: nat)
    ensures
        decimal(n).len() >= 1,
        forall|i: int| 0 <= i < decimal(n).len() ==> is_digit(#[trigger] decimal(n)[i]),
        digits_value(decimal(n)) == n,
    decreases n,
{
    if n < 10 {
        lemma_digit_char(n);
        assert(decimal(n).drop_last() =~= Seq::<char>::empty());
        assert(digits_value(decimal(n).drop_last()) == 0);
        assert(decimal(n).last() == digit_char(n));
    } else {
        lemma_decimal(n / 10);
        lemma_digit_char(n % 10);
        vstd::arithmetic::div_mod::lemma_fundamental_div_mod(n as int, 10);
        let d = decimal(n);
        assert(d.drop_last() =~= decimal(n / 10));
        assert(d.last() == digit_char(n % 10));
        assert(digits_value(d) == digits_value(decimal(n / 10)) * 10 + (n % 10));
        assert(digits_value(d) == (n / 10) * 10 + (n % 10));
        assert forall|i: int| 0 <= i < d.len() implies is_digit(#[trigger] d[i]) by {
            if i < d.len() - 1 {
                assert(d[i] == decimal(n / 10)[i]);
            }
        }
    }
}

/// Different numbers have different numerals.
pub proof fn lemma_decimal_injective(n: nat, m: nat)
    requires
        decimal(n) == decimal(m),
    ensures
        n == m,
{
    lemma_decimal(n);
    lemma_decimal(m);
}

/// Whether `a` and `b` hold the same text.
pub fn same_text(a: &str, b: &str) -> (res: bool)
    ensures
        res == (a@ == b@),
{
    let n = a.unicode_len();
    if n != b.unicode_len() {
        return false;
    }
    let mut i: usize = 0;
    while i < n
        invariant
            n == a@.len(),
            n == b@.len(),
            i <= n,
            forall|j: int| 0 <= j < i ==> a@[j] == b@[j],
        decreases n - i,
    {
        if a.get_char(i) != b.get_char(i) {
            return false;
        }
        i = i + 1;
    }
    assert(a@ =~= b@);
    true
}

proof fn lemma_pieces_have_no_newline(s: Seq<char>)
    ensures
        newline_pieces(s).len() >= 1,
        forall|k: int, j: int|
            0 <= k < newline_pieces(s).len() && 0 <= j < newline_pieces(s)[k].len()
                ==> #[trigger] newline_pieces(s)[k][j] != '\n',
    decreases s.len(),
{
    if s.len() > 0 {
        lemma_pieces_have_no_newline(s.drop_last());
        let p = newline_pieces(s.drop_last());
        if s.last() != '\n' {
            let q = newline_pieces(s);
            assert forall|k: int, j: int| 0 <= k < q.len() && 0 <= j < q[k].len() implies #[trigger] q[k][j] != '\n' by {
                if k == q.len() - 1 {
                    if j < p.last().len() {
                        assert(q[k][j] == p.last()[j]);
                    }
                } else {
                    assert(q[k] == p[k]);
                }
            }
        }
    }
}

/// Law: no line that `split_lines` gives holds a newline.
pub proof fn lemma_lines_have_no_newline(s: Seq<char>)
    ensures
        forall|k: int| 0 <= k < lines_of(s).len() ==> !(#[trigger] lines_of(s)[k]).contains('\n'),
{
    lemma_pieces_have_no_newline(s);
    let p = newline_pieces(s);
    let l = lines_of(s);
    assert forall|k: int| 0 <= k < l.len() implies !(#[trigger] l[k]).contains('\n') by {
        if l[k].contains('\n') {
            let j = choose|j: int| 0 <= j < l[k].len() && l[k][j] == '\n';
            if k < p.len() - 1 {
                assert(l[k] == strip_cr(p[k]));
                assert(l[k][j] == p[k][j]);
            } else {
                assert(l[k] == p.last());
                assert(p[p.len() - 1][j] == '\n');
            }
        }
    }
}

} // verus!
