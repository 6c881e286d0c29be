//! Character-sequence helpers shared by the protocol decoder, the Tcl list
//! splitter and the command builders.
//!
//! Every text in this crate is modelled as a `Seq<char>`. The executable
//! helpers work on `&[char]` slices, which index in constant time, and the
//! conversions to and from `str` stand at the edges.

use vstd::prelude::*;
use vstd::string::*;
use vstd::utf8::{decode_utf8, valid_utf8};

verus! {

/// White space as Unicode defines it (the `White_Space` property).
pub open spec fn is_space(c: char) -> bool {
    let n = c as u32;
    ||| 0x09 <= n <= 0x0d
    ||| n == 0x20
    ||| n == 0x85
    ||| n == 0xa0
    ||| n == 0x1680
    ||| 0x2000 <= n <= 0x200a
    ||| n == 0x2028
    ||| n == 0x2029
    ||| n == 0x202f
    ||| n == 0x205f
    ||| n == 0x3000
}

/// `s` without its leading white space.
pub open spec fn trim_start(s: Seq<char>) -> Seq<char>
    decreases s.len(),
{
    if s.len() > 0 && is_space(s.first()) {
        trim_start(s.drop_first())
    } else {
        s
    }
}

/// `s` without its trailing white space.
pub open spec fn trim_end(s: Seq<char>) -> Seq<char>
    decreases s.len(),
{
    if s.len() > 0 && is_space(s.last()) {
        trim_end(s.drop_last())
    } else {
        s
    }
}

/// `s` without leading and trailing white space.
pub open spec fn trim(s: Seq<char>) -> Seq<char> {
    trim_end(trim_start(s))
}

/// `pat` occurs in `s` at index `i`.
pub open spec fn occurs_at(s: Seq<char>, pat: Seq<char>, i: int) -> bool {
    0 <= i && i + pat.len() <= s.len() && s.subrange(i, i + pat.len()) == pat
}

/// The first index at or after `from` at which `pat` occurs in `s`.
pub open spec fn find_from(s: Seq<char>, pat: Seq<char>, from: int) -> Option<int>
    decreases s.len() + 1 - from,
{
    if from < 0 || from + pat.len() > s.len() {
        None
    } else if occurs_at(s, pat, from) {
        Some(from)
    } else {
        find_from(s, pat, from + 1)
    }
}

/// The first index at which `pat` occurs in `s`.
pub open spec fn find(s: Seq<char>, pat: Seq<char>) -> Option<int> {
    find_from(s, pat, 0)
}

/// The character that writes the decimal digit `d`.
pub open spec fn digit(d: int) -> char {
    if d == 0 {
        '0'
    } else if d == 1 {
        '1'
    } else if d == 2 {
        '2'
    } else if d == 3 {
        '3'
    } else if d == 4 {
        '4'
    } else if d == 5 {
        '5'
    } else if d == 6 {
        '6'
    } else if d == 7 {
        '7'
    } else if d == 8 {
        '8'
    } else {
        '9'
    }
}

/// `c` is one of the ten decimal digits.
pub open spec fn is_digit(c: char) -> bool {
    exists|d: int| 0 <= d < 10 && c == digit(d)
}

/// The decimal numeral of `n`, without sign or leading zeros.
pub open spec fn decimal(n: nat) -> Seq<char>
    decreases n,
{
    if n < 10 {
        seq![digit(n as int)]
    } else {
        decimal(n / 10).push(digit((n % 10) as int))
    }
}

/// The decimal numeral of `n`, with a leading `-` below zero.
pub open spec fn signed_decimal(n: int) -> Seq<char> {
    if n < 0 {
        seq!['-'] + decimal((-n) as nat)
    } else {
        decimal(n as nat)
    }
}

/// A decimal numeral is never empty and holds digits only.
pub proof fn lemma_decimal_digits(n: nat)
    ensures
        decimal(n).len() >= 1,
        forall|i: int| 0 <= i < decimal(n).len() ==> is_digit(#[trigger] decimal(n)[i]),
    decreases n,
{
    if n < 10 {
        assert(is_digit(digit(n as int)));
    } else {
        lemma_decimal_digits(n / 10);
        assert(is_digit(digit((n % 10) as int)));
    }
}

/// Two numbers with the same decimal numeral are the same number.
pub proof fn lemma_decimal_injective(a: nat, b: nat)
    requires
        decimal(a) == decimal(b),
    ensures
        a == b,
    decreases a,
{
    lemma_decimal_digits(a / 10);
    lemma_decimal_digits(b / 10);
    if a < 10 && b < 10 {
        assert(decimal(a) == seq![digit(a as int)]);
        assert(decimal(b) == seq![digit(b as int)]);
        assert(seq![digit(a as int)][0] == digit(a as int));
        assert(seq![digit(b as int)][0] == digit(b as int));
        assert(digit(a as int) == digit(b as int));
    } else if a < 10 {
        assert(decimal(a) == seq![digit(a as int)]);
        assert(decimal(b) == decimal(b / 10).push(digit((b % 10) as int)));
        assert(decimal(a).len() != decimal(b).len());
    } else if b < 10 {
        assert(decimal(b) == seq![digit(b as int)]);
        assert(decimal(a) == decimal(a / 10).push(digit((a % 10) as int)));
        assert(decimal(a).len() != decimal(b).len());
    } else {
        let x = decimal(a / 10);
        let y = decimal(b / 10);
        assert(decimal(a) == x.push(digit((a % 10) as int)));
        assert(decimal(b) == y.push(digit((b % 10) as int)));
        assert(x == decimal(a).drop_last());
        assert(y == decimal(b).drop_last());
        assert(digit((a % 10) as int) == decimal(a).last());
        assert(digit((b % 10) as int) == decimal(b).last());
        lemma_decimal_injective(a / 10, b / 10);
    }
}

/// A signed decimal numeral is never empty and holds no letter `r`.
pub proof fn lemma_numeral_chars(n: int)
    ensures
        signed_decimal(n).len() >= 1,
        forall|i: int| 0 <= i < signed_decimal(n).len() ==> signed_decimal(n)[i] != 'r',
{
    let m: nat = if n < 0 {
        (-n) as nat
    } else {
        n as nat
    };
    lemma_decimal_digits(m);
    assert forall|i: int| 0 <= i < decimal(m).len() implies decimal(m)[i] != 'r' by {
        assert(is_digit(decimal(m)[i]));
    }
    if n < 0 {
        assert forall|i: int| 0 <= i < signed_decimal(n).len() implies signed_decimal(n)[i]
            != 'r' by {
            if i > 0 {
                assert(signed_decimal(n)[i] == decimal(m)[i - 1]);
            }
        }
    }
}

/// Two numbers with the same signed decimal numeral are the same number.
pub proof fn lemma_signed_decimal_injective(a: int, b: int)
    requires
        signed_decimal(a) == signed_decimal(b),
    ensures
        a == b,
{
    if a < 0 && b < 0 {
        let x = decimal((-a) as nat);
        let y = decimal((-b) as nat);
        assert(x == signed_decimal(a).skip(1));
        assert(y == signed_decimal(b).skip(1));
        lemma_decimal_injective((-a) as nat, (-b) as nat);
    } else if a >= 0 && b >= 0 {
        lemma_decimal_injective(a as nat, b as nat);
    } else {
        let neg = if a < 0 {
            a
        } else {
            b
        };
        let pos = if a < 0 {
            b
        } else {
            a
        };
        lemma_decimal_digits(pos as nat);
        assert(signed_decimal(neg)[0] == '-');
        assert(is_digit(signed_decimal(pos)[0]));
    }
}

/// Two texts that end in the numerals of different numbers, each after a
/// letter `r`, differ.
pub proof fn lemma_numbered_apart(p: Seq<char>, q: Seq<char>, a: int, b: int)
    requires
        p.len() > 0,
        p.last() == 'r',
        q.len() > 0,
        q.last() == 'r',
        a != b,
    ensures
        p + signed_decimal(a) != q + signed_decimal(b),
{
    let x = signed_decimal(a);
    let y = signed_decimal(b);
    lemma_numeral_chars(a);
    lemma_numeral_chars(b);
    if p + x == q + y {
        let s = p + x;
        assert(s.len() == p.len() + x.len());
        assert(s.len() == q.len() + y.len());
        if x.len() == y.len() {
            assert(x == s.skip(p.len() as int));
            assert(y == (q + y).skip(q.len() as int));
            lemma_signed_decimal_injective(a, b);
        } else if x.len() < y.len() {
            assert(s[p.len() - 1] == 'r');
            assert((q + y)[p.len() - 1] == y[p.len() - 1 - q.len()]);
        } else {
            assert((q + y)[q.len() - 1] == 'r');
            assert(s[q.len() - 1] == x[q.len() - 1 - p.len()]);
        }
    }
}

pub(crate) fn is_space_char(c: char) -> (r: bool)
    ensures
        r == is_space(c),
{
    let n: u32 = c as u32;
    (0x09 <= n && n <= 0x0d) || n == 0x20 || n == 0x85 || n == 0xa0 || n == 0x1680 || (0x2000 <= n
        && n <= 0x200a) || n == 0x2028 || n == 0x2029 || n == 0x202f || n == 0x205f || n == 0x3000
}

/// The characters of `s`, one element each.
pub(crate) fn chars_of(s: &str) -> (v: Vec<char>)
    ensures
        v@ == s@,
{
    let mut v: Vec<char> = Vec::new();
    for c in it: s.chars()
        invariant
            v@ == it.seq().take(it.index()),
    {
        v.push(c);
    }
    v
}

/// `core::str::from_utf8` accepts the byte sequences that are well-formed
/// UTF-8, and no others; the text it returns is the one that the bytes
/// encode.
#[verifier::external_body]
pub(crate) fn text_of_utf8(bytes: &[u8]) -> (r: Option<&str>)
    ensures
        r is Some <==> valid_utf8(bytes@),
        r matches Some(text) ==> text@ == decode_utf8(bytes@),
{
    core::str::from_utf8(bytes).ok()
}

/// `String::push` appends one character to the end of the string.
#[verifier::external_body]
fn push_char(s: &mut String, c: char)
    ensures
        final(s)@ == old(s)@.push(c),
{
    s.push(c)
}

/// The string made of the characters of `s`.
pub(crate) fn string_of(s: &[char]) -> (r: String)
    ensures
        r@ == s@,
{
    let mut r = String::new();
    let mut i: usize = 0;
    while i < s.len()
        invariant
            i <= s.len(),
            r@ == s@.take(i as int),
        decreases s.len() - i,
    {
        push_char(&mut r, s[i]);
        i += 1;
    }
    r
}

fn digit_char(d: u64) -> (c: char)
    requires
        d < 10,
    ensures
        c == digit(d as int),
{
    if d == 0 {
        '0'
    } else if d == 1 {
        '1'
    } else if d == 2 {
        '2'
    } else if d == 3 {
        '3'
    } else if d == 4 {
        '4'
    } else if d == 5 {
        '5'
    } else if d == 6 {
        '6'
    } else if d == 7 {
        '7'
    } else if d == 8 {
        '8'
    } else {
        '9'
    }
}

/// Appends the decimal numeral of `n` to `s`.
pub(crate) fn push_decimal(s: &mut String, n: u64)
    ensures
        final(s)@ == old(s)@ + decimal(n as nat),
    decreases n,
{
    if n >= 10 {
        push_decimal(s, n / 10);
    }
    push_char(s, digit_char(n % 10));
    assert(s@ =~= old(s)@ + decimal(n as nat));
}

/// Appends the decimal numeral of `n` to `s`, with a `-` in front below zero.
pub(crate) fn push_signed_decimal(s: &mut String, n: i64)
    ensures
        final(s)@ == old(s)@ + signed_decimal(n as int),
{
    if n < 0 {
        push_char(s, '-');
        let m: u64 = (-(n as i128)) as u64;
        push_decimal(s, m);
        assert(s@ =~= old(s)@ + signed_decimal(n as int));
    } else {
        push_decimal(s, n as u64);
    }
}

pub(crate) fn same_chars(a: &[char], b: &[char]) -> (r: bool)
    ensures
        r == (a@ == b@),
{
    if a.len() != b.len() {
        return false;
    }
    let mut i: usize = 0;
    while i < a.len()
        invariant
            i <= a.len(),
            a.len() == b.len(),
            a@.take(i as int) == b@.take(i as int),
        decreases a.len() - i,
    {
        if a[i] != b[i] {
            return false;
        }
        assert(a@.take(i + 1) == a@.take(i as int).push(a@[i as int]));
        assert(b@.take(i + 1) == b@.take(i as int).push(b@[i as int]));
        i += 1;
    }
    assert(a@ == a@.take(a.len() as int));
    assert(b@ == b@.take(b.len() as int));
    true
}

/// Whether two texts hold the same characters.
pub(crate) fn same_text(a: &str, b: &str) -> (r: bool)
    ensures
        r == (a@ == b@),
{
    let x = chars_of(a);
    let y = chars_of(b);
    same_chars(x.as_slice(), y.as_slice())
}

pub(crate) fn occurs_here(s: &[char], pat: &[char], i: usize) -> (r: bool)
    ensures
        r == occurs_at(s@, pat@, i as int),
{
    if pat.len() > s.len() || i > s.len() - pat.len() {
        return false;
    }
    same_chars(&s[i..i + pat.len()], pat)
}

pub(crate) fn starts_with(s: &[char], pat: &[char]) -> (r: bool)
    ensures
        r == pat@.is_prefix_of(s@),
{
    let r = occurs_here(s, pat, 0);
    assert(pat@.is_prefix_of(s@) <==> occurs_at(s@, pat@, 0)) by {
        if pat@.is_prefix_of(s@) {
            assert(s@.subrange(0, pat@.len() as int) =~= pat@);
        }
        if occurs_at(s@, pat@, 0) {
            assert(forall|k: int|
                0 <= k < pat@.len() ==> s@.subrange(0, pat@.len() as int)[k] == s@[k]);
        }
    }
    r
}

pub(crate) fn find_chars(s: &[char], pat: &[char]) -> (r: Option<usize>)
    ensures
        r matches Some(i) ==> i + pat.len() <= s.len() && find(s@, pat@) == Some(i as int),
        r is None ==> find(s@, pat@) is None,
{
    if pat.len() > s.len() {
        return None;
    }
    let last: usize = s.len() - pat.len();
    let mut i: usize = 0;
    loop
        invariant
            i <= last,
            last == s.len() - pat.len(),
            find(s@, pat@) == find_from(s@, pat@, i as int),
        decreases last - i,
    {
        if occurs_here(s, pat, i) {
            return Some(i);
        }
        if i == last {
            assert(find_from(s@, pat@, i + 1) is None);
            return None;
        }
        i += 1;
    }
}

pub(crate) fn position_of(s: &[char], c: char) -> (r: Option<usize>)
    ensures
        r matches Some(i) ==> i < s.len() && s@.index_of_first(c) == Some(i as int),
        r is None ==> s@.index_of_first(c) is None,
{
    let mut i: usize = 0;
    while i < s.len()
        invariant
            i <= s.len(),
            forall|j: int| 0 <= j < i ==> s@[j] != c,
        decreases s.len() - i,
    {
        if s[i] == c {
            proof {
                s@.index_of_first_ensures(c);
                assert(s@.contains(c));
            }
            return Some(i);
        }
        i += 1;
    }
    proof {
        s@.index_of_first_ensures(c);
    }
    None
}

pub(crate) fn trim_chars(s: &[char]) -> (r: &[char])
    ensures
        r@ == trim(s@),
{
    let mut a: usize = 0;
    assert(s@.skip(0) == s@);
    while a < s.len() && is_space_char(s[a])
        invariant
            a <= s.len(),
            trim_start(s@) == trim_start(s@.skip(a as int)),
        decreases s.len() - a,
    {
        assert(s@.skip(a as int).drop_first() == s@.skip(a + 1));
        a += 1;
    }
    assert(trim_start(s@) == s@.skip(a as int));
    let t = &s[a..s.len()];
    assert(t@ == s@.skip(a as int));
    let mut b: usize = t.len();
    assert(t@ == t@.take(t.len() as int));
    while b > 0 && is_space_char(t[b - 1])
        invariant
            b <= t.len(),
            trim_end(t@) == trim_end(t@.take(b as int)),
        decreases b,
    {
        assert(t@.take(b as int).drop_last() == t@.take(b - 1));
        b -= 1;
    }
    &t[0..b]
}

/// Appends a text to a list of texts.
pub(crate) fn put(cmds: &mut Vec<String>, line: String)
    ensures
        final(cmds).deep_view() == old(cmds).deep_view().push(line@),
{
    cmds.push(line);
    assert(cmds.deep_view() =~= old(cmds).deep_view().push(line@));
}

/// Appends a list of texts to another.
pub(crate) fn extend(cmds: &mut Vec<String>, part: Vec<String>)
    ensures
        final(cmds).deep_view() == old(cmds).deep_view() + part.deep_view(),
{
    let mut part = part;
    let ghost tail = part.deep_view();
    cmds.append(&mut part);
    assert(cmds.deep_view() =~= old(cmds).deep_view() + tail);
}

pub(crate) fn no_commands() -> (cmds: Vec<String>)
    ensures
        cmds.deep_view() == Seq::<Seq<char>>::empty(),
{
    let cmds: Vec<String> = Vec::new();
    assert(cmds.deep_view() =~= Seq::<Seq<char>>::empty());
    cmds
}

} // verus!
