//! IPv4 addresses in dotted-decimal text.

use vstd::prelude::*;

use crate::text::to_chars;

verus! {

/// An IPv4 address, by its four octets in order.
#[derive(Debug, Clone, Copy, PartialEq, Eq, Structural)]
pub struct Ipv4Literal {
    pub a: u8,
    pub b: u8,
    pub c: u8,
    pub d: u8,
}

/// A decimal digit.
pub open spec fn is_digit(c: char) -> bool {
    '0' <= c <= '9'
}

/// The number that a run of decimal digits writes.
pub open spec fn decimal(s: Seq<char>) -> int
    decreases s.len(),
{
    if s.len() == 0 {
        0
    } else {
        decimal(s.drop_last()) * 10 + (s.last() as int - '0' as int)
    }
}

/// The octet that a text writes: one to three decimal digits, no leading
/// zero but for `0` itself, and no more than 255.
pub open spec fn octet(s: Seq<char>) -> Option<u8> {
    if 1 <= s.len() <= 3 && (forall|i: int| 0 <= i < s.len() ==> is_digit(#[trigger] s[i])) && (s.len()
        == 1 || s[0] != '0') && decimal(s) <= 255 {
        Some(decimal(s) as u8)
    } else {
        None
    }
}

/// The position of the first dot at or after `from`, or the length of the
/// text where there is none.
pub open spec fn next_dot(s: Seq<char>, from: int) -> int
    decreases s.len() - from,
{
    if from < 0 || from >= s.len() {
        s.len() as int
    } else if s[from] == '.' {
        from
    } else {
        next_dot(s, from + 1)
    }
}

/// The address that a text writes: exactly four octets with a dot between
/// each two, and nothing else.
pub open spec fn ipv4_of(s: Seq<char>) -> Option<Ipv4Literal> {
    let e1 = next_dot(s, 0);
    let e2 = next_dot(s, e1 + 1);
    let e3 = next_dot(s, e2 + 1);
    let e4 = next_dot(s, e3 + 1);
    if e1 < s.len() && e2 < s.len() && e3 < s.len() && e4 == s.len() {
        match (
            octet(s.subrange(0, e1)),
            octet(s.subrange(e1 + 1, e2)),
            octet(s.subrange(e2 + 1, e3)),
            octet(s.subrange(e3 + 1, e4)),
        ) {
            (Some(a), Some(b), Some(c), Some(d)) => Some(Ipv4Literal { a, b, c, d }),
            _ => None,
        }
    } else {
        None
    }
}

/// Where no dot stands from `from` up to `end`, and `end` is a dot or the
/// end of the text, the first dot at or after `from` is at `end`.
pub proof fn lemma_next_dot_is(s: Seq<char>, from: int, end: int)
    requires
        0 <= from <= end <= s.len(),
        forall|k: int| from <= k < end ==> s[k] != '.',
        end < s.len() ==> s[end] == '.',
    ensures
        next_dot(s, from) == end,
    decreases end - from,
{
    if from < end {
        lemma_next_dot_is(s, from + 1, end);
    }
}

/// The four texts with a dot between each two.
pub open spec fn dotted(a: Seq<char>, b: Seq<char>, c: Seq<char>, d: Seq<char>) -> Seq<char> {
    a + seq!['.'] + b + seq!['.'] + c + seq!['.'] + d
}

/// Four octets with a dot between each two write the address of these
/// octets.
pub proof fn law_dotted_octets(a: Seq<char>, b: Seq<char>, c: Seq<char>, d: Seq<char>)
    requires
        octet(a) is Some,
        octet(b) is Some,
        octet(c) is Some,
        octet(d) is Some,
    ensures
        ipv4_of(dotted(a, b, c, d)) == Some(
            Ipv4Literal { a: octet(a)->0, b: octet(b)->0, c: octet(c)->0, d: octet(d)->0 },
        ),
{
    let s = dotted(a, b, c, d);
    let e1 = a.len() as int;
    let e2 = e1 + 1 + b.len();
    let e3 = e2 + 1 + c.len();
    let e4 = e3 + 1 + d.len();
    assert(s.len() == e4);
    assert forall|k: int| 0 <= k < e1 implies s[k] != '.' by {
        assert(s[k] == a[k]);
        assert(is_digit(a[k]));
    }
    assert forall|k: int| e1 + 1 <= k < e2 implies s[k] != '.' by {
        assert(s[k] == b[k - e1 - 1]);
        assert(is_digit(b[k - e1 - 1]));
    }
    assert forall|k: int| e2 + 1 <= k < e3 implies s[k] != '.' by {
        assert(s[k] == c[k - e2 - 1]);
        assert(is_digit(c[k - e2 - 1]));
    }
    assert forall|k: int| e3 + 1 <= k < e4 implies s[k] != '.' by {
        assert(s[k] == d[k - e3 - 1]);
        assert(is_digit(d[k - e3 - 1]));
    }
    assert(s[e1] == '.' && s[e2] == '.' && s[e3] == '.');
    lemma_next_dot_is(s, 0, e1);
    lemma_next_dot_is(s, e1 + 1, e2);
    lemma_next_dot_is(s, e2 + 1, e3);
    lemma_next_dot_is(s, e3 + 1, e4);
    assert(s.subrange(0, e1) =~= a);
    assert(s.subrange(e1 + 1, e2) =~= b);
    assert(s.subrange(e2 + 1, e3) =~= c);
    assert(s.subrange(e3 + 1, e4) =~= d);
}

/// The first dot at or after `from` lies between `from` and the end.
pub proof fn lemma_next_dot_bounds(s: Seq<char>, from: int)
    requires
        0 <= from <= s.len(),
    ensures
        from <= next_dot(s, from) <= s.len(),
        next_dot(s, from) < s.len() ==> s[next_dot(s, from)] == '.',
    decreases s.len() - from,
{
    if from < s.len() && s[from] != '.' {
        lemma_next_dot_bounds(s, from + 1);
    }
}

/// A text that writes an address is made of four octets with a dot
/// between each two.
pub proof fn law_address_is_dotted(s: Seq<char>)
    requires
        ipv4_of(s) is Some,
    ensures
        exists|a: Seq<char>, b: Seq<char>, c: Seq<char>, d: Seq<char>|
            s == #[trigger] dotted(a, b, c, d) && ipv4_of(s) == Some(
                Ipv4Literal { a: octet(a)->0, b: octet(b)->0, c: octet(c)->0, d: octet(d)->0 },
            ) && octet(a) is Some && octet(b) is Some && octet(c) is Some && octet(d) is Some,
{
    let e1 = next_dot(s, 0);
    lemma_next_dot_bounds(s, 0);
    let e2 = next_dot(s, e1 + 1);
    lemma_next_dot_bounds(s, e1 + 1);
    let e3 = next_dot(s, e2 + 1);
    lemma_next_dot_bounds(s, e2 + 1);
    let e4 = next_dot(s, e3 + 1);
    lemma_next_dot_bounds(s, e3 + 1);
    let a = s.subrange(0, e1);
    let b = s.subrange(e1 + 1, e2);
    let c = s.subrange(e2 + 1, e3);
    let d = s.subrange(e3 + 1, e4);
    assert(s =~= dotted(a, b, c, d));
}

/// Finds the first dot at or after `from`.
fn find_dot(s: &Vec<char>, from: usize) -> (r: usize)
    requires
        from <= s.len(),
    ensures
        r == next_dot(s@, from as int),
        from <= r <= s.len(),
{
    let mut i: usize = from;
    while i < s.len() && s[i] != '.'
        invariant
            from <= i <= s.len(),
            next_dot(s@, from as int) == next_dot(s@, i as int),
        decreases s.len() - i,
    {
        i += 1;
    }
    i
}

/// Reads the octet written by the characters from `start` up to `end`.
fn read_octet(s: &Vec<char>, start: usize, end: usize) -> (r: Option<u8>)
    requires
        start <= end <= s.len(),
    ensures
        r == octet(s@.subrange(start as int, end as int)),
{
    let ghost text = s@.subrange(start as int, end as int);
    let n = end - start;
    if n < 1 || n > 3 {
        return None;
    }
    if n > 1 && s[start] == '0' {
        assert(text[0] == '0');
        return None;
    }
    let mut value: u32 = 0;
    let mut i: usize = 0;
    assert(text.take(0) =~= Seq::<char>::empty());
    while i < n
        invariant
            n == end - start,
            1 <= n <= 3,
            start <= end <= s.len(),
            text == s@.subrange(start as int, end as int),
            i <= n,
            forall|k: int| 0 <= k < i ==> is_digit(#[trigger] text[k]),
            value == decimal(text.take(i as int)),
            value <= 999,
        decreases n - i,
    {
        let c = s[start + i];
        assert(c == text[i as int]);
        if c < '0' || c > '9' {
            return None;
        }
        let digit: u32 = c as u32 - '0' as u32;
        proof {
            let next = text.take(i + 1);
            assert(next.drop_last() =~= text.take(i as int));
            assert(next.last() == c);
            lemma_decimal_bound(text.take(i as int));
        }
        value = value * 10 + digit;
        i += 1;
    }
    assert(text.take(n as int) =~= text);
    if value > 255 {
        return None;
    }
    Some(value as u8)
}

/// A run of `n` digits writes a number below the `n`-th power of ten.
pub proof fn lemma_decimal_bound(s: Seq<char>)
    requires
        s.len() <= 3,
        forall|k: int| 0 <= k < s.len() ==> is_digit(#[trigger] s[k]),
    ensures
        0 <= decimal(s),
        s.len() == 0 ==> decimal(s) == 0,
        s.len() == 1 ==> decimal(s) <= 9,
        s.len() == 2 ==> decimal(s) <= 99,
        s.len() == 3 ==> decimal(s) <= 999,
    decreases s.len(),
{
    if s.len() > 0 {
        let sub = s.drop_last();
        assert forall|k: int| 0 <= k < sub.len() implies is_digit(#[trigger] sub[k]) by {
            assert(sub[k] == s[k]);
        }
        lemma_decimal_bound(sub);
        assert(is_digit(s[s.len() - 1]));
    }
}

/// Reads a dotted-decimal IPv4 address from its characters.
pub fn parse_ipv4_chars(s: &Vec<char>) -> (r: Option<Ipv4Literal>)
    ensures
        r == ipv4_of(s@),
{
    let e1 = find_dot(s, 0);
    if e1 >= s.len() {
        return None;
    }
    let e2 = find_dot(s, e1 + 1);
    if e2 >= s.len() {
        return None;
    }
    let e3 = find_dot(s, e2 + 1);
    if e3 >= s.len() {
        return None;
    }
    let e4 = find_dot(s, e3 + 1);
    if e4 < s.len() {
        return None;
    }
    let a = read_octet(s, 0, e1);
    let b = read_octet(s, e1 + 1, e2);
    let c = read_octet(s, e2 + 1, e3);
    let d = read_octet(s, e3 + 1, e4);
    match (a, b, c, d) {
        (Some(a), Some(b), Some(c), Some(d)) => Some(Ipv4Literal { a, b, c, d }),
        _ => None,
    }
}

/// Reads a dotted-decimal IPv4 address.
pub fn parse_ipv4(s: &str) -> (r: Option<Ipv4Literal>)
    ensures
        r == ipv4_of(s@),
{
    let chars = to_chars(s);
    parse_ipv4_chars(&chars)
}

} // verus!
