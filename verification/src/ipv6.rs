//! IPv6 addresses in text: groups of hexadecimal digits between colons,
//! with at most one `::` for a run of zero groups and, at the very end,
//! an IPv4 address in place of the last two groups.

use vstd::prelude::*;

use crate::ipv4::{ipv4_of, is_digit, parse_ipv4_chars};
use crate::text::slice_chars;

verus! {

/// A hexadecimal digit, in either case.
pub open spec fn is_hex_digit(c: char) -> bool {
    is_digit(c) || ('a' <= c <= 'f') || ('A' <= c <= 'F')
}

/// One group: one to four hexadecimal digits.
pub open spec fn is_hex_group(s: Seq<char>) -> bool {
    1 <= s.len() <= 4 && forall|i: int| 0 <= i < s.len() ==> is_hex_digit(#[trigger] s[i])
}

/// The position of the first colon at or after `from`, or the length of
/// the text where there is none.
pub open spec fn next_colon(s: Seq<char>, from: int) -> int
    decreases s.len() - from,
{
    if from < 0 || from >= s.len() {
        s.len() as int
    } else if s[from] == ':' {
        from
    } else {
        next_colon(s, from + 1)
    }
}

/// The position of the first `::` at or after `from`, or the length of the
/// text where there is none.
pub open spec fn double_colon(s: Seq<char>, from: int) -> int
    decreases s.len() - from,
{
    if from < 0 || from + 1 >= s.len() {
        s.len() as int
    } else if s[from] == ':' && s[from + 1] == ':' {
        from
    } else {
        double_colon(s, from + 1)
    }
}

/// The number of 16-bit groups that the text writes from `from` on, as
/// fields with one colon between each two. Every field is a group of
/// hexadecimal digits; where `embedded` holds, the last may instead be an
/// IPv4 address, which stands for two groups. None where a field is
/// neither.
pub open spec fn group_count(s: Seq<char>, from: int, embedded: bool) -> Option<nat>
    decreases s.len() - from,
{
    let end = next_colon(s, from);
    let field = s.subrange(from, end);
    if from < 0 || from > s.len() || end < from {
        None
    } else if end >= s.len() {
        if is_hex_group(field) {
            Some(1nat)
        } else if embedded && ipv4_of(field) is Some {
            Some(2nat)
        } else {
            None
        }
    } else if is_hex_group(field) {
        match group_count(s, end + 1, embedded) {
            Some(n) => Some(n + 1),
            None => None,
        }
    } else {
        None
    }
}

/// The number of groups that a part of an address writes: none for the
/// empty part.
pub open spec fn count_of(part: Seq<char>, embedded: bool) -> Option<nat> {
    if part.len() == 0 {
        Some(0nat)
    } else {
        group_count(part, 0, embedded)
    }
}

/// Whether the text writes an IPv6 address: without `::`, exactly eight
/// groups; with one `::`, at most seven groups in all, those before it
/// without an IPv4 address.
pub open spec fn is_ipv6(s: Seq<char>) -> bool {
    let at = double_colon(s, 0);
    if at >= s.len() {
        group_count(s, 0, true) == Some(8nat)
    } else {
        match (
            count_of(s.subrange(0, at), false),
            count_of(s.subrange(at + 2, s.len() as int), true),
        ) {
            (Some(head), Some(tail)) => head + tail <= 7,
            _ => false,
        }
    }
}

/// Finds the first colon at or after `from`.
fn find_colon(s: &Vec<char>, from: usize) -> (r: usize)
    requires
        from <= s.len(),
    ensures
        r == next_colon(s@, from as int),
        from <= r <= s.len(),
{
    let mut i: usize = from;
    while i < s.len() && s[i] != ':'
        invariant
            from <= i <= s.len(),
            next_colon(s@, from as int) == next_colon(s@, i as int),
        decreases s.len() - i,
    {
        i += 1;
    }
    i
}

/// Finds the first `::`.
fn find_double_colon(s: &Vec<char>) -> (r: usize)
    ensures
        r == double_colon(s@, 0),
        r <= s.len(),
        r < s.len() ==> r + 2 <= s.len(),
{
    if s.len() < 2 {
        return s.len();
    }
    let last = s.len() - 1;
    let mut i: usize = 0;
    while i < last
        invariant
            last == s.len() - 1,
            i <= last,
            double_colon(s@, 0) == double_colon(s@, i as int),
        decreases last - i,
    {
        if s[i] == ':' && s[i + 1] == ':' {
            return i;
        }
        i += 1;
    }
    s.len()
}

/// Whether the character is a hexadecimal digit.
fn hex_digit(c: char) -> (r: bool)
    ensures
        r == is_hex_digit(c),
{
    (c >= '0' && c <= '9') || (c >= 'a' && c <= 'f') || (c >= 'A' && c <= 'F')
}

/// Whether the text is one group of hexadecimal digits.
fn hex_group(s: &Vec<char>) -> (r: bool)
    ensures
        r == is_hex_group(s@),
{
    if s.len() < 1 || s.len() > 4 {
        return false;
    }
    let mut i: usize = 0;
    while i < s.len()
        invariant
            i <= s.len(),
            forall|k: int| 0 <= k < i ==> is_hex_digit(#[trigger] s@[k]),
        decreases s.len() - i,
    {
        if !hex_digit(s[i]) {
            return false;
        }
        i += 1;
    }
    true
}

/// The sum of a count and an optional count.
pub open spec fn more(n: nat, rest: Option<nat>) -> Option<nat> {
    match rest {
        Some(m) => Some(n + m),
        None => None,
    }
}

/// Counts the groups that a part of an address writes.
fn count_groups(part: &Vec<char>, embedded: bool) -> (r: Option<usize>)
    ensures
        match r {
            Some(n) => count_of(part@, embedded) == Some(n as nat),
            None => count_of(part@, embedded) is None,
        },
{
    if part.len() == 0 {
        return Some(0);
    }
    let mut from: usize = 0;
    let mut n: usize = 0;
    loop
        invariant
            part.len() > 0,
            from <= part.len(),
            n <= from,
            group_count(part@, 0, embedded) == more(n as nat, group_count(part@, from as int, embedded)),
        decreases part.len() - from,
    {
        let end = find_colon(part, from);
        let field = slice_chars(part, from, end);
        if end >= part.len() {
            if hex_group(&field) {
                return Some(n + 1);
            } else if embedded && parse_ipv4_chars(&field).is_some() {
                return Some(n + 2);
            } else {
                return None;
            }
        } else if hex_group(&field) {
            assert(group_count(part@, from as int, embedded) == more(
                1,
                group_count(part@, end + 1, embedded),
            ));
            n += 1;
            from = end + 1;
        } else {
            return None;
        }
    }
}

/// Whether the characters write an IPv6 address.
pub fn is_ipv6_chars(s: &Vec<char>) -> (r: bool)
    ensures
        r == is_ipv6(s@),
{
    let at = find_double_colon(s);
    if at >= s.len() {
        assert(s@.len() == 0 ==> group_count(s@, 0, true) is None);
        match count_groups(s, true) {
            Some(n) => n == 8,
            None => false,
        }
    } else {
        let head = slice_chars(s, 0, at);
        let tail = slice_chars(s, at + 2, s.len());
        match (count_groups(&head, false), count_groups(&tail, true)) {
            (Some(h), Some(t)) => h <= 7 && t <= 7 - h,
            _ => false,
        }
    }
}

} // verus!
