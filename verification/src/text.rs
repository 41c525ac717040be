//! Text helpers over sequences of characters.

use vstd::prelude::*;

use crate::dns_types::{clone_strings, texts};

verus! {

/// The lowercase form of a text, as the standard library computes it.
pub uninterp spec fn lowercase(s: Seq<char>) -> Seq<char>;

/// Calls `str::to_lowercase`. The contract only gives the result its name:
/// the lowercase equivalent of the input, a function of the input alone.
#[verifier::external_body]
pub(crate) fn to_lowercase(s: &str) -> (r: String)
    ensures
        r@ == lowercase(s@),
{
    s.to_lowercase()
}

/// The characters of a string, in order.
pub fn to_chars(s: &str) -> (v: Vec<char>)
    ensures
        v@ == s@,
{
    let mut v: Vec<char> = Vec::new();
    let chars = s.chars();
    for c in it: chars
        invariant
            it.seq() == s@,
            v@ == s@.take(it.index()),
    {
        v.push(c);
    }
    v
}

/// The text without one trailing root-label dot, if it has one.
pub open spec fn trim_root_dot(s: Seq<char>) -> Seq<char> {
    if s.len() > 0 && s.last() == '.' {
        s.drop_last()
    } else {
        s
    }
}

/// The form under which a queried name is matched and logged: the root dot
/// trimmed, then lower-cased.
pub open spec fn normalized(s: Seq<char>) -> Seq<char> {
    lowercase(trim_root_dot(s))
}

/// `t` is the tail of `s`.
pub open spec fn is_suffix(s: Seq<char>, t: Seq<char>) -> bool {
    t.len() <= s.len() && s.skip(s.len() - t.len()) == t
}

/// `t` is the head of `s`.
pub open spec fn is_prefix(s: Seq<char>, t: Seq<char>) -> bool {
    t.len() <= s.len() && s.take(t.len() as int) == t
}

/// `p` occurs in `s` at position `i`.
pub open spec fn occurs_at(s: Seq<char>, p: Seq<char>, i: int) -> bool {
    0 <= i && i + p.len() <= s.len() && s.subrange(i, i + p.len()) == p
}

/// `p` occurs somewhere in `s`.
pub open spec fn contains(s: Seq<char>, p: Seq<char>) -> bool {
    exists|i: int| occurs_at(s, p, i)
}

/// A wildcard over `suffix` covers `name`: the name is the suffix itself or
/// ends with a dot followed by the suffix.
pub open spec fn covers(suffix: Seq<char>, name: Seq<char>) -> bool {
    name == suffix || is_suffix(name, seq!['.'] + suffix)
}

/// The text of an optional string.
pub open spec fn opt_text(s: Option<String>) -> Option<Seq<char>> {
    match s {
        Some(t) => Some(t@),
        None => None,
    }
}

/// The texts of an optional list of strings.
pub open spec fn opt_texts(s: Option<Vec<String>>) -> Option<Seq<Seq<char>>> {
    match s {
        Some(v) => Some(texts(v@)),
        None => None,
    }
}

/// A copy of an optional string.
pub fn clone_opt_text(s: &Option<String>) -> (r: Option<String>)
    ensures
        opt_text(r) == opt_text(*s),
{
    match s {
        Some(t) => Some(t.clone()),
        None => None,
    }
}

/// A copy of an optional list of strings.
pub fn clone_opt_texts(s: &Option<Vec<String>>) -> (r: Option<Vec<String>>)
    ensures
        opt_texts(r) == opt_texts(*s),
{
    match s {
        Some(v) => Some(clone_strings(v)),
        None => None,
    }
}

/// The digit that writes a number below ten.
pub open spec fn digit_char(d: nat) -> char {
    if d == 0 {
        '0'
    } else if d == 1 {
        '1'
    } else if d == 2 {
        '2'
    } else if d == 3 {
        '3'
    } else if d == 4 {
        '4'
    } else if d == 5 {
        '5'
    } else if d == 6 {
        '6'
    } else if d == 7 {
        '7'
    } else if d == 8 {
        '8'
    } else {
        '9'
    }
}

/// A number in decimal digits, without leading zeros.
pub open spec fn decimal_text(n: nat) -> Seq<char>
    decreases n,
{
    if n < 10 {
        seq![digit_char(n)]
    } else {
        decimal_text(n / 10).push(digit_char(n % 10))
    }
}

/// The digit that writes a number below ten, as a text.
fn digit_text(d: u32) -> (r: &'static str)
    requires
        d < 10,
    ensures
        r@ == seq![digit_char(d as nat)],
{
    proof {
        reveal_strlit("0");
        reveal_strlit("1");
        reveal_strlit("2");
        reveal_strlit("3");
        reveal_strlit("4");
        reveal_strlit("5");
        reveal_strlit("6");
        reveal_strlit("7");
        reveal_strlit("8");
        reveal_strlit("9");
    }
    let r = if d == 0 {
        "0"
    } else if d == 1 {
        "1"
    } else if d == 2 {
        "2"
    } else if d == 3 {
        "3"
    } else if d == 4 {
        "4"
    } else if d == 5 {
        "5"
    } else if d == 6 {
        "6"
    } else if d == 7 {
        "7"
    } else if d == 8 {
        "8"
    } else {
        "9"
    };
    assert(r@ =~= seq![digit_char(d as nat)]);
    r
}

/// Writes a number in decimal digits.
pub fn u32_to_text(n: u32) -> (r: String)
    ensures
        r@ == decimal_text(n as nat),
    decreases n,
{
    if n < 10 {
        digit_text(n).to_owned()
    } else {
        let mut r = u32_to_text(n / 10);
        r.append(digit_text(n % 10));
        assert(r@ =~= decimal_text(n as nat));
        r
    }
}

/// The two texts, one after the other.
pub fn join(head: &str, tail: &str) -> (r: String)
    ensures
        r@ == head@ + tail@,
{
    let mut r = head.to_owned();
    r.append(tail);
    r
}

/// Whether two texts are the same.
pub fn same_text(a: &str, b: &str) -> (r: bool)
    ensures
        r == (a@ == b@),
{
    a.to_owned() == b.to_owned()
}

/// Normalizes a queried name: trims one trailing root dot, then lower-cases.
pub fn normalize_domain(domain: &str) -> (r: String)
    ensures
        r@ == normalized(domain@),
{
    let n = domain.unicode_len();
    if n > 0 && domain.get_char(n - 1) == '.' {
        to_lowercase(domain.substring_char(0, n - 1))
    } else {
        to_lowercase(domain)
    }
}

/// The characters from `from` up to `to`.
pub(crate) fn slice_chars(s: &Vec<char>, from: usize, to: usize) -> (r: Vec<char>)
    requires
        from <= to <= s.len(),
    ensures
        r@ == s@.subrange(from as int, to as int),
{
    let mut out: Vec<char> = Vec::new();
    let mut i: usize = from;
    while i < to
        invariant
            from <= i <= to <= s.len(),
            out@ == s@.subrange(from as int, i as int),
        decreases to - i,
    {
        out.push(s[i]);
        i += 1;
    }
    out
}

/// Whether `p` occurs in `s` at position `start`.
fn matches_at(s: &Vec<char>, p: &Vec<char>, start: usize) -> (r: bool)
    requires
        start + p.len() <= s.len(),
    ensures
        r == occurs_at(s@, p@, start as int),
{
    let mut k: usize = 0;
    while k < p.len()
        invariant
            k <= p.len(),
            start + p.len() <= s.len(),
            forall|j: int| 0 <= j < k ==> s[start + j] == p[j],
        decreases p.len() - k,
    {
        if s[start + k] != p[k] {
            proof {
                let sub = s@.subrange(start as int, start + p.len());
                assert(sub[k as int] == s[start + k]);
            }
            return false;
        }
        k += 1;
    }
    assert(s@.subrange(start as int, start + p.len()) =~= p@);
    true
}

/// Whether `s` ends with `t`.
pub fn ends_with(s: &Vec<char>, t: &Vec<char>) -> (r: bool)
    ensures
        r == is_suffix(s@, t@),
{
    if t.len() > s.len() {
        return false;
    }
    let start = s.len() - t.len();
    assert(s@.skip(start as int) =~= s@.subrange(start as int, start + t.len()));
    matches_at(s, t, start)
}

/// Whether `s` begins with `t`.
pub fn starts_with(s: &Vec<char>, t: &Vec<char>) -> (r: bool)
    ensures
        r == is_prefix(s@, t@),
{
    if t.len() > s.len() {
        return false;
    }
    assert(s@.take(t.len() as int) =~= s@.subrange(0, 0 + t.len()));
    matches_at(s, t, 0)
}

/// Whether `p` occurs somewhere in `s`.
pub fn contains_chars(s: &Vec<char>, p: &Vec<char>) -> (r: bool)
    ensures
        r == contains(s@, p@),
{
    if p.len() > s.len() {
        return false;
    }
    if p.len() == 0 {
        assert(s@.subrange(0, 0) =~= p@);
        assert(occurs_at(s@, p@, 0));
        return true;
    }
    let last = s.len() - p.len();
    let mut i: usize = 0;
    while i <= last
        invariant
            last == s.len() - p.len(),
            p.len() > 0,
            i <= last + 1,
            forall|j: int| 0 <= j < i ==> !occurs_at(s@, p@, j),
        decreases last + 1 - i,
    {
        if matches_at(s, p, i) {
            return true;
        }
        i += 1;
    }
    false
}

/// Whether a wildcard over `suffix` covers `name`.
pub fn wildcard_covers(suffix: &Vec<char>, name: &Vec<char>) -> (r: bool)
    ensures
        r == covers(suffix@, name@),
{
    let ghost dotted = seq!['.'] + suffix@;
    if name.len() == suffix.len() {
        let same = matches_at(name, suffix, 0);
        assert(name@.subrange(0, 0 + suffix.len()) =~= name@);
        same
    } else if name.len() > suffix.len() {
        let start = name.len() - suffix.len();
        let tail = matches_at(name, suffix, start);
        let dot = name[start - 1] == '.';
        proof {
            let from = start - 1;
            let cut = name@.skip(from);
            assert(cut.len() == dotted.len());
            assert(cut[0] == name[from]);
            assert(dotted[0] == '.');
            if dot && tail {
                assert forall|j: int| 0 <= j < cut.len() implies cut[j] == dotted[j] by {
                    if j > 0 {
                        assert(name@.subrange(start as int, start + suffix.len())[j - 1]
                            == name[start + j - 1]);
                    }
                }
                assert(cut =~= dotted);
            }
            if cut == dotted {
                assert(name@.subrange(start as int, start + suffix.len()) =~= suffix@) by {
                    assert forall|j: int| 0 <= j < suffix.len() implies name[start + j]
                        == suffix[j] by {
                        assert(cut[j + 1] == dotted[j + 1]);
                    }
                }
            }
            assert(name@ != suffix@);
        }
        dot && tail
    } else {
        false
    }
}

} // verus!
