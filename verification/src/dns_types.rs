//! Plain data carried through the proxy: rules and query-log entries.

use vstd::prelude::*;

verus! {

/// Capacity of the query-log buffer.
pub const MAX_LOG_ENTRIES: usize = 1000;

/// How a logged query ended.
#[derive(Debug, Clone, Copy, PartialEq, Eq, Structural)]
pub enum DnsQueryStatus {
    Success,
    Error,
    Blocked,
}

/// One answered query, as kept in the log.
#[derive(Debug)]
pub struct DnsQueryLog {
    pub id: u64,
    pub timestamp: String,
    pub domain: String,
    pub record_type: String,
    pub response_records: Vec<String>,
    pub latency_ms: u64,
    pub status: DnsQueryStatus,
}

/// Mathematical content of a [`DnsQueryLog`].
pub struct DnsQueryLogView {
    pub id: u64,
    pub timestamp: Seq<char>,
    pub domain: Seq<char>,
    pub record_type: Seq<char>,
    pub response_records: Seq<Seq<char>>,
    pub latency_ms: u64,
    pub status: DnsQueryStatus,
}

/// The texts of a list of strings.
pub open spec fn texts(v: Seq<String>) -> Seq<Seq<char>> {
    v.map_values(|s: String| s@)
}

impl View for DnsQueryLog {
    type V = DnsQueryLogView;

    open spec fn view(&self) -> DnsQueryLogView {
        DnsQueryLogView {
            id: self.id,
            timestamp: self.timestamp@,
            domain: self.domain@,
            record_type: self.record_type@,
            response_records: texts(self.response_records@),
            latency_ms: self.latency_ms,
            status: self.status,
        }
    }
}

/// Copies a list of strings, text for text.
pub fn clone_strings(v: &Vec<String>) -> (r: Vec<String>)
    ensures
        texts(r@) == texts(v@),
{
    let mut out: Vec<String> = Vec::new();
    let mut i: usize = 0;
    while i < v.len()
        invariant
            i <= v.len(),
            out.len() == i,
            forall|j: int| 0 <= j < i ==> out[j]@ == v[j]@,
        decreases v.len() - i,
    {
        out.push(v[i].clone());
        i += 1;
    }
    assert(texts(out@) =~= texts(v@));
    out
}

impl Clone for DnsQueryLog {
    fn clone(&self) -> (r: Self)
        ensures
            r@ == self@,
    {
        DnsQueryLog {
            id: self.id,
            timestamp: self.timestamp.clone(),
            domain: self.domain.clone(),
            record_type: self.record_type.clone(),
            response_records: clone_strings(&self.response_records),
            latency_ms: self.latency_ms,
            status: self.status,
        }
    }
}

/// A blocking or redirect rule. A `domain` that begins with `*.` is a
/// wildcard over the rest of the name and all of its subdomains.
#[derive(Debug)]
pub struct DnsRule {
    pub id: String,
    pub domain: String,
    pub response: String,
    pub enabled: bool,
    pub record_type: String,
}

/// Mathematical content of a [`DnsRule`].
pub struct DnsRuleView {
    pub id: Seq<char>,
    pub domain: Seq<char>,
    pub response: Seq<char>,
    pub enabled: bool,
    pub record_type: Seq<char>,
}

impl View for DnsRule {
    type V = DnsRuleView;

    open spec fn view(&self) -> DnsRuleView {
        DnsRuleView {
            id: self.id@,
            domain: self.domain@,
            response: self.response@,
            enabled: self.enabled,
            record_type: self.record_type@,
        }
    }
}

impl Clone for DnsRule {
    fn clone(&self) -> (r: Self)
        ensures
            r@ == self@,
    {
        DnsRule {
            id: self.id.clone(),
            domain: self.domain.clone(),
            response: self.response.clone(),
            enabled: self.enabled,
            record_type: self.record_type.clone(),
        }
    }
}

} // verus!
