//! The bounded query log: most recent entry first, oldest evicted at capacity.

use std::collections::VecDeque;
use vstd::prelude::*;

use crate::dns_types::{DnsQueryLog, DnsQueryLogView, MAX_LOG_ENTRIES};
use crate::text::{contains, contains_chars, lowercase, to_chars, to_lowercase};

verus! {

/// Entries returned by a query that names no limit.
pub const DEFAULT_LOG_LIMIT: usize = 100;

/// The contents of a list of log entries.
pub open spec fn log_views(entries: Seq<DnsQueryLog>) -> Seq<DnsQueryLogView> {
    entries.map_values(|e: DnsQueryLog| e@)
}

/// The buffer after one more entry arrived: the new entry at the head, and
/// the oldest entry (the last) dropped first where the buffer was full.
pub open spec fn recorded(entries: Seq<DnsQueryLogView>, entry: DnsQueryLogView) -> Seq<
    DnsQueryLogView,
> {
    if entries.len() >= MAX_LOG_ENTRIES {
        seq![entry] + entries.drop_last()
    } else {
        seq![entry] + entries
    }
}

/// The test of a filter text: the entry's domain contains it, both taken
/// in lower case.
pub open spec fn domain_filter(filter: Seq<char>) -> spec_fn(DnsQueryLogView) -> bool {
    |e: DnsQueryLogView| contains(lowercase(e.domain), lowercase(filter))
}

/// The test that every entry passes.
pub open spec fn every_entry() -> spec_fn(DnsQueryLogView) -> bool {
    |e: DnsQueryLogView| true
}

/// The entries that a filter lets through, in their order. No filter, or
/// an empty one, lets every entry through.
pub open spec fn selected(entries: Seq<DnsQueryLogView>, filter: Option<Seq<char>>) -> Seq<
    DnsQueryLogView,
> {
    match filter {
        Some(f) => if f.len() > 0 {
            entries.filter(domain_filter(f))
        } else {
            entries
        },
        None => entries,
    }
}

/// At most `limit` entries, after the first `offset` were passed over.
pub open spec fn page(entries: Seq<DnsQueryLogView>, offset: int, limit: int) -> Seq<
    DnsQueryLogView,
> {
    let start = if offset < entries.len() {
        offset
    } else {
        entries.len() as int
    };
    let end = if offset + limit < entries.len() {
        offset + limit
    } else {
        entries.len() as int
    };
    entries.subrange(start, end)
}

/// The text of an optional filter.
pub open spec fn filter_text(filter: Option<String>) -> Option<Seq<char>> {
    match filter {
        Some(f) => Some(f@),
        None => None,
    }
}

/// The offset that a query means: 0 where it names none.
pub open spec fn offset_or_default(offset: Option<usize>) -> int {
    match offset {
        Some(n) => n as int,
        None => 0,
    }
}

/// The limit that a query means: the default where it names none.
pub open spec fn limit_or_default(limit: Option<usize>) -> int {
    match limit {
        Some(n) => n as int,
        None => DEFAULT_LOG_LIMIT as int,
    }
}

/// The query log. It never holds more than [`MAX_LOG_ENTRIES`] entries.
pub struct DnsLogStore {
    logs: VecDeque<DnsQueryLog>,
}

impl View for DnsLogStore {
    type V = Seq<DnsQueryLogView>;

    closed spec fn view(&self) -> Seq<DnsQueryLogView> {
        log_views(self.logs@)
    }
}

impl DnsLogStore {
    #[verifier::type_invariant]
    spec fn inv(self) -> bool {
        self.logs@.len() <= MAX_LOG_ENTRIES
    }

    /// An empty log.
    pub fn new() -> (r: Self)
        ensures
            r@ == Seq::<DnsQueryLogView>::empty(),
    {
        let r = DnsLogStore { logs: VecDeque::with_capacity(MAX_LOG_ENTRIES) };
        assert(r@ =~= Seq::empty());
        r
    }

    /// The number of entries held.
    pub fn len(&self) -> (n: usize)
        ensures
            n == self@.len(),
            n <= MAX_LOG_ENTRIES,
    {
        proof {
            use_type_invariant(self);
        }
        self.logs.len()
    }

    /// Takes in one entry: where the log is full the oldest entry leaves,
    /// then the new entry goes to the head.
    pub fn record(&mut self, entry: DnsQueryLog)
        ensures
            final(self)@ == recorded(old(self)@, entry@),
            final(self)@.len() <= MAX_LOG_ENTRIES,
            old(self)@.len() <= MAX_LOG_ENTRIES,
    {
        proof {
            use_type_invariant(&*self);
        }
        let ghost before = self.logs@;
        let mut logs: VecDeque<DnsQueryLog> = VecDeque::new();
        std::mem::swap(&mut self.logs, &mut logs);
        if logs.len() >= MAX_LOG_ENTRIES {
            let _ = logs.pop_back();
            assert(log_views(logs@) =~= log_views(before).drop_last());
        }
        let ghost kept = logs@;
        logs.push_front(entry);
        assert(log_views(logs@) =~= seq![entry@] + log_views(kept));
        self.logs = logs;
    }

    /// The entries that pass the filter, most recent first, without the
    /// first `offset` of them and at most `limit` long. A filter passes the
    /// entries whose domain contains it, case ignored; none, or an empty
    /// one, passes all. No offset means 0, no limit means
    /// [`DEFAULT_LOG_LIMIT`].
    pub fn get_logs(&self, filter: Option<String>, offset: Option<usize>, limit: Option<usize>) -> (r:
        Vec<DnsQueryLog>)
        ensures
            log_views(r@) == page(
                selected(self@, filter_text(filter)),
                offset_or_default(offset),
                limit_or_default(limit),
            ),
    {
        let offset: usize = match offset {
            Some(n) => n,
            None => 0,
        };
        let limit: usize = match limit {
            Some(n) => n,
            None => DEFAULT_LOG_LIMIT,
        };
        let filtering = match &filter {
            Some(f) => f.as_str().unicode_len() > 0,
            None => false,
        };
        let needle: Vec<char> = match &filter {
            Some(f) => to_chars(to_lowercase(f.as_str()).as_str()),
            None => Vec::new(),
        };
        let ghost all = self@;
        let ghost pred = if filtering {
            domain_filter(filter_text(filter)->0)
        } else {
            every_entry()
        };
        let mut marks: Vec<bool> = Vec::new();
        let mut i: usize = 0;
        while i < self.logs.len()
            invariant
                i <= self.logs.len(),
                all == log_views(self.logs@),
                filtering ==> pred == domain_filter(filter_text(filter)->0) && needle@ == lowercase(
                    filter_text(filter)->0,
                ),
                !filtering ==> pred == every_entry(),
                marks.len() == i,
                forall|k: int| 0 <= k < i ==> marks[k] == pred(#[trigger] all[k]),
            decreases self.logs.len() - i,
        {
            let hit = passes(&self.logs[i], filtering, &needle);
            assert(hit == pred(all[i as int]));
            marks.push(hit);
            i += 1;
        }
        proof {
            lemma_marked_is_filter(all, marks@, pred);
            if !filtering {
                lemma_filter_everything(all, pred);
            }
        }
        self.page_of_marked(&marks, offset, limit)
    }

    /// The marked entries, most recent first, without the first `offset`
    /// of them and at most `limit` long. The entry at a position is marked
    /// where `marks` holds `true` at that position.
    pub fn page_of_marked(&self, marks: &Vec<bool>, offset: usize, limit: usize) -> (r: Vec<
        DnsQueryLog,
    >)
        ensures
            log_views(r@) == page(marked(self@, marks@), offset as int, limit as int),
    {
        let ghost all = self@;
        let ghost seen = Seq::<DnsQueryLogView>::empty();
        let mut out: Vec<DnsQueryLog> = Vec::new();
        let mut passed: usize = 0;
        let mut i: usize = 0;
        proof {
            assert(all.take(0) =~= Seq::empty());
            assert(log_views(out@) =~= Seq::empty());
        }
        while i < self.logs.len()
            invariant
                i <= self.logs.len(),
                all == log_views(self.logs@),
                seen == marked(all.take(i as int), marks@),
                passed <= offset,
                passed == seen.len() || (passed == offset && seen.len() > offset),
                log_views(out@) == page(seen, offset as int, limit as int),
            decreases self.logs.len() - i,
        {
            let entry = &self.logs[i];
            let ghost before = out@;
            let hit = i < marks.len() && marks[i];
            proof {
                let next = all.take(i + 1);
                assert(next.drop_last() =~= all.take(i as int));
                assert(next.last() == entry@);
                lemma_page_push(seen, entry@, offset as int, limit as int);
                if hit {
                    seen = seen.push(entry@);
                }
            }
            if hit {
                if passed < offset {
                    passed += 1;
                } else if out.len() < limit {
                    out.push(entry.clone());
                    assert(log_views(out@) =~= log_views(before).push(entry@));
                }
            }
            i += 1;
        }
        assert(all.take(i as int) =~= all);
        out
    }

    /// Empties the log.
    pub fn clear_logs(&mut self)
        ensures
            final(self)@ == Seq::<DnsQueryLogView>::empty(),
    {
        let mut logs: VecDeque<DnsQueryLog> = VecDeque::new();
        std::mem::swap(&mut self.logs, &mut logs);
        logs.clear();
        assert(log_views(logs@) =~= Seq::empty());
        self.logs = logs;
    }
}

/// Whether an entry passes: always where nothing is filtered, else where
/// its lower-cased domain contains the lower-cased filter text.
pub fn passes(entry: &DnsQueryLog, filtering: bool, needle: &Vec<char>) -> (r: bool)
    ensures
        r == (!filtering || contains(lowercase(entry@.domain), needle@)),
{
    if filtering {
        let hay = to_chars(to_lowercase(entry.domain.as_str()).as_str());
        contains_chars(&hay, needle)
    } else {
        true
    }
}

/// How a page grows with the list it is cut from: an entry that comes
/// before the offset or after a full page leaves it as it is, any other
/// is appended.
pub proof fn lemma_page_push(
    seen: Seq<DnsQueryLogView>,
    entry: DnsQueryLogView,
    offset: int,
    limit: int,
)
    requires
        0 <= offset,
        0 <= limit,
    ensures
        page(seen, offset, limit).len() <= limit,
        page(seen.push(entry), offset, limit) == if seen.len() < offset || page(
            seen,
            offset,
            limit,
        ).len() >= limit {
            page(seen, offset, limit)
        } else {
            page(seen, offset, limit).push(entry)
        },
{
    assert(page(seen.push(entry), offset, limit) =~= if seen.len() < offset || page(
        seen,
        offset,
        limit,
    ).len() >= limit {
        page(seen, offset, limit)
    } else {
        page(seen, offset, limit).push(entry)
    });
}

/// The log never grows beyond its capacity: a new entry goes to the head,
/// and where the log was full exactly the oldest entry, the last, leaves.
pub proof fn law_log_is_bounded(entries: Seq<DnsQueryLogView>, entry: DnsQueryLogView)
    requires
        entries.len() <= MAX_LOG_ENTRIES,
    ensures
        recorded(entries, entry).len() <= MAX_LOG_ENTRIES,
        recorded(entries, entry)[0] == entry,
        entries.len() < MAX_LOG_ENTRIES ==> recorded(entries, entry).skip(1) == entries,
        entries.len() == MAX_LOG_ENTRIES ==> recorded(entries, entry).skip(1) == entries.drop_last(),
{
    assert(recorded(entries, entry).skip(1) =~= if entries.len() < MAX_LOG_ENTRIES {
        entries
    } else {
        entries.drop_last()
    });
}

/// A page of filtered entries holds only entries of the log whose domain
/// contains the filter text, case ignored, and no more than the limit.
pub proof fn law_page_holds_matches(
    entries: Seq<DnsQueryLogView>,
    filter: Seq<char>,
    offset: int,
    limit: int,
    k: int,
)
    requires
        filter.len() > 0,
        0 <= offset,
        0 <= limit,
        0 <= k < page(selected(entries, Some(filter)), offset, limit).len(),
    ensures
        page(selected(entries, Some(filter)), offset, limit).len() <= limit,
        entries.contains(page(selected(entries, Some(filter)), offset, limit)[k]),
        contains(
            lowercase(page(selected(entries, Some(filter)), offset, limit)[k].domain),
            lowercase(filter),
        ),
        page(selected(entries, Some(filter)), offset, limit)[k] == selected(entries, Some(filter))[
            offset + k],
{
    let chosen = entries.filter(domain_filter(filter));
    let shown = page(chosen, offset, limit);
    let e = shown[k];
    assert(e == chosen[offset + k]);
    entries.lemma_filter_pred(domain_filter(filter), offset + k);
    assert(chosen.contains(e));
    entries.lemma_filter_contains_rev(domain_filter(filter), e);
}

/// The entries at the positions that are marked, in their order; a
/// position beyond the marks is not marked.
pub open spec fn marked(entries: Seq<DnsQueryLogView>, marks: Seq<bool>) -> Seq<DnsQueryLogView>
    decreases entries.len(),
{
    if entries.len() == 0 {
        entries
    } else {
        let rest = marked(entries.drop_last(), marks);
        if entries.len() - 1 < marks.len() && marks[entries.len() - 1] {
            rest.push(entries.last())
        } else {
            rest
        }
    }
}

/// Where the marks say of each entry whether it passes a test, the marked
/// entries are those that the test lets through.
pub proof fn lemma_marked_is_filter(
    entries: Seq<DnsQueryLogView>,
    marks: Seq<bool>,
    pred: spec_fn(DnsQueryLogView) -> bool,
)
    requires
        entries.len() <= marks.len(),
        forall|k: int| 0 <= k < entries.len() ==> marks[k] == pred(#[trigger] entries[k]),
    ensures
        marked(entries, marks) == entries.filter(pred),
    decreases entries.len(),
{
    reveal(Seq::filter);
    if entries.len() > 0 {
        let sub = entries.drop_last();
        assert forall|k: int| 0 <= k < sub.len() implies marks[k] == pred(#[trigger] sub[k]) by {
            assert(sub[k] == entries[k]);
        }
        lemma_marked_is_filter(sub, marks, pred);
        assert(marks[entries.len() - 1] == pred(entries[entries.len() - 1]));
    }
}

/// A test that every entry passes filters nothing out.
pub proof fn lemma_filter_everything(
    entries: Seq<DnsQueryLogView>,
    pred: spec_fn(DnsQueryLogView) -> bool,
)
    requires
        forall|k: int| 0 <= k < entries.len() ==> pred(#[trigger] entries[k]),
    ensures
        entries.filter(pred) == entries,
    decreases entries.len(),
{
    reveal(Seq::filter);
    if entries.len() > 0 {
        let sub = entries.drop_last();
        assert forall|k: int| 0 <= k < sub.len() implies pred(#[trigger] sub[k]) by {
            assert(sub[k] == entries[k]);
        }
        lemma_filter_everything(sub, pred);
        assert(pred(entries[entries.len() - 1]));
        assert(sub.push(entries.last()) =~= entries);
    }
}

} // verus!
