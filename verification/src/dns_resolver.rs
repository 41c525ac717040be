//! The decisions of the request handler: what one query is answered with,
//! what is asked of the upstream resolver, and what goes to the log.

use vstd::prelude::*;

use crate::dns_rules::{DnsRules, DnsRulesView};
use crate::dns_types::{texts, DnsQueryLog, DnsQueryLogView, DnsQueryStatus, DnsRule, DnsRuleView};
use crate::ipv4::{ipv4_of, parse_ipv4, Ipv4Literal};
use crate::record_type::{
    describe_record_type, kind_of, lookup_for, lookup_kind, record_type_text, LookupKind, RecordKind,
};
use crate::text::normalized;

verus! {

/// Time to live, in seconds, of a record made from a rule.
pub const SYNTHETIC_TTL: u32 = 60;

/// The response codes that the proxy sends.
#[derive(Debug, Clone, Copy, PartialEq, Eq, Structural)]
pub enum ResponseCode {
    NoError,
    FormErr,
    ServFail,
    NotImp,
}

/// An `A` record made from a rule, for the queried name.
#[derive(Debug, Clone, Copy, PartialEq, Eq, Structural)]
pub struct SyntheticRecord {
    pub ttl: u32,
    pub address: Ipv4Literal,
}

/// What the answer section of a response holds.
#[derive(Debug, Clone, Copy, PartialEq, Eq, Structural)]
pub enum AnswerSection {
    /// No record.
    Empty,
    /// The one record made from a rule.
    Synthetic(SyntheticRecord),
    /// All records that the upstream lookup returned.
    Upstream,
}

/// The first question of a request: the queried name as text and the
/// number of the record type.
#[derive(Debug)]
pub struct DnsQuestion {
    pub name: String,
    pub record_type: u16,
}

/// How an upstream lookup ended: with the textual data of each record, with
/// an error and its description, or without an answer in the time allowed.
#[derive(Debug)]
pub enum LookupResult {
    Answered(Vec<String>),
    Failed(String),
    TimedOut,
}

/// A lookup that the handler asks for: the name as it was queried, the
/// normalized name and the record type's name for the log, and the kind of
/// lookup.
#[derive(Debug)]
pub struct PendingLookup {
    pub name: String,
    pub domain: String,
    pub record_type: String,
    pub kind: LookupKind,
}

/// Contents of a [`PendingLookup`].
pub struct PendingLookupView {
    pub name: Seq<char>,
    pub domain: Seq<char>,
    pub record_type: Seq<char>,
    pub kind: LookupKind,
}

impl View for PendingLookup {
    type V = PendingLookupView;

    open spec fn view(&self) -> PendingLookupView {
        PendingLookupView {
            name: self.name@,
            domain: self.domain@,
            record_type: self.record_type@,
            kind: self.kind,
        }
    }
}

/// A response to send, and the log entry that goes with it, if any.
#[derive(Debug)]
pub struct Served {
    pub code: ResponseCode,
    pub answers: AnswerSection,
    pub log: Option<DnsQueryLog>,
}

/// Contents of a [`Served`].
pub struct ServedView {
    pub code: ResponseCode,
    pub answers: AnswerSection,
    pub log: Option<DnsQueryLogView>,
}

impl View for Served {
    type V = ServedView;

    open spec fn view(&self) -> ServedView {
        ServedView {
            code: self.code,
            answers: self.answers,
            log: match self.log {
                Some(entry) => Some(entry@),
                None => None,
            },
        }
    }
}

/// What the handler does next with a request.
#[derive(Debug)]
pub enum HandlerStep {
    /// Send this response; the request is done.
    Respond(Served),
    /// Make this upstream lookup and hand its result to
    /// [`DnsResolver::complete_lookup`].
    Lookup(PendingLookup),
}

/// Contents of a [`HandlerStep`].
pub enum HandlerStepView {
    Respond(ServedView),
    Lookup(PendingLookupView),
}

impl View for HandlerStep {
    type V = HandlerStepView;

    open spec fn view(&self) -> HandlerStepView {
        match self {
            HandlerStep::Respond(served) => HandlerStepView::Respond(served@),
            HandlerStep::Lookup(pending) => HandlerStepView::Lookup(pending@),
        }
    }
}

/// The id that follows `id`; after the largest, counting starts over.
pub open spec fn id_after(id: u64) -> u64 {
    if id == u64::MAX {
        0
    } else {
        (id + 1) as u64
    }
}

/// The record type's name that marks a rule as answering `A` queries.
pub open spec fn address_rule_type() -> Seq<char> {
    seq!['A']
}

/// The answer that a matching rule gives to a query of this kind: one `A`
/// record where the query asks for `A`, the rule is an `A` rule and its
/// response is an IPv4 address; no record in every other case.
pub open spec fn synthetic_answer(kind: RecordKind, rule: DnsRuleView) -> AnswerSection {
    if kind == RecordKind::A && rule.record_type == address_rule_type() {
        match ipv4_of(rule.response) {
            Some(address) => AnswerSection::Synthetic(
                SyntheticRecord { ttl: SYNTHETIC_TTL, address },
            ),
            None => AnswerSection::Empty,
        }
    } else {
        AnswerSection::Empty
    }
}

/// The records that the log names for an answer made from a rule: the
/// rule's response where a record was made, none otherwise.
pub open spec fn synthetic_records(kind: RecordKind, rule: DnsRuleView) -> Seq<Seq<char>> {
    if synthetic_answer(kind, rule) is Synthetic {
        seq![rule.response]
    } else {
        Seq::empty()
    }
}

/// What is said of a lookup that got no answer in time.
pub open spec fn timeout_description() -> Seq<char> {
    "DNS lookup timed out"@
}

/// The response to a query that a rule answers, with its log entry.
pub open spec fn blocked(
    question: DnsQuestionView,
    rule: DnsRuleView,
    id: u64,
    timestamp: Seq<char>,
) -> ServedView {
    let kind = kind_of(question.record_type);
    ServedView {
        code: ResponseCode::NoError,
        answers: synthetic_answer(kind, rule),
        log: Some(
            DnsQueryLogView {
                id,
                timestamp,
                domain: normalized(question.name),
                record_type: record_type_text(question.record_type),
                response_records: synthetic_records(kind, rule),
                latency_ms: 0,
                status: DnsQueryStatus::Blocked,
            },
        ),
    }
}

/// The response without records and without a log entry.
pub open spec fn rejected(code: ResponseCode) -> ServedView {
    ServedView { code, answers: AnswerSection::Empty, log: None }
}

/// The lookup to make for a query that no rule answers.
pub open spec fn forwarded(question: DnsQuestionView, kind: LookupKind) -> PendingLookupView {
    PendingLookupView {
        name: question.name,
        domain: normalized(question.name),
        record_type: record_type_text(question.record_type),
        kind,
    }
}

/// The step that the handler takes on a request: a request without a
/// question is malformed; a rule that matches answers the query; a query
/// that no rule answers is forwarded where its type can be looked up and
/// refused as not implemented where it cannot.
pub open spec fn first_step(
    rules: DnsRulesView,
    question: Option<DnsQuestionView>,
    id: u64,
    timestamp: Seq<char>,
) -> HandlerStepView {
    match question {
        None => HandlerStepView::Respond(rejected(ResponseCode::FormErr)),
        Some(q) => match rules.lookup(normalized(q.name)) {
            Some(rule) => HandlerStepView::Respond(blocked(q, rule, id, timestamp)),
            None => match lookup_for(kind_of(q.record_type)) {
                Some(kind) => HandlerStepView::Lookup(forwarded(q, kind)),
                None => HandlerStepView::Respond(rejected(ResponseCode::NotImp)),
            },
        },
    }
}

/// The response that ends a forwarded query, with its log entry.
pub open spec fn completed(
    pending: PendingLookupView,
    result: LookupResultView,
    latency_ms: u64,
    id: u64,
    timestamp: Seq<char>,
) -> ServedView {
    match result {
        LookupResultView::Answered(records) => ServedView {
            code: ResponseCode::NoError,
            answers: AnswerSection::Upstream,
            log: Some(
                DnsQueryLogView {
                    id,
                    timestamp,
                    domain: pending.domain,
                    record_type: pending.record_type,
                    response_records: records,
                    latency_ms,
                    status: DnsQueryStatus::Success,
                },
            ),
        },
        LookupResultView::Failed(description) => failed(
            pending,
            description,
            latency_ms,
            id,
            timestamp,
        ),
        LookupResultView::TimedOut => failed(
            pending,
            timeout_description(),
            latency_ms,
            id,
            timestamp,
        ),
    }
}

/// The response to a forwarded query whose lookup failed, with its log
/// entry: the description is the one record that the log names.
pub open spec fn failed(
    pending: PendingLookupView,
    description: Seq<char>,
    latency_ms: u64,
    id: u64,
    timestamp: Seq<char>,
) -> ServedView {
    ServedView {
        code: ResponseCode::ServFail,
        answers: AnswerSection::Empty,
        log: Some(
            DnsQueryLogView {
                id,
                timestamp,
                domain: pending.domain,
                record_type: pending.record_type,
                response_records: seq![description],
                latency_ms,
                status: DnsQueryStatus::Error,
            },
        ),
    }
}

/// Contents of a [`DnsQuestion`].
pub struct DnsQuestionView {
    pub name: Seq<char>,
    pub record_type: u16,
}

impl View for DnsQuestion {
    type V = DnsQuestionView;

    open spec fn view(&self) -> DnsQuestionView {
        DnsQuestionView { name: self.name@, record_type: self.record_type }
    }
}

/// Contents of a [`LookupResult`].
pub enum LookupResultView {
    Answered(Seq<Seq<char>>),
    Failed(Seq<char>),
    TimedOut,
}

impl View for LookupResult {
    type V = LookupResultView;

    open spec fn view(&self) -> LookupResultView {
        match self {
            LookupResult::Answered(records) => LookupResultView::Answered(texts(records@)),
            LookupResult::Failed(description) => LookupResultView::Failed(description@),
            LookupResult::TimedOut => LookupResultView::TimedOut,
        }
    }
}

/// The question, by its contents.
pub open spec fn question_view(question: Option<&DnsQuestion>) -> Option<DnsQuestionView> {
    match question {
        Some(q) => Some(q@),
        None => None,
    }
}

/// Whether a step writes a log entry.
pub open spec fn logs_entry(step: HandlerStepView) -> bool {
    match step {
        HandlerStepView::Respond(served) => served.log is Some,
        HandlerStepView::Lookup(_) => false,
    }
}

/// The id of the log entry that comes after `n` others, counted from a
/// handler whose next id is `start`.
pub open spec fn nth_id(start: u64, n: nat) -> u64
    decreases n,
{
    if n == 0 {
        start
    } else {
        id_after(nth_id(start, (n - 1) as nat))
    }
}

/// The `n`-th id is the start plus `n`, counted round the range of ids.
pub proof fn lemma_nth_id(start: u64, n: nat)
    ensures
        nth_id(start, n) == (start + n) % 0x1_0000_0000_0000_0000,
    decreases n,
{
    if n > 0 {
        lemma_nth_id(start, (n - 1) as nat);
        let prev = (start + n - 1) % 0x1_0000_0000_0000_0000;
        assert((start + n) % 0x1_0000_0000_0000_0000 == if prev == 0xffff_ffff_ffff_ffff {
            0
        } else {
            prev + 1
        }) by {
            vstd::arithmetic::div_mod::lemma_fundamental_div_mod(
                start + n - 1,
                0x1_0000_0000_0000_0000,
            );
            vstd::arithmetic::div_mod::lemma_fundamental_div_mod(start + n, 0x1_0000_0000_0000_0000);
            let q1 = (start + n - 1) / 0x1_0000_0000_0000_0000;
            let q2 = (start + n) / 0x1_0000_0000_0000_0000;
            let r2 = (start + n) % 0x1_0000_0000_0000_0000;
            assert(0x1_0000_0000_0000_0000 * q2 + r2 == 0x1_0000_0000_0000_0000 * q1 + prev + 1);
            assert(0 <= r2 < 0x1_0000_0000_0000_0000);
            assert(0 <= prev < 0x1_0000_0000_0000_0000);
            if q2 > q1 {
                assert(0x1_0000_0000_0000_0000 * q2 >= 0x1_0000_0000_0000_0000 * q1
                    + 0x1_0000_0000_0000_0000) by (nonlinear_arith)
                    requires
                        q2 >= q1 + 1,
                ;
                assert(0x1_0000_0000_0000_0000 * q2 <= 0x1_0000_0000_0000_0000 * q1
                    + 0x1_0000_0000_0000_0000) by (nonlinear_arith)
                    requires
                        0x1_0000_0000_0000_0000 * q2 + r2 == 0x1_0000_0000_0000_0000 * q1 + prev + 1,
                        0 <= r2,
                        prev < 0x1_0000_0000_0000_0000,
                ;
            } else if q2 < q1 {
                assert(0x1_0000_0000_0000_0000 * q2 + 0x1_0000_0000_0000_0000
                    <= 0x1_0000_0000_0000_0000 * q1) by (nonlinear_arith)
                    requires
                        q2 + 1 <= q1,
                ;
            }
        }
    }
}

/// No two log entries get the same id, as long as fewer entries lie
/// between them than there are ids.
pub proof fn law_ids_differ(start: u64, i: nat, j: nat)
    requires
        i < j,
        j - i <= u64::MAX,
    ensures
        nth_id(start, i) != nth_id(start, j),
{
    lemma_nth_id(start, i);
    lemma_nth_id(start, j);
    let m = 0x1_0000_0000_0000_0000int;
    if (start + i) % m == (start + j) % m {
        vstd::arithmetic::div_mod::lemma_fundamental_div_mod(start + i, m);
        vstd::arithmetic::div_mod::lemma_fundamental_div_mod(start + j, m);
        let qi = (start + i) / m;
        let qj = (start + j) / m;
        assert(j - i == m * qj - m * qi);
        assert(m * qj - m * qi == m * (qj - qi)) by (nonlinear_arith);
        if qj - qi >= 1 {
            assert(m * (qj - qi) >= m) by (nonlinear_arith)
                requires
                    qj - qi >= 1,
                    m > 0,
            ;
        } else {
            assert(m * (qj - qi) <= 0) by (nonlinear_arith)
                requires
                    qj - qi <= 0,
                    m > 0,
            ;
        }
    }
}

/// A request leads to at most one log entry, and where it does the entry
/// carries the handler's next id. A query of a type that cannot be looked
/// up, and that no rule answers, is refused without a log entry; so is a
/// request without a question.
pub proof fn law_one_entry_per_request(
    rules: DnsRulesView,
    question: Option<DnsQuestionView>,
    id: u64,
    timestamp: Seq<char>,
)
    ensures
        match first_step(rules, question, id, timestamp) {
            HandlerStepView::Respond(served) => match served.log {
                Some(entry) => entry.id == id && entry.status == DnsQueryStatus::Blocked,
                None => served.code != ResponseCode::NoError,
            },
            HandlerStepView::Lookup(_) => true,
        },
        question is None ==> first_step(rules, question, id, timestamp) == HandlerStepView::Respond(
            rejected(ResponseCode::FormErr),
        ),
        question matches Some(q) && rules.lookup(normalized(q.name)) is None && lookup_for(
            kind_of(q.record_type),
        ) is None ==> first_step(rules, question, id, timestamp) == HandlerStepView::Respond(
            rejected(ResponseCode::NotImp),
        ),
{
}

/// A forwarded query ends with exactly one log entry, which carries the
/// handler's next id: of status `Success` with a `NoError` response where
/// the lookup answered, of status `Error` with a `ServFail` response and
/// no records where it did not.
pub proof fn law_one_entry_per_lookup(
    pending: PendingLookupView,
    result: LookupResultView,
    latency_ms: u64,
    id: u64,
    timestamp: Seq<char>,
)
    ensures
        completed(pending, result, latency_ms, id, timestamp).log matches Some(entry) && entry.id
            == id && entry.latency_ms == latency_ms && (match result {
            LookupResultView::Answered(records) => entry.status == DnsQueryStatus::Success
                && entry.response_records == records && completed(
                pending,
                result,
                latency_ms,
                id,
                timestamp,
            ).code == ResponseCode::NoError,
            _ => entry.status == DnsQueryStatus::Error && entry.response_records.len() == 1
                && completed(pending, result, latency_ms, id, timestamp).code
                == ResponseCode::ServFail && completed(
                pending,
                result,
                latency_ms,
                id,
                timestamp,
            ).answers == AnswerSection::Empty,
        }),
{
}

/// A rule for `A` records whose response is an IPv4 address answers an `A`
/// query with exactly one record of that address, with code `NoError`, and
/// the log entry has the status `Blocked`. An `AAAA` query, or any other,
/// gets no record from a rule, and the same code and status.
pub proof fn law_rule_answer(
    question: DnsQuestionView,
    rule: DnsRuleView,
    id: u64,
    timestamp: Seq<char>,
)
    ensures
        blocked(question, rule, id, timestamp).code == ResponseCode::NoError,
        blocked(question, rule, id, timestamp).log matches Some(entry) && entry.status
            == DnsQueryStatus::Blocked,
        ipv4_of(rule.response) matches Some(address) ==> (kind_of(question.record_type)
            == RecordKind::A && rule.record_type == address_rule_type() ==> blocked(
            question,
            rule,
            id,
            timestamp,
        ).answers == AnswerSection::Synthetic(SyntheticRecord { ttl: 60, address })),
        kind_of(question.record_type) != RecordKind::A ==> blocked(
            question,
            rule,
            id,
            timestamp,
        ).answers == AnswerSection::Empty,
{
}

/// A lookup that timed out is answered with `ServFail`, and its log entry
/// has the status `Error` and names one record: a description that is not
/// empty.
pub proof fn law_timeout_is_logged(
    pending: PendingLookupView,
    latency_ms: u64,
    id: u64,
    timestamp: Seq<char>,
)
    ensures
        completed(pending, LookupResultView::TimedOut, latency_ms, id, timestamp).code
            == ResponseCode::ServFail,
        completed(pending, LookupResultView::TimedOut, latency_ms, id, timestamp).log matches Some(
            entry,
        ) && entry.status == DnsQueryStatus::Error && entry.response_records.len() == 1
            && entry.response_records[0].len() > 0,
{
    reveal_strlit("DNS lookup timed out");
}

/// The request handler's own state: the id that the next log entry gets.
/// One handler serves all requests, so no id is given out twice until the
/// counter has gone through all of its values.
#[derive(Debug)]
pub struct DnsResolver {
    next_id: u64,
}

impl View for DnsResolver {
    type V = u64;

    closed spec fn view(&self) -> u64 {
        self.next_id
    }
}

impl DnsResolver {
    /// A handler whose first log entry gets the id 0.
    pub fn new() -> (r: Self)
        ensures
            r@ == 0,
    {
        DnsResolver { next_id: 0 }
    }

    /// The id that the next log entry gets.
    pub fn next_id(&self) -> (id: u64)
        ensures
            id == self@,
    {
        self.next_id
    }

    /// Takes the next id.
    fn allocate_id(&mut self) -> (id: u64)
        ensures
            id == old(self)@,
            final(self)@ == id_after(old(self)@),
    {
        let id = self.next_id;
        self.next_id = if id == u64::MAX {
            0
        } else {
            id + 1
        };
        id
    }

    /// Decides what to do with a request, given its first question if it
    /// has one. A response that comes with a log entry uses up one id; a
    /// lookup, or a response without a log entry, uses none.
    pub fn handle_request(
        &mut self,
        rules: &DnsRules,
        question: Option<&DnsQuestion>,
        timestamp: &str,
    ) -> (step: HandlerStep)
        ensures
            step@ == first_step(rules@, question_view(question), old(self)@, timestamp@),
            final(self)@ == if logs_entry(step@) {
                id_after(old(self)@)
            } else {
                old(self)@
            },
    {
        let q = match question {
            Some(q) => q,
            None => {
                return HandlerStep::Respond(
                    Served { code: ResponseCode::FormErr, answers: AnswerSection::Empty, log: None },
                );
            },
        };
        let (kind, type_text) = describe_record_type(q.record_type);
        let domain = crate::text::normalize_domain(q.name.as_str());
        match rules.match_domain(q.name.as_str()) {
            Some(rule) => {
                let answers = answer_from_rule(kind, rule);
                let mut records: Vec<String> = Vec::new();
                if let AnswerSection::Synthetic(_) = answers {
                    records.push(rule.response.clone());
                    assert(texts(records@) =~= seq![rule@.response]);
                } else {
                    assert(texts(records@) =~= Seq::<Seq<char>>::empty());
                }
                let id = self.allocate_id();
                let entry = DnsQueryLog {
                    id,
                    timestamp: timestamp.to_owned(),
                    domain,
                    record_type: type_text,
                    response_records: records,
                    latency_ms: 0,
                    status: DnsQueryStatus::Blocked,
                };
                HandlerStep::Respond(
                    Served { code: ResponseCode::NoError, answers, log: Some(entry) },
                )
            },
            None => match lookup_kind(kind) {
                Some(lookup) => HandlerStep::Lookup(
                    PendingLookup {
                        name: q.name.clone(),
                        domain,
                        record_type: type_text,
                        kind: lookup,
                    },
                ),
                None => HandlerStep::Respond(
                    Served { code: ResponseCode::NotImp, answers: AnswerSection::Empty, log: None },
                ),
            },
        }
    }

    /// Ends a forwarded query with the result of its lookup: the response
    /// to send and the one log entry, which uses up one id.
    pub fn complete_lookup(
        &mut self,
        pending: PendingLookup,
        result: LookupResult,
        latency_ms: u64,
        timestamp: &str,
    ) -> (served: Served)
        ensures
            served@ == completed(pending@, result@, latency_ms, old(self)@, timestamp@),
            final(self)@ == id_after(old(self)@),
    {
        let id = self.allocate_id();
        let (code, answers, records, status) = match result {
            LookupResult::Answered(records) => (
                ResponseCode::NoError,
                AnswerSection::Upstream,
                records,
                DnsQueryStatus::Success,
            ),
            LookupResult::Failed(description) => {
                let mut records: Vec<String> = Vec::new();
                records.push(description);
                assert(texts(records@) =~= seq![description@]);
                (ResponseCode::ServFail, AnswerSection::Empty, records, DnsQueryStatus::Error)
            },
            LookupResult::TimedOut => {
                let mut records: Vec<String> = Vec::new();
                let description = "DNS lookup timed out".to_owned();
                records.push(description);
                assert(texts(records@) =~= seq![timeout_description()]);
                (ResponseCode::ServFail, AnswerSection::Empty, records, DnsQueryStatus::Error)
            },
        };
        let entry = DnsQueryLog {
            id,
            timestamp: timestamp.to_owned(),
            domain: pending.domain,
            record_type: pending.record_type,
            response_records: records,
            latency_ms,
            status,
        };
        Served { code, answers, log: Some(entry) }
    }
}

/// The answer that a matching rule gives to a query of this kind.
pub fn answer_from_rule(kind: RecordKind, rule: &DnsRule) -> (r: AnswerSection)
    ensures
        r == synthetic_answer(kind, rule@),
{
    let wanted = "A".to_owned();
    proof {
        reveal_strlit("A");
        assert(wanted@ =~= address_rule_type());
    }
    match kind {
        RecordKind::A => {
            if rule.record_type == wanted {
                match parse_ipv4(rule.response.as_str()) {
                    Some(address) => AnswerSection::Synthetic(
                        SyntheticRecord { ttl: SYNTHETIC_TTL, address },
                    ),
                    None => AnswerSection::Empty,
                }
            } else {
                AnswerSection::Empty
            }
        },
        _ => AnswerSection::Empty,
    }
}

} // verus!
