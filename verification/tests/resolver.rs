use dns_proxy::dns_resolver::{
    AnswerSection, DnsQuestion, DnsResolver, HandlerStep, LookupResult, PendingLookup,
    ResponseCode, Served, SYNTHETIC_TTL,
};
use dns_proxy::dns_rules::DnsRules;
use dns_proxy::dns_types::{DnsQueryStatus, DnsRule};
use dns_proxy::ipv4::Ipv4Literal;
use dns_proxy::record_type::LookupKind;

const NOW: &str = "2024-05-01T12:00:00Z";

fn rule(domain: &str, response: &str, record_type: &str) -> DnsRule {
    DnsRule {
        id: "r".to_string(),
        domain: domain.to_string(),
        response: response.to_string(),
        enabled: true,
        record_type: record_type.to_string(),
    }
}

fn question(name: &str, record_type: u16) -> DnsQuestion {
    DnsQuestion { name: name.to_string(), record_type }
}

fn respond(step: HandlerStep) -> Served {
    match step {
        HandlerStep::Respond(served) => served,
        HandlerStep::Lookup(_) => panic!("a response was expected"),
    }
}

fn lookup(step: HandlerStep) -> PendingLookup {
    match step {
        HandlerStep::Lookup(pending) => pending,
        HandlerStep::Respond(_) => panic!("a lookup was expected"),
    }
}

#[test]
fn request_without_question_is_malformed_and_not_logged() {
    let mut handler = DnsResolver::new();
    let rules = DnsRules::new();
    let served = respond(handler.handle_request(&rules, None, NOW));
    assert_eq!(served.code, ResponseCode::FormErr);
    assert_eq!(served.answers, AnswerSection::Empty);
    assert!(served.log.is_none());
    assert_eq!(handler.next_id(), 0);
}

#[test]
fn blocked_a_rule_yields_one_a_record() {
    let mut handler = DnsResolver::new();
    let mut rules = DnsRules::new();
    rules.add_rule(rule("ads.example.com", "10.0.0.1", "A"));
    let q = question("Ads.Example.com.", 1);
    let served = respond(handler.handle_request(&rules, Some(&q), NOW));
    assert_eq!(served.code, ResponseCode::NoError);
    assert_eq!(
        served.answers,
        AnswerSection::Synthetic(dns_proxy::dns_resolver::SyntheticRecord {
            ttl: 60,
            address: Ipv4Literal { a: 10, b: 0, c: 0, d: 1 },
        })
    );
    assert_eq!(SYNTHETIC_TTL, 60);
    let entry = served.log.expect("a rule hit is logged");
    assert_eq!(entry.id, 0);
    assert_eq!(entry.timestamp, NOW);
    assert_eq!(entry.domain, "ads.example.com");
    assert_eq!(entry.record_type, "A");
    assert_eq!(entry.response_records, vec!["10.0.0.1".to_string()]);
    assert_eq!(entry.latency_ms, 0);
    assert_eq!(entry.status, DnsQueryStatus::Blocked);
    assert_eq!(handler.next_id(), 1);
}

#[test]
fn aaaa_query_against_ipv4_rule_gets_no_record() {
    let mut handler = DnsResolver::new();
    let mut rules = DnsRules::new();
    rules.add_rule(rule("ads.example.com", "10.0.0.1", "A"));
    let q = question("ads.example.com", 28);
    let served = respond(handler.handle_request(&rules, Some(&q), NOW));
    assert_eq!(served.code, ResponseCode::NoError);
    assert_eq!(served.answers, AnswerSection::Empty);
    let entry = served.log.expect("a rule hit is logged");
    assert_eq!(entry.status, DnsQueryStatus::Blocked);
    assert_eq!(entry.record_type, "AAAA");
    assert!(entry.response_records.is_empty());
}

#[test]
fn other_query_types_against_a_rule_get_no_record() {
    let mut rules = DnsRules::new();
    rules.add_rule(rule("*.example.com", "10.0.0.1", "A"));
    for (code, name) in [(16u16, "TXT"), (15, "MX"), (5, "CNAME"), (2, "NS")] {
        let mut handler = DnsResolver::new();
        let q = question("mail.example.com", code);
        let served = respond(handler.handle_request(&rules, Some(&q), NOW));
        assert_eq!(served.code, ResponseCode::NoError);
        assert_eq!(served.answers, AnswerSection::Empty);
        let entry = served.log.expect("a rule hit is logged");
        assert_eq!(entry.status, DnsQueryStatus::Blocked);
        assert_eq!(entry.record_type, name);
        assert_eq!(entry.domain, "mail.example.com");
    }
}

#[test]
fn rule_without_ipv4_response_gets_no_record() {
    let mut rules = DnsRules::new();
    rules.add_rule(rule("a.example", "not-an-address", "A"));
    rules.add_rule(rule("b.example", "::1", "A"));
    rules.add_rule(rule("c.example", "10.0.0.256", "A"));
    rules.add_rule(rule("d.example", "10.0.0.1", "AAAA"));
    for name in ["a.example", "b.example", "c.example", "d.example"] {
        let mut handler = DnsResolver::new();
        let q = question(name, 1);
        let served = respond(handler.handle_request(&rules, Some(&q), NOW));
        assert_eq!(served.code, ResponseCode::NoError);
        assert_eq!(served.answers, AnswerSection::Empty);
        let entry = served.log.expect("a rule hit is logged");
        assert_eq!(entry.status, DnsQueryStatus::Blocked);
        assert!(entry.response_records.is_empty());
    }
}

#[test]
fn unmatched_queries_are_forwarded_by_type() {
    let rules = DnsRules::new();
    for (code, kind, name) in [
        (1u16, LookupKind::Ip, "A"),
        (28, LookupKind::Ip, "AAAA"),
        (16, LookupKind::Txt, "TXT"),
        (15, LookupKind::Mx, "MX"),
    ] {
        let mut handler = DnsResolver::new();
        let q = question("WWW.Example.com.", code);
        let pending = lookup(handler.handle_request(&rules, Some(&q), NOW));
        assert_eq!(pending.kind, kind);
        assert_eq!(pending.name, "WWW.Example.com.");
        assert_eq!(pending.domain, "www.example.com");
        assert_eq!(pending.record_type, name);
        assert_eq!(handler.next_id(), 0);
    }
}

#[test]
fn unsupported_type_is_refused_and_not_logged() {
    let rules = DnsRules::new();
    for code in [5u16, 2, 6, 33, 255, 0, 65280] {
        let mut handler = DnsResolver::new();
        let q = question("www.example.com", code);
        let served = respond(handler.handle_request(&rules, Some(&q), NOW));
        assert_eq!(served.code, ResponseCode::NotImp);
        assert_eq!(served.answers, AnswerSection::Empty);
        assert!(served.log.is_none());
        assert_eq!(handler.next_id(), 0);
    }
}

#[test]
fn successful_lookup_is_logged_with_its_records() {
    let mut handler = DnsResolver::new();
    let rules = DnsRules::new();
    let q = question("www.example.com.", 1);
    let pending = lookup(handler.handle_request(&rules, Some(&q), NOW));
    let result = LookupResult::Answered(vec!["93.184.216.34".to_string(), "93.184.216.35".to_string()]);
    let served = handler.complete_lookup(pending, result, 42, "later");
    assert_eq!(served.code, ResponseCode::NoError);
    assert_eq!(served.answers, AnswerSection::Upstream);
    let entry = served.log.expect("a forwarded query is logged");
    assert_eq!(entry.id, 0);
    assert_eq!(entry.timestamp, "later");
    assert_eq!(entry.domain, "www.example.com");
    assert_eq!(entry.record_type, "A");
    assert_eq!(
        entry.response_records,
        vec!["93.184.216.34".to_string(), "93.184.216.35".to_string()]
    );
    assert_eq!(entry.latency_ms, 42);
    assert_eq!(entry.status, DnsQueryStatus::Success);
    assert_eq!(handler.next_id(), 1);
}

#[test]
fn failed_lookup_is_answered_with_servfail() {
    let mut handler = DnsResolver::new();
    let rules = DnsRules::new();
    let q = question("www.example.com", 16);
    let pending = lookup(handler.handle_request(&rules, Some(&q), NOW));
    let served =
        handler.complete_lookup(pending, LookupResult::Failed("no connection".to_string()), 5, NOW);
    assert_eq!(served.code, ResponseCode::ServFail);
    assert_eq!(served.answers, AnswerSection::Empty);
    let entry = served.log.expect("a failed lookup is logged");
    assert_eq!(entry.status, DnsQueryStatus::Error);
    assert_eq!(entry.response_records, vec!["no connection".to_string()]);
    assert_eq!(entry.record_type, "TXT");
    assert_eq!(entry.latency_ms, 5);
}

#[test]
fn upstream_timeout_yields_servfail_and_error_entry() {
    let mut handler = DnsResolver::new();
    let rules = DnsRules::new();
    let q = question("slow.example.com", 1);
    let pending = lookup(handler.handle_request(&rules, Some(&q), NOW));
    let served = handler.complete_lookup(pending, LookupResult::TimedOut, 3000, NOW);
    assert_eq!(served.code, ResponseCode::ServFail);
    assert_eq!(served.answers, AnswerSection::Empty);
    let entry = served.log.expect("a timeout is logged");
    assert_eq!(entry.status, DnsQueryStatus::Error);
    assert_eq!(entry.response_records.len(), 1);
    assert!(!entry.response_records[0].is_empty());
    assert_eq!(entry.response_records[0], "DNS lookup timed out");
    assert_eq!(entry.latency_ms, 3000);
    assert_eq!(entry.domain, "slow.example.com");
}

#[test]
fn log_ids_are_fresh_and_increase() {
    let mut handler = DnsResolver::new();
    let mut rules = DnsRules::new();
    rules.add_rule(rule("blocked.example", "10.0.0.1", "A"));
    let mut seen: Vec<u64> = Vec::new();
    for round in 0..20 {
        let q = question("blocked.example", 1);
        let served = respond(handler.handle_request(&rules, Some(&q), NOW));
        seen.push(served.log.expect("logged").id);
        let q = question("open.example", 1);
        let pending = lookup(handler.handle_request(&rules, Some(&q), NOW));
        let served = handler.complete_lookup(pending, LookupResult::TimedOut, 1, NOW);
        seen.push(served.log.expect("logged").id);
        let q = question("open.example", 5);
        let served = respond(handler.handle_request(&rules, Some(&q), NOW));
        assert!(served.log.is_none());
        assert_eq!(seen.len(), 2 * (round + 1));
    }
    for (i, id) in seen.iter().enumerate() {
        assert_eq!(*id, i as u64);
    }
    assert_eq!(handler.next_id(), 40);
}

#[test]
fn names_of_record_types_come_from_the_dns_library() {
    let rules = DnsRules::new();
    let mut handler = DnsResolver::new();
    let q = question("example.com", 15);
    let pending = lookup(handler.handle_request(&rules, Some(&q), NOW));
    assert_eq!(pending.record_type, "MX");
    assert_ne!(pending.record_type, "15");
}
