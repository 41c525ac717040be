use dns_proxy::dns_rules::DnsRules;
use dns_proxy::dns_types::DnsRule;

fn rule(id: &str, domain: &str, response: &str, enabled: bool) -> DnsRule {
    DnsRule {
        id: id.to_string(),
        domain: domain.to_string(),
        response: response.to_string(),
        enabled,
        record_type: "A".to_string(),
    }
}

#[test]
fn exact_rule_matches_any_case_and_root_dot() {
    let mut rules = DnsRules::new();
    rules.add_rule(rule("1", "Ads.Example.com", "10.0.0.1", true));
    for name in ["ads.example.com", "ADS.EXAMPLE.COM", "ads.example.com.", "Ads.Example.Com."] {
        let hit = rules.match_domain(name).expect("rule should match");
        assert_eq!(hit.id, "1");
        assert_eq!(hit.domain, "ads.example.com");
        assert_eq!(hit.response, "10.0.0.1");
    }
    assert!(rules.match_domain("example.com").is_none());
    assert!(rules.match_domain("x.ads.example.com").is_none());
}

#[test]
fn only_one_root_dot_is_trimmed() {
    let mut rules = DnsRules::new();
    rules.add_rule(rule("1", "example.com", "10.0.0.1", true));
    assert!(rules.match_domain("example.com.").is_some());
    assert!(rules.match_domain("example.com..").is_none());
    assert!(rules.match_domain("").is_none());
    assert!(rules.match_domain(".").is_none());
}

#[test]
fn rule_domain_is_stored_lower_cased_and_no_more() {
    let mut rules = DnsRules::new();
    rules.add_rule(rule("1", "a.com", "10.0.0.1", true));
    rules.add_rule(rule("2", "A.COM.", "10.0.0.2", true));
    let all = rules.to_vec();
    assert_eq!(all.len(), 2);
    assert_eq!(all[0].id, "1");
    assert_eq!(all[0].domain, "a.com");
    assert_eq!(all[1].id, "2");
    assert_eq!(all[1].domain, "a.com.");
    assert_eq!(rules.match_domain("a.com").expect("match").id, "1");
    assert_eq!(rules.match_domain("A.com.").expect("match").id, "1");
    assert_eq!(rules.match_normalized("a.com.").expect("match").id, "2");
}

#[test]
fn star_dot_alone_is_a_wildcard_rule() {
    let mut rules = DnsRules::new();
    rules.add_rule(rule("w", "*.", "10.0.0.1", true));
    assert_eq!(rules.to_vec()[0].domain, "*.");
    assert_eq!(rules.match_normalized("").expect("empty suffix").id, "w");
    assert_eq!(rules.match_normalized("a.").expect("ends with a dot").id, "w");
    assert!(rules.match_normalized("a").is_none());
    assert!(rules.match_normalized("*").is_none());
}

#[test]
fn a_given_key_is_matched_as_it_stands() {
    let mut rules = DnsRules::new();
    rules.add_rule(rule("1", "Ads.Example.com", "10.0.0.1", true));
    assert_eq!(rules.match_normalized("ads.example.com").expect("match").id, "1");
    assert!(rules.match_normalized("Ads.Example.com").is_none());
    assert!(rules.match_normalized("ads.example.com.").is_none());
}

#[test]
fn a_rule_is_filed_under_its_domain_as_it_stands() {
    let mut rules = DnsRules::new();
    rules.add_stored(rule("1", "ads.example.com", "10.0.0.1", true));
    rules.add_stored(rule("w", "*.example.org", "10.0.0.2", true));
    rules.add_stored(rule("2", "ads.example.com", "10.0.0.3", false));
    let all = rules.to_vec();
    assert_eq!(all.len(), 2);
    assert_eq!(all[0].id, "2");
    assert_eq!(all[0].response, "10.0.0.3");
    assert_eq!(all[1].id, "w");
    assert!(rules.match_domain("ads.example.com").is_none());
    assert_eq!(rules.match_domain("x.example.org").expect("match").id, "w");
}

#[test]
fn wildcard_rule_covers_suffix_and_subdomains() {
    let mut rules = DnsRules::new();
    rules.add_rule(rule("w", "*.ads.example.com", "0.0.0.0", true));
    assert_eq!(rules.match_domain("ads.example.com").expect("suffix itself").id, "w");
    assert_eq!(rules.match_domain("x.ads.example.com").expect("subdomain").id, "w");
    assert_eq!(rules.match_domain("a.b.ADS.example.com.").expect("deep subdomain").id, "w");
    assert!(rules.match_domain("badsexample.com").is_none());
    assert!(rules.match_domain("bads.example.com").is_none());
    assert!(rules.match_domain("example.com").is_none());
    assert!(rules.match_domain("ads.example.com.evil").is_none());
}

#[test]
fn wildcard_domain_is_stored_lower_cased_with_its_mark() {
    let mut rules = DnsRules::new();
    rules.add_rule(rule("w", "*.ADS.Example.COM", "0.0.0.0", true));
    let all = rules.to_vec();
    assert_eq!(all.len(), 1);
    assert_eq!(all[0].domain, "*.ads.example.com");
    assert_eq!(rules.match_domain("Tracker.Ads.Example.Com").expect("covered").id, "w");
}

#[test]
fn exact_rule_comes_before_wildcard_rule() {
    let mut rules = DnsRules::new();
    rules.add_rule(rule("w", "*.example.com", "0.0.0.0", true));
    rules.add_rule(rule("e", "www.example.com", "10.0.0.2", true));
    assert_eq!(rules.match_domain("www.example.com").expect("exact").id, "e");
    assert_eq!(rules.match_domain("mail.example.com").expect("wildcard").id, "w");
}

#[test]
fn first_enabled_wildcard_wins() {
    let mut rules = DnsRules::new();
    rules.add_rule(rule("outer", "*.example.com", "0.0.0.0", true));
    rules.add_rule(rule("inner", "*.ads.example.com", "0.0.0.1", true));
    assert_eq!(rules.match_domain("x.ads.example.com").expect("covered").id, "outer");
    rules.toggle_rule("outer");
    assert_eq!(rules.match_domain("x.ads.example.com").expect("covered").id, "inner");
}

#[test]
fn disabled_rules_never_match() {
    let mut rules = DnsRules::new();
    rules.add_rule(rule("e", "ads.example.com", "10.0.0.1", false));
    rules.add_rule(rule("w", "*.tracker.net", "10.0.0.1", false));
    assert!(rules.match_domain("ads.example.com").is_none());
    assert!(rules.match_domain("tracker.net").is_none());
    assert!(rules.match_domain("a.tracker.net").is_none());
}

#[test]
fn disabled_exact_rule_lets_no_wildcard_answer() {
    let mut rules = DnsRules::new();
    rules.add_rule(rule("e", "ads.example.com", "2.2.2.2", false));
    rules.add_rule(rule("w", "*.ads.example.com", "1.1.1.1", true));
    assert!(rules.match_domain("ads.example.com").is_none());
    assert!(rules.match_domain("ADS.example.com.").is_none());
    assert_eq!(rules.match_domain("x.ads.example.com").expect("subdomain").id, "w");
    rules.toggle_rule("e");
    assert_eq!(rules.match_domain("ads.example.com").expect("exact").id, "e");
    rules.remove_rule("e");
    assert_eq!(rules.match_domain("ads.example.com").expect("wildcard").id, "w");
}

#[test]
fn disabled_exact_rule_lets_no_parent_wildcard_answer() {
    let mut rules = DnsRules::new();
    rules.add_rule(rule("e", "ads.example.com", "10.0.0.1", false));
    rules.add_rule(rule("w", "*.example.com", "10.0.0.9", true));
    assert!(rules.match_domain("ads.example.com").is_none());
    assert_eq!(rules.match_domain("other.example.com").expect("wildcard").id, "w");
}

#[test]
fn disabled_wildcard_rule_is_passed_over() {
    let mut rules = DnsRules::new();
    rules.add_rule(rule("off", "*.ads.example.com", "10.0.0.1", false));
    rules.add_rule(rule("on", "*.example.com", "10.0.0.2", true));
    assert_eq!(rules.match_domain("x.ads.example.com").expect("second wildcard").id, "on");
}

#[test]
fn adding_a_rule_leaves_the_others() {
    let mut rules = DnsRules::new();
    rules.add_rule(rule("a", "a.com", "10.0.0.1", true));
    rules.add_rule(rule("b", "b.com", "10.0.0.2", false));
    rules.add_rule(rule("w", "*.a.com", "10.0.0.3", true));
    assert_eq!(rules.to_vec().len(), 3);
    rules.add_rule(rule("a2", "A.com", "10.0.0.4", true));
    let all = rules.to_vec();
    assert_eq!(all.len(), 3);
    assert_eq!(all[0].id, "b");
    assert_eq!(all[0].response, "10.0.0.2");
    assert!(!all[0].enabled);
    assert_eq!(all[1].id, "a2");
    assert_eq!(all[1].domain, "a.com");
    assert_eq!(all[2].id, "w");
    rules.add_rule(rule("c", "c.com", "10.0.0.5", true));
    assert_eq!(rules.to_vec().len(), 4);
}

#[test]
fn a_snapshot_loads_back_to_the_same_rules() {
    let mut rules = DnsRules::new();
    rules.add_rule(rule("a", "A.com", "10.0.0.1", true));
    rules.add_rule(rule("w", "*.B.com", "10.0.0.2", false));
    rules.add_rule(rule("c", "c.com.", "10.0.0.3", true));
    let snapshot = rules.to_vec();
    let mut other = DnsRules::new();
    other.add_rule(rule("x", "x.com", "10.0.0.9", true));
    other.load_rules(snapshot.clone());
    let loaded = other.to_vec();
    assert_eq!(loaded.len(), snapshot.len());
    for (l, s) in loaded.iter().zip(snapshot.iter()) {
        assert_eq!(l.id, s.id);
        assert_eq!(l.domain, s.domain);
        assert_eq!(l.response, s.response);
        assert_eq!(l.enabled, s.enabled);
        assert_eq!(l.record_type, s.record_type);
    }
    for name in ["a.com", "x.b.com", "c.com", "c.com.", "x.com"] {
        assert_eq!(
            rules.match_domain(name).map(|r| r.id.clone()),
            other.match_domain(name).map(|r| r.id.clone())
        );
    }
}

#[test]
fn second_add_replaces_the_first() {
    let mut rules = DnsRules::new();
    rules.add_rule(rule("1", "Ads.example.com", "10.0.0.1", true));
    rules.add_rule(DnsRule {
        id: "2".to_string(),
        domain: "ADS.EXAMPLE.COM".to_string(),
        response: "10.0.0.2".to_string(),
        enabled: false,
        record_type: "AAAA".to_string(),
    });
    let all = rules.to_vec();
    assert_eq!(all.len(), 1);
    assert_eq!(all[0].id, "2");
    assert_eq!(all[0].domain, "ads.example.com");
    assert_eq!(all[0].response, "10.0.0.2");
    assert_eq!(all[0].record_type, "AAAA");
    assert!(!all[0].enabled);
    assert!(rules.match_domain("ads.example.com").is_none());
}

#[test]
fn second_wildcard_add_replaces_the_first() {
    let mut rules = DnsRules::new();
    rules.add_rule(rule("1", "*.example.com", "10.0.0.1", true));
    rules.add_rule(rule("2", "*.other.com", "10.0.0.3", true));
    rules.add_rule(rule("3", "*.EXAMPLE.com", "10.0.0.2", true));
    let all = rules.to_vec();
    assert_eq!(all.len(), 2);
    assert_eq!(all[0].id, "2");
    assert_eq!(all[1].id, "3");
    assert_eq!(rules.match_domain("a.example.com").expect("covered").response, "10.0.0.2");
}

#[test]
fn exact_and_wildcard_of_one_domain_live_side_by_side() {
    let mut rules = DnsRules::new();
    rules.add_rule(rule("e", "example.com", "10.0.0.1", true));
    rules.add_rule(rule("w", "*.example.com", "10.0.0.2", true));
    assert_eq!(rules.to_vec().len(), 2);
    assert_eq!(rules.match_domain("example.com").expect("exact").id, "e");
    assert_eq!(rules.match_domain("a.example.com").expect("wildcard").id, "w");
}

#[test]
fn remove_takes_rules_of_both_kinds() {
    let mut rules = DnsRules::new();
    rules.add_rule(rule("x", "example.com", "10.0.0.1", true));
    rules.add_rule(rule("x", "*.example.org", "10.0.0.2", true));
    rules.add_rule(rule("y", "example.net", "10.0.0.3", true));
    rules.remove_rule("x");
    let all = rules.to_vec();
    assert_eq!(all.len(), 1);
    assert_eq!(all[0].id, "y");
    rules.remove_rule("absent");
    assert_eq!(rules.to_vec().len(), 1);
}

#[test]
fn toggle_flips_the_first_rule_of_an_id() {
    let mut rules = DnsRules::new();
    rules.add_rule(rule("x", "example.com", "10.0.0.1", true));
    rules.add_rule(rule("x", "*.example.org", "10.0.0.2", true));
    rules.toggle_rule("x");
    assert!(rules.match_domain("example.com").is_none());
    assert!(rules.match_domain("a.example.org").is_some());
    rules.toggle_rule("x");
    assert!(rules.match_domain("example.com").is_some());
    rules.toggle_rule("absent");
    assert_eq!(rules.to_vec().len(), 2);
}

#[test]
fn toggle_reaches_a_wildcard_rule() {
    let mut rules = DnsRules::new();
    rules.add_rule(rule("w", "*.example.org", "10.0.0.2", true));
    rules.toggle_rule("w");
    assert!(rules.match_domain("a.example.org").is_none());
    assert!(!rules.to_vec()[0].enabled);
}

#[test]
fn to_vec_lists_exact_rules_then_wildcards() {
    let mut rules = DnsRules::new();
    rules.add_rule(rule("w", "*.example.org", "10.0.0.2", true));
    rules.add_rule(rule("a", "a.com", "10.0.0.1", true));
    rules.add_rule(rule("b", "b.com", "10.0.0.1", true));
    let ids: Vec<String> = rules.to_vec().iter().map(|r| r.id.clone()).collect();
    assert_eq!(ids, vec!["a".to_string(), "b".to_string(), "w".to_string()]);
}

#[test]
fn load_replaces_the_whole_store() {
    let mut rules = DnsRules::new();
    rules.add_rule(rule("old", "old.com", "10.0.0.1", true));
    rules.load_rules(vec![
        rule("1", "One.com", "10.0.0.1", true),
        rule("2", "*.two.com", "10.0.0.2", true),
        rule("3", "ONE.com", "10.0.0.3", true),
    ]);
    assert!(rules.match_domain("old.com").is_none());
    let all = rules.to_vec();
    assert_eq!(all.len(), 2);
    assert_eq!(all[0].id, "3");
    assert_eq!(all[0].domain, "one.com");
    assert_eq!(all[1].id, "2");
    rules.load_rules(Vec::new());
    assert!(rules.to_vec().is_empty());
}

#[test]
fn new_store_is_empty() {
    let rules = DnsRules::new();
    assert!(rules.to_vec().is_empty());
    assert!(rules.match_domain("example.com").is_none());
}

#[test]
fn non_ascii_names_are_lower_cased_too() {
    let mut rules = DnsRules::new();
    rules.add_rule(rule("1", "BÜCHER.example", "10.0.0.1", true));
    assert_eq!(rules.to_vec()[0].domain, "bücher.example");
    assert!(rules.match_domain("Bücher.Example").is_some());
}
