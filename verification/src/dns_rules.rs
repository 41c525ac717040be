//! The rule store: exact and wildcard rules, matched against queried names.

use vstd::prelude::*;

use crate::dns_types::{DnsRule, DnsRuleView};
use crate::text::{
    covers, is_prefix, lowercase, normalize_domain, normalized, slice_chars, starts_with,
    to_chars, to_lowercase, wildcard_covers,
};

verus! {

/// The contents of a list of rules.
pub open spec fn rule_views(rules: Seq<DnsRule>) -> Seq<DnsRuleView> {
    rules.map_values(|r: DnsRule| r@)
}

/// The two characters that begin a wildcard domain.
pub open spec fn wildcard_mark() -> Seq<char> {
    seq!['*', '.']
}

/// Whether a stored domain names a wildcard rule.
pub open spec fn is_wildcard(domain: Seq<char>) -> bool {
    is_prefix(domain, wildcard_mark())
}

/// Whether a text is the lowercase form of some text.
pub open spec fn is_lowercased(s: Seq<char>) -> bool {
    exists|d: Seq<char>| lowercase(d) == s
}

/// The rule as the store keeps it: its domain lower-cased, all else as
/// given.
pub open spec fn stored_form(rule: DnsRuleView) -> DnsRuleView {
    DnsRuleView { domain: lowercase(rule.domain), ..rule }
}

/// The rule with its `enabled` flag flipped.
pub open spec fn flipped(rule: DnsRuleView) -> DnsRuleView {
    DnsRuleView { enabled: !rule.enabled, ..rule }
}

/// An enabled wildcard rule whose suffix (the stored domain without its
/// two-character mark) covers this name.
pub open spec fn wildcard_hit(rule: DnsRuleView, key: Seq<char>) -> bool {
    rule.enabled && covers(rule.domain.skip(2), key)
}

/// The test for a rule whose stored domain is `key`, enabled or not.
pub open spec fn has_domain(key: Seq<char>) -> spec_fn(DnsRuleView) -> bool {
    |r: DnsRuleView| r.domain == key
}

/// The test for an enabled wildcard rule that covers `key`.
pub open spec fn wildcard_pred(key: Seq<char>) -> spec_fn(DnsRuleView) -> bool {
    |r: DnsRuleView| wildcard_hit(r, key)
}

/// The test for a rule that carries `id`.
pub open spec fn has_id(id: Seq<char>) -> spec_fn(DnsRuleView) -> bool {
    |r: DnsRuleView| r.id == id
}

/// The test for a rule that does not carry `id`.
pub open spec fn other_id(id: Seq<char>) -> spec_fn(DnsRuleView) -> bool {
    |r: DnsRuleView| r.id != id
}

/// The test for a rule whose stored domain is not `domain`.
pub open spec fn other_domain(domain: Seq<char>) -> spec_fn(DnsRuleView) -> bool {
    |r: DnsRuleView| r.domain != domain
}

/// No two rules of the list share a domain.
pub open spec fn distinct_domains(rules: Seq<DnsRuleView>) -> bool {
    forall|i: int, j: int| 0 <= i < j < rules.len() ==> rules[i].domain != rules[j].domain
}

/// `i` is the position of the first rule that satisfies `pred`.
pub open spec fn is_first_hit(
    rules: Seq<DnsRuleView>,
    pred: spec_fn(DnsRuleView) -> bool,
    i: int,
) -> bool {
    &&& 0 <= i < rules.len()
    &&& pred(rules[i])
    &&& forall|j: int| 0 <= j < i ==> !pred(#[trigger] rules[j])
}

/// The position of the first rule that satisfies `pred`, if there is one.
pub open spec fn first_hit(rules: Seq<DnsRuleView>, pred: spec_fn(DnsRuleView) -> bool) -> Option<
    int,
> {
    if exists|i: int| is_first_hit(rules, pred, i) {
        Some(choose|i: int| is_first_hit(rules, pred, i))
    } else {
        None
    }
}

/// A first hit, once found, is the first hit.
pub proof fn lemma_first_hit_is(
    rules: Seq<DnsRuleView>,
    pred: spec_fn(DnsRuleView) -> bool,
    i: int,
)
    requires
        is_first_hit(rules, pred, i),
    ensures
        first_hit(rules, pred) == Some(i),
{
    let k = choose|k: int| is_first_hit(rules, pred, k);
    if k < i {
        assert(!pred(rules[k]));
    } else if i < k {
        assert(!pred(rules[i]));
    }
}

/// Where no rule satisfies `pred`, there is no first hit.
pub proof fn lemma_first_hit_none(rules: Seq<DnsRuleView>, pred: spec_fn(DnsRuleView) -> bool)
    requires
        forall|j: int| 0 <= j < rules.len() ==> !pred(#[trigger] rules[j]),
    ensures
        first_hit(rules, pred) is None,
{
}

/// Where there is a first hit, it lies in the list and satisfies `pred`;
/// where there is none, no rule satisfies `pred`.
pub proof fn lemma_first_hit_sound(rules: Seq<DnsRuleView>, pred: spec_fn(DnsRuleView) -> bool)
    ensures
        match first_hit(rules, pred) {
            Some(i) => is_first_hit(rules, pred, i),
            None => forall|j: int| 0 <= j < rules.len() ==> !pred(#[trigger] rules[j]),
        },
{
    if first_hit(rules, pred) is None {
        assert forall|j: int| 0 <= j < rules.len() implies !pred(#[trigger] rules[j]) by {
            if pred(rules[j]) {
                lemma_some_hit_has_first(rules, pred, j);
            }
        }
    }
}

/// Where some rule satisfies `pred`, one of them is the first.
pub proof fn lemma_some_hit_has_first(
    rules: Seq<DnsRuleView>,
    pred: spec_fn(DnsRuleView) -> bool,
    j: int,
)
    requires
        0 <= j < rules.len(),
        pred(rules[j]),
    ensures
        exists|i: int| is_first_hit(rules, pred, i) && i <= j,
    decreases j,
{
    if exists|k: int| 0 <= k < j && pred(rules[k]) {
        let k = choose|k: int| 0 <= k < j && pred(rules[k]);
        lemma_some_hit_has_first(rules, pred, k);
    } else {
        assert(is_first_hit(rules, pred, j));
    }
}

/// The contents of a rule store: the exact rules and the wildcard rules,
/// each in the order in which they were last added.
pub struct DnsRulesView {
    pub exact: Seq<DnsRuleView>,
    pub wildcard: Seq<DnsRuleView>,
}

impl DnsRulesView {
    /// The store without rules.
    pub open spec fn empty() -> DnsRulesView {
        DnsRulesView { exact: Seq::empty(), wildcard: Seq::empty() }
    }

    /// A rule is filed under wildcard exactly when its domain begins with
    /// the wildcard mark, and no two rules of one category share a domain.
    pub open spec fn wf(self) -> bool {
        &&& forall|i: int|
            0 <= i < self.exact.len() ==> !is_wildcard(#[trigger] self.exact[i].domain)
        &&& forall|i: int|
            0 <= i < self.wildcard.len() ==> is_wildcard(#[trigger] self.wildcard[i].domain)
        &&& distinct_domains(self.exact)
        &&& distinct_domains(self.wildcard)
    }

    /// Every stored domain is the lower-case form of some text. This holds
    /// of a store whose rules all came in through `add` or `loaded`.
    pub open spec fn lowercased(self) -> bool {
        &&& forall|i: int|
            0 <= i < self.exact.len() ==> is_lowercased(#[trigger] self.exact[i].domain)
        &&& forall|i: int|
            0 <= i < self.wildcard.len() ==> is_lowercased(#[trigger] self.wildcard[i].domain)
    }

    /// The rule that answers a normalized name. Where an exact rule is
    /// stored for the name, it answers if it is enabled, and nothing
    /// answers if it is disabled. Only where no exact rule is stored for
    /// the name the wildcard rules are searched: the first enabled one
    /// that covers the name answers.
    pub open spec fn lookup(self, key: Seq<char>) -> Option<DnsRuleView> {
        match first_hit(self.exact, has_domain(key)) {
            Some(i) => if self.exact[i].enabled {
                Some(self.exact[i])
            } else {
                None
            },
            None => match first_hit(self.wildcard, wildcard_pred(key)) {
                Some(j) => Some(self.wildcard[j]),
                None => None,
            },
        }
    }

    /// The store after `rule` was added: filed by its lower-cased domain,
    /// in place of any rule of the same category with that domain.
    pub open spec fn add(self, rule: DnsRuleView) -> DnsRulesView {
        self.put(stored_form(rule))
    }

    /// The store after a rule was filed as it stands, its domain being the
    /// key: among the wildcard rules where the domain begins with the
    /// wildcard mark, among the exact rules otherwise, in place of any
    /// rule of that category with that domain.
    pub open spec fn put(self, stored: DnsRuleView) -> DnsRulesView {
        if is_wildcard(stored.domain) {
            DnsRulesView {
                exact: self.exact,
                wildcard: self.wildcard.filter(other_domain(stored.domain)).push(stored),
            }
        } else {
            DnsRulesView {
                exact: self.exact.filter(other_domain(stored.domain)).push(stored),
                wildcard: self.wildcard,
            }
        }
    }

    /// The store without the rules that carry `id`.
    pub open spec fn remove(self, id: Seq<char>) -> DnsRulesView {
        DnsRulesView {
            exact: self.exact.filter(other_id(id)),
            wildcard: self.wildcard.filter(other_id(id)),
        }
    }

    /// The store after the first rule that carries `id` (exact rules come
    /// first) had its `enabled` flag flipped.
    pub open spec fn toggle(self, id: Seq<char>) -> DnsRulesView {
        match first_hit(self.exact, has_id(id)) {
            Some(i) => DnsRulesView {
                exact: self.exact.update(i, flipped(self.exact[i])),
                wildcard: self.wildcard,
            },
            None => match first_hit(self.wildcard, has_id(id)) {
                Some(j) => DnsRulesView {
                    exact: self.exact,
                    wildcard: self.wildcard.update(j, flipped(self.wildcard[j])),
                },
                None => self,
            },
        }
    }

    /// All rules: the exact ones, then the wildcard ones.
    pub open spec fn all(self) -> Seq<DnsRuleView> {
        self.exact + self.wildcard
    }
}

/// The store that results from adding the rules, one after the other, to an
/// empty store.
pub open spec fn loaded(rules: Seq<DnsRuleView>) -> DnsRulesView {
    rules.fold_left(DnsRulesView::empty(), add_step())
}

/// One step of loading: add the rule to the store.
pub open spec fn add_step() -> spec_fn(DnsRulesView, DnsRuleView) -> DnsRulesView {
    |s: DnsRulesView, r: DnsRuleView| s.add(r)
}

/// Filtering keeps the rules' own properties: what stays was there before
/// and passes the test, and distinct domains stay distinct.
pub proof fn lemma_filter_rules(rules: Seq<DnsRuleView>, pred: spec_fn(DnsRuleView) -> bool)
    ensures
        forall|k: int|
            0 <= k < rules.filter(pred).len() ==> rules.contains(#[trigger] rules.filter(pred)[k])
                && pred(rules.filter(pred)[k]),
        distinct_domains(rules) ==> distinct_domains(rules.filter(pred)),
    decreases rules.len(),
{
    reveal(Seq::filter);
    if rules.len() > 0 {
        let sub = rules.drop_last();
        let kept = sub.filter(pred);
        lemma_filter_rules(sub, pred);
        assert forall|k: int| 0 <= k < kept.len() implies rules.contains(#[trigger] kept[k]) by {
            let w = choose|w: int| 0 <= w < sub.len() && sub[w] == kept[k];
            assert(rules[w] == kept[k]);
        }
        if distinct_domains(rules) {
            assert(distinct_domains(sub)) by {
                assert forall|i: int, j: int| 0 <= i < j < sub.len() implies sub[i].domain
                    != sub[j].domain by {
                    assert(sub[i] == rules[i] && sub[j] == rules[j]);
                }
            }
            if pred(rules.last()) {
                let all = kept.push(rules.last());
                assert forall|i: int, j: int| 0 <= i < j < all.len() implies all[i].domain
                    != all[j].domain by {
                    if j == kept.len() {
                        let w = choose|w: int| 0 <= w < sub.len() && sub[w] == kept[i];
                        assert(rules[w] == kept[i]);
                        assert(rules[w].domain != rules[rules.len() - 1].domain);
                    }
                }
            }
        }
    }
}

/// Adding a rule keeps the store well formed.
pub proof fn lemma_add_wf(s: DnsRulesView, rule: DnsRuleView)
    requires
        s.wf(),
    ensures
        s.add(rule).wf(),
{
    lemma_put_wf(s, stored_form(rule));
}

/// Filing a rule under its domain keeps the store well formed.
pub proof fn lemma_put_wf(s: DnsRulesView, stored: DnsRuleView)
    requires
        s.wf(),
    ensures
        s.put(stored).wf(),
{
    let pred = other_domain(stored.domain);
    let old_list = if is_wildcard(stored.domain) { s.wildcard } else { s.exact };
    let kept = old_list.filter(pred);
    let list = kept.push(stored);
    lemma_filter_rules(old_list, pred);
    assert forall|k: int| 0 <= k < kept.len() implies is_wildcard(#[trigger] kept[k].domain)
        == is_wildcard(stored.domain) && kept[k].domain != stored.domain by {
        assert(old_list.contains(kept[k]));
        let w = choose|w: int| 0 <= w < old_list.len() && old_list[w] == kept[k];
        assert(old_list[w] == kept[k]);
        assert(pred(kept[k]));
    }
    assert(distinct_domains(list)) by {
        assert forall|i: int, j: int| 0 <= i < j < list.len() implies list[i].domain
            != list[j].domain by {
            if j == kept.len() {
                assert(kept[i].domain != stored.domain);
            }
        }
    }
    assert forall|k: int| 0 <= k < list.len() implies is_wildcard(#[trigger] list[k].domain)
        == is_wildcard(stored.domain) by {
        if k < kept.len() {
            assert(list[k] == kept[k]);
        }
    }
}

/// Removing the rules of an id keeps the store well formed.
pub proof fn lemma_remove_wf(s: DnsRulesView, id: Seq<char>)
    requires
        s.wf(),
    ensures
        s.remove(id).wf(),
{
    let pred = other_id(id);
    lemma_filter_rules(s.exact, pred);
    lemma_filter_rules(s.wildcard, pred);
    let e = s.exact.filter(pred);
    let w = s.wildcard.filter(pred);
    assert forall|k: int| 0 <= k < e.len() implies !is_wildcard(#[trigger] e[k].domain) by {
        let x = choose|x: int| 0 <= x < s.exact.len() && s.exact[x] == e[k];
        assert(s.exact[x] == e[k]);
    }
    assert forall|k: int| 0 <= k < w.len() implies is_wildcard(#[trigger] w[k].domain) by {
        let x = choose|x: int| 0 <= x < s.wildcard.len() && s.wildcard[x] == w[k];
        assert(s.wildcard[x] == w[k]);
    }
}

/// Flipping a rule keeps the store well formed.
pub proof fn lemma_toggle_wf(s: DnsRulesView, id: Seq<char>)
    requires
        s.wf(),
    ensures
        s.toggle(id).wf(),
{
    lemma_first_hit_sound(s.exact, has_id(id));
    lemma_first_hit_sound(s.wildcard, has_id(id));
    let t = s.toggle(id);
    assert forall|k: int| 0 <= k < t.exact.len() implies t.exact[k].domain
        == s.exact[k].domain by {}
    assert forall|k: int| 0 <= k < t.wildcard.len() implies t.wildcard[k].domain
        == s.wildcard[k].domain by {}
    assert forall|k: int| 0 <= k < t.exact.len() implies !is_wildcard(
        #[trigger] t.exact[k].domain,
    ) by {
        assert(t.exact[k].domain == s.exact[k].domain);
    }
    assert forall|k: int| 0 <= k < t.wildcard.len() implies is_wildcard(
        #[trigger] t.wildcard[k].domain,
    ) by {
        assert(t.wildcard[k].domain == s.wildcard[k].domain);
    }
    assert(distinct_domains(t.exact)) by {
        assert forall|i: int, j: int| 0 <= i < j < t.exact.len() implies t.exact[i].domain
            != t.exact[j].domain by {
            assert(t.exact[i].domain == s.exact[i].domain);
            assert(t.exact[j].domain == s.exact[j].domain);
        }
    }
    assert(distinct_domains(t.wildcard)) by {
        assert forall|i: int, j: int| 0 <= i < j < t.wildcard.len() implies t.wildcard[i].domain
            != t.wildcard[j].domain by {
            assert(t.wildcard[i].domain == s.wildcard[i].domain);
            assert(t.wildcard[j].domain == s.wildcard[j].domain);
        }
    }
}

/// A list whose rules all pass a test is left as it is by filtering.
pub proof fn lemma_filter_all(rules: Seq<DnsRuleView>, pred: spec_fn(DnsRuleView) -> bool)
    requires
        forall|k: int| 0 <= k < rules.len() ==> pred(#[trigger] rules[k]),
    ensures
        rules.filter(pred) == rules,
    decreases rules.len(),
{
    reveal(Seq::filter);
    if rules.len() > 0 {
        let sub = rules.drop_last();
        assert forall|k: int| 0 <= k < sub.len() implies pred(#[trigger] sub[k]) by {
            assert(sub[k] == rules[k]);
        }
        lemma_filter_all(sub, pred);
        assert(pred(rules[rules.len() - 1]));
        assert(sub.push(rules.last()) =~= rules);
    }
}

/// In a well-formed store the exact rule stored for a name is the only
/// one, so it is the one that the lookup goes by.
pub proof fn lemma_exact_rule_is_found(s: DnsRulesView, i: int)
    requires
        s.wf(),
        0 <= i < s.exact.len(),
    ensures
        first_hit(s.exact, has_domain(s.exact[i].domain)) == Some(i),
{
    let key = s.exact[i].domain;
    assert(has_domain(key)(s.exact[i]));
    assert forall|j: int| 0 <= j < i implies !has_domain(key)(#[trigger] s.exact[j]) by {
        assert(s.exact[j].domain != s.exact[i].domain);
    }
    lemma_first_hit_is(s.exact, has_domain(key), i);
}

/// An enabled exact rule answers every name whose normal form is its
/// stored domain: whatever the case of the input, and with or without a
/// trailing root dot.
pub proof fn law_exact_rule_matches(s: DnsRulesView, i: int, name: Seq<char>)
    requires
        s.wf(),
        0 <= i < s.exact.len(),
        s.exact[i].enabled,
        normalized(name) == s.exact[i].domain,
    ensures
        s.lookup(normalized(name)) == Some(s.exact[i]),
        name.len() == 0 || name.last() != '.' ==> s.lookup(normalized(name.push('.'))) == Some(
            s.exact[i],
        ),
{
    assert(name.push('.').drop_last() =~= name);
    lemma_exact_rule_is_found(s, i);
}

/// An enabled exact rule, once added, answers every name whose normal form
/// is the rule's lower-cased domain: the domain itself in any case, with
/// or without a trailing root dot, where the domain has none.
pub proof fn law_added_rule_matches(s: DnsRulesView, rule: DnsRuleView, name: Seq<char>)
    requires
        rule.enabled,
        !is_wildcard(lowercase(rule.domain)),
        normalized(name) == lowercase(rule.domain),
    ensures
        s.add(rule).lookup(normalized(name)) == Some(stored_form(rule)),
        rule.domain.len() == 0 || rule.domain.last() != '.' ==> s.add(rule).lookup(
            normalized(rule.domain),
        ) == Some(stored_form(rule)) && s.add(rule).lookup(normalized(rule.domain.push('.')))
            == Some(stored_form(rule)),
{
    let stored = stored_form(rule);
    let key = stored.domain;
    let kept = s.exact.filter(other_domain(key));
    let list = kept.push(stored);
    lemma_filter_rules(s.exact, other_domain(key));
    assert(has_domain(key)(list[kept.len() as int]));
    assert forall|j: int| 0 <= j < kept.len() implies !has_domain(key)(#[trigger] list[j]) by {
        assert(list[j] == kept[j]);
        assert(other_domain(key)(kept[j]));
    }
    lemma_first_hit_is(list, has_domain(key), kept.len() as int);
    assert(rule.domain.push('.').drop_last() =~= rule.domain);
}

/// Where a disabled exact rule is stored for a name, nothing answers the
/// name: no wildcard rule takes its place, whether its suffix is the name
/// itself or a parent of it.
pub proof fn law_disabled_exact_rule_answers_nothing(s: DnsRulesView, i: int)
    requires
        s.wf(),
        0 <= i < s.exact.len(),
        !s.exact[i].enabled,
    ensures
        s.lookup(s.exact[i].domain) is None,
{
    lemma_exact_rule_is_found(s, i);
}

/// Two inputs with the same normal form get the same answer.
pub proof fn law_match_by_normal_form(s: DnsRulesView, a: Seq<char>, b: Seq<char>)
    requires
        normalized(a) == normalized(b),
    ensures
        s.lookup(normalized(a)) == s.lookup(normalized(b)),
{
}

/// A wildcard covers its own suffix and every name made of some labels, a
/// dot and the suffix; it covers nothing else.
pub proof fn law_wildcard_reach(suffix: Seq<char>, labels: Seq<char>, name: Seq<char>)
    ensures
        covers(suffix, suffix),
        covers(suffix, labels + seq!['.'] + suffix),
        covers(suffix, name) ==> name == suffix || (name.len() > suffix.len() && name[name.len()
            - suffix.len() - 1] == '.' && name.skip(name.len() - suffix.len()) == suffix),
{
    let dotted = seq!['.'] + suffix;
    let long = labels + seq!['.'] + suffix;
    assert(long.skip(long.len() - dotted.len()) =~= dotted);
    if covers(suffix, name) && name != suffix {
        let cut = name.skip(name.len() - dotted.len());
        assert(cut == dotted);
        assert(cut[0] == '.');
        assert(name.skip(name.len() - suffix.len()) =~= cut.skip(1));
        assert(dotted.skip(1) =~= suffix);
    }
}

/// Where no exact rule, enabled or not, is stored for a name and an
/// enabled wildcard rule covers the name, the lookup finds a wildcard
/// rule: this one, unless an earlier enabled wildcard rule covers the name
/// too.
pub proof fn law_wildcard_rule_matches(s: DnsRulesView, j: int, key: Seq<char>)
    requires
        forall|i: int| 0 <= i < s.exact.len() ==> (#[trigger] s.exact[i]).domain != key,
        0 <= j < s.wildcard.len(),
        s.wildcard[j].enabled,
        covers(s.wildcard[j].domain.skip(2), key),
    ensures
        s.lookup(key) is Some,
        s.wildcard.contains(s.lookup(key)->0),
        (forall|k: int| 0 <= k < j ==> !wildcard_hit(#[trigger] s.wildcard[k], key)) ==> s.lookup(
            key,
        ) == Some(s.wildcard[j]),
{
    assert forall|i: int| 0 <= i < s.exact.len() implies !has_domain(key)(#[trigger] s.exact[i]) by {
        assert(s.exact[i].domain != key);
    }
    lemma_first_hit_none(s.exact, has_domain(key));
    assert(wildcard_pred(key)(s.wildcard[j]));
    lemma_some_hit_has_first(s.wildcard, wildcard_pred(key), j);
    let f = choose|f: int| is_first_hit(s.wildcard, wildcard_pred(key), f) && f <= j;
    lemma_first_hit_is(s.wildcard, wildcard_pred(key), f);
    assert(s.wildcard[f] == s.lookup(key)->0);
    if forall|k: int| 0 <= k < j ==> !wildcard_hit(#[trigger] s.wildcard[k], key) {
        if f < j {
            assert(wildcard_pred(key)(s.wildcard[f]));
            assert(wildcard_hit(s.wildcard[f], key));
        }
    }
}

/// A rule that the lookup finds is in the store, is enabled, and answers
/// the name: a disabled rule never matches. Where nothing is found,
/// either a disabled exact rule is stored for the name, or no exact rule
/// is and no enabled wildcard rule covers the name. A store of disabled
/// rules answers no name.
pub proof fn law_only_enabled_rules_match(s: DnsRulesView, key: Seq<char>)
    ensures
        match s.lookup(key) {
            Some(r) => r.enabled && ((s.exact.contains(r) && r.domain == key) || (
            s.wildcard.contains(r) && covers(r.domain.skip(2), key))),
            None => (exists|i: int|
                0 <= i < s.exact.len() && (#[trigger] s.exact[i]).domain == key
                    && !s.exact[i].enabled) || ((forall|i: int|
                0 <= i < s.exact.len() ==> (#[trigger] s.exact[i]).domain != key) && (forall|
                j: int,
            | 0 <= j < s.wildcard.len() ==> !wildcard_hit(#[trigger] s.wildcard[j], key))),
        },
        (forall|i: int| 0 <= i < s.exact.len() ==> !(#[trigger] s.exact[i]).enabled) && (forall|
            j: int,
        | 0 <= j < s.wildcard.len() ==> !(#[trigger] s.wildcard[j]).enabled) ==> s.lookup(key) is None,
{
    lemma_first_hit_sound(s.exact, has_domain(key));
    lemma_first_hit_sound(s.wildcard, wildcard_pred(key));
    match first_hit(s.exact, has_domain(key)) {
        Some(i) => {
            assert(has_domain(key)(s.exact[i]));
        },
        None => {
            assert forall|i: int| 0 <= i < s.exact.len() implies (#[trigger] s.exact[i]).domain
                != key by {
                assert(!has_domain(key)(s.exact[i]));
            }
            match first_hit(s.wildcard, wildcard_pred(key)) {
                Some(j) => {
                    assert(wildcard_pred(key)(s.wildcard[j]));
                },
                None => {
                    assert forall|j: int| 0 <= j < s.wildcard.len() implies !wildcard_hit(
                        #[trigger] s.wildcard[j],
                        key,
                    ) by {
                        assert(!wildcard_pred(key)(s.wildcard[j]));
                    }
                },
            }
        },
    }
}

/// Adding two rules with the same lower-cased domain, one after the
/// other, leaves the store as if only the second had been added: no field
/// of the first is kept.
pub proof fn law_second_add_replaces(s: DnsRulesView, first: DnsRuleView, second: DnsRuleView)
    requires
        lowercase(first.domain) == lowercase(second.domain),
    ensures
        s.add(first).add(second) == s.add(second),
{
    reveal(Seq::filter);
    let key = lowercase(first.domain);
    let pred = other_domain(key);
    let list = if is_wildcard(key) { s.wildcard } else { s.exact };
    let kept = list.filter(pred);
    lemma_filter_rules(list, pred);
    lemma_filter_all(kept, pred);
    let mid = kept.push(stored_form(first));
    assert(mid.drop_last() =~= kept);
    assert(!pred(mid.last()));
    assert(mid.filter(pred) == kept);
}

/// Whether a rule of the list is stored under `key`.
pub open spec fn holds_domain(rules: Seq<DnsRuleView>, key: Seq<char>) -> bool {
    exists|i: int| 0 <= i < rules.len() && (#[trigger] rules[i]).domain == key
}

/// Taking the rule of one domain out of a list of distinct domains makes
/// the list shorter by one where the domain was there, and leaves it as
/// long as it was where not.
pub proof fn lemma_filter_domain_len(rules: Seq<DnsRuleView>, key: Seq<char>)
    requires
        distinct_domains(rules),
    ensures
        rules.filter(other_domain(key)).len() == if holds_domain(rules, key) {
            rules.len() - 1
        } else {
            rules.len() as int
        },
    decreases rules.len(),
{
    reveal(Seq::filter);
    let pred = other_domain(key);
    if rules.len() > 0 {
        let sub = rules.drop_last();
        let last = rules.last();
        assert forall|i: int, j: int| 0 <= i < j < sub.len() implies sub[i].domain
            != sub[j].domain by {
            assert(sub[i] == rules[i] && sub[j] == rules[j]);
        }
        lemma_filter_domain_len(sub, key);
        if last.domain == key {
            assert(rules[rules.len() - 1].domain == key);
            assert(!holds_domain(sub, key)) by {
                if holds_domain(sub, key) {
                    let i = choose|i: int| 0 <= i < sub.len() && (#[trigger] sub[i]).domain == key;
                    assert(sub[i] == rules[i]);
                    assert(rules[i].domain != rules[rules.len() - 1].domain);
                }
            }
            assert(!pred(last));
        } else {
            assert(pred(last));
            if holds_domain(rules, key) {
                let i = choose|i: int| 0 <= i < rules.len() && (#[trigger] rules[i]).domain == key;
                assert(i < sub.len());
                assert(sub[i] == rules[i]);
                assert(holds_domain(sub, key));
            }
            if holds_domain(sub, key) {
                let i = choose|i: int| 0 <= i < sub.len() && (#[trigger] sub[i]).domain == key;
                assert(rules[i] == sub[i]);
                assert(holds_domain(rules, key));
            }
        }
    }
}

/// Adding a rule touches only the rule of its own category and lower-cased
/// domain. The other category is left as it is; every other rule of its
/// own category stays, with all its fields; the rule itself is stored
/// with its domain lower-cased and its other fields as given; and the
/// store grows by one rule where the key is new and keeps its size where
/// a rule is replaced. So an exact rule and a wildcard rule over the same
/// name are held side by side.
pub proof fn law_add_keeps_other_rules(s: DnsRulesView, rule: DnsRuleView, other: DnsRuleView)
    requires
        s.wf(),
    ensures
        s.add(rule).wf(),
        is_wildcard(lowercase(rule.domain)) ==> s.add(rule).exact == s.exact,
        !is_wildcard(lowercase(rule.domain)) ==> s.add(rule).wildcard == s.wildcard,
        s.exact.contains(other) && other.domain != lowercase(rule.domain) ==> s.add(
            rule,
        ).exact.contains(other),
        s.wildcard.contains(other) && other.domain != lowercase(rule.domain) ==> s.add(
            rule,
        ).wildcard.contains(other),
        is_wildcard(lowercase(rule.domain)) ==> s.add(rule).wildcard.last() == stored_form(rule),
        !is_wildcard(lowercase(rule.domain)) ==> s.add(rule).exact.last() == stored_form(rule),
        s.add(rule).all().contains(stored_form(rule)),
        s.add(rule).all().len() == if holds_domain(
            if is_wildcard(lowercase(rule.domain)) {
                s.wildcard
            } else {
                s.exact
            },
            lowercase(rule.domain),
        ) {
            s.all().len() as int
        } else {
            (s.all().len() + 1) as int
        },
{
    lemma_add_wf(s, rule);
    let stored = stored_form(rule);
    let key = stored.domain;
    let pred = other_domain(key);
    let t = s.add(rule);
    let list = if is_wildcard(key) { s.wildcard } else { s.exact };
    let kept = list.filter(pred);
    lemma_filter_domain_len(list, key);
    if list.contains(other) && other.domain != key {
        let i = choose|i: int| 0 <= i < list.len() && list[i] == other;
        assert(pred(list[i]));
        list.lemma_filter_contains(pred, i);
        let k = choose|k: int| 0 <= k < kept.len() && kept[k] == other;
        assert(kept.push(stored)[k] == other);
    }
    if is_wildcard(key) {
        assert(t.all()[(s.exact.len() + kept.len()) as int] == stored);
    } else {
        assert(t.all()[kept.len() as int] == stored);
    }
}

/// Lower-casing leaves the domain of every rule of the list as it is.
pub open spec fn lowercase_keeps(rules: Seq<DnsRuleView>) -> bool {
    forall|i: int| 0 <= i < rules.len() ==> lowercase(#[trigger] rules[i].domain) == rules[i].domain
}

/// Loading the first `n` exact rules of a store, followed by its first `m`
/// wildcard rules, gives the store of just these rules.
pub proof fn lemma_load_prefix(s: DnsRulesView, n: int, m: int)
    requires
        s.wf(),
        lowercase_keeps(s.exact),
        lowercase_keeps(s.wildcard),
        0 <= n <= s.exact.len(),
        0 <= m <= s.wildcard.len(),
        m > 0 ==> n == s.exact.len(),
    ensures
        loaded(s.exact.take(n) + s.wildcard.take(m)) == (DnsRulesView {
            exact: s.exact.take(n),
            wildcard: s.wildcard.take(m),
        }),
    decreases n + m,
{
    let seq = s.exact.take(n) + s.wildcard.take(m);
    if n == 0 && m == 0 {
        assert(seq =~= Seq::<DnsRuleView>::empty());
        assert(s.exact.take(0) =~= Seq::<DnsRuleView>::empty());
        assert(s.wildcard.take(0) =~= Seq::<DnsRuleView>::empty());
    } else if m > 0 {
        let r = s.wildcard[m - 1];
        let before = s.wildcard.take(m - 1);
        lemma_load_prefix(s, n, m - 1);
        assert(seq.drop_last() =~= s.exact.take(n) + before);
        assert(seq.last() == r);
        assert(stored_form(r) == r);
        assert(is_wildcard(r.domain));
        assert forall|k: int| 0 <= k < before.len() implies other_domain(r.domain)(
            #[trigger] before[k],
        ) by {
            assert(before[k] == s.wildcard[k]);
            assert(s.wildcard[k].domain != s.wildcard[m - 1].domain);
        }
        lemma_filter_all(before, other_domain(r.domain));
        assert(before.push(r) =~= s.wildcard.take(m));
    } else {
        let r = s.exact[n - 1];
        let before = s.exact.take(n - 1);
        lemma_load_prefix(s, n - 1, 0);
        assert(seq.drop_last() =~= s.exact.take(n - 1) + s.wildcard.take(0));
        assert(seq.last() == r);
        assert(stored_form(r) == r);
        assert(!is_wildcard(r.domain));
        assert forall|k: int| 0 <= k < before.len() implies other_domain(r.domain)(
            #[trigger] before[k],
        ) by {
            assert(before[k] == s.exact[k]);
            assert(s.exact[k].domain != s.exact[n - 1].domain);
        }
        lemma_filter_all(before, other_domain(r.domain));
        assert(before.push(r) =~= s.exact.take(n));
    }
}

/// Loading a store's own rules gives the store back, and with it the same
/// answer to every name, where lower-casing leaves every stored domain as
/// it is. That a text in lower case is left as it is by lower-casing is
/// taken as a premise: it is not among the things known of lower-casing.
pub proof fn law_snapshot_loads_back(s: DnsRulesView, key: Seq<char>)
    requires
        s.wf(),
        lowercase_keeps(s.exact),
        lowercase_keeps(s.wildcard),
    ensures
        loaded(s.all()) == s,
        loaded(s.all()).lookup(key) == s.lookup(key),
{
    lemma_load_prefix(s, s.exact.len() as int, s.wildcard.len() as int);
    assert(s.exact.take(s.exact.len() as int) =~= s.exact);
    assert(s.wildcard.take(s.wildcard.len() as int) =~= s.wildcard);
}

/// Filing a rule under a lower-case domain keeps every stored domain in
/// lower case.
pub proof fn lemma_put_lowercased(s: DnsRulesView, stored: DnsRuleView)
    requires
        s.lowercased(),
        is_lowercased(stored.domain),
    ensures
        s.put(stored).lowercased(),
{
    let pred = other_domain(stored.domain);
    let list = if is_wildcard(stored.domain) { s.wildcard } else { s.exact };
    let kept = list.filter(pred);
    let whole = kept.push(stored);
    lemma_filter_rules(list, pred);
    assert forall|k: int| 0 <= k < whole.len() implies is_lowercased(
        #[trigger] whole[k].domain,
    ) by {
        if k < kept.len() {
            assert(list.contains(kept[k]));
            let w = choose|w: int| 0 <= w < list.len() && list[w] == kept[k];
            assert(is_lowercased(list[w].domain));
        }
    }
}

/// Loading rules gives a store whose domains are all in lower case.
pub proof fn lemma_loaded_lowercased(rules: Seq<DnsRuleView>)
    ensures
        loaded(rules).lowercased(),
    decreases rules.len(),
{
    if rules.len() > 0 {
        lemma_loaded_lowercased(rules.drop_last());
        let stored = stored_form(rules.last());
        assert(is_lowercased(stored.domain));
        lemma_put_lowercased(loaded(rules.drop_last()), stored);
    }
}

/// Stored domains are in lower case: an empty store has none, a loaded
/// store has only such, and adding a rule, removing the rules of an id and
/// flipping a rule keep it so.
pub proof fn law_domains_stay_lowercased(s: DnsRulesView, rule: DnsRuleView, id: Seq<char>)
    requires
        s.lowercased(),
    ensures
        DnsRulesView::empty().lowercased(),
        s.add(rule).lowercased(),
        s.add(rule).all().contains(stored_form(rule)),
        stored_form(rule).domain == lowercase(rule.domain),
        s.remove(id).lowercased(),
        s.toggle(id).lowercased(),
{
    assert(is_lowercased(stored_form(rule).domain));
    lemma_put_lowercased(s, stored_form(rule));
    let stored = stored_form(rule);
    let list = if is_wildcard(stored.domain) { s.wildcard } else { s.exact };
    let kept = list.filter(other_domain(stored.domain));
    if is_wildcard(stored.domain) {
        assert(s.add(rule).all()[(s.exact.len() + kept.len()) as int] == stored);
    } else {
        assert(s.add(rule).all()[kept.len() as int] == stored);
    }
    let pred = other_id(id);
    lemma_filter_rules(s.exact, pred);
    lemma_filter_rules(s.wildcard, pred);
    let e = s.exact.filter(pred);
    let w = s.wildcard.filter(pred);
    assert forall|k: int| 0 <= k < e.len() implies is_lowercased(#[trigger] e[k].domain) by {
        let x = choose|x: int| 0 <= x < s.exact.len() && s.exact[x] == e[k];
        assert(is_lowercased(s.exact[x].domain));
    }
    assert forall|k: int| 0 <= k < w.len() implies is_lowercased(#[trigger] w[k].domain) by {
        let x = choose|x: int| 0 <= x < s.wildcard.len() && s.wildcard[x] == w[k];
        assert(is_lowercased(s.wildcard[x].domain));
    }
    lemma_first_hit_sound(s.exact, has_id(id));
    lemma_first_hit_sound(s.wildcard, has_id(id));
    let t = s.toggle(id);
    assert forall|k: int| 0 <= k < t.exact.len() implies is_lowercased(
        #[trigger] t.exact[k].domain,
    ) by {
        assert(t.exact[k].domain == s.exact[k].domain);
    }
    assert forall|k: int| 0 <= k < t.wildcard.len() implies is_lowercased(
        #[trigger] t.wildcard[k].domain,
    ) by {
        assert(t.wildcard[k].domain == s.wildcard[k].domain);
    }
}

/// What a lookup handed back, by its contents.
pub open spec fn found_view(r: Option<&DnsRule>) -> Option<DnsRuleView> {
    match r {
        Some(rule) => Some(rule@),
        None => None,
    }
}

/// The in-memory rule store.
pub struct DnsRules {
    exact: Vec<DnsRule>,
    wildcard: Vec<DnsRule>,
}

impl View for DnsRules {
    type V = DnsRulesView;

    closed spec fn view(&self) -> DnsRulesView {
        DnsRulesView { exact: rule_views(self.exact@), wildcard: rule_views(self.wildcard@) }
    }
}

impl DnsRules {
    #[verifier::type_invariant]
    spec fn inv(self) -> bool {
        self@.wf()
    }

    /// A store without rules.
    pub fn new() -> (r: Self)
        ensures
            r@ == DnsRulesView::empty(),
    {
        let r = Self { exact: Vec::new(), wildcard: Vec::new() };
        assert(r@.exact =~= Seq::empty());
        assert(r@.wildcard =~= Seq::empty());
        r
    }

    /// The rule that answers `domain`, if any. The name is normalized: one
    /// trailing root dot trimmed, then lower-cased. An exact rule stored
    /// for the name decides: it answers if enabled, and nothing answers if
    /// it is disabled. Where no exact rule is stored for the name, the
    /// first enabled wildcard rule that covers the name answers.
    pub fn match_domain(&self, domain: &str) -> (r: Option<&DnsRule>)
        ensures
            found_view(r) == self@.lookup(normalized(domain@)),
            self@.wf(),
    {
        let key = normalize_domain(domain);
        self.match_normalized(key.as_str())
    }

    /// The rule that answers a name that is already normalized: `key` is
    /// compared with the stored domains as it stands.
    #[verifier::loop_isolation(false)]
    pub fn match_normalized(&self, key: &str) -> (r: Option<&DnsRule>)
        ensures
            found_view(r) == self@.lookup(key@),
            self@.wf(),
    {
        proof {
            use_type_invariant(self);
        }
        let wanted = key.to_owned();
        let mut i: usize = 0;
        while i < self.exact.len()
            invariant
                i <= self.exact.len(),
                forall|j: int| 0 <= j < i ==> !has_domain(key@)(#[trigger] self@.exact[j]),
            decreases self.exact.len() - i,
        {
            let rule = &self.exact[i];
            if rule.domain == wanted {
                proof {
                    assert(has_domain(key@)(self@.exact[i as int]));
                    lemma_first_hit_is(self@.exact, has_domain(key@), i as int);
                }
                if rule.enabled {
                    return Some(rule);
                } else {
                    return None;
                }
            }
            assert(!has_domain(key@)(self@.exact[i as int]));
            i += 1;
        }
        proof {
            lemma_first_hit_none(self@.exact, has_domain(key@));
        }
        let name = to_chars(key);
        let mut j: usize = 0;
        while j < self.wildcard.len()
            invariant
                j <= self.wildcard.len(),
                forall|k: int| 0 <= k < j ==> !wildcard_pred(key@)(#[trigger] self@.wildcard[k]),
            decreases self.wildcard.len() - j,
        {
            let rule = &self.wildcard[j];
            assert(is_wildcard(self@.wildcard[j as int].domain));
            if rule.enabled {
                let pattern = to_chars(rule.domain.as_str());
                let suffix = slice_chars(&pattern, 2, pattern.len());
                assert(suffix@ =~= rule@.domain.skip(2));
                if wildcard_covers(&suffix, &name) {
                    proof {
                        assert(wildcard_pred(key@)(self@.wildcard[j as int]));
                        lemma_first_hit_is(self@.wildcard, wildcard_pred(key@), j as int);
                    }
                    return Some(rule);
                }
            }
            assert(!wildcard_pred(key@)(self@.wildcard[j as int]));
            j += 1;
        }
        proof {
            lemma_first_hit_none(self@.wildcard, wildcard_pred(key@));
        }
        None
    }

    /// Adds a rule, or replaces the one of its category that has the same
    /// lower-cased domain. The rule is stored with its domain lower-cased;
    /// a domain that then begins with `*.` makes a wildcard rule, any
    /// other an exact rule.
    pub fn add_rule(&mut self, rule: DnsRule)
        ensures
            final(self)@ == old(self)@.add(rule@),
            final(self)@.wf(),
    {
        let key = to_lowercase(rule.domain.as_str());
        let stored = DnsRule {
            id: rule.id,
            domain: key,
            response: rule.response,
            enabled: rule.enabled,
            record_type: rule.record_type,
        };
        assert(stored@ == stored_form(rule@));
        self.add_stored(stored);
    }

    /// Files a rule as it stands, its domain being the key under which it
    /// is found: in place of the rule of its category that has the same
    /// domain, if there is one. Nothing is done to the domain: a rule that
    /// is to be found by `match_domain` has its domain in lower case.
    pub fn add_stored(&mut self, stored: DnsRule)
        ensures
            final(self)@ == old(self)@.put(stored@),
            final(self)@.wf(),
    {
        proof {
            use_type_invariant(&*self);
            lemma_put_wf(self@, stored@);
        }
        let key_chars = to_chars(stored.domain.as_str());
        let mark = to_chars("*.");
        proof {
            reveal_strlit("*.");
            assert(mark@ =~= wildcard_mark());
        }
        let wild = starts_with(&key_chars, &mark);
        if wild {
            let mut kept = keep_other_domains(&self.wildcard, &stored.domain);
            let ghost before = kept@;
            kept.push(stored);
            assert(rule_views(kept@) =~= rule_views(before).push(stored@));
            self.wildcard = kept;
        } else {
            let mut kept = keep_other_domains(&self.exact, &stored.domain);
            let ghost before = kept@;
            kept.push(stored);
            assert(rule_views(kept@) =~= rule_views(before).push(stored@));
            self.exact = kept;
        }
    }

    /// Removes every rule that carries `id`, of either category. Nothing
    /// changes where none does.
    pub fn remove_rule(&mut self, id: &str)
        ensures
            final(self)@ == old(self)@.remove(id@),
            final(self)@.wf(),
    {
        proof {
            use_type_invariant(&*self);
            lemma_remove_wf(self@, id@);
        }
        let exact = keep_other_ids(&self.exact, id);
        let wildcard = keep_other_ids(&self.wildcard, id);
        *self = DnsRules { exact, wildcard };
    }

    /// Flips the `enabled` flag of the first rule that carries `id`, the
    /// exact rules searched before the wildcard rules. Nothing changes
    /// where no rule carries it.
    pub fn toggle_rule(&mut self, id: &str)
        ensures
            final(self)@ == old(self)@.toggle(id@),
            final(self)@.wf(),
    {
        proof {
            use_type_invariant(&*self);
            lemma_toggle_wf(self@, id@);
        }
        match position_of_id(&self.exact, id) {
            Some(i) => {
                let mut exact = clone_rules(&self.exact);
                let rule = flip(&self.exact[i]);
                exact.set(i, rule);
                assert(rule_views(exact@) =~= self@.exact.update(i as int, flipped(self@.exact[i as int])));
                self.exact = exact;
            },
            None => match position_of_id(&self.wildcard, id) {
                Some(j) => {
                    let mut wildcard = clone_rules(&self.wildcard);
                    let rule = flip(&self.wildcard[j]);
                    wildcard.set(j, rule);
                    assert(rule_views(wildcard@) =~= self@.wildcard.update(
                        j as int,
                        flipped(self@.wildcard[j as int]),
                    ));
                    self.wildcard = wildcard;
                },
                None => {},
            },
        }
    }

    /// All rules, for display or for saving: the exact rules, then the
    /// wildcard rules.
    pub fn to_vec(&self) -> (r: Vec<DnsRule>)
        ensures
            rule_views(r@) == self@.all(),
            self@.wf(),
    {
        proof {
            use_type_invariant(self);
        }
        let mut rules = clone_rules(&self.exact);
        let mut j: usize = 0;
        while j < self.wildcard.len()
            invariant
                j <= self.wildcard.len(),
                rule_views(rules@) == self@.exact + self@.wildcard.take(j as int),
            decreases self.wildcard.len() - j,
        {
            let ghost before = rules@;
            rules.push(self.wildcard[j].clone());
            assert(rule_views(rules@) =~= rule_views(before).push(self.wildcard[j as int]@));
            assert(self@.wildcard.take(j + 1) =~= self@.wildcard.take(j as int).push(
                self.wildcard[j as int]@,
            ));
            assert(rule_views(rules@) =~= self@.exact + self@.wildcard.take(j + 1));
            j += 1;
        }
        assert(self@.wildcard.take(self.wildcard.len() as int) =~= self@.wildcard);
        rules
    }

    /// Replaces the whole store by the given rules, added one after the
    /// other to an empty store.
    pub fn load_rules(&mut self, rules: Vec<DnsRule>)
        ensures
            final(self)@ == loaded(rule_views(rules@)),
            final(self)@.wf(),
    {
        *self = DnsRules::new();
        let ghost all = rule_views(rules@);
        let mut i: usize = 0;
        while i < rules.len()
            invariant
                i <= rules.len(),
                all == rule_views(rules@),
                self@ == loaded(all.take(i as int)),
                self@.wf(),
            decreases rules.len() - i,
        {
            self.add_rule(rules[i].clone());
            proof {
                let next = all.take(i + 1);
                assert(next.drop_last() =~= all.take(i as int));
                assert(next.last() == rules[i as int]@);
            }
            i += 1;
        }
        assert(all.take(rules.len() as int) =~= all);
    }
}

/// A copy of the rule with its `enabled` flag flipped.
fn flip(rule: &DnsRule) -> (r: DnsRule)
    ensures
        r@ == flipped(rule@),
{
    DnsRule {
        id: rule.id.clone(),
        domain: rule.domain.clone(),
        response: rule.response.clone(),
        enabled: !rule.enabled,
        record_type: rule.record_type.clone(),
    }
}

/// A copy of the rules, one for one.
fn clone_rules(rules: &Vec<DnsRule>) -> (r: Vec<DnsRule>)
    ensures
        rule_views(r@) == rule_views(rules@),
{
    let mut out: Vec<DnsRule> = Vec::new();
    let mut i: usize = 0;
    while i < rules.len()
        invariant
            i <= rules.len(),
            out.len() == i,
            forall|k: int| 0 <= k < i ==> out[k]@ == rules[k]@,
        decreases rules.len() - i,
    {
        out.push(rules[i].clone());
        i += 1;
    }
    assert(rule_views(out@) =~= rule_views(rules@));
    out
}

/// Copies of the rules whose stored domain is not `domain`, in order.
fn keep_other_domains(rules: &Vec<DnsRule>, domain: &String) -> (r: Vec<DnsRule>)
    ensures
        rule_views(r@) == rule_views(rules@).filter(other_domain(domain@)),
{
    let ghost all = rule_views(rules@);
    let ghost pred = other_domain(domain@);
    let mut out: Vec<DnsRule> = Vec::new();
    let mut i: usize = 0;
    proof {
        reveal(Seq::filter);
        assert(all.take(0) =~= Seq::empty());
        assert(rule_views(out@) =~= Seq::empty());
    }
    while i < rules.len()
        invariant
            i <= rules.len(),
            all == rule_views(rules@),
            pred == other_domain(domain@),
            rule_views(out@) == all.take(i as int).filter(pred),
        decreases rules.len() - i,
    {
        let ghost before = out@;
        proof {
            reveal(Seq::filter);
            let next = all.take(i + 1);
            assert(next.drop_last() =~= all.take(i as int));
            assert(next.last() == rules[i as int]@);
        }
        if rules[i].domain != *domain {
            out.push(rules[i].clone());
            assert(rule_views(out@) =~= rule_views(before).push(rules[i as int]@));
        }
        i += 1;
    }
    assert(all.take(rules.len() as int) =~= all);
    out
}

/// Copies of the rules that do not carry `id`, in order.
fn keep_other_ids(rules: &Vec<DnsRule>, id: &str) -> (r: Vec<DnsRule>)
    ensures
        rule_views(r@) == rule_views(rules@).filter(other_id(id@)),
{
    let ghost all = rule_views(rules@);
    let ghost pred = other_id(id@);
    let wanted = id.to_owned();
    let mut out: Vec<DnsRule> = Vec::new();
    let mut i: usize = 0;
    proof {
        reveal(Seq::filter);
        assert(all.take(0) =~= Seq::empty());
        assert(rule_views(out@) =~= Seq::empty());
    }
    while i < rules.len()
        invariant
            i <= rules.len(),
            all == rule_views(rules@),
            pred == other_id(id@),
            wanted@ == id@,
            rule_views(out@) == all.take(i as int).filter(pred),
        decreases rules.len() - i,
    {
        let ghost before = out@;
        proof {
            reveal(Seq::filter);
            let next = all.take(i + 1);
            assert(next.drop_last() =~= all.take(i as int));
            assert(next.last() == rules[i as int]@);
        }
        if rules[i].id != wanted {
            out.push(rules[i].clone());
            assert(rule_views(out@) =~= rule_views(before).push(rules[i as int]@));
        }
        i += 1;
    }
    assert(all.take(rules.len() as int) =~= all);
    out
}

/// The position of the first rule that carries `id`.
fn position_of_id(rules: &Vec<DnsRule>, id: &str) -> (r: Option<usize>)
    ensures
        match r {
            Some(i) => first_hit(rule_views(rules@), has_id(id@)) == Some(i as int),
            None => first_hit(rule_views(rules@), has_id(id@)) is None,
        },
{
    let ghost all = rule_views(rules@);
    let wanted = id.to_owned();
    let mut i: usize = 0;
    while i < rules.len()
        invariant
            i <= rules.len(),
            all == rule_views(rules@),
            wanted@ == id@,
            forall|k: int| 0 <= k < i ==> !has_id(id@)(#[trigger] all[k]),
        decreases rules.len() - i,
    {
        if rules[i].id == wanted {
            proof {
                assert(has_id(id@)(all[i as int]));
                lemma_first_hit_is(all, has_id(id@), i as int);
            }
            return Some(i);
        }
        assert(!has_id(id@)(all[i as int]));
        i += 1;
    }
    proof {
        lemma_first_hit_none(all, has_id(id@));
    }
    None
}

} // verus!
