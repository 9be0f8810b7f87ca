use vstd::prelude::*;

use crate::credentials::copy_string;
use crate::glob::{glob_match, glob_matches, same_text};

verus! {

/// A rule that turns a request of a given method and path into a metric
/// increment. A matched rule marked `last` ends the evaluation.
pub struct MappingRule {
    pub method: String,
    pub pattern: String,
    pub metric: String,
    pub delta: u64,
    pub last: bool,
}

pub ghost struct RuleView {
    pub method: Seq<char>,
    pub pattern: Seq<char>,
    pub metric: Seq<char>,
    pub delta: u64,
    pub last: bool,
}

impl View for MappingRule {
    type V = RuleView;

    open spec fn view(&self) -> RuleView {
        RuleView {
            method: self.method@,
            pattern: self.pattern@,
            metric: self.metric@,
            delta: self.delta,
            last: self.last,
        }
    }
}

/// One increment of a metric.
pub struct Usage {
    pub metric: String,
    pub delta: u64,
}

impl View for Usage {
    type V = (Seq<char>, u64);

    open spec fn view(&self) -> (Seq<char>, u64) {
        (self.metric@, self.delta)
    }
}

pub open spec fn rules_view(rules: Seq<MappingRule>) -> Seq<RuleView> {
    rules.map_values(|r: MappingRule| r@)
}

pub open spec fn usages_view(us: Seq<Usage>) -> Seq<(Seq<char>, u64)> {
    us.map_values(|u: Usage| u@)
}

/// A rule matches when its method is the request's method and its pattern
/// matches the whole path.
pub open spec fn rule_matches(r: RuleView, method: Seq<char>, path: Seq<char>) -> bool {
    r.method == method && glob_matches(r.pattern, path)
}

/// The increments that `rules` give for a request, in the order of the
/// rules: every matching rule contributes, up to and including the first
/// matching rule marked `last`.
pub open spec fn usages_of(rules: Seq<RuleView>, method: Seq<char>, path: Seq<char>) -> Seq<(Seq<char>, u64)>
    decreases rules.len(),
{
    if rules.len() == 0 {
        Seq::empty()
    } else {
        let r = rules[0];
        let rest = usages_of(rules.drop_first(), method, path);
        if rule_matches(r, method, path) {
            if r.last {
                seq![(r.metric, r.delta)]
            } else {
                seq![(r.metric, r.delta)] + rest
            }
        } else {
            rest
        }
    }
}

/// Whether some rule of `rules` matches and is marked `last`.
pub open spec fn has_stopping_rule(rules: Seq<RuleView>, method: Seq<char>, path: Seq<char>) -> bool {
    exists|k: int| 0 <= k < rules.len() && #[trigger] rule_matches(rules[k], method, path) && rules[k].last
}

impl MappingRule {
    pub fn matches(&self, method: &str, path: &str) -> (r: bool)
        ensures
            r == rule_matches(self@, method@, path@),
    {
        same_text(self.method.as_str(), method) && glob_match(self.pattern.as_str(), path)
    }
}

/// The increments that `rules` give for a request of `method` on `path`.
pub fn match_usages(rules: &Vec<MappingRule>, method: &str, path: &str) -> (r: Vec<Usage>)
    ensures
        usages_view(r@) == usages_of(rules_view(rules@), method@, path@),
{
    let ghost all = rules_view(rules@);
    let mut out: Vec<Usage> = Vec::new();
    let mut k: usize = 0;
    assert(all.skip(0) =~= all);
    assert(usages_view(out@) + usages_of(all, method@, path@) =~= usages_of(all, method@, path@));
    while k < rules.len()
        invariant
            k <= rules.len(),
            all == rules_view(rules@),
            usages_view(out@) + usages_of(all.skip(k as int), method@, path@) == usages_of(all, method@, path@),
        decreases rules.len() - k,
    {
        let rule = &rules[k];
        let ghost rest = all.skip(k as int);
        assert(rest.drop_first() =~= all.skip(k + 1));
        assert(rest[0] == rule@);
        if rule.matches(method, path) {
            let u = Usage { metric: copy_string(&rule.metric), delta: rule.delta };
            let ghost before = usages_view(out@);
            out.push(u);
            assert(usages_view(out@) =~= before + seq![(rule@.metric, rule@.delta)]);
            if rule.last {
                assert(usages_view(out@) =~= usages_of(all, method@, path@));
                return out;
            }
            assert(usages_view(out@) + usages_of(all.skip(k + 1), method@, path@)
                =~= before + usages_of(rest, method@, path@));
        }
        k = k + 1;
    }
    assert(all.skip(k as int) =~= Seq::<RuleView>::empty());
    assert(usages_view(out@) =~= usages_view(out@) + Seq::<(Seq<char>, u64)>::empty());
    out
}

/// With no rules, no increments: an empty rule list is no error.
pub proof fn lemma_no_rules_no_usages(method: Seq<char>, path: Seq<char>)
    ensures
        usages_of(Seq::<RuleView>::empty(), method, path) == Seq::<(Seq<char>, u64)>::empty(),
{
}

/// Evaluation keeps the order of the rules: when no rule of `a` stops the
/// evaluation, the increments of `a` followed by `b` are those of `a`
/// followed by those of `b`.
pub proof fn lemma_usages_concat(a: Seq<RuleView>, b: Seq<RuleView>, method: Seq<char>, path: Seq<char>)
    requires
        !has_stopping_rule(a, method, path),
    ensures
        usages_of(a + b, method, path) == usages_of(a, method, path) + usages_of(b, method, path),
    decreases a.len(),
{
    if a.len() == 0 {
        assert(a + b =~= b);
        assert(usages_of(a, method, path) + usages_of(b, method, path) =~= usages_of(b, method, path));
    } else {
        assert((a + b).drop_first() =~= a.drop_first() + b);
        assert((a + b)[0] == a[0]);
        assert forall|k: int| 0 <= k < a.drop_first().len() && #[trigger] rule_matches(a.drop_first()[k], method, path)
            implies !a.drop_first()[k].last by {
            assert(a.drop_first()[k] == a[k + 1]);
            assert(rule_matches(a[k + 1], method, path));
        }
        lemma_usages_concat(a.drop_first(), b, method, path);
        if rule_matches(a[0], method, path) {
            assert(!a[0].last) by {
                assert(rule_matches(a[0], method, path));
            }
            assert(usages_of(a + b, method, path) =~= usages_of(a, method, path) + usages_of(b, method, path));
        }
    }
}

/// A matching rule marked `last` at index `k` hides every rule after it: the
/// increments do not depend on what follows it.
pub proof fn lemma_last_rule_stops(rules: Seq<RuleView>, tail: Seq<RuleView>, k: int, method: Seq<char>, path: Seq<char>)
    requires
        0 <= k < rules.len(),
        rule_matches(rules[k], method, path),
        rules[k].last,
    ensures
        usages_of(rules, method, path) == usages_of(rules.take(k + 1), method, path),
        usages_of(rules.take(k + 1) + tail, method, path) == usages_of(rules.take(k + 1), method, path),
    decreases k,
{
    if k > 0 {
        lemma_last_rule_stops(rules.drop_first(), tail, k - 1, method, path);
        assert(rules.drop_first().take(k) =~= rules.take(k + 1).drop_first());
        assert((rules.take(k + 1) + tail).drop_first() =~= rules.drop_first().take(k) + tail);
        assert((rules.take(k + 1) + tail)[0] == rules[0]);
        assert(rules.take(k + 1)[0] == rules[0]);
    } else {
        assert((rules.take(1) + tail)[0] == rules[0]);
        assert(rules.take(1)[0] == rules[0]);
    }
}

/// A single matching rule marked `last` gives exactly its own increment.
pub proof fn lemma_single_last_rule(r: RuleView, method: Seq<char>, path: Seq<char>)
    requires
        rule_matches(r, method, path),
        r.last,
    ensures
        usages_of(seq![r], method, path) == seq![(r.metric, r.delta)],
{
    assert(seq![r][0] == r);
}

/// Evaluating the same request against the same rules twice gives the same
/// increments.
pub proof fn lemma_usages_deterministic(rules: &Vec<MappingRule>, method: Seq<char>, path: Seq<char>, r1: Seq<Usage>, r2: Seq<Usage>)
    requires
        usages_view(r1) == usages_of(rules_view(rules@), method, path),
        usages_view(r2) == usages_of(rules_view(rules@), method, path),
    ensures
        usages_view(r1) == usages_view(r2),
{
}

} // verus!
