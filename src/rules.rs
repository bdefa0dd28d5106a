use vstd::prelude::*;
use crate::platform::{OperatingSystem, os_name_text, same_text};

verus! {

/// What a rule does when it applies.
#[derive(Debug, Clone, Copy, PartialEq, Eq, Structural)]
pub enum RuleAction {
    Allow,
    Disallow,
}

impl RuleAction {
    /// Whether the action includes the artifact.
    pub fn allows(&self) -> (r: bool)
        ensures
            r == (*self == RuleAction::Allow),
    {
        match self {
            RuleAction::Allow => true,
            RuleAction::Disallow => false,
        }
    }
}

/// A platform rule: an action and the conditions, each a key and an expected
/// value, under which it applies.
#[derive(Debug, Clone)]
pub struct OsRule {
    pub action: RuleAction,
    pub os: Vec<(String, String)>,
}

/// A condition holds on a platform: `name` is compared with the family's
/// manifest name, `arch` with the architecture; other keys do not constrain.
pub open spec fn condition_holds(key: Seq<char>, value: Seq<char>, p: OperatingSystem) -> bool {
    if key == "name"@ {
        value == os_name_text(p.spec_name())
    } else if key == "arch"@ {
        value == p.spec_arch()
    } else {
        true
    }
}

/// A rule applies when every one of its conditions holds.
pub open spec fn rule_applies(rule: OsRule, p: OperatingSystem) -> bool {
    forall|i: int|
        0 <= i < rule.os@.len() ==> #[trigger] condition_holds(
            rule.os@[i].0@,
            rule.os@[i].1@,
            p,
        )
}

/// The action of the last rule that applies, if one does.
pub open spec fn last_match(rules: Seq<OsRule>, p: OperatingSystem) -> Option<RuleAction>
    decreases rules.len(),
{
    if rules.len() == 0 {
        None
    } else if rule_applies(rules.last(), p) {
        Some(rules.last().action)
    } else {
        last_match(rules.drop_last(), p)
    }
}

/// Whether an artifact with these rules is included on `p`: always without
/// rules; otherwise exactly when the last rule that applies allows it.
pub open spec fn rules_allow(rules: Seq<OsRule>, p: OperatingSystem) -> bool {
    rules.len() == 0 || last_match(rules, p) == Some(RuleAction::Allow)
}

/// Whether one condition holds on `p`.
fn condition_matches(key: &String, value: &String, p: &OperatingSystem) -> (r: bool)
    ensures
        r == condition_holds(key@, value@, *p),
{
    let name_key = "name".to_owned();
    let arch_key = "arch".to_owned();
    if *key == name_key {
        same_text(value.as_str(), p.name_str())
    } else if *key == arch_key {
        same_text(value.as_str(), p.arch())
    } else {
        true
    }
}

/// Whether every condition of `rule` holds on `p`.
pub fn rule_matches(rule: &OsRule, p: &OperatingSystem) -> (r: bool)
    ensures
        r == rule_applies(*rule, *p),
{
    let mut i: usize = 0;
    while i < rule.os.len()
        invariant
            i <= rule.os@.len(),
            forall|k: int|
                0 <= k < i ==> #[trigger] condition_holds(rule.os@[k].0@, rule.os@[k].1@, *p),
        decreases rule.os@.len() - i,
    {
        let cond = &rule.os[i];
        if !condition_matches(&cond.0, &cond.1, p) {
            return false;
        }
        i = i + 1;
    }
    true
}

/// Decides whether an artifact carrying `rules` is included on `platform`.
/// Rules are read in order and the last one that applies decides; without
/// rules the artifact is included, and when none applies it is excluded.
pub fn evaluate(rules: &Vec<OsRule>, platform: &OperatingSystem) -> (r: bool)
    ensures
        r == rules_allow(rules@, *platform),
{
    let mut decided: Option<RuleAction> = None;
    let mut i: usize = 0;
    while i < rules.len()
        invariant
            i <= rules@.len(),
            decided == last_match(rules@.take(i as int), *platform),
        decreases rules@.len() - i,
    {
        let applies = rule_matches(&rules[i], platform);
        proof {
            assert(rules@.take(i as int + 1).drop_last() =~= rules@.take(i as int));
            assert(rules@.take(i as int + 1).last() == rules@[i as int]);
        }
        if applies {
            decided = Some(rules[i].action);
        }
        i = i + 1;
    }
    proof {
        assert(rules@.take(rules@.len() as int) =~= rules@);
    }
    if rules.len() == 0 {
        true
    } else {
        match decided {
            Some(action) => action.allows(),
            None => false,
        }
    }
}

/// The last matching rule of a concatenation is found in its second part if
/// any rule there applies, and in the first part otherwise.
pub proof fn lemma_last_match_concat(a: Seq<OsRule>, b: Seq<OsRule>, p: OperatingSystem)
    ensures
        last_match(a + b, p) == (match last_match(b, p) {
            Some(x) => Some(x),
            None => last_match(a, p),
        }),
    decreases b.len(),
{
    if b.len() == 0 {
        assert(a + b =~= a);
    } else {
        assert((a + b).last() == b.last());
        assert((a + b).drop_last() =~= a + b.drop_last());
        lemma_last_match_concat(a, b.drop_last(), p);
    }
}

/// Swapping two neighbouring rules that do not both apply on `p` leaves the
/// decision on `p` unchanged.
pub proof fn lemma_swap_disjoint_rules(
    before: Seq<OsRule>,
    first: OsRule,
    second: OsRule,
    after: Seq<OsRule>,
    p: OperatingSystem,
)
    requires
        !(rule_applies(first, p) && rule_applies(second, p)),
    ensures
        rules_allow(before + seq![first, second] + after, p) == rules_allow(
            before + seq![second, first] + after,
            p,
        ),
{
    let x = seq![first, second];
    let y = seq![second, first];
    lemma_last_match_concat(before, x, p);
    lemma_last_match_concat(before, y, p);
    lemma_last_match_concat(before + x, after, p);
    lemma_last_match_concat(before + y, after, p);
    assert(x.drop_last() =~= seq![first]);
    assert(y.drop_last() =~= seq![second]);
    assert(seq![first].drop_last() =~= Seq::<OsRule>::empty());
    assert(seq![second].drop_last() =~= Seq::<OsRule>::empty());
    assert(x.last() == second && y.last() == first);
    assert(seq![first].last() == first && seq![second].last() == second);
    assert(last_match(Seq::<OsRule>::empty(), p) == None::<RuleAction>);
    assert(last_match(seq![first], p) == last_match(seq![first].drop_last(), p) || rule_applies(first, p));
    assert(last_match(seq![second], p) == last_match(seq![second].drop_last(), p) || rule_applies(second, p));
    assert(last_match(x, p) == last_match(y, p));
    assert((before + x + after).len() == (before + y + after).len());
}

/// Two rules with the same action and conditions of the same text.
pub open spec fn same_rule(a: OsRule, b: OsRule) -> bool {
    &&& a.action == b.action
    &&& a.os@.len() == b.os@.len()
    &&& forall|i: int| 0 <= i < a.os@.len() ==> (#[trigger] a.os@[i]).0@ == b.os@[i].0@ && a.os@[i].1@ == b.os@[i].1@
}

pub open spec fn same_rules(a: Seq<OsRule>, b: Seq<OsRule>) -> bool {
    a.len() == b.len() && forall|i: int| 0 <= i < a.len() ==> same_rule(#[trigger] a[i], b[i])
}

impl OsRule {
    /// A copy of the rule.
    pub fn duplicate(&self) -> (r: OsRule)
        ensures
            same_rule(r, *self),
    {
        let mut os: Vec<(String, String)> = Vec::new();
        let mut i: usize = 0;
        while i < self.os.len()
            invariant
                i <= self.os@.len(),
                os@.len() == i,
                forall|k: int| 0 <= k < i ==> (#[trigger] os@[k]).0@ == self.os@[k].0@ && os@[k].1@ == self.os@[k].1@,
            decreases self.os@.len() - i,
        {
            os.push((self.os[i].0.clone(), self.os[i].1.clone()));
            i = i + 1;
        }
        OsRule { action: self.action, os }
    }
}

/// A copy of a rule list.
pub fn duplicate_rules(rules: &Vec<OsRule>) -> (r: Vec<OsRule>)
    ensures
        same_rules(r@, rules@),
{
    let mut out: Vec<OsRule> = Vec::new();
    let mut i: usize = 0;
    while i < rules.len()
        invariant
            i <= rules@.len(),
            out@.len() == i,
            forall|k: int| 0 <= k < i ==> same_rule(#[trigger] out@[k], rules@[k]),
        decreases rules@.len() - i,
    {
        out.push(rules[i].duplicate());
        i = i + 1;
    }
    out
}

/// Rule lists of the same text decide alike on every platform.
pub proof fn lemma_same_rules_decide_alike(a: Seq<OsRule>, b: Seq<OsRule>, p: OperatingSystem)
    requires
        same_rules(a, b),
    ensures
        rules_allow(a, p) == rules_allow(b, p),
        last_match(a, p) == last_match(b, p),
    decreases a.len(),
{
    if a.len() > 0 {
        assert(same_rules(a.drop_last(), b.drop_last()));
        lemma_same_rules_decide_alike(a.drop_last(), b.drop_last(), p);
        let (x, y) = (a.last(), b.last());
        assert(same_rule(x, y));
        assert(rule_applies(x, p) == rule_applies(y, p)) by {
            if rule_applies(x, p) {
                assert forall|i: int| 0 <= i < y.os@.len() implies #[trigger] condition_holds(y.os@[i].0@, y.os@[i].1@, p) by {
                    assert(condition_holds(x.os@[i].0@, x.os@[i].1@, p));
                }
            }
            if rule_applies(y, p) {
                assert forall|i: int| 0 <= i < x.os@.len() implies #[trigger] condition_holds(x.os@[i].0@, x.os@[i].1@, p) by {
                    assert(condition_holds(y.os@[i].0@, y.os@[i].1@, p));
                }
            }
        }
    }
}

} // verus!
