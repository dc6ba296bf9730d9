//! Platform rules: which libraries a platform takes.
//!
//! A library carries a list of rules. Each rule allows or denies, for one
//! operating system or for all. The last rule that applies to the platform
//! decides; where rules are given and none applies, the library is left out;
//! where no rule is given, it is taken.

use vstd::prelude::*;
use crate::text::same_text;
use crate::version::{Rule, RuleView};

verus! {

/// The action that lets a library in.
pub open spec fn allow_action() -> Seq<char> {
    "allow"@
}

/// Whether `rule` speaks about the operating system `os`: it names that
/// system, or none.
pub open spec fn rule_applies(rule: RuleView, os: Seq<char>) -> bool {
    match rule.os {
        Some(name) => name == os,
        None => true,
    }
}

/// The verdict of the last rule that applies to `os`; `false` where no rule
/// applies.
pub open spec fn last_verdict(rules: Seq<RuleView>, os: Seq<char>) -> bool
    decreases rules.len(),
{
    if rules.len() == 0 {
        false
    } else if rule_applies(rules.last(), os) {
        rules.last().action == allow_action()
    } else {
        last_verdict(rules.drop_last(), os)
    }
}

/// Whether a library with these rules is taken on `os`.
pub open spec fn rules_permit(rules: Seq<RuleView>, os: Seq<char>) -> bool {
    rules.len() == 0 || last_verdict(rules, os)
}

/// Whether a library with these rules is taken on the operating system `os`.
pub fn rules_allow(rules: &Vec<Rule>, os: &str) -> (allowed: bool)
    ensures
        allowed == rules_permit(rules.deep_view(), os@),
{
    if rules.len() == 0 {
        return true;
    }
    let ghost all = rules.deep_view();
    let mut allowed = false;
    let mut i: usize = 0;
    while i < rules.len()
        invariant
            i <= rules.len(),
            all == rules.deep_view(),
            allowed == last_verdict(all.take(i as int), os@),
        decreases rules.len() - i,
    {
        let rule = &rules[i];
        assert(all.take(i + 1).drop_last() =~= all.take(i as int));
        assert(all.take(i + 1).last() == rule.deep_view());
        let applies = match &rule.os {
            Some(named) => same_text(named.name.as_str(), os),
            None => true,
        };
        if applies {
            allowed = same_text(rule.action.as_str(), "allow");
        }
        i += 1;
    }
    assert(all.take(i as int) =~= all);
    allowed
}

/// A library without rules is taken on every platform.
pub proof fn lemma_no_rules_permit(os: Seq<char>)
    ensures
        rules_permit(Seq::<RuleView>::empty(), os),
{
}

/// A single rule that allows on every system lets the library in everywhere.
pub proof fn lemma_unconditional_allow_permits(os: Seq<char>)
    ensures
        rules_permit(seq![RuleView { action: allow_action(), os: None }], os),
{
}

/// A single rule that allows on another system leaves the library out.
pub proof fn lemma_allow_elsewhere_denies(os: Seq<char>, other: Seq<char>)
    requires
        os != other,
    ensures
        !rules_permit(seq![RuleView { action: allow_action(), os: Some(other) }], os),
{
    let rules = seq![RuleView { action: allow_action(), os: Some(other) }];
    assert(rules.drop_last() =~= Seq::<RuleView>::empty());
    assert(!last_verdict(rules.drop_last(), os));
}

/// An allowance for all systems followed by a denial for this one leaves
/// the library out: the later rule wins.
pub proof fn lemma_later_denial_wins(os: Seq<char>, deny: Seq<char>)
    requires
        deny != allow_action(),
    ensures
        !rules_permit(
            seq![
                RuleView { action: allow_action(), os: None },
                RuleView { action: deny, os: Some(os) },
            ],
            os,
        ),
{
}

/// The last rule decides wherever it applies, whatever stands before it.
pub proof fn lemma_last_applying_rule_decides(rules: Seq<RuleView>, last: RuleView, os: Seq<char>)
    requires
        rule_applies(last, os),
    ensures
        rules_permit(rules.push(last), os) == (last.action == allow_action()),
{
}

/// A rule that does not apply changes nothing about the verdict of the
/// rules before it.
pub proof fn lemma_other_rule_is_skipped(rules: Seq<RuleView>, last: RuleView, os: Seq<char>)
    requires
        !rule_applies(last, os),
    ensures
        last_verdict(rules.push(last), os) == last_verdict(rules, os),
{
    assert(rules.push(last).drop_last() =~= rules);
}

} // verus!
