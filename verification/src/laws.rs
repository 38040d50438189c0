//! The guarantees the rule engine gives, stated and proved once for
//! all rule sets and window identities.

use vstd::prelude::*;

use crate::reconciler::spec_reconcile_step;
use crate::rules::Config;
use crate::rules::MatchMode;
use crate::rules::Rule;
use crate::rules::spec_rule_matches;
use crate::rules::spec_selected_speed;

verus! {

/// First match wins: when rule `i` matches `(title, exe)` and no rule
/// before it does, the selected speed is exactly the speed of rule `i`.
pub proof fn lemma_first_match_wins(
    rules: Seq<Rule>,
    title: Seq<char>,
    exe: Seq<char>,
    default_speed: usize,
    i: int,
)
    requires
        0 <= i < rules.len(),
        spec_rule_matches(rules[i], title, exe),
        forall|j: int| 0 <= j < i ==> !spec_rule_matches(rules[j], title, exe),
    ensures
        spec_selected_speed(rules, title, exe, default_speed) == rules[i].speed,
    decreases i,
{
    if i > 0 {
        assert(forall|j: int|
            0 <= j < i - 1 ==> rules.drop_first()[j] == rules[j + 1]
                && !spec_rule_matches(rules.drop_first()[j], title, exe));
        lemma_first_match_wins(rules.drop_first(), title, exe, default_speed, i - 1);
    }
}

/// When no rule matches, the selected speed is the fallback.
pub proof fn lemma_no_match_gives_default(
    rules: Seq<Rule>,
    title: Seq<char>,
    exe: Seq<char>,
    default_speed: usize,
)
    requires
        forall|j: int| 0 <= j < rules.len() ==> !spec_rule_matches(rules[j], title, exe),
    ensures
        spec_selected_speed(rules, title, exe, default_speed) == default_speed,
    decreases rules.len(),
{
    if rules.len() > 0 {
        assert(forall|j: int|
            0 <= j < rules.len() - 1 ==> rules.drop_first()[j] == rules[j + 1]
                && !spec_rule_matches(rules.drop_first()[j], title, exe));
        lemma_no_match_gives_default(rules.drop_first(), title, exe, default_speed);
    }
}

/// Idempotence: after one reconciliation of a window identity, a
/// second reconciliation of the same identity, with no external change
/// to the system speed in between, performs no write.
pub proof fn lemma_reconcile_idempotent(
    config: Config,
    title: Seq<char>,
    exe: Seq<char>,
    current_speed: usize,
)
    ensures
        ({
            let speed_after_first = match spec_reconcile_step(config, title, exe, current_speed) {
                Option::Some(s) => s,
                Option::None => current_speed,
            };
            spec_reconcile_step(config, title, exe, speed_after_first) is None
        }),
{
}

/// Absent-constraint semantics: a rule with only a title pattern and
/// mode `All` matches on the title alone, whatever the executable path
/// is.
pub proof fn lemma_title_only_rule_ignores_exe(
    rule: Rule,
    tp: String,
    title: Seq<char>,
    exe1: Seq<char>,
    exe2: Seq<char>,
)
    requires
        rule.window_title == Option::Some(tp),
        rule.exe_name is None,
        rule.match_mode == MatchMode::All,
    ensures
        spec_rule_matches(rule, title, exe1) == spec_rule_matches(rule, title, exe2),
        spec_rule_matches(rule, title, exe1) == tp@.is_prefix_of(title),
{
}

/// Mode semantics: a rule with both patterns set and mode `Any`
/// matches exactly when either pattern matches.
pub proof fn lemma_any_mode_matches_either(
    rule: Rule,
    tp: String,
    ep: String,
    title: Seq<char>,
    exe: Seq<char>,
)
    requires
        rule.window_title == Option::Some(tp),
        rule.exe_name == Option::Some(ep),
        rule.match_mode == MatchMode::Any,
    ensures
        spec_rule_matches(rule, title, exe) == (tp@.is_prefix_of(title) || ep@.is_suffix_of(
            exe,
        )),
{
}

/// An empty rule list always selects the fallback speed.
pub proof fn lemma_empty_rules_give_default(config: Config, title: Seq<char>, exe: Seq<char>)
    requires
        config.rules@.len() == 0,
    ensures
        spec_selected_speed(config.rules@, title, exe, config.default_speed)
            == config.default_speed,
{
}

} // verus!
