//! The rule data model and the matching semantics.
//!
//! A rule constrains the focused window's title (by prefix) and the
//! owning executable's path (by suffix); either constraint may be
//! absent. An absent pattern is not a constraint at all: it is left
//! out of the `All` / `Any` combination, and a rule with no patterns
//! matches every window.

use vstd::prelude::*;

use crate::matching::ends_with_chars;
use crate::matching::starts_with_chars;

verus! {

/// How a rule combines the constraints it actually specifies:
/// `All` requires every specified pattern to match, `Any` at least one.
#[derive(Clone, Copy, PartialEq, Eq, Structural, Debug)]
pub enum MatchMode {
    All,
    Any,
}

/// One matching rule: an optional title prefix, an optional executable
/// path suffix, the mode that combines them, and the pointer speed to
/// apply when the rule matches.
#[derive(Debug)]
pub struct Rule {
    pub window_title: Option<String>,
    pub exe_name: Option<String>,
    pub match_mode: MatchMode,
    pub speed: usize,
}

/// An ordered rule list plus the fallback speed used when no rule
/// matches. Order is significant: the first matching rule wins.
#[derive(Debug)]
pub struct Config {
    pub rules: Vec<Rule>,
    pub default_speed: usize,
}

/// Whether `rule` matches a window with title `title` and owning
/// executable path `exe`. An absent pattern is excluded from the
/// `All` / `Any` combination; a rule with no patterns at all matches
/// unconditionally.
pub open spec fn spec_rule_matches(rule: Rule, title: Seq<char>, exe: Seq<char>) -> bool {
    match (rule.window_title, rule.exe_name) {
        (Option::None, Option::None) => true,
        (Option::Some(tp), Option::None) => tp@.is_prefix_of(title),
        (Option::None, Option::Some(ep)) => ep@.is_suffix_of(exe),
        (Option::Some(tp), Option::Some(ep)) => match rule.match_mode {
            MatchMode::All => tp@.is_prefix_of(title) && ep@.is_suffix_of(exe),
            MatchMode::Any => tp@.is_prefix_of(title) || ep@.is_suffix_of(exe),
        },
    }
}

impl Rule {
    /// Evaluates this rule against a window identity.
    pub fn matches(&self, title: &str, exe_path: &str) -> (r: bool)
        ensures
            r == spec_rule_matches(*self, title@, exe_path@),
    {
        match (&self.window_title, &self.exe_name) {
            (Option::None, Option::None) => true,
            (Option::Some(tp), Option::None) => starts_with_chars(title, tp.as_str()),
            (Option::None, Option::Some(ep)) => ends_with_chars(exe_path, ep.as_str()),
            (Option::Some(tp), Option::Some(ep)) => {
                let matched_title = starts_with_chars(title, tp.as_str());
                let matched_exe = ends_with_chars(exe_path, ep.as_str());
                match self.match_mode {
                    MatchMode::All => matched_title && matched_exe,
                    MatchMode::Any => matched_title || matched_exe,
                }
            },
        }
    }
}

impl Config {
    /// Every speed in the configuration, the fallback included, is a
    /// positive integer.
    pub open spec fn wf(&self) -> bool {
        &&& self.default_speed >= 1
        &&& forall|i: int| 0 <= i < self.rules@.len() ==> self.rules@[i].speed >= 1
    }

    /// Checks the well-formedness invariant on a freshly parsed
    /// configuration.
    pub fn is_wf(&self) -> (r: bool)
        ensures
            r == self.wf(),
    {
        if self.default_speed < 1 {
            return false;
        }
        let n: usize = self.rules.len();
        let mut i: usize = 0;
        while i < n
            invariant
                i <= n,
                n == self.rules@.len(),
                self.default_speed >= 1,
                forall|j: int| 0 <= j < i ==> self.rules@[j].speed >= 1,
            decreases n - i,
        {
            if self.rules[i].speed < 1 {
                return false;
            }
            i += 1;
        }
        true
    }
}

/// The speed selected by the first rule of `rules` (in order) that
/// matches `(title, exe)`, or `default_speed` when none does.
pub open spec fn spec_selected_speed(
    rules: Seq<Rule>,
    title: Seq<char>,
    exe: Seq<char>,
    default_speed: usize,
) -> usize
    decreases rules.len(),
{
    if rules.len() == 0 {
        default_speed
    } else if spec_rule_matches(rules[0], title, exe) {
        rules[0].speed
    } else {
        spec_selected_speed(rules.drop_first(), title, exe, default_speed)
    }
}

} // verus!
