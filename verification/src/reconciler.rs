//! The reconciliation engine: selecting the speed for the focused
//! window and deciding whether the global pointer-speed setting needs
//! to be written.
//!
//! Reading and writing the actual system setting is the platform
//! binding's job: it reads the current speed, calls
//! [`Reconciler::reconcile_step`], and performs the returned write, if
//! any. The engine itself holds no mutable state, so every invocation
//! is independent.

use vstd::prelude::*;

use crate::rules::Config;
use crate::rules::spec_rule_matches;
use crate::rules::spec_selected_speed;

verus! {

/// Owns the immutable configuration for the process lifetime and
/// answers, per focus-change event, which speed applies.
#[derive(Debug)]
pub struct Reconciler {
    pub config: Config,
}

/// The write that one reconciliation performs, given the speed the
/// rules select and the speed the system currently has: none when the
/// two agree, otherwise the selected speed.
pub open spec fn spec_reconcile_step(
    config: Config,
    title: Seq<char>,
    exe: Seq<char>,
    current_speed: usize,
) -> Option<usize> {
    let selected = spec_selected_speed(config.rules@, title, exe, config.default_speed);
    if selected == current_speed {
        Option::None
    } else {
        Option::Some(selected)
    }
}

impl Reconciler {
    pub fn new(config: Config) -> (r: Reconciler)
        ensures
            r.config == config,
    {
        Reconciler { config }
    }

    /// The speed the rule set selects for a window identity: the speed
    /// of the first matching rule in declaration order, or the default
    /// when no rule matches.
    pub fn get_reconciled_speed(&self, title: &str, exe_path: &str) -> (r: usize)
        ensures
            r == spec_selected_speed(
                self.config.rules@,
                title@,
                exe_path@,
                self.config.default_speed,
            ),
    {
        let n: usize = self.config.rules.len();
        let mut i: usize = 0;
        proof {
            assert(self.config.rules@.skip(0) =~= self.config.rules@);
        }
        while i < n
            invariant
                i <= n,
                n == self.config.rules@.len(),
                forall|j: int| 0 <= j < i ==> !spec_rule_matches(
                    self.config.rules@[j],
                    title@,
                    exe_path@,
                ),
                spec_selected_speed(
                    self.config.rules@,
                    title@,
                    exe_path@,
                    self.config.default_speed,
                ) == spec_selected_speed(
                    self.config.rules@.skip(i as int),
                    title@,
                    exe_path@,
                    self.config.default_speed,
                ),
            decreases n - i,
        {
            if self.config.rules[i].matches(title, exe_path) {
                proof {
                    assert(self.config.rules@.skip(i as int)[0] == self.config.rules@[i as int]);
                }
                return self.config.rules[i].speed;
            }
            proof {
                assert(self.config.rules@.skip(i as int).drop_first() =~= self.config.rules@.skip(
                    i as int + 1,
                ));
            }
            i += 1;
        }
        self.config.default_speed
    }

    /// One reconciliation, up to the system call: given the current
    /// system speed, returns `Some(s)` when the setting must be written
    /// to `s`, and `None` when the selected speed is already in effect.
    pub fn reconcile_step(&self, title: &str, exe_path: &str, current_speed: usize) -> (r: Option<
        usize,
    >)
        ensures
            r == spec_reconcile_step(self.config, title@, exe_path@, current_speed),
    {
        let selected = self.get_reconciled_speed(title, exe_path);
        if selected == current_speed {
            Option::None
        } else {
            Option::Some(selected)
        }
    }
}

} // verus!
