//! The example configuration written out when no configuration file
//! exists yet, so the user has a realistic file to edit.

use vstd::prelude::*;
use vstd::string::StringExecFns;

use crate::rules::Config;
use crate::rules::MatchMode;
use crate::rules::Rule;

verus! {

/// The template configuration: two rules that slow the pointer down
/// for Minecraft windows owned by a Java runtime, and a fallback
/// speed.
pub fn template_config() -> (c: Config)
    ensures
        c.rules@.len() == 2,
        c.rules@[0].window_title matches Some(t) && t@ == "Minecraft"@,
        c.rules@[0].exe_name matches Some(e) && e@ == "javaw.exe"@,
        c.rules@[0].match_mode == MatchMode::All,
        c.rules@[0].speed == 5,
        c.rules@[1].window_title matches Some(t) && t@ == "Minecraft"@,
        c.rules@[1].exe_name matches Some(e) && e@ == "java.exe"@,
        c.rules@[1].match_mode == MatchMode::All,
        c.rules@[1].speed == 5,
        c.default_speed == 10,
        c.wf(),
{
    let mut rules: Vec<Rule> = Vec::new();
    rules.push(
        Rule {
            window_title: Some(String::from_str("Minecraft")),
            exe_name: Some(String::from_str("javaw.exe")),
            match_mode: MatchMode::All,
            speed: 5,
        },
    );
    rules.push(
        Rule {
            window_title: Some(String::from_str("Minecraft")),
            exe_name: Some(String::from_str("java.exe")),
            match_mode: MatchMode::All,
            speed: 5,
        },
    );
    Config { rules, default_speed: 10 }
}

} // verus!
