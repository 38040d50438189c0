use mouse_speed_profiler::reconciler::Reconciler;
use mouse_speed_profiler::rules::Config;
use mouse_speed_profiler::rules::MatchMode;
use mouse_speed_profiler::rules::Rule;
use mouse_speed_profiler::template::template_config;

fn rule(
    window_title: Option<&str>,
    exe_name: Option<&str>,
    match_mode: MatchMode,
    speed: usize,
) -> Rule {
    Rule {
        window_title: window_title.map(|s| s.to_owned()),
        exe_name: exe_name.map(|s| s.to_owned()),
        match_mode,
        speed,
    }
}

fn minecraft_config() -> Config {
    Config {
        rules: vec![rule(Some("Minecraft"), Some("javaw.exe"), MatchMode::All, 5)],
        default_speed: 10,
    }
}

#[test]
fn scenario_title_and_exe_match() {
    let r = Reconciler::new(minecraft_config());
    let speed = r.get_reconciled_speed("Minecraft 1.20.1", "C:\\Program Files\\Java\\bin\\javaw.exe");
    assert_eq!(speed, 5);
}

#[test]
fn scenario_exe_suffix_fails() {
    let r = Reconciler::new(minecraft_config());
    let speed = r.get_reconciled_speed(
        "Minecraft Launcher",
        "C:\\Program Files\\Minecraft\\MinecraftLauncher.exe",
    );
    assert_eq!(speed, 10);
}

#[test]
fn scenario_exe_unconstrained() {
    let r = Reconciler::new(Config {
        rules: vec![rule(Some("Minecraft"), None, MatchMode::All, 5)],
        default_speed: 10,
    });
    let speed = r.get_reconciled_speed("Minecraft", "anything.exe");
    assert_eq!(speed, 5);
}

#[test]
fn scenario_no_write_when_speed_current() {
    let r = Reconciler::new(minecraft_config());
    let step = r.reconcile_step("Minecraft 1.20.1", "C:\\Java\\bin\\javaw.exe", 5);
    assert_eq!(step, None);
}

#[test]
fn write_performed_when_speed_differs() {
    let r = Reconciler::new(minecraft_config());
    let step = r.reconcile_step("Minecraft 1.20.1", "C:\\Java\\bin\\javaw.exe", 10);
    assert_eq!(step, Some(5));
}

#[test]
fn second_reconciliation_is_a_no_op() {
    let r = Reconciler::new(minecraft_config());
    let title = "Minecraft 1.20.1";
    let exe = "C:\\Java\\bin\\javaw.exe";
    let mut system_speed: usize = 10;
    let mut writes: usize = 0;
    for _ in 0..2 {
        if let Some(s) = r.reconcile_step(title, exe, system_speed) {
            system_speed = s;
            writes += 1;
        }
    }
    assert_eq!(writes, 1);
    assert_eq!(system_speed, 5);
}

#[test]
fn empty_rule_list_gives_default() {
    let r = Reconciler::new(Config { rules: vec![], default_speed: 7 });
    assert_eq!(r.get_reconciled_speed("Minecraft", "javaw.exe"), 7);
    assert_eq!(r.get_reconciled_speed("", ""), 7);
}

#[test]
fn first_matching_rule_wins() {
    let r = Reconciler::new(Config {
        rules: vec![
            rule(Some("Notepad"), None, MatchMode::All, 3),
            rule(Some("Mine"), None, MatchMode::All, 4),
            rule(Some("Minecraft"), None, MatchMode::All, 6),
        ],
        default_speed: 10,
    });
    assert_eq!(r.get_reconciled_speed("Minecraft", "x.exe"), 4);
}

#[test]
fn rule_without_patterns_matches_everything() {
    let r = Reconciler::new(Config {
        rules: vec![rule(None, None, MatchMode::All, 2)],
        default_speed: 10,
    });
    assert_eq!(r.get_reconciled_speed("whatever", "whatever.exe"), 2);
}

#[test]
fn any_mode_matches_on_either_pattern() {
    let r = Reconciler::new(Config {
        rules: vec![rule(Some("Minecraft"), Some("javaw.exe"), MatchMode::Any, 5)],
        default_speed: 10,
    });
    assert_eq!(r.get_reconciled_speed("Minecraft", "other.exe"), 5);
    assert_eq!(r.get_reconciled_speed("Other", "C:\\bin\\javaw.exe"), 5);
    assert_eq!(r.get_reconciled_speed("Other", "other.exe"), 10);
}

#[test]
fn all_mode_requires_both_patterns() {
    let r = Reconciler::new(minecraft_config());
    assert_eq!(r.get_reconciled_speed("Minecraft", "other.exe"), 10);
    assert_eq!(r.get_reconciled_speed("Other", "C:\\bin\\javaw.exe"), 10);
}

#[test]
fn title_only_rule_ignores_exe_path() {
    let r = Reconciler::new(Config {
        rules: vec![rule(Some("Minecraft"), None, MatchMode::All, 5)],
        default_speed: 10,
    });
    assert_eq!(r.get_reconciled_speed("Minecraft 1.20.1", "a.exe"), 5);
    assert_eq!(r.get_reconciled_speed("Minecraft 1.20.1", "completely/else"), 5);
    assert_eq!(r.get_reconciled_speed("Minecraft 1.20.1", ""), 5);
}

#[test]
fn template_has_example_rules_and_default() {
    let c = template_config();
    assert_eq!(c.rules.len(), 2);
    assert_eq!(c.rules[0].window_title.as_deref(), Some("Minecraft"));
    assert_eq!(c.rules[0].exe_name.as_deref(), Some("javaw.exe"));
    assert_eq!(c.rules[0].speed, 5);
    assert_eq!(c.rules[1].window_title.as_deref(), Some("Minecraft"));
    assert_eq!(c.rules[1].exe_name.as_deref(), Some("java.exe"));
    assert_eq!(c.rules[1].speed, 5);
    assert_eq!(c.default_speed, 10);
    assert!(c.is_wf());
}

#[test]
fn template_selects_slow_speed_for_minecraft() {
    let r = Reconciler::new(template_config());
    assert_eq!(r.get_reconciled_speed("Minecraft 1.20.1", "C:\\jre\\bin\\javaw.exe"), 5);
    assert_eq!(r.get_reconciled_speed("Minecraft 1.20.1", "C:\\jre\\bin\\java.exe"), 5);
    assert_eq!(r.get_reconciled_speed("Notepad", "C:\\Windows\\notepad.exe"), 10);
}

#[test]
fn config_validation_rejects_zero_speeds() {
    let valid = Config {
        rules: vec![rule(Some("A"), None, MatchMode::All, 1)],
        default_speed: 1,
    };
    assert!(valid.is_wf());

    let zero_default = Config { rules: vec![], default_speed: 0 };
    assert!(!zero_default.is_wf());

    let zero_rule_speed = Config {
        rules: vec![rule(Some("A"), None, MatchMode::All, 0)],
        default_speed: 10,
    };
    assert!(!zero_rule_speed.is_wf());
}
