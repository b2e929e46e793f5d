use aegis::sentinel::{confirmed, default_cooldown, parse_duration, Config, Dispatcher, Rule};

fn rule(name: &str, pattern: &str, cooldown: &str) -> Rule {
    Rule {
        name: name.to_string(),
        pattern: pattern.to_string(),
        action: "notify".to_string(),
        script: None,
        cooldown: cooldown.to_string(),
        destructive: false,
    }
}

fn dispatcher(rules: Vec<Rule>, force: bool) -> Dispatcher {
    match Dispatcher::new(Config { rules, watches: vec![] }, force) {
        Ok(d) => d,
        Err(e) => panic!("{}", e.message()),
    }
}

#[test]
fn test_dispatcher_debounce_logic() {
    let rule = rule("Test Debounce", "ERROR", "10s");
    let mut d = dispatcher(vec![rule.duplicate()], false);
    // First trigger
    assert!(d.should_trigger(&rule, 1_000));
    // Immediate second trigger is within the cooldown
    assert!(!d.should_trigger(&rule, 2_000));
}

#[test]
fn cooldown_expires() {
    let rule = rule("R", "ERROR", "10s");
    let mut d = dispatcher(vec![rule.duplicate()], false);
    assert!(d.should_trigger(&rule, 0));
    assert!(!d.should_trigger(&rule, 9_999_999_999));
    assert!(d.should_trigger(&rule, 10_000_000_000));
    // The clock running backwards counts as no time elapsed.
    assert!(!d.should_trigger(&rule, 5));
}

#[test]
fn durations() {
    assert_eq!(parse_duration("10s"), 10);
    assert_eq!(parse_duration(" 7s "), 7);
    assert_eq!(parse_duration("5m"), 300);
    assert_eq!(parse_duration("xs"), 10);
    assert_eq!(parse_duration("xm"), 60);
    assert_eq!(parse_duration("+3s"), 3);
    assert_eq!(parse_duration("1h"), 10);
    assert_eq!(parse_duration(""), 10);
    assert_eq!(default_cooldown(), "10s");
}

#[test]
fn invalid_pattern_is_refused() {
    match Dispatcher::new(Config { rules: vec![rule("ok", "a+", "1s"), rule("bad", "(", "1s")], watches: vec![] }, false) {
        Ok(_) => panic!("expected an error"),
        Err(e) => assert_eq!(e.message(), "Invalid regex: ("),
    }
}

#[test]
fn dispatch_fires_matching_rules_once_per_cooldown() {
    let mut d = dispatcher(vec![rule("errors", "ERROR", "10s"), rule("disk", "disk full", "1m"), rule("any", ".", "0s")], false);
    let fired: Vec<String> = d.dispatch("ERROR: disk full", 0).into_iter().map(|r| r.name).collect();
    assert_eq!(fired, vec!["errors", "disk", "any"]);
    let fired: Vec<String> = d.dispatch("ERROR again", 1_000_000_000).into_iter().map(|r| r.name).collect();
    assert_eq!(fired, vec!["any"]);
    let matched: Vec<String> = d.matching_rules("nothing").into_iter().map(|r| r.name).collect();
    assert_eq!(matched, vec!["any"]);
}

#[test]
fn destructive_scripts_need_confirmation_unless_forced() {
    let mut r = rule("Destructive Action", "REBOOT", "10s");
    r.script = Some("echo rebooting".to_string());
    r.destructive = true;
    let d = dispatcher(vec![r.duplicate()], false);
    let plan = d.trigger_plan(&r);
    assert!(plan.notify);
    assert_eq!(plan.script.as_deref(), Some("echo rebooting"));
    assert!(plan.needs_confirmation);
    let forced = dispatcher(vec![r.duplicate()], true);
    assert!(!forced.trigger_plan(&r).needs_confirmation);
    assert!(confirmed("  Yes\n"));
    assert!(confirmed("y"));
    assert!(!confirmed("no"));
    assert!(!confirmed(""));
}
