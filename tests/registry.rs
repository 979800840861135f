use scan_core::models::{CheckType, Rule, SeverityLevel};
use scan_core::registry::RuleRegistry;

fn rule(id: &str) -> Rule {
    Rule {
        id: id.to_string(),
        name: format!("rule {}", id),
        description: None,
        severity: SeverityLevel::Low,
        check_type: CheckType::Lua,
        script_body: String::new(),
    }
}

fn ids(r: &RuleRegistry) -> Vec<String> {
    r.rules().iter().map(|x| x.id.clone()).collect()
}

#[test]
fn exclusion_drops_listed_ids_and_keeps_order() {
    let mut reg = RuleRegistry::new(vec![rule("a"), rule("b"), rule("c"), rule("b")]);
    reg.exclude_checks(&vec!["b".to_string(), "unknown".to_string()]);
    assert_eq!(ids(&reg), vec!["a".to_string(), "c".to_string()]);
    assert_eq!(reg.len(), 2);
}

#[test]
fn exclusion_is_idempotent() {
    let excl = vec!["a".to_string(), "c".to_string()];
    let mut once = RuleRegistry::new(vec![rule("a"), rule("b"), rule("c"), rule("d")]);
    once.exclude_checks(&excl);
    let mut twice = RuleRegistry::new(vec![rule("a"), rule("b"), rule("c"), rule("d")]);
    twice.exclude_checks(&excl);
    twice.exclude_checks(&excl);
    assert_eq!(ids(&once), ids(&twice));
    assert_eq!(ids(&once), vec!["b".to_string(), "d".to_string()]);
}

#[test]
fn empty_exclusion_keeps_everything_and_duplicates() {
    let mut reg = RuleRegistry::new(vec![rule("x"), rule("x")]);
    reg.exclude_checks(&vec![]);
    assert_eq!(reg.ids(), vec!["x".to_string(), "x".to_string()]);
    reg.clear();
    assert_eq!(reg.len(), 0);
}
