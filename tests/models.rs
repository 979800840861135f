use scan_core::models::{CheckStatus, CheckType, RuleMetadata, Scan, ScanStatus, SeverityLevel};

#[test]
fn severity_tokens_round_trip() {
    for s in [
        SeverityLevel::Info,
        SeverityLevel::Low,
        SeverityLevel::Medium,
        SeverityLevel::High,
        SeverityLevel::Critical,
    ] {
        assert_eq!(SeverityLevel::from_token(&s.as_token()), Some(s));
    }
    assert_eq!(SeverityLevel::from_token("severe"), None);
    assert_eq!(CheckStatus::from_token("pass"), Some(CheckStatus::Pass));
    assert_eq!(ScanStatus::from_token("completed"), Some(ScanStatus::Completed));
}

#[test]
fn scan_status_moves_forward_only() {
    let mut scan = Scan { id: 1, device_id: 7, status: ScanStatus::Running };
    assert!(!scan.set_status(ScanStatus::Pending));
    assert_eq!(scan.status, ScanStatus::Running);
    assert!(scan.set_status(ScanStatus::Completed));
    assert_eq!(scan.status, ScanStatus::Completed);
    assert!(!scan.set_status(ScanStatus::Running));
    assert!(!scan.set_status(ScanStatus::Failed));
    assert_eq!(scan.status, ScanStatus::Completed);
    assert!(ScanStatus::Failed.is_terminal());
    assert!(!ScanStatus::Running.is_terminal());
}

#[test]
fn seeded_rule_keeps_metadata_id_and_body() {
    let meta = RuleMetadata {
        id: "ssh-001".to_string(),
        name: "No root login".to_string(),
        description: None,
        severity: SeverityLevel::High,
    };
    let body = "METADATA = { id = 'ssh-001' }\nfunction run_check() return { status = 'pass' } end".to_string();
    let rule = meta.into_rule(body.clone());
    assert_eq!(rule.id, "ssh-001");
    assert_eq!(rule.script_body, body);
    assert_eq!(rule.check_type, CheckType::Lua);
    assert_eq!(rule.severity, SeverityLevel::High);
    assert_eq!(rule.description, None);
}

#[test]
fn wire_tokens_are_lowercase() {
    assert_eq!(SeverityLevel::Critical.as_token(), "critical");
    assert_eq!(CheckType::Lua.as_token(), "lua");
    assert_eq!(CheckType::from_token("Lua"), None);
    assert_eq!(CheckStatus::Error.as_token(), "error");
    assert_eq!(ScanStatus::Pending.as_token(), "pending");
    assert_eq!(ScanStatus::from_token("done"), None);
}
