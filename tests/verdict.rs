use scan_core::models::CheckStatus;
use scan_core::script_regex::LuaRegex;
use scan_core::verdict::{failure_row, scan_row, CheckResult};

#[test]
fn passing_rule_gives_pass_without_details() {
    let v = CheckResult::from_record("pass", None).unwrap();
    assert_eq!(scan_row(Ok(v)), (CheckStatus::Pass, None));
}

#[test]
fn failing_rule_keeps_its_details() {
    let sshd_config = "PermitRootLogin yes\nPort 22\nPasswordAuthentication no\n";
    let re = LuaRegex::compile("^PermitRootLogin\\s+yes").unwrap();
    assert!(re.is_match(sshd_config));
    let v = CheckResult::from_record("fail", Some("root login permitted".to_string())).unwrap();
    assert_eq!(
        scan_row(Ok(v)),
        (CheckStatus::Fail, Some("root login permitted".to_string()))
    );
}

#[test]
fn script_error_becomes_error_row() {
    let row = scan_row(Err("[string \"rule\"]:3: attempt to call a nil value".to_string()));
    assert_eq!(row.0, CheckStatus::Error);
    assert_eq!(
        row.1.unwrap(),
        "Rule execution failed: [string \"rule\"]:3: attempt to call a nil value"
    );
}

#[test]
fn error_verdict_is_prefixed() {
    let v = CheckResult::from_record("error", Some("no sshd".to_string())).unwrap();
    let row = scan_row(Ok(v));
    assert_eq!(row, (CheckStatus::Error, Some("Rule execution failed: no sshd".to_string())));
    let v = CheckResult::from_record("error", None).unwrap();
    assert_eq!(scan_row(Ok(v)).1.unwrap(), "Rule execution failed: ");
}

#[test]
fn unknown_status_is_malformed_verdict() {
    let e = CheckResult::from_record("ok", None).unwrap_err();
    assert_eq!(e, "unknown verdict status: ok");
    let row = scan_row(Err(e));
    assert_eq!(row.1.unwrap(), "Rule execution failed: unknown verdict status: ok");
    assert_eq!(failure_row("x").1.unwrap(), "Rule execution failed: x");
}
