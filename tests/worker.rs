use scan_core::models::{CheckStatus, CheckType, Rule, ScanStatus, SeverityLevel};
use scan_core::pass::ScanPass;
use scan_core::registry::RuleRegistry;
use scan_core::verdict::CheckResult;
use scan_core::worker::{ScanWorker, WorkerAction, WorkerEvent, WorkerOutcome, WorkerPhase};

fn rule(id: &str) -> Rule {
    Rule {
        id: id.to_string(),
        name: id.to_string(),
        description: Some("d".to_string()),
        severity: SeverityLevel::Medium,
        check_type: CheckType::Lua,
        script_body: "return { status = 'pass' }".to_string(),
    }
}

/// One store row, as a test store keeps it.
#[derive(Debug, PartialEq)]
enum Row {
    Scan(i64),
    Result(String, CheckStatus, Option<String>),
    Status(ScanStatus),
}

/// Drives a worker against an in-memory store; `outcome_of` stands in for
/// the script host.
fn drive(
    device_id: i64,
    registry: &RuleRegistry,
    reachable: bool,
    outcome_of: &dyn Fn(usize) -> Result<CheckResult, String>,
) -> (Vec<Row>, WorkerOutcome) {
    let (mut w, mut action) = ScanWorker::new(device_id, registry);
    let mut rows = Vec::new();
    loop {
        let event = match action {
            WorkerAction::Connect => {
                if reachable {
                    WorkerEvent::Connected
                } else {
                    WorkerEvent::ConnectFailed("Failed to establish connection to '10.0.0.9'".to_string())
                }
            }
            WorkerAction::CreateScan { device_id } => {
                rows.push(Row::Scan(device_id));
                WorkerEvent::ScanCreated(100 + device_id)
            }
            WorkerAction::Evaluate { rule_index } => WorkerEvent::RuleEvaluated(outcome_of(rule_index)),
            WorkerAction::StoreResult { scan_id, rule_id, status, details } => {
                assert_eq!(scan_id, 100 + device_id);
                rows.push(Row::Result(rule_id, status, details));
                WorkerEvent::ResultStored
            }
            WorkerAction::SetStatus { scan_id, status } => {
                assert_eq!(scan_id, 100 + device_id);
                rows.push(Row::Status(status));
                WorkerEvent::StatusStored
            }
            WorkerAction::Finish(outcome) => {
                assert!(w.is_done());
                return (rows, outcome);
            }
        };
        action = w.step(event);
    }
}

fn pass_verdict(_: usize) -> Result<CheckResult, String> {
    Ok(CheckResult { status: CheckStatus::Pass, details: None })
}

#[test]
fn empty_device_list_finishes_at_once() {
    let mut pass = ScanPass::new(0, 4);
    assert_eq!(pass.launch_next(), None);
    assert!(pass.is_over());
    assert_eq!(pass.completed(), 0);
    assert!(pass.failures().is_empty());
}

#[test]
fn one_device_no_rules_completes_with_no_results() {
    let mut reg = RuleRegistry::new(vec![rule("a"), rule("b")]);
    reg.exclude_checks(&vec!["a".to_string(), "b".to_string()]);
    let (rows, outcome) = drive(1, &reg, true, &pass_verdict);
    assert_eq!(rows, vec![Row::Scan(1), Row::Status(ScanStatus::Completed)]);
    assert!(matches!(outcome, WorkerOutcome::Completed));
}

#[test]
fn passing_rule_row() {
    let reg = RuleRegistry::new(vec![rule("p")]);
    let (rows, outcome) = drive(2, &reg, true, &pass_verdict);
    assert_eq!(
        rows,
        vec![
            Row::Scan(2),
            Row::Result("p".to_string(), CheckStatus::Pass, None),
            Row::Status(ScanStatus::Completed),
        ]
    );
    assert!(matches!(outcome, WorkerOutcome::Completed));
}

#[test]
fn bad_script_is_isolated_to_its_rule() {
    let reg = RuleRegistry::new(vec![rule("r1"), rule("bad"), rule("r3")]);
    let outcome_of = |i: usize| {
        if i == 1 {
            Err("runtime error: boom".to_string())
        } else {
            Ok(CheckResult {
                status: CheckStatus::Fail,
                details: Some("root login permitted".to_string()),
            })
        }
    };
    let (rows, outcome) = drive(3, &reg, true, &outcome_of);
    assert_eq!(
        rows,
        vec![
            Row::Scan(3),
            Row::Result("r1".to_string(), CheckStatus::Fail, Some("root login permitted".to_string())),
            Row::Result(
                "bad".to_string(),
                CheckStatus::Error,
                Some("Rule execution failed: runtime error: boom".to_string())
            ),
            Row::Result("r3".to_string(), CheckStatus::Fail, Some("root login permitted".to_string())),
            Row::Status(ScanStatus::Completed),
        ]
    );
    assert!(matches!(outcome, WorkerOutcome::Completed));
}

#[test]
fn connect_failure_writes_nothing_and_spares_siblings() {
    let reg = RuleRegistry::new(vec![rule("a")]);
    let mut pass = ScanPass::new(2, 0);
    let first = pass.launch_next().unwrap();
    let second = pass.launch_next().unwrap();
    assert_eq!((first, second), (0, 1));
    let (rows0, out0) = drive(10, &reg, false, &pass_verdict);
    assert!(rows0.is_empty());
    assert!(matches!(out0, WorkerOutcome::ConnectFailed(_)));
    let (rows1, out1) = drive(11, &reg, true, &pass_verdict);
    assert_eq!(rows1.len(), 3);
    pass.finished(first, out0);
    pass.finished(second, out1);
    assert!(pass.is_over());
    assert_eq!(pass.completed(), 1);
    assert_eq!(pass.failures().len(), 1);
    assert_eq!(pass.failures()[0].0, 0);
    assert_eq!(pass.failures()[0].1, "Failed to establish connection to '10.0.0.9'");
}

#[test]
fn results_follow_registry_order() {
    let reg = RuleRegistry::new(vec![rule("z"), rule("m"), rule("a"), rule("m")]);
    let (rows, _) = drive(4, &reg, true, &pass_verdict);
    let ids: Vec<String> = rows
        .iter()
        .filter_map(|r| match r {
            Row::Result(id, _, _) => Some(id.clone()),
            _ => None,
        })
        .collect();
    assert_eq!(ids, vec!["z", "m", "a", "m"]);
    assert_eq!(rows.iter().filter(|r| matches!(r, Row::Scan(_))).count(), 1);
    assert_eq!(rows.last(), Some(&Row::Status(ScanStatus::Completed)));
}

#[test]
fn store_failure_closes_scan_as_failed() {
    let reg = RuleRegistry::new(vec![rule("a"), rule("b")]);
    let (mut w, a) = ScanWorker::new(5, &reg);
    assert!(matches!(a, WorkerAction::Connect));
    assert!(matches!(w.step(WorkerEvent::Connected), WorkerAction::CreateScan { device_id: 5 }));
    assert!(matches!(w.step(WorkerEvent::ScanCreated(50)), WorkerAction::Evaluate { rule_index: 0 }));
    assert!(matches!(
        w.step(WorkerEvent::RuleEvaluated(pass_verdict(0))),
        WorkerAction::StoreResult { scan_id: 50, .. }
    ));
    let a = w.step(WorkerEvent::StoreFailed("connection reset".to_string()));
    assert!(matches!(a, WorkerAction::SetStatus { scan_id: 50, status: ScanStatus::Failed }));
    assert_eq!(w.phase(), WorkerPhase::Closing);
    match w.step(WorkerEvent::StatusStored) {
        WorkerAction::Finish(WorkerOutcome::Failed(m)) => assert_eq!(m, "connection reset"),
        _ => panic!("expected a failed finish"),
    }
    assert!(w.is_done());
}

#[test]
fn cancellation_closes_scan_as_failed() {
    let reg = RuleRegistry::new(vec![rule("a")]);
    let (mut w, _) = ScanWorker::new(6, &reg);
    w.step(WorkerEvent::Connected);
    w.step(WorkerEvent::ScanCreated(60));
    let a = w.step(WorkerEvent::Cancelled);
    assert!(matches!(a, WorkerAction::SetStatus { scan_id: 60, status: ScanStatus::Failed }));
    assert!(matches!(w.step(WorkerEvent::StatusStored), WorkerAction::Finish(WorkerOutcome::Cancelled)));
    assert!(matches!(w.step(WorkerEvent::ResultStored), WorkerAction::Finish(WorkerOutcome::Cancelled)));
}

#[test]
fn bounded_fan_out() {
    let mut pass = ScanPass::new(3, 2);
    assert_eq!(pass.launch_next(), Some(0));
    assert_eq!(pass.launch_next(), Some(1));
    assert_eq!(pass.launch_next(), None);
    pass.finished(0, WorkerOutcome::Completed);
    assert_eq!(pass.launch_next(), Some(2));
    assert_eq!(pass.launch_next(), None);
    assert!(!pass.is_over());
    pass.finished(1, WorkerOutcome::Failed("db down".to_string()));
    pass.finished(2, WorkerOutcome::Completed);
    assert!(pass.is_over());
    assert_eq!(pass.completed(), 2);
}
