use vstd::prelude::*;
use vstd::string::StringExecFns;
use crate::models::{CheckStatus, ScanStatus};
use crate::registry::RuleRegistry;
use crate::verdict::{CheckResult, opt_view, outcome_view, row_for, scan_row};

verus! {

/// Where a device worker stands.
#[derive(Clone, Copy, Debug, PartialEq, Eq, Structural)]
pub enum WorkerPhase {
    /// The session to the device is being opened.
    Connecting,
    /// The scan row is being created.
    CreatingScan,
    /// The rule at the current index is being evaluated.
    Evaluating,
    /// The result of the rule at the current index is being stored.
    Storing,
    /// The scan's terminal status is being stored.
    Closing,
    /// The worker has finished.
    Done,
}

/// How a worker ended.
#[derive(Clone, Copy, Debug, PartialEq, Eq, Structural)]
pub enum OutcomeKind {
    /// Every rule was evaluated and the scan was closed as completed.
    Completed,
    /// The device could not be reached; no scan row was written.
    ConnectFailed,
    /// The worker stopped on a store failure or an out-of-order event.
    Failed,
    /// The pass was cancelled.
    Cancelled,
}

/// What the environment reports back to a worker.
pub enum WorkerEvent {
    /// The session is open and a script host is bound to it.
    Connected,
    /// The device could not be reached or authenticated.
    ConnectFailed(String),
    /// The scan row was created with this id.
    ScanCreated(i64),
    /// The rule's verdict, or why it could not be evaluated.
    RuleEvaluated(Result<CheckResult, String>),
    /// The store acknowledged the result row.
    ResultStored,
    /// The store acknowledged the scan's status.
    StatusStored,
    /// A store call failed.
    StoreFailed(String),
    /// The pass was cancelled.
    Cancelled,
}

/// How a worker ended, with its diagnostic.
pub enum WorkerOutcome {
    Completed,
    ConnectFailed(String),
    Failed(String),
    Cancelled,
}

/// What the worker asks the environment to do next.
pub enum WorkerAction {
    /// Open a session to the device and a fresh script host bound to it.
    Connect,
    /// Create the scan row `(device_id, running)`.
    CreateScan { device_id: i64 },
    /// Evaluate the rule at this index of the registry.
    Evaluate { rule_index: usize },
    /// Store one result row.
    StoreResult {
        scan_id: i64,
        rule_id: String,
        status: CheckStatus,
        details: Option<String>,
    },
    /// Set the scan's status.
    SetStatus { scan_id: i64, status: ScanStatus },
    /// Stop; nothing more is to be done.
    Finish(WorkerOutcome),
}

/// A write a worker has issued to the store.
pub enum StoreWrite {
    Scan(i64),
    Result(Seq<char>),
    Status(ScanStatus),
}

/// The spec-level form of an event: strings as character sequences.
pub enum EventView {
    Connected,
    ConnectFailed(Seq<char>),
    ScanCreated(i64),
    RuleEvaluated(Result<(CheckStatus, Option<Seq<char>>), Seq<char>>),
    ResultStored,
    StatusStored,
    StoreFailed(Seq<char>),
    Cancelled,
}

/// The spec-level form of an action: strings as character sequences.
pub enum ActionView {
    Connect,
    CreateScan(i64),
    Evaluate(nat),
    StoreResult(i64, Seq<char>, CheckStatus, Option<Seq<char>>),
    SetStatus(i64, ScanStatus),
    Finish(OutcomeKind, Seq<char>),
}

/// The abstract state of a worker.
pub struct WorkerState {
    pub device_id: i64,
    pub rule_ids: Seq<Seq<char>>,
    pub phase: WorkerPhase,
    pub scan_id: i64,
    pub next: nat,
    pub target: ScanStatus,
    pub kind: OutcomeKind,
    pub message: Seq<char>,
    /// Every store write issued so far, in order.
    pub log: Seq<StoreWrite>,
}

impl View for WorkerEvent {
    type V = EventView;

    open spec fn view(&self) -> EventView {
        match self {
            WorkerEvent::Connected => EventView::Connected,
            WorkerEvent::ConnectFailed(m) => EventView::ConnectFailed(m@),
            WorkerEvent::ScanCreated(id) => EventView::ScanCreated(*id),
            WorkerEvent::RuleEvaluated(o) => EventView::RuleEvaluated(outcome_view(*o)),
            WorkerEvent::ResultStored => EventView::ResultStored,
            WorkerEvent::StatusStored => EventView::StatusStored,
            WorkerEvent::StoreFailed(m) => EventView::StoreFailed(m@),
            WorkerEvent::Cancelled => EventView::Cancelled,
        }
    }
}

impl View for WorkerAction {
    type V = ActionView;

    open spec fn view(&self) -> ActionView {
        match self {
            WorkerAction::Connect => ActionView::Connect,
            WorkerAction::CreateScan { device_id } => ActionView::CreateScan(*device_id),
            WorkerAction::Evaluate { rule_index } => ActionView::Evaluate(*rule_index as nat),
            WorkerAction::StoreResult { scan_id, rule_id, status, details } => ActionView::StoreResult(
                *scan_id,
                rule_id@,
                *status,
                opt_view(*details),
            ),
            WorkerAction::SetStatus { scan_id, status } => ActionView::SetStatus(*scan_id, *status),
            WorkerAction::Finish(o) => match o {
                WorkerOutcome::Completed => ActionView::Finish(OutcomeKind::Completed, Seq::empty()),
                WorkerOutcome::ConnectFailed(m) => ActionView::Finish(OutcomeKind::ConnectFailed, m@),
                WorkerOutcome::Failed(m) => ActionView::Finish(OutcomeKind::Failed, m@),
                WorkerOutcome::Cancelled => ActionView::Finish(OutcomeKind::Cancelled, Seq::empty()),
            },
        }
    }
}

/// The diagnostic for an event that does not fit the worker's phase.
pub open spec fn unexpected_message() -> Seq<char> {
    "unexpected event"@
}

/// Result writes for `ids`, in order.
pub open spec fn result_writes(ids: Seq<Seq<char>>) -> Seq<StoreWrite> {
    ids.map_values(|id: Seq<char>| StoreWrite::Result(id))
}

/// The writes of a scan of device `d` over rules `ids` that ran to its end:
/// one scan row, one result per rule in registry order, then `completed`.
pub open spec fn completed_log(d: i64, ids: Seq<Seq<char>>) -> Seq<StoreWrite> {
    seq![StoreWrite::Scan(d)] + result_writes(ids) + seq![StoreWrite::Status(ScanStatus::Completed)]
}

/// The state in which a worker for device `d` over `ids` starts.
pub open spec fn initial(d: i64, ids: Seq<Seq<char>>) -> WorkerState {
    WorkerState {
        device_id: d,
        rule_ids: ids,
        phase: WorkerPhase::Connecting,
        scan_id: 0,
        next: 0,
        target: ScanStatus::Running,
        kind: OutcomeKind::Completed,
        message: Seq::empty(),
        log: Seq::empty(),
    }
}

/// Ends the worker at once, with no further write.
pub open spec fn stop(s: WorkerState, kind: OutcomeKind, msg: Seq<char>) -> (WorkerState, ActionView) {
    (WorkerState { phase: WorkerPhase::Done, kind, message: msg, ..s }, ActionView::Finish(kind, msg))
}

/// Closes the scan as failed (best effort), remembering why.
pub open spec fn close_failed(s: WorkerState, kind: OutcomeKind, msg: Seq<char>) -> (
    WorkerState,
    ActionView,
) {
    (
        WorkerState {
            phase: WorkerPhase::Closing,
            target: ScanStatus::Failed,
            kind,
            message: msg,
            log: s.log.push(StoreWrite::Status(ScanStatus::Failed)),
            ..s
        },
        ActionView::SetStatus(s.scan_id, ScanStatus::Failed),
    )
}

/// Closes the scan as completed.
pub open spec fn close_completed(s: WorkerState) -> (WorkerState, ActionView) {
    (
        WorkerState {
            phase: WorkerPhase::Closing,
            target: ScanStatus::Completed,
            kind: OutcomeKind::Completed,
            message: Seq::empty(),
            log: s.log.push(StoreWrite::Status(ScanStatus::Completed)),
            ..s
        },
        ActionView::SetStatus(s.scan_id, ScanStatus::Completed),
    )
}

/// Asks for the rule at index `i`.
pub open spec fn evaluate(s: WorkerState, i: nat) -> (WorkerState, ActionView) {
    (WorkerState { phase: WorkerPhase::Evaluating, next: i, ..s }, ActionView::Evaluate(i))
}

/// The worker's transition: the next state and the action asked for.
pub open spec fn step_spec(s: WorkerState, e: EventView) -> (WorkerState, ActionView) {
    match s.phase {
        WorkerPhase::Connecting => match e {
            EventView::Connected => (
                WorkerState {
                    phase: WorkerPhase::CreatingScan,
                    log: s.log.push(StoreWrite::Scan(s.device_id)),
                    ..s
                },
                ActionView::CreateScan(s.device_id),
            ),
            EventView::ConnectFailed(m) => stop(s, OutcomeKind::ConnectFailed, m),
            EventView::Cancelled => stop(s, OutcomeKind::Cancelled, Seq::empty()),
            _ => stop(s, OutcomeKind::Failed, unexpected_message()),
        },
        WorkerPhase::CreatingScan => match e {
            EventView::ScanCreated(id) => {
                let t = WorkerState { scan_id: id, ..s };
                if s.rule_ids.len() == 0 {
                    close_completed(t)
                } else {
                    evaluate(t, 0)
                }
            },
            EventView::StoreFailed(m) => stop(s, OutcomeKind::Failed, m),
            EventView::Cancelled => stop(s, OutcomeKind::Cancelled, Seq::empty()),
            _ => stop(s, OutcomeKind::Failed, unexpected_message()),
        },
        WorkerPhase::Evaluating => match e {
            EventView::RuleEvaluated(o) => {
                let row = row_for(o);
                let id = s.rule_ids[s.next as int];
                (
                    WorkerState {
                        phase: WorkerPhase::Storing,
                        log: s.log.push(StoreWrite::Result(id)),
                        ..s
                    },
                    ActionView::StoreResult(s.scan_id, id, row.0, row.1),
                )
            },
            EventView::StoreFailed(m) => close_failed(s, OutcomeKind::Failed, m),
            EventView::Cancelled => close_failed(s, OutcomeKind::Cancelled, Seq::empty()),
            _ => close_failed(s, OutcomeKind::Failed, unexpected_message()),
        },
        WorkerPhase::Storing => match e {
            EventView::ResultStored => {
                if s.next + 1 < s.rule_ids.len() {
                    evaluate(s, s.next + 1)
                } else {
                    close_completed(WorkerState { next: s.next + 1, ..s })
                }
            },
            EventView::StoreFailed(m) => close_failed(s, OutcomeKind::Failed, m),
            EventView::Cancelled => close_failed(s, OutcomeKind::Cancelled, Seq::empty()),
            _ => close_failed(s, OutcomeKind::Failed, unexpected_message()),
        },
        WorkerPhase::Closing => match e {
            EventView::StatusStored => stop(s, s.kind, s.message),
            EventView::StoreFailed(m) => if s.target == ScanStatus::Completed {
                stop(s, OutcomeKind::Failed, m)
            } else {
                stop(s, s.kind, s.message)
            },
            _ => if s.target == ScanStatus::Completed {
                stop(s, OutcomeKind::Failed, unexpected_message())
            } else {
                stop(s, s.kind, s.message)
            },
        },
        WorkerPhase::Done => stop(s, s.kind, s.message),
    }
}

/// The scan's status is written at most once, as the last write, and only
/// as a terminal status: the store sees `running -> completed` or
/// `running -> failed`, nothing else.
pub open spec fn status_written_last(log: Seq<StoreWrite>) -> bool {
    forall|i: int|
        0 <= i < log.len() && (#[trigger] log[i]) is Status ==> i == log.len() - 1 && (log[i]->Status_0
            == ScanStatus::Completed || log[i]->Status_0 == ScanStatus::Failed)
}

/// The invariant of a worker's state: the writes issued so far are a
/// prefix of a well-ordered scan, fixed by the phase.
pub open spec fn wf(s: WorkerState) -> bool {
    let head = seq![StoreWrite::Scan(s.device_id)];
    &&& s.next <= s.rule_ids.len()
    &&& status_written_last(s.log)
    &&& (s.kind == OutcomeKind::Completed || s.kind == OutcomeKind::Cancelled ==> s.message
        == Seq::<char>::empty())
    &&& (s.phase == WorkerPhase::Connecting ==> s.log == Seq::<StoreWrite>::empty())
    &&& (s.phase == WorkerPhase::CreatingScan ==> s.log == head)
    &&& (s.phase == WorkerPhase::Evaluating ==> s.next < s.rule_ids.len() && s.log == head
        + result_writes(s.rule_ids.take(s.next as int)))
    &&& (s.phase == WorkerPhase::Storing ==> s.next < s.rule_ids.len() && s.log == head
        + result_writes(s.rule_ids.take(s.next + 1 as int)))
    &&& (s.phase == WorkerPhase::Closing ==> (s.target == ScanStatus::Completed
        <==> s.kind == OutcomeKind::Completed))
    &&& (s.phase == WorkerPhase::Closing && s.target == ScanStatus::Completed ==> s.log
        == completed_log(s.device_id, s.rule_ids))
    &&& (s.phase == WorkerPhase::Closing ==> s.kind != OutcomeKind::ConnectFailed)
    &&& (s.phase == WorkerPhase::Done && s.kind == OutcomeKind::Completed ==> s.log
        == completed_log(s.device_id, s.rule_ids))
    &&& (s.phase == WorkerPhase::Done && s.kind == OutcomeKind::ConnectFailed ==> s.log
        == Seq::<StoreWrite>::empty())
}

proof fn lemma_result_writes_step(ids: Seq<Seq<char>>, k: int)
    requires
        0 <= k < ids.len(),
    ensures
        result_writes(ids.take(k + 1)) == result_writes(ids.take(k)).push(StoreWrite::Result(ids[k])),
        k + 1 == ids.len() ==> ids.take(k + 1) == ids,
{
    assert(result_writes(ids.take(k + 1)) =~= result_writes(ids.take(k)).push(
        StoreWrite::Result(ids[k]),
    ));
    if k + 1 == ids.len() {
        assert(ids.take(k + 1) =~= ids);
    }
}

/// Every transition keeps the invariant.
pub proof fn lemma_step_wf(s: WorkerState, e: EventView)
    requires
        wf(s),
    ensures
        wf(step_spec(s, e).0),
        step_spec(s, e).0.device_id == s.device_id,
        step_spec(s, e).0.rule_ids == s.rule_ids,
{
    let head = seq![StoreWrite::Scan(s.device_id)];
    match s.phase {
        WorkerPhase::CreatingScan => {
            assert(s.rule_ids.take(0) =~= Seq::<Seq<char>>::empty());
            assert(result_writes(Seq::<Seq<char>>::empty()) =~= Seq::<StoreWrite>::empty());
            assert(head + result_writes(s.rule_ids.take(0)) =~= head);
            if s.rule_ids.len() == 0 {
                assert(s.rule_ids =~= Seq::<Seq<char>>::empty());
                assert(completed_log(s.device_id, s.rule_ids) =~= head.push(
                    StoreWrite::Status(ScanStatus::Completed),
                ));
            }
        },
        WorkerPhase::Evaluating => {
            lemma_result_writes_step(s.rule_ids, s.next as int);
            assert(head + result_writes(s.rule_ids.take(s.next + 1 as int)) =~= (head + result_writes(
                s.rule_ids.take(s.next as int),
            )).push(StoreWrite::Result(s.rule_ids[s.next as int])));
        },
        WorkerPhase::Storing => {
            lemma_result_writes_step(s.rule_ids, s.next as int);
            if s.next + 1 >= s.rule_ids.len() {
                assert(completed_log(s.device_id, s.rule_ids) =~= s.log.push(
                    StoreWrite::Status(ScanStatus::Completed),
                ));
            }
        },
        _ => {},
    }
}

/// The state reached from `s` through `events`.
pub open spec fn run(s: WorkerState, events: Seq<EventView>) -> WorkerState
    decreases events.len(),
{
    if events.len() == 0 {
        s
    } else {
        step_spec(run(s, events.drop_last()), events.last()).0
    }
}

/// Whatever the environment reports, a worker keeps its invariant.
pub proof fn lemma_run_wf(s: WorkerState, events: Seq<EventView>)
    requires
        wf(s),
    ensures
        wf(run(s, events)),
        run(s, events).device_id == s.device_id,
        run(s, events).rule_ids == s.rule_ids,
    decreases events.len(),
{
    if events.len() > 0 {
        lemma_run_wf(s, events.drop_last());
        lemma_step_wf(run(s, events.drop_last()), events.last());
    }
}

/// A worker that finished as completed wrote exactly one scan row, then one
/// result per rule in registry order, then set the scan to completed; a
/// worker that could not connect wrote nothing.
pub proof fn lemma_scan_trail(d: i64, ids: Seq<Seq<char>>, events: Seq<EventView>)
    ensures
        run(initial(d, ids), events).phase == WorkerPhase::Done && run(initial(d, ids), events).kind
            == OutcomeKind::Completed ==> run(initial(d, ids), events).log == completed_log(d, ids),
        run(initial(d, ids), events).phase == WorkerPhase::Done && run(initial(d, ids), events).kind
            == OutcomeKind::ConnectFailed ==> run(initial(d, ids), events).log
            == Seq::<StoreWrite>::empty(),
        status_written_last(run(initial(d, ids), events).log),
{
    lemma_run_wf(initial(d, ids), events);
}

/// The events of evaluating and storing one rule per outcome, in order.
pub open spec fn rule_events(outcomes: Seq<Result<(CheckStatus, Option<Seq<char>>), Seq<char>>>) -> Seq<
    EventView,
>
    decreases outcomes.len(),
{
    if outcomes.len() == 0 {
        Seq::empty()
    } else {
        rule_events(outcomes.drop_last()) + seq![
            EventView::RuleEvaluated(outcomes.last()),
            EventView::ResultStored,
        ]
    }
}

/// The events of a scan in which the device is reached and every store
/// call succeeds; each rule's evaluation ends in the given outcome, which
/// may be a failure of the script.
pub open spec fn clean_events(
    scan_id: i64,
    outcomes: Seq<Result<(CheckStatus, Option<Seq<char>>), Seq<char>>>,
) -> Seq<EventView> {
    seq![EventView::Connected, EventView::ScanCreated(scan_id)] + rule_events(outcomes) + seq![
        EventView::StatusStored,
    ]
}

proof fn lemma_run_push(s: WorkerState, es: Seq<EventView>, e: EventView)
    ensures
        run(s, es.push(e)) == step_spec(run(s, es), e).0,
{
    assert(es.push(e).drop_last() =~= es);
}

proof fn lemma_run_two(s: WorkerState, e1: EventView, e2: EventView)
    ensures
        run(s, seq![e1, e2]) == step_spec(step_spec(s, e1).0, e2).0,
{
    lemma_run_push(s, Seq::empty(), e1);
    assert(Seq::<EventView>::empty().push(e1) =~= seq![e1]);
    lemma_run_push(s, seq![e1], e2);
    assert(seq![e1].push(e2) =~= seq![e1, e2]);
}

proof fn lemma_run_append(s: WorkerState, a: Seq<EventView>, b: Seq<EventView>)
    ensures
        run(s, a + b) == run(run(s, a), b),
    decreases b.len(),
{
    if b.len() == 0 {
        assert(a + b =~= a);
    } else {
        lemma_run_append(s, a, b.drop_last());
        assert((a + b).drop_last() =~= a + b.drop_last());
        assert((a + b).last() == b.last());
    }
}

proof fn lemma_rule_events_progress(
    s: WorkerState,
    outcomes: Seq<Result<(CheckStatus, Option<Seq<char>>), Seq<char>>>,
    k: nat,
)
    requires
        s.phase == WorkerPhase::Evaluating,
        s.next == 0,
        outcomes.len() == s.rule_ids.len(),
        0 < k <= outcomes.len(),
    ensures
        k < outcomes.len() ==> run(s, rule_events(outcomes.take(k as int))).phase
            == WorkerPhase::Evaluating && run(s, rule_events(outcomes.take(k as int))).next == k,
        k == outcomes.len() ==> run(s, rule_events(outcomes.take(k as int))).phase
            == WorkerPhase::Closing && run(s, rule_events(outcomes.take(k as int))).kind
            == OutcomeKind::Completed,
        run(s, rule_events(outcomes.take(k as int))).rule_ids == s.rule_ids,
    decreases k,
{
    let pre = outcomes.take(k - 1);
    let cur = outcomes.take(k as int);
    assert(cur.drop_last() =~= pre);
    assert(cur.last() == outcomes[k - 1]);
    let pair = seq![EventView::RuleEvaluated(outcomes[k - 1]), EventView::ResultStored];
    assert(rule_events(cur) == rule_events(pre) + pair);
    lemma_run_append(s, rule_events(pre), pair);
    let m = run(s, rule_events(pre));
    if k == 1 {
        assert(pre =~= Seq::<Result<(CheckStatus, Option<Seq<char>>), Seq<char>>>::empty());
        assert(rule_events(pre) =~= Seq::<EventView>::empty());
    } else {
        lemma_rule_events_progress(s, outcomes, (k - 1) as nat);
    }
    assert(m.phase == WorkerPhase::Evaluating && m.next == k - 1 && m.rule_ids == s.rule_ids);
    lemma_run_two(m, EventView::RuleEvaluated(outcomes[k - 1]), EventView::ResultStored);
}

/// A worker whose device is reachable and whose store calls all succeed
/// finishes as completed, having written one scan row, one result per rule
/// in registry order, and the completed status, whatever the scripts did.
pub proof fn lemma_clean_scan_completes(
    d: i64,
    ids: Seq<Seq<char>>,
    scan_id: i64,
    outcomes: Seq<Result<(CheckStatus, Option<Seq<char>>), Seq<char>>>,
)
    requires
        outcomes.len() == ids.len(),
    ensures
        run(initial(d, ids), clean_events(scan_id, outcomes)).phase == WorkerPhase::Done,
        run(initial(d, ids), clean_events(scan_id, outcomes)).kind == OutcomeKind::Completed,
        run(initial(d, ids), clean_events(scan_id, outcomes)).log == completed_log(d, ids),
{
    let s0 = initial(d, ids);
    let open = seq![EventView::Connected, EventView::ScanCreated(scan_id)];
    let close = seq![EventView::StatusStored];
    let body = rule_events(outcomes);
    assert(clean_events(scan_id, outcomes) == open + body + close);
    lemma_run_append(s0, open + body, close);
    lemma_run_append(s0, open, body);
    lemma_run_two(s0, EventView::Connected, EventView::ScanCreated(scan_id));
    let s1 = run(s0, open);
    lemma_run_push(run(s0, open + body), Seq::empty(), EventView::StatusStored);
    assert(Seq::<EventView>::empty().push(EventView::StatusStored) =~= close);
    if ids.len() == 0 {
        assert(outcomes =~= Seq::<Result<(CheckStatus, Option<Seq<char>>), Seq<char>>>::empty());
        assert(s1.phase == WorkerPhase::Closing && s1.kind == OutcomeKind::Completed);
    } else {
        assert(s1.phase == WorkerPhase::Evaluating && s1.next == 0 && s1.rule_ids == ids);
        lemma_rule_events_progress(s1, outcomes, outcomes.len());
        assert(outcomes.take(outcomes.len() as int) =~= outcomes);
    }
    lemma_run_wf(s0, clean_events(scan_id, outcomes));
}

/// One scan worker: the decisions of the scan of one device, driven by
/// the events the environment reports.
pub struct ScanWorker {
    device_id: i64,
    rule_ids: Vec<String>,
    phase: WorkerPhase,
    scan_id: i64,
    next: usize,
    target: ScanStatus,
    kind: OutcomeKind,
    message: String,
    log: Ghost<Seq<StoreWrite>>,
}

/// The views of a list of strings.
pub open spec fn views(v: Seq<String>) -> Seq<Seq<char>> {
    v.map_values(|s: String| s@)
}

impl View for ScanWorker {
    type V = WorkerState;

    closed spec fn view(&self) -> WorkerState {
        WorkerState {
            device_id: self.device_id,
            rule_ids: views(self.rule_ids@),
            phase: self.phase,
            scan_id: self.scan_id,
            next: self.next as nat,
            target: self.target,
            kind: self.kind,
            message: self.message@,
            log: self.log@,
        }
    }
}


impl ScanWorker {
    /// A worker for device `device_id` over the rules of `registry`, in
    /// registry order, and the first action it asks for.
    pub fn new(device_id: i64, registry: &RuleRegistry) -> (r: (ScanWorker, WorkerAction))
        ensures
            r.0@ == initial(device_id, crate::registry::ids_of(registry@)),
            wf(r.0@),
            r.1@ == ActionView::Connect,
    {
        let ids = registry.ids();
        assert(views(ids@) =~= crate::registry::ids_of(registry@));
        let w = ScanWorker {
            device_id,
            rule_ids: ids,
            phase: WorkerPhase::Connecting,
            scan_id: 0,
            next: 0,
            target: ScanStatus::Running,
            kind: OutcomeKind::Completed,
            message: String::new(),
            log: Ghost(Seq::empty()),
        };
        assert(w@.message =~= Seq::<char>::empty());
        (w, WorkerAction::Connect)
    }

    /// The phase the worker is in.
    pub fn phase(&self) -> (r: WorkerPhase)
        ensures
            r == self@.phase,
    {
        self.phase
    }

    /// Whether the worker has finished.
    pub fn is_done(&self) -> (r: bool)
        ensures
            r == (self@.phase == WorkerPhase::Done),
    {
        self.phase == WorkerPhase::Done
    }

    fn outcome(kind: OutcomeKind, msg: String) -> (r: WorkerOutcome)
        requires
            kind == OutcomeKind::Completed || kind == OutcomeKind::Cancelled ==> msg@
                == Seq::<char>::empty(),
        ensures
            WorkerAction::Finish(r)@ == ActionView::Finish(kind, msg@),
    {
        match kind {
            OutcomeKind::Completed => WorkerOutcome::Completed,
            OutcomeKind::ConnectFailed => WorkerOutcome::ConnectFailed(msg),
            OutcomeKind::Failed => WorkerOutcome::Failed(msg),
            OutcomeKind::Cancelled => WorkerOutcome::Cancelled,
        }
    }

    fn stop(&mut self, kind: OutcomeKind, msg: String) -> (r: WorkerAction)
        requires
            kind == OutcomeKind::Completed || kind == OutcomeKind::Cancelled ==> msg@
                == Seq::<char>::empty(),
        ensures
            (final(self)@, r@) == stop(old(self)@, kind, msg@),
    {
        self.phase = WorkerPhase::Done;
        self.kind = kind;
        self.message = msg.clone();
        WorkerAction::Finish(Self::outcome(kind, msg))
    }

    fn close_failed(&mut self, kind: OutcomeKind, msg: String) -> (r: WorkerAction)
        ensures
            (final(self)@, r@) == close_failed(old(self)@, kind, msg@),
    {
        self.phase = WorkerPhase::Closing;
        self.target = ScanStatus::Failed;
        self.kind = kind;
        self.message = msg;
        self.log = Ghost(self.log@.push(StoreWrite::Status(ScanStatus::Failed)));
        WorkerAction::SetStatus { scan_id: self.scan_id, status: ScanStatus::Failed }
    }

    fn close_completed(&mut self) -> (r: WorkerAction)
        ensures
            (final(self)@, r@) == close_completed(old(self)@),
    {
        self.phase = WorkerPhase::Closing;
        self.target = ScanStatus::Completed;
        self.kind = OutcomeKind::Completed;
        self.message = String::new();
        self.log = Ghost(self.log@.push(StoreWrite::Status(ScanStatus::Completed)));
        assert(self.message@ =~= Seq::<char>::empty());
        WorkerAction::SetStatus { scan_id: self.scan_id, status: ScanStatus::Completed }
    }

    /// Takes in what the environment reports and decides what to do next.
    pub fn step(&mut self, event: WorkerEvent) -> (r: WorkerAction)
        requires
            wf(old(self)@),
        ensures
            (final(self)@, r@) == step_spec(old(self)@, event@),
            wf(final(self)@),
    {
        proof {
            lemma_step_wf(self@, event@);
        }
        assert(self@.rule_ids.len() == self.rule_ids@.len());
        let unexpected = String::from_str("unexpected event");
        match self.phase {
            WorkerPhase::Connecting => match event {
                WorkerEvent::Connected => {
                    self.phase = WorkerPhase::CreatingScan;
                    self.log = Ghost(self.log@.push(StoreWrite::Scan(self.device_id)));
                    WorkerAction::CreateScan { device_id: self.device_id }
                },
                WorkerEvent::ConnectFailed(m) => self.stop(OutcomeKind::ConnectFailed, m),
                WorkerEvent::Cancelled => self.stop(OutcomeKind::Cancelled, String::new()),
                _ => self.stop(OutcomeKind::Failed, unexpected),
            },
            WorkerPhase::CreatingScan => match event {
                WorkerEvent::ScanCreated(id) => {
                    self.scan_id = id;
                    if self.rule_ids.len() == 0 {
                        self.close_completed()
                    } else {
                        self.phase = WorkerPhase::Evaluating;
                        self.next = 0;
                        WorkerAction::Evaluate { rule_index: 0 }
                    }
                },
                WorkerEvent::StoreFailed(m) => self.stop(OutcomeKind::Failed, m),
                WorkerEvent::Cancelled => self.stop(OutcomeKind::Cancelled, String::new()),
                _ => self.stop(OutcomeKind::Failed, unexpected),
            },
            WorkerPhase::Evaluating => match event {
                WorkerEvent::RuleEvaluated(o) => {
                    let row = scan_row(o);
                    let id = self.rule_ids[self.next].clone();
                    self.phase = WorkerPhase::Storing;
                    self.log = Ghost(self.log@.push(StoreWrite::Result(id@)));
                    WorkerAction::StoreResult {
                        scan_id: self.scan_id,
                        rule_id: id,
                        status: row.0,
                        details: row.1,
                    }
                },
                WorkerEvent::StoreFailed(m) => self.close_failed(OutcomeKind::Failed, m),
                WorkerEvent::Cancelled => self.close_failed(OutcomeKind::Cancelled, String::new()),
                _ => self.close_failed(OutcomeKind::Failed, unexpected),
            },
            WorkerPhase::Storing => match event {
                WorkerEvent::ResultStored => {
                    let n: usize = self.rule_ids.len();
                    if self.next + 1 < n {
                        self.phase = WorkerPhase::Evaluating;
                        self.next = self.next + 1;
                        WorkerAction::Evaluate { rule_index: self.next }
                    } else {
                        self.next = self.next + 1;
                        self.close_completed()
                    }
                },
                WorkerEvent::StoreFailed(m) => self.close_failed(OutcomeKind::Failed, m),
                WorkerEvent::Cancelled => self.close_failed(OutcomeKind::Cancelled, String::new()),
                _ => self.close_failed(OutcomeKind::Failed, unexpected),
            },
            WorkerPhase::Closing => {
                let completing = self.target == ScanStatus::Completed;
                match event {
                    WorkerEvent::StatusStored => {
                        let m = self.message.clone();
                        self.stop(self.kind, m)
                    },
                    WorkerEvent::StoreFailed(m) => if completing {
                        self.stop(OutcomeKind::Failed, m)
                    } else {
                        let m = self.message.clone();
                        self.stop(self.kind, m)
                    },
                    _ => if completing {
                        self.stop(OutcomeKind::Failed, unexpected)
                    } else {
                        let m = self.message.clone();
                        self.stop(self.kind, m)
                    },
                }
            },
            WorkerPhase::Done => {
                let m = self.message.clone();
                self.stop(self.kind, m)
            },
        }
    }
}

} // verus!
