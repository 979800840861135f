use vstd::prelude::*;
use vstd::string::StringExecFns;

verus! {

/// How serious a rule's finding is.
#[derive(Clone, Copy, Debug, PartialEq, Eq, Structural)]
pub enum SeverityLevel {
    Info,
    Low,
    Medium,
    High,
    Critical,
}

/// How a rule's body is evaluated.
#[derive(Clone, Copy, Debug, PartialEq, Eq, Structural)]
pub enum CheckType {
    Lua,
}

/// The outcome of one rule on one device.
#[derive(Clone, Copy, Debug, PartialEq, Eq, Structural)]
pub enum CheckStatus {
    Pass,
    Fail,
    Error,
}

/// The lifecycle state of a scan.
#[derive(Clone, Copy, Debug, PartialEq, Eq, Structural)]
pub enum ScanStatus {
    Pending,
    Running,
    Completed,
    Failed,
}

pub open spec fn severity_token(s: SeverityLevel) -> Seq<char> {
    match s {
        SeverityLevel::Info => "info"@,
        SeverityLevel::Low => "low"@,
        SeverityLevel::Medium => "medium"@,
        SeverityLevel::High => "high"@,
        SeverityLevel::Critical => "critical"@,
    }
}

pub open spec fn check_type_token(c: CheckType) -> Seq<char> {
    match c {
        CheckType::Lua => "lua"@,
    }
}

pub open spec fn check_status_token(c: CheckStatus) -> Seq<char> {
    match c {
        CheckStatus::Pass => "pass"@,
        CheckStatus::Fail => "fail"@,
        CheckStatus::Error => "error"@,
    }
}

pub open spec fn scan_status_token(s: ScanStatus) -> Seq<char> {
    match s {
        ScanStatus::Pending => "pending"@,
        ScanStatus::Running => "running"@,
        ScanStatus::Completed => "completed"@,
        ScanStatus::Failed => "failed"@,
    }
}

/// A scan status from which no transition leads out.
pub open spec fn is_terminal(s: ScanStatus) -> bool {
    s == ScanStatus::Completed || s == ScanStatus::Failed
}

/// The forward-only lifecycle: `pending -> running -> {completed, failed}`.
pub open spec fn transition_allowed(from: ScanStatus, to: ScanStatus) -> bool {
    match from {
        ScanStatus::Pending => to == ScanStatus::Running,
        ScanStatus::Running => is_terminal(to),
        _ => false,
    }
}

/// Two token literals are distinct as character sequences.
proof fn lemma_tokens_distinct()
    ensures
        "info"@ != "low"@, "info"@ != "medium"@, "info"@ != "high"@, "info"@ != "critical"@,
        "low"@ != "medium"@, "low"@ != "high"@, "low"@ != "critical"@,
        "medium"@ != "high"@, "medium"@ != "critical"@, "high"@ != "critical"@,
        "pass"@ != "fail"@, "pass"@ != "error"@, "fail"@ != "error"@,
        "pending"@ != "running"@, "pending"@ != "completed"@, "pending"@ != "failed"@,
        "running"@ != "completed"@, "running"@ != "failed"@, "completed"@ != "failed"@,
{
    reveal_strlit("info");
    reveal_strlit("low");
    reveal_strlit("medium");
    reveal_strlit("high");
    reveal_strlit("critical");
    reveal_strlit("pass");
    reveal_strlit("fail");
    reveal_strlit("error");
    reveal_strlit("pending");
    reveal_strlit("running");
    reveal_strlit("completed");
    reveal_strlit("failed");
    assert("info"@[0] != "low"@[0]);
    assert("info"@[0] != "medium"@[0]);
    assert("info"@[0] != "high"@[0]);
    assert("info"@[0] != "critical"@[0]);
    assert("low"@[0] != "medium"@[0]);
    assert("low"@[0] != "high"@[0]);
    assert("low"@[0] != "critical"@[0]);
    assert("medium"@[0] != "high"@[0]);
    assert("medium"@[0] != "critical"@[0]);
    assert("high"@[0] != "critical"@[0]);
    assert("pass"@[0] != "fail"@[0]);
    assert("pass"@[0] != "error"@[0]);
    assert("fail"@[0] != "error"@[0]);
    assert("pending"@[0] != "running"@[0]);
    assert("pending"@.len() != "completed"@.len());
    assert("pending"@[0] != "failed"@[0]);
    assert("running"@[0] != "completed"@[0]);
    assert("running"@[0] != "failed"@[0]);
    assert("completed"@[0] != "failed"@[0]);
}

/// Equality of a string with a literal, decided character by character.
fn str_eq(a: &str, b: &str) -> (r: bool)
    ensures
        r == (a@ == b@),
{
    let n: usize = a.unicode_len();
    if n != b.unicode_len() {
        return false;
    }
    let mut i: usize = 0;
    while i < n
        invariant
            n == a@.len(),
            n == b@.len(),
            i <= n,
            forall|j: int| 0 <= j < i ==> a@[j] == b@[j],
        decreases n - i,
    {
        if a.get_char(i) != b.get_char(i) {
            return false;
        }
        i = i + 1;
    }
    assert(a@ =~= b@);
    true
}

impl SeverityLevel {
    /// The lowercase wire token of this severity.
    pub fn as_token(&self) -> (r: String)
        ensures
            r@ == severity_token(*self),
    {
        match self {
            SeverityLevel::Info => String::from_str("info"),
            SeverityLevel::Low => String::from_str("low"),
            SeverityLevel::Medium => String::from_str("medium"),
            SeverityLevel::High => String::from_str("high"),
            SeverityLevel::Critical => String::from_str("critical"),
        }
    }

    /// The severity whose wire token is `s`, if any.
    pub fn from_token(s: &str) -> (r: Option<SeverityLevel>)
        ensures
            match r {
                Some(v) => severity_token(v) == s@,
                None => forall|v: SeverityLevel| severity_token(v) != s@,
            },
    {
        proof {
            lemma_tokens_distinct();
        }
        if str_eq(s, "info") {
            Some(SeverityLevel::Info)
        } else if str_eq(s, "low") {
            Some(SeverityLevel::Low)
        } else if str_eq(s, "medium") {
            Some(SeverityLevel::Medium)
        } else if str_eq(s, "high") {
            Some(SeverityLevel::High)
        } else if str_eq(s, "critical") {
            Some(SeverityLevel::Critical)
        } else {
            assert forall|v: SeverityLevel| severity_token(v) != s@ by {
                match v {
                    SeverityLevel::Info => {},
                    SeverityLevel::Low => {},
                    SeverityLevel::Medium => {},
                    SeverityLevel::High => {},
                    SeverityLevel::Critical => {},
                }
            }
            None
        }
    }
}

impl CheckType {
    /// The lowercase wire token of this check type.
    pub fn as_token(&self) -> (r: String)
        ensures
            r@ == check_type_token(*self),
    {
        String::from_str("lua")
    }

    /// The check type whose wire token is `s`, if any.
    pub fn from_token(s: &str) -> (r: Option<CheckType>)
        ensures
            match r {
                Some(v) => check_type_token(v) == s@,
                None => forall|v: CheckType| check_type_token(v) != s@,
            },
    {
        if str_eq(s, "lua") {
            Some(CheckType::Lua)
        } else {
            None
        }
    }
}

impl CheckStatus {
    /// The lowercase wire token of this status.
    pub fn as_token(&self) -> (r: String)
        ensures
            r@ == check_status_token(*self),
    {
        match self {
            CheckStatus::Pass => String::from_str("pass"),
            CheckStatus::Fail => String::from_str("fail"),
            CheckStatus::Error => String::from_str("error"),
        }
    }

    /// The status whose wire token is `s`, if any.
    pub fn from_token(s: &str) -> (r: Option<CheckStatus>)
        ensures
            match r {
                Some(v) => check_status_token(v) == s@,
                None => forall|v: CheckStatus| check_status_token(v) != s@,
            },
    {
        if str_eq(s, "pass") {
            Some(CheckStatus::Pass)
        } else if str_eq(s, "fail") {
            Some(CheckStatus::Fail)
        } else if str_eq(s, "error") {
            Some(CheckStatus::Error)
        } else {
            assert forall|v: CheckStatus| check_status_token(v) != s@ by {
                match v {
                    CheckStatus::Pass => {},
                    CheckStatus::Fail => {},
                    CheckStatus::Error => {},
                }
            }
            None
        }
    }
}

impl ScanStatus {
    /// The lowercase wire token of this status.
    pub fn as_token(&self) -> (r: String)
        ensures
            r@ == scan_status_token(*self),
    {
        match self {
            ScanStatus::Pending => String::from_str("pending"),
            ScanStatus::Running => String::from_str("running"),
            ScanStatus::Completed => String::from_str("completed"),
            ScanStatus::Failed => String::from_str("failed"),
        }
    }

    /// The status whose wire token is `s`, if any.
    pub fn from_token(s: &str) -> (r: Option<ScanStatus>)
        ensures
            match r {
                Some(v) => scan_status_token(v) == s@,
                None => forall|v: ScanStatus| scan_status_token(v) != s@,
            },
    {
        if str_eq(s, "pending") {
            Some(ScanStatus::Pending)
        } else if str_eq(s, "running") {
            Some(ScanStatus::Running)
        } else if str_eq(s, "completed") {
            Some(ScanStatus::Completed)
        } else if str_eq(s, "failed") {
            Some(ScanStatus::Failed)
        } else {
            assert forall|v: ScanStatus| scan_status_token(v) != s@ by {
                match v {
                    ScanStatus::Pending => {},
                    ScanStatus::Running => {},
                    ScanStatus::Completed => {},
                    ScanStatus::Failed => {},
                }
            }
            None
        }
    }

    /// Whether no transition leads out of this status.
    pub fn is_terminal(&self) -> (r: bool)
        ensures
            r == is_terminal(*self),
    {
        match self {
            ScanStatus::Completed | ScanStatus::Failed => true,
            _ => false,
        }
    }

    /// Whether the lifecycle allows moving from this status to `to`.
    pub fn can_move_to(&self, to: ScanStatus) -> (r: bool)
        ensures
            r == transition_allowed(*self, to),
    {
        match self {
            ScanStatus::Pending => to == ScanStatus::Running,
            ScanStatus::Running => to.is_terminal(),
            _ => false,
        }
    }
}

/// Reading back the token of a value gives the value: each enumeration's
/// wire form is one-to-one.
pub proof fn lemma_tokens_round_trip(
    a: SeverityLevel,
    b: SeverityLevel,
    c: CheckStatus,
    d: CheckStatus,
    e: ScanStatus,
    f: ScanStatus,
)
    ensures
        severity_token(a) == severity_token(b) ==> a == b,
        check_status_token(c) == check_status_token(d) ==> c == d,
        scan_status_token(e) == scan_status_token(f) ==> e == f,
{
    lemma_tokens_distinct();
}

/// A terminal scan status never moves again.
pub proof fn lemma_terminal_is_final(from: ScanStatus, to: ScanStatus)
    requires
        is_terminal(from),
    ensures
        !transition_allowed(from, to),
{
}

/// A target host of a scan.
#[derive(Clone, Debug)]
pub struct Device {
    pub id: i64,
    pub address: String,
    pub username: String,
    pub password: String,
}

/// A compliance rule as the store holds it.
#[derive(Clone, Debug)]
pub struct Rule {
    pub id: String,
    pub name: String,
    pub description: Option<String>,
    pub severity: SeverityLevel,
    pub check_type: CheckType,
    pub script_body: String,
}

/// One scan of one device within a pass.
#[derive(Clone, Debug)]
pub struct Scan {
    pub id: i64,
    pub device_id: i64,
    pub status: ScanStatus,
}

impl Scan {
    /// Moves the scan to `to` if the lifecycle allows it; otherwise the
    /// scan is left as it was.
    pub fn set_status(&mut self, to: ScanStatus) -> (r: bool)
        ensures
            r == transition_allowed(old(self).status, to),
            final(self).status == (if r { to } else { old(self).status }),
            final(self).id == old(self).id,
            final(self).device_id == old(self).device_id,
    {
        if self.status.can_move_to(to) {
            self.status = to;
            true
        } else {
            false
        }
    }
}

/// The outcome of one rule within one scan.
#[derive(Clone, Debug)]
pub struct ScanResult {
    pub id: i64,
    pub scan_id: i64,
    pub rule_id: String,
    pub status: CheckStatus,
    pub details: Option<String>,
}

/// The `METADATA` record a rule source declares.
#[derive(Clone, Debug)]
pub struct RuleMetadata {
    pub id: String,
    pub name: String,
    pub description: Option<String>,
    pub severity: SeverityLevel,
}

impl RuleMetadata {
    /// The rule to store for a source with this metadata: keyed by the
    /// declared id, with the whole source as its body.
    pub fn into_rule(self, script_body: String) -> (r: Rule)
        ensures
            r.id@ == self.id@,
            r.name@ == self.name@,
            r.description == self.description,
            r.severity == self.severity,
            r.check_type == CheckType::Lua,
            r.script_body@ == script_body@,
    {
        Rule {
            id: self.id,
            name: self.name,
            description: self.description,
            severity: self.severity,
            check_type: CheckType::Lua,
            script_body,
        }
    }
}

} // verus!
