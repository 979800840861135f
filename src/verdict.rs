use vstd::prelude::*;
use vstd::string::StringExecFns;
use crate::models::{CheckStatus, check_status_token};

verus! {

/// The text every error row's details start with.
pub open spec fn failure_prefix() -> Seq<char> {
    "Rule execution failed: "@
}

/// The details of an error row for the diagnostic `diag`.
pub open spec fn failure_details(diag: Seq<char>) -> Seq<char> {
    failure_prefix() + diag
}

/// The verdict a rule script returns: a status and optional details.
#[derive(Clone, Debug)]
pub struct CheckResult {
    pub status: CheckStatus,
    pub details: Option<String>,
}

/// The view of an optional string.
pub open spec fn opt_view(o: Option<String>) -> Option<Seq<char>> {
    match o {
        Some(s) => Some(s@),
        None => None,
    }
}

/// The diagnostic for a verdict record whose status is not a known token.
pub open spec fn unknown_status_message(token: Seq<char>) -> Seq<char> {
    "unknown verdict status: "@ + token
}

/// The row `(status, details)` that records an evaluation outcome: a
/// verdict of pass or fail is kept as the rule gave it; a verdict of
/// error, or a failure to evaluate, becomes an error row whose details
/// carry the diagnostic.
pub open spec fn row_for(outcome: Result<(CheckStatus, Option<Seq<char>>), Seq<char>>) -> (
    CheckStatus,
    Option<Seq<char>>,
) {
    match outcome {
        Ok((CheckStatus::Error, d)) => (
            CheckStatus::Error,
            Some(failure_details(
                match d {
                    Some(t) => t,
                    None => Seq::empty(),
                },
            )),
        ),
        Ok((s, d)) => (s, d),
        Err(diag) => (CheckStatus::Error, Some(failure_details(diag))),
    }
}

/// The spec-level form of an evaluation outcome.
pub open spec fn outcome_view(o: Result<CheckResult, String>) -> Result<
    (CheckStatus, Option<Seq<char>>),
    Seq<char>,
> {
    match o {
        Ok(c) => Ok((c.status, opt_view(c.details))),
        Err(e) => Err(e@),
    }
}

impl CheckResult {
    /// Reads the verdict record `{status, details?}` a script returned.
    /// A status that is not one of the lowercase tokens makes the record
    /// malformed.
    pub fn from_record(status: &str, details: Option<String>) -> (r: Result<CheckResult, String>)
        ensures
            match r {
                Ok(c) => check_status_token(c.status) == status@ && opt_view(c.details) == opt_view(
                    details,
                ),
                Err(e) => (forall|v: CheckStatus| check_status_token(v) != status@) && e@
                    == unknown_status_message(status@),
            },
    {
        match CheckStatus::from_token(status) {
            Some(s) => Ok(CheckResult { status: s, details }),
            None => {
                let msg = String::from_str("unknown verdict status: ").concat(status);
                Err(msg)
            },
        }
    }
}

/// The error row for a rule that could not be evaluated.
pub fn failure_row(diagnostic: &str) -> (r: (CheckStatus, Option<String>))
    ensures
        r.0 == CheckStatus::Error,
        opt_view(r.1) == Some(failure_details(diagnostic@)),
{
    let d = String::from_str("Rule execution failed: ").concat(diagnostic);
    (CheckStatus::Error, Some(d))
}

/// The row that records the outcome of evaluating one rule.
pub fn scan_row(outcome: Result<CheckResult, String>) -> (r: (CheckStatus, Option<String>))
    ensures
        (r.0, opt_view(r.1)) == row_for(outcome_view(outcome)),
        r.0 != CheckStatus::Error ==> opt_view(r.1) == (match outcome {
            Ok(c) => opt_view(c.details),
            Err(_) => None,
        }),
        r.0 == CheckStatus::Error ==> (r.1 is Some && failure_prefix().is_prefix_of(
            r.1->Some_0@,
        )),
{
    match outcome {
        Ok(c) => {
            match c.status {
                CheckStatus::Error => {
                    let r = match &c.details {
                        Some(d) => failure_row(d.as_str()),
                        None => failure_row(""),
                    };
                    proof {
                        reveal_strlit("");
                        assert(failure_prefix().is_prefix_of(r.1->Some_0@)) by {
                            assert(r.1->Some_0@.subrange(0, failure_prefix().len() as int)
                                =~= failure_prefix());
                        }
                    }
                    r
                },
                _ => (c.status, c.details),
            }
        },
        Err(e) => {
            let r = failure_row(e.as_str());
            assert(r.1->Some_0@.subrange(0, failure_prefix().len() as int) =~= failure_prefix());
            r
        },
    }
}

} // verus!
