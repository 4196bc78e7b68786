//! The result of executing one test case, and the composite messages the
//! orchestrator reports when a test does not pass.

use vstd::prelude::*;
use vstd::string::StringExecFns;

use crate::text::dec_digits;

verus! {

/// The outcome of one test-case execution.
///
/// `Fail` carries the diagnostic decoded from the test's own status
/// protocol; `HarnessError` carries the description of a harness-level
/// error: a construction failure, a stepping-engine crash or timeout, a
/// corrupted status record, or a fault captured at the isolation boundary.
pub enum Outcome {
    Pass,
    Fail(String),
    HarnessError(String),
}

impl Outcome {
    /// The diagnostic or cause carried by the outcome; empty for `Pass`.
    pub open spec fn spec_message(&self) -> Seq<char> {
        match self {
            Outcome::Pass => Seq::<char>::empty(),
            Outcome::Fail(diagnostic) => diagnostic@,
            Outcome::HarnessError(cause) => cause@,
        }
    }

    /// Returns a copy of the message carried by the outcome.
    pub fn message(&self) -> (result: String)
        ensures
            result@ == self.spec_message(),
    {
        match self {
            Outcome::Pass => String::new(),
            Outcome::Fail(diagnostic) => diagnostic.clone(),
            Outcome::HarnessError(cause) => cause.clone(),
        }
    }

    /// True when the outcome is `Pass`.
    pub fn is_pass(&self) -> (result: bool)
        ensures
            result == (self is Pass),
    {
        match self {
            Outcome::Pass => true,
            _ => false,
        }
    }
}

/// Two outcomes are observably identical: the same variant carrying the
/// same text.
pub open spec fn outcome_equivalent(a: Outcome, b: Outcome) -> bool {
    match (a, b) {
        (Outcome::Pass, Outcome::Pass) => true,
        (Outcome::Fail(x), Outcome::Fail(y)) => x@ == y@,
        (Outcome::HarnessError(x), Outcome::HarnessError(y)) => x@ == y@,
        _ => false,
    }
}

/// The message the orchestrator returns for a test that did not pass:
/// a reported test failure embeds the decoded diagnostic, a harness-level
/// error embeds its cause.
pub open spec fn failure_report(name: Seq<char>, outcome: Outcome) -> Seq<char>
    recommends
        !(outcome is Pass),
{
    match outcome {
        Outcome::Fail(diagnostic) => "cpu didn't pass test "@ + name + ": '"@ + diagnostic@
            + "'"@,
        Outcome::HarnessError(cause) => "cpu failed while running test "@ + name
            + " with custom error message "@ + cause@,
        Outcome::Pass => Seq::<char>::empty(),
    }
}

/// Builds the orchestrator's report for a test that did not pass.
pub fn report_failure(name: &str, outcome: &Outcome) -> (result: String)
    requires
        !(outcome is Pass),
    ensures
        result@ == failure_report(name@, *outcome),
{
    match outcome {
        Outcome::Fail(diagnostic) => {
            let mut s = "cpu didn't pass test ".to_owned();
            s.append(name);
            s.append(": '");
            s.append(diagnostic.as_str());
            s.append("'");
            proof {
                assert(s@ =~= failure_report(name@, *outcome));
            }
            s
        },
        Outcome::HarnessError(cause) => {
            let mut s = "cpu failed while running test ".to_owned();
            s.append(name);
            s.append(" with custom error message ");
            s.append(cause.as_str());
            proof {
                assert(s@ =~= failure_report(name@, *outcome));
            }
            s
        },
        Outcome::Pass => String::new(),
    }
}

/// The message reported when the stepping engine signals a crash or
/// timeout: the engine's own message, with a hint appended when a
/// best-effort secondary decode shows that the status record already
/// holds a definitive non-pass verdict.
pub open spec fn step_failure_message(engine: Seq<char>, secondary: Outcome) -> Seq<char> {
    if secondary is Pass {
        engine
    } else {
        engine + ", possibly due to a test that didn't pass: '"@ + secondary.spec_message()
            + "'"@
    }
}

/// Builds the message for a stepping-engine crash or timeout, enriched
/// with the secondary decode of the status record.
pub fn describe_step_failure(engine: String, secondary: &Outcome) -> (result: String)
    ensures
        result@ == step_failure_message(engine@, *secondary),
{
    if secondary.is_pass() {
        engine
    } else {
        let mut s = engine;
        s.append(", possibly due to a test that didn't pass: '");
        let hint = secondary.message();
        s.append(hint.as_str());
        s.append("'");
        proof {
            assert(s@ =~= step_failure_message(engine@, *secondary));
        }
        s
    }
}

/// The diagnostic reported for a nonzero exit status in the
/// magic-prefixed status protocol: the numeric code, then the text
/// scanned from the status record.
pub open spec fn status_fail_message(status: u8, text: Seq<char>) -> Seq<char> {
    "exited with status "@ + dec_digits(status as nat) + ":\n "@ + text
}

/// The diagnostic reported when the two-byte result-code protocol holds a
/// value other than the designated success code.
pub open spec fn result_code_fail_message(code: u16) -> Seq<char> {
    "exited with unknown result code "@ + dec_digits(code as nat)
        + ", which is not a known success code"@
}

} // verus!
