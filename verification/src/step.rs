//! The data model of the pipeline: one opaque external command (`Step`), a
//! named ordered list of them (`Stage`), and the classified result of running
//! a step or a whole stage.

use vstd::prelude::*;
use vstd::string::StringExecFns;
use crate::text::concat2;
use crate::text::concat3;

verus! {

/// Seconds the runner waits after every successful step before the next one:
/// a deliberate quiescence interval that lets kernel and device state settle
/// between destructive disk operations.
pub const STEP_QUIESCENCE_SECS: u64 = 3;

/// One unit of external work: an opaque shell command line, plus a
/// human-readable label used only for display. A step is immutable once
/// constructed and is never retried.
pub struct Step {
    pub label: String,
    pub command: String,
}

/// A named phase of provisioning: an ordered sequence of steps. The order is
/// load-bearing — later steps assume the side effects of earlier ones.
pub struct Stage {
    pub name: String,
    pub steps: Vec<Step>,
}

/// A step whose command is a fixed recipe line.
pub fn literal_step(label: &str, command: &str) -> (s: Step)
    ensures
        s.label@ == label@,
        s.command@ == command@,
{
    Step { label: String::from_str(label), command: String::from_str(command) }
}

/// A step whose command is a recipe template with one value substituted at
/// its end.
pub fn templated_step(label: &str, prefix: &str, value: &str) -> (s: Step)
    ensures
        s.label@ == label@,
        s.command@ == prefix@ + value@,
{
    Step { label: String::from_str(label), command: concat2(prefix, value) }
}

/// A step whose command is a recipe template with one value substituted in
/// its middle.
pub fn templated_step3(label: &str, prefix: &str, value: &str, suffix: &str) -> (s: Step)
    ensures
        s.label@ == label@,
        s.command@ == prefix@ + value@ + suffix@,
{
    Step { label: String::from_str(label), command: concat3(prefix, value, suffix) }
}

/// The classified result of one step's subordinate process: exit status zero
/// is success, anything else is failure. No partial or retry outcome exists.
pub enum ExecutionOutcome {
    Success { output: String },
    Failure { exit_status: i32, output: String },
}

impl ExecutionOutcome {
    /// The captured combined output, whichever way the step ended.
    pub open spec fn spec_output(self) -> Seq<char> {
        match self {
            ExecutionOutcome::Success { output } => output@,
            ExecutionOutcome::Failure { exit_status, output } => output@,
        }
    }

    /// Classifies a subordinate process's exit: status zero is success,
    /// anything else is failure, carrying the status for the report.
    pub fn from_exit(exit_status: i32, output: String) -> (r: ExecutionOutcome)
        ensures
            r is Success <==> exit_status == 0,
            r.spec_output() == output@,
            r matches ExecutionOutcome::Failure { exit_status: st, .. } ==> st == exit_status,
    {
        if exit_status == 0 {
            ExecutionOutcome::Success { output }
        } else {
            ExecutionOutcome::Failure { exit_status, output }
        }
    }
}

/// The result of running a whole stage: success carries the last step's
/// captured output as a completion message; failure carries the failing
/// command verbatim with its exit status and output, so the operator can
/// repair or finish the work by hand.
pub enum StageResult {
    Success { message: String },
    Failure { command: String, exit_status: i32, output: String },
}

} // verus!
