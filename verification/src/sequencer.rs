//! The fail-fast stage sequencer. A stage's steps run strictly in declared
//! order; the first failure stops the stage at once — later steps are never
//! invoked, and nothing already applied is rolled back. Spawning the
//! subordinate process is outside work, so the sequencer is an explicit
//! machine: the driver asks for the next step, performs it, and records the
//! classified outcome; the machine decides whether the stage goes on.

use vstd::prelude::*;
use crate::step::ExecutionOutcome;
use crate::step::Stage;
use crate::step::StageResult;
use crate::step::Step;

verus! {

/// Every outcome in the list is a success.
pub open spec fn all_success(outcomes: Seq<ExecutionOutcome>) -> bool {
    forall|i: int| 0 <= i < outcomes.len() ==> outcomes[i] is Success
}

/// How many steps a fail-fast run invokes when step `i`'s subordinate
/// process would end as `outcomes[i]`: every step when none fails, and
/// everything up to and including the first failure otherwise.
pub open spec fn steps_invoked(outcomes: Seq<ExecutionOutcome>) -> int
    decreases outcomes.len(),
{
    if outcomes.len() == 0 {
        0
    } else if outcomes[0] is Failure {
        1
    } else {
        1 + steps_invoked(outcomes.drop_first())
    }
}

/// When every step's subordinate process succeeds, a fail-fast run invokes
/// every step — each exactly once, in declared order.
pub proof fn lemma_all_success_invokes_all(outcomes: Seq<ExecutionOutcome>)
    requires
        all_success(outcomes),
    ensures
        steps_invoked(outcomes) == outcomes.len(),
    decreases outcomes.len(),
{
    if outcomes.len() > 0 {
        assert(forall|i: int|
            0 <= i < outcomes.drop_first().len() ==> outcomes.drop_first()[i]
                == outcomes[i + 1]);
        lemma_all_success_invokes_all(outcomes.drop_first());
    }
}

/// When the step at position `k` fails and every earlier step succeeds, a
/// fail-fast run invokes exactly the steps up to and including `k`: the
/// steps after it are never invoked.
pub proof fn lemma_fail_fast_stops(outcomes: Seq<ExecutionOutcome>, k: int)
    requires
        0 <= k < outcomes.len(),
        outcomes[k] is Failure,
        forall|i: int| 0 <= i < k ==> outcomes[i] is Success,
    ensures
        steps_invoked(outcomes) == k + 1,
    decreases k,
{
    if k > 0 {
        assert(forall|i: int|
            0 <= i < outcomes.drop_first().len() ==> outcomes.drop_first()[i]
                == outcomes[i + 1]);
        lemma_fail_fast_stops(outcomes.drop_first(), k - 1);
    }
}

/// What `StageRun::result` owes: success carrying the last captured output
/// (empty for a stage with no steps) when no recorded outcome failed, and
/// otherwise failure carrying the failing step's command verbatim with its
/// exit status and captured output.
pub open spec fn result_matches(stage: Stage, recorded: Seq<ExecutionOutcome>, r: StageResult) -> bool {
    if recorded.len() > 0 && recorded.last() is Failure {
        &&& r matches StageResult::Failure { command, exit_status, output }
        &&& command@ == stage.steps@[recorded.len() - 1].command@
        &&& exit_status == recorded.last()->Failure_exit_status
        &&& output@ == recorded.last().spec_output()
    } else {
        &&& r matches StageResult::Success { message }
        &&& message@ == if recorded.len() > 0 {
            recorded.last().spec_output()
        } else {
            Seq::<char>::empty()
        }
    }
}

/// One fail-fast run of a stage. `recorded` holds the classified outcome of
/// every step invoked so far, in order; step `i` is invoked exactly when an
/// outcome for it is recorded, so the trace is the whole history of the run.
pub struct StageRun {
    pub stage: Stage,
    pub recorded: Vec<ExecutionOutcome>,
}

impl StageRun {
    /// The run's invariant: there is at most one outcome per step, and a
    /// failure can only be the most recent outcome — the run stops there.
    pub open spec fn wf(self) -> bool {
        &&& self.recorded@.len() <= self.stage.steps@.len()
        &&& forall|i: int|
            0 <= i < self.recorded@.len() - 1 ==> self.recorded@[i] is Success
    }

    /// The run is over: either every step has an outcome, or the most
    /// recent outcome is a failure.
    pub open spec fn spec_finished(self) -> bool {
        ||| self.recorded@.len() == self.stage.steps@.len()
        ||| (self.recorded@.len() > 0 && self.recorded@.last() is Failure)
    }

    /// Starts a run of the given stage with no step invoked yet.
    pub fn new(stage: Stage) -> (r: StageRun)
        ensures
            r.wf(),
            r.stage == stage,
            r.recorded@ == Seq::<ExecutionOutcome>::empty(),
    {
        StageRun { stage, recorded: Vec::new() }
    }

    /// Whether the run is over.
    pub fn is_finished(&self) -> (b: bool)
        ensures
            b == self.spec_finished(),
    {
        let n = self.recorded.len();
        if n == self.stage.steps.len() {
            true
        } else if n == 0 {
            false
        } else {
            match &self.recorded[n - 1] {
                ExecutionOutcome::Failure { .. } => true,
                ExecutionOutcome::Success { .. } => false,
            }
        }
    }

    /// The step to invoke next: always the first one without an outcome, so
    /// steps run in declared order with none skipped and none repeated.
    pub fn next_step(&self) -> (s: &Step)
        requires
            self.wf(),
            !self.spec_finished(),
        ensures
            *s == self.stage.steps@[self.recorded@.len() as int],
    {
        &self.stage.steps[self.recorded.len()]
    }

    /// Records the invoked step's classified outcome. A failure finishes
    /// the run; nothing is retried and nothing is rolled back.
    pub fn record(&mut self, outcome: ExecutionOutcome)
        requires
            old(self).wf(),
            !old(self).spec_finished(),
        ensures
            final(self).wf(),
            final(self).stage == old(self).stage,
            final(self).recorded@ == old(self).recorded@.push(outcome),
    {
        self.recorded.push(outcome);
    }

    /// The finished run's result.
    pub fn result(&self) -> (r: StageResult)
        requires
            self.wf(),
            self.spec_finished(),
        ensures
            result_matches(self.stage, self.recorded@, r),
    {
        let n = self.recorded.len();
        if n == 0 {
            StageResult::Success { message: String::new() }
        } else {
            match &self.recorded[n - 1] {
                ExecutionOutcome::Failure { exit_status, output } => {
                    let failing = &self.stage.steps[n - 1];
                    StageResult::Failure {
                        command: failing.command.clone(),
                        exit_status: *exit_status,
                        output: output.clone(),
                    }
                },
                ExecutionOutcome::Success { output } => {
                    StageResult::Success { message: output.clone() }
                },
            }
        }
    }
}

/// A finished trace that is a prefix of the outcome table pins down how many
/// steps the fail-fast run invokes.
proof fn lemma_finished_trace_counts(outcomes: Seq<ExecutionOutcome>, m: int)
    requires
        0 <= m <= outcomes.len(),
        forall|i: int| 0 <= i < m - 1 ==> outcomes[i] is Success,
        m == outcomes.len() || (m > 0 && outcomes[m - 1] is Failure),
    ensures
        steps_invoked(outcomes) == m,
{
    if m > 0 && outcomes[m - 1] is Failure {
        lemma_fail_fast_stops(outcomes, m - 1);
    } else {
        assert(all_success(outcomes));
        lemma_all_success_invokes_all(outcomes);
    }
}

/// An exact copy of a recorded outcome.
fn clone_outcome(o: &ExecutionOutcome) -> (r: ExecutionOutcome)
    ensures
        r == *o,
{
    match o {
        ExecutionOutcome::Success { output } => {
            ExecutionOutcome::Success { output: output.clone() }
        },
        ExecutionOutcome::Failure { exit_status, output } => {
            ExecutionOutcome::Failure { exit_status: *exit_status, output: output.clone() }
        },
    }
}

/// Runs a whole stage fail-fast against a table of outcomes, `outcomes[i]`
/// being what step `i`'s subordinate process would return if it were
/// invoked. Returns the stage's result and how many steps were invoked.
///
/// The contract carries the two sequencing laws: when every step would
/// succeed, every step is invoked — each exactly once, in declared order —
/// and the stage succeeds; when some step would fail, the steps after the
/// first failing one are never invoked and the stage fails.
pub fn run_stage_table(stage: Stage, outcomes: &Vec<ExecutionOutcome>) -> (r: (StageResult, usize))
    requires
        outcomes@.len() == stage.steps@.len(),
    ensures
        r.1 == steps_invoked(outcomes@),
        result_matches(stage, outcomes@.take(steps_invoked(outcomes@)), r.0),
        all_success(outcomes@) ==> r.1 == stage.steps@.len() && r.0 is Success,
        forall|k: int|
            0 <= k < outcomes@.len() && outcomes@[k] is Failure && (forall|i: int|
                0 <= i < k ==> outcomes@[i] is Success) ==> r.1 == k + 1 && r.0 is Failure,
{
    let ghost stage0 = stage;
    let mut run = StageRun::new(stage);
    loop
        invariant
            run.wf(),
            run.stage == stage0,
            outcomes@.len() == stage0.steps@.len(),
            run.recorded@ == outcomes@.take(run.recorded@.len() as int),
        ensures
            run.wf(),
            run.stage == stage0,
            run.spec_finished(),
            run.recorded@ == outcomes@.take(run.recorded@.len() as int),
        decreases stage0.steps@.len() - run.recorded@.len(),
    {
        if run.is_finished() {
            break;
        }
        let i = run.recorded.len();
        let o = clone_outcome(&outcomes[i]);
        proof {
            assert(outcomes@.take(i + 1).drop_last() =~= outcomes@.take(i as int));
        }
        run.record(o);
        proof {
            assert(run.recorded@ =~= outcomes@.take(run.recorded@.len() as int));
        }
    }
    let count = run.recorded.len();
    proof {
        assert forall|i: int| 0 <= i < count - 1 implies #[trigger] outcomes@[i] is Success by {
            assert(run.recorded@[i] is Success);
            assert(run.recorded@[i] == outcomes@.take(count as int)[i]);
        }
        lemma_finished_trace_counts(outcomes@, count as int);
        assert forall|k: int|
            0 <= k < outcomes@.len() && outcomes@[k] is Failure && (forall|i: int|
                0 <= i < k ==> outcomes@[i] is Success) implies count == k + 1 by {
            lemma_fail_fast_stops(outcomes@, k);
        }
        if all_success(outcomes@) {
            lemma_all_success_invokes_all(outcomes@);
        }
    }
    let res = run.result();
    (res, count)
}

} // verus!
