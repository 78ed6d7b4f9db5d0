//! The elevated action runner, as a state machine.
//!
//! One elevation run walks the steps: write the rendered task document to a
//! temporary location, register it as a named task, trigger the task, wait a
//! fixed interval (no completion signal is observable), then tear the task
//! and the document down.  Failure at any step branches into best-effort
//! cleanup of whatever was created, and the error finally reported is always
//! the step's own failure, never a cleanup failure.
//!
//! The machine decides; it performs nothing.  A driver performs each returned
//! action against the platform and feeds the outcome back in, so every
//! decision — which step follows which, what is torn down on which failure,
//! which message reaches the caller — is verified here, for every outcome the
//! platform can return.
use crate::taskdoc::ElevatedTaskSpec;
use crate::taskdoc::TaskTrigger;
use vstd::prelude::*;

verus! {

/// What the platform reported for one performed action.
pub enum StepOutcome {
    /// The action completed.
    Completed,
    /// The external program could not be started, or the document could not
    /// be written: an I/O-level failure, with its message.
    LaunchFailure(String),
    /// The program started but reported failure; its error output.
    CommandFailure(String),
}

/// The spec-level image of a [`StepOutcome`].
pub enum OutcomeModel {
    Completed,
    LaunchFailure(Seq<char>),
    CommandFailure(Seq<char>),
}

impl View for StepOutcome {
    type V = OutcomeModel;

    open spec fn view(&self) -> OutcomeModel {
        match self {
            StepOutcome::Completed => OutcomeModel::Completed,
            StepOutcome::LaunchFailure(m) => OutcomeModel::LaunchFailure(m@),
            StepOutcome::CommandFailure(m) => OutcomeModel::CommandFailure(m@),
        }
    }
}

/// Where one elevation run stands.  The cleanup phases carry the primary
/// failure, if any, so that no cleanup outcome can replace it.
pub enum RunnerPhase {
    /// Nothing has happened yet; the document write is in flight.
    Start,
    /// The document is on disk; registration is in flight.
    DocumentWritten,
    /// The task exists in the scheduler namespace; invocation is in flight.
    Registered,
    /// The task was triggered; the fixed wait is in flight.
    Invoked,
    /// Best-effort deletion of the registered task is in flight.
    CleanupTask { failure: Option<String> },
    /// Best-effort deletion of the temporary document is in flight.
    CleanupDocument { failure: Option<String> },
    /// The run is over; nothing further is performed.
    Done { outcome: Result<String, String> },
}

/// The spec-level image of a [`RunnerPhase`].
pub enum PhaseModel {
    Start,
    DocumentWritten,
    Registered,
    Invoked,
    CleanupTask { failure: Option<Seq<char>> },
    CleanupDocument { failure: Option<Seq<char>> },
    Done { outcome: Result<Seq<char>, Seq<char>> },
}

/// The view of an optional failure message.
pub open spec fn failure_view(f: &Option<String>) -> Option<Seq<char>> {
    match f {
        Some(m) => Some(m@),
        None => None,
    }
}

impl View for RunnerPhase {
    type V = PhaseModel;

    open spec fn view(&self) -> PhaseModel {
        match self {
            RunnerPhase::Start => PhaseModel::Start,
            RunnerPhase::DocumentWritten => PhaseModel::DocumentWritten,
            RunnerPhase::Registered => PhaseModel::Registered,
            RunnerPhase::Invoked => PhaseModel::Invoked,
            RunnerPhase::CleanupTask { failure } => PhaseModel::CleanupTask {
                failure: failure_view(failure),
            },
            RunnerPhase::CleanupDocument { failure } => PhaseModel::CleanupDocument {
                failure: failure_view(failure),
            },
            RunnerPhase::Done { outcome } => PhaseModel::Done {
                outcome: match outcome {
                    Ok(m) => Ok(m@),
                    Err(m) => Err(m@),
                },
            },
        }
    }
}

/// What the driver must perform next.
#[derive(Clone, Copy, PartialEq, Eq, Structural, Debug)]
pub enum RunnerAction {
    /// Write the rendered document to the temporary path.
    WriteDocument,
    /// Register the task under its name, overwriting any existing task.
    RegisterTask,
    /// Trigger the registered task to run now.
    RunTask,
    /// Sleep for the request's fixed wait interval.
    Wait,
    /// Best-effort deletion of the registered task.
    DeleteTask,
    /// Best-effort deletion of the temporary document.
    DeleteDocument,
    /// Nothing further: report the outcome carried by the phase.
    Report,
}

/// The error reported when the document cannot be written.
pub open spec fn write_failure_text(m: Seq<char>) -> Seq<char> {
    "Failed to write task XML: "@ + m
}

/// The error reported when the scheduler CLI cannot be started for
/// registration of an on-demand task.
pub open spec fn register_launch_failure_text(m: Seq<char>) -> Seq<char> {
    "Failed to run schtasks /create: "@ + m
}

/// The error reported when the scheduler rejects registration of an
/// on-demand task.
pub open spec fn register_rejected_text(m: Seq<char>) -> Seq<char> {
    "Task create failed: "@ + m
}

/// The error reported when the scheduler CLI cannot be started for
/// invocation.
pub open spec fn run_launch_failure_text(m: Seq<char>) -> Seq<char> {
    "Failed to run task: "@ + m
}

/// The error reported when the scheduler cannot trigger the task.
pub open spec fn run_rejected_text(m: Seq<char>) -> Seq<char> {
    "Task run failed: "@ + m
}

/// The error reported when the scheduler CLI cannot be started for
/// registration of the boot-trigger workaround.
pub open spec fn boot_register_launch_failure_text(m: Seq<char>) -> Seq<char> {
    "Failed to create task: "@ + m
}

/// The transition relation of the runner.  Given where the run stands and
/// what the platform reported for the action in flight, it decides the next
/// phase and the next action.  `Done` is absorbing.
pub open spec fn runner_step_model(
    trigger: TaskTrigger,
    success: Seq<char>,
    phase: PhaseModel,
    event: OutcomeModel,
) -> (PhaseModel, RunnerAction) {
    match phase {
        PhaseModel::Start => match event {
            OutcomeModel::Completed => (PhaseModel::DocumentWritten, RunnerAction::RegisterTask),
            OutcomeModel::LaunchFailure(m) => (
                PhaseModel::Done { outcome: Err(write_failure_text(m)) },
                RunnerAction::Report,
            ),
            OutcomeModel::CommandFailure(m) => (
                PhaseModel::Done { outcome: Err(write_failure_text(m)) },
                RunnerAction::Report,
            ),
        },
        PhaseModel::DocumentWritten => match event {
            OutcomeModel::Completed => match trigger {
                TaskTrigger::Immediate => (PhaseModel::Registered, RunnerAction::RunTask),
                TaskTrigger::OnBoot => (
                    PhaseModel::CleanupDocument { failure: None },
                    RunnerAction::DeleteDocument,
                ),
            },
            OutcomeModel::LaunchFailure(m) => match trigger {
                TaskTrigger::Immediate => (
                    PhaseModel::CleanupDocument { failure: Some(register_launch_failure_text(m)) },
                    RunnerAction::DeleteDocument,
                ),
                TaskTrigger::OnBoot => (
                    PhaseModel::CleanupDocument {
                        failure: Some(boot_register_launch_failure_text(m)),
                    },
                    RunnerAction::DeleteDocument,
                ),
            },
            OutcomeModel::CommandFailure(m) => match trigger {
                TaskTrigger::Immediate => (
                    PhaseModel::CleanupDocument { failure: Some(register_rejected_text(m)) },
                    RunnerAction::DeleteDocument,
                ),
                TaskTrigger::OnBoot => (
                    PhaseModel::CleanupDocument { failure: Some(m) },
                    RunnerAction::DeleteDocument,
                ),
            },
        },
        PhaseModel::Registered => match event {
            OutcomeModel::Completed => (PhaseModel::Invoked, RunnerAction::Wait),
            OutcomeModel::LaunchFailure(m) => (
                PhaseModel::CleanupTask { failure: Some(run_launch_failure_text(m)) },
                RunnerAction::DeleteTask,
            ),
            OutcomeModel::CommandFailure(m) => (
                PhaseModel::CleanupTask { failure: Some(run_rejected_text(m)) },
                RunnerAction::DeleteTask,
            ),
        },
        PhaseModel::Invoked => (PhaseModel::CleanupTask { failure: None }, RunnerAction::DeleteTask),
        PhaseModel::CleanupTask { failure } => (
            PhaseModel::CleanupDocument { failure },
            RunnerAction::DeleteDocument,
        ),
        PhaseModel::CleanupDocument { failure } => match failure {
            None => (PhaseModel::Done { outcome: Ok(success) }, RunnerAction::Report),
            Some(e) => (PhaseModel::Done { outcome: Err(e) }, RunnerAction::Report),
        },
        PhaseModel::Done { outcome } => (PhaseModel::Done { outcome }, RunnerAction::Report),
    }
}

/// Where a run begins: nothing created, the document write to perform.
pub fn runner_init() -> (r: (RunnerPhase, RunnerAction))
    ensures
        r.0@ == PhaseModel::Start,
        r.1 == RunnerAction::WriteDocument,
{
    (RunnerPhase::Start, RunnerAction::WriteDocument)
}

/// Performs one transition of the runner for the request `spec`: exactly
/// [`runner_step_model`] on the views.
pub fn runner_step(spec: &ElevatedTaskSpec, phase: RunnerPhase, event: StepOutcome) -> (r: (
    RunnerPhase,
    RunnerAction,
))
    ensures
        (r.0@, r.1) == runner_step_model(spec.trigger, spec.success_message@, phase@, event@),
{
    match phase {
        RunnerPhase::Start => match event {
            StepOutcome::Completed => (RunnerPhase::DocumentWritten, RunnerAction::RegisterTask),
            StepOutcome::LaunchFailure(m) => (
                RunnerPhase::Done { outcome: Err(prefixed("Failed to write task XML: ", m)) },
                RunnerAction::Report,
            ),
            StepOutcome::CommandFailure(m) => (
                RunnerPhase::Done { outcome: Err(prefixed("Failed to write task XML: ", m)) },
                RunnerAction::Report,
            ),
        },
        RunnerPhase::DocumentWritten => match event {
            StepOutcome::Completed => match spec.trigger {
                TaskTrigger::Immediate => (RunnerPhase::Registered, RunnerAction::RunTask),
                TaskTrigger::OnBoot => (
                    RunnerPhase::CleanupDocument { failure: None },
                    RunnerAction::DeleteDocument,
                ),
            },
            StepOutcome::LaunchFailure(m) => match spec.trigger {
                TaskTrigger::Immediate => (
                    RunnerPhase::CleanupDocument {
                        failure: Some(prefixed("Failed to run schtasks /create: ", m)),
                    },
                    RunnerAction::DeleteDocument,
                ),
                TaskTrigger::OnBoot => (
                    RunnerPhase::CleanupDocument {
                        failure: Some(prefixed("Failed to create task: ", m)),
                    },
                    RunnerAction::DeleteDocument,
                ),
            },
            StepOutcome::CommandFailure(m) => match spec.trigger {
                TaskTrigger::Immediate => (
                    RunnerPhase::CleanupDocument {
                        failure: Some(prefixed("Task create failed: ", m)),
                    },
                    RunnerAction::DeleteDocument,
                ),
                TaskTrigger::OnBoot => (
                    RunnerPhase::CleanupDocument { failure: Some(m) },
                    RunnerAction::DeleteDocument,
                ),
            },
        },
        RunnerPhase::Registered => match event {
            StepOutcome::Completed => (RunnerPhase::Invoked, RunnerAction::Wait),
            StepOutcome::LaunchFailure(m) => (
                RunnerPhase::CleanupTask { failure: Some(prefixed("Failed to run task: ", m)) },
                RunnerAction::DeleteTask,
            ),
            StepOutcome::CommandFailure(m) => (
                RunnerPhase::CleanupTask { failure: Some(prefixed("Task run failed: ", m)) },
                RunnerAction::DeleteTask,
            ),
        },
        RunnerPhase::Invoked => (
            RunnerPhase::CleanupTask { failure: None },
            RunnerAction::DeleteTask,
        ),
        RunnerPhase::CleanupTask { failure } => (
            RunnerPhase::CleanupDocument { failure },
            RunnerAction::DeleteDocument,
        ),
        RunnerPhase::CleanupDocument { failure } => match failure {
            None => (
                RunnerPhase::Done { outcome: Ok(spec.success_message.clone()) },
                RunnerAction::Report,
            ),
            Some(e) => (RunnerPhase::Done { outcome: Err(e) }, RunnerAction::Report),
        },
        RunnerPhase::Done { outcome } => (RunnerPhase::Done { outcome }, RunnerAction::Report),
    }
}

/// A failure message built from the step's fixed prefix and the platform's
/// own text.
fn prefixed(prefix: &str, m: String) -> (r: String)
    ensures
        r@ == prefix@ + m@,
{
    let mut r = String::from_str(prefix);
    r.append(m.as_str());
    r
}

/// Phases in which the temporary document exists on disk.
pub open spec fn document_pending(phase: PhaseModel) -> bool {
    match phase {
        PhaseModel::DocumentWritten => true,
        PhaseModel::Registered => true,
        PhaseModel::Invoked => true,
        PhaseModel::CleanupTask { .. } => true,
        _ => false,
    }
}

/// Phases in which an on-demand task is registered in the scheduler
/// namespace.
pub open spec fn task_pending(phase: PhaseModel) -> bool {
    match phase {
        PhaseModel::Registered => true,
        PhaseModel::Invoked => true,
        _ => false,
    }
}

/// The temporary document is removed on every exit path: from any phase in
/// which it exists, one step either remains in such a phase or begins the
/// document deletion.  The run can therefore never report before the
/// deletion was at least attempted.
pub proof fn lemma_document_always_cleaned(
    trigger: TaskTrigger,
    success: Seq<char>,
    phase: PhaseModel,
    event: OutcomeModel,
)
    requires
        document_pending(phase),
    ensures
        ({
            let (next, action) = runner_step_model(trigger, success, phase, event);
            document_pending(next) || (next is CleanupDocument && action
                == RunnerAction::DeleteDocument)
        }),
{
}

/// A registered on-demand task is deleted after its single invocation
/// attempt, whether the invocation succeeded or failed: from any phase in
/// which the task exists, one step either remains in such a phase or begins
/// the task deletion.
pub proof fn lemma_task_always_cleaned(
    trigger: TaskTrigger,
    success: Seq<char>,
    phase: PhaseModel,
    event: OutcomeModel,
)
    requires
        task_pending(phase),
    ensures
        ({
            let (next, action) = runner_step_model(trigger, success, phase, event);
            task_pending(next) || (next is CleanupTask && action == RunnerAction::DeleteTask)
        }),
{
}

/// Failure at the invocation step, after registration succeeded: the runner
/// attempts deletion of both the registered task and the temporary document,
/// and the outcome it finally reports describes the invocation failure —
/// whatever the two cleanup attempts returned, a cleanup failure never masks
/// it.
pub proof fn lemma_invocation_failure_cleanup(
    trigger: TaskTrigger,
    success: Seq<char>,
    event: OutcomeModel,
    cleanup_task_outcome: OutcomeModel,
    cleanup_doc_outcome: OutcomeModel,
)
    requires
        !(event is Completed),
    ensures
        ({
            let reported = match event {
                OutcomeModel::LaunchFailure(m) => run_launch_failure_text(m),
                OutcomeModel::CommandFailure(m) => run_rejected_text(m),
                OutcomeModel::Completed => Seq::empty(),
            };
            let (p1, a1) = runner_step_model(trigger, success, PhaseModel::Registered, event);
            let (p2, a2) = runner_step_model(trigger, success, p1, cleanup_task_outcome);
            let (p3, a3) = runner_step_model(trigger, success, p2, cleanup_doc_outcome);
            &&& a1 == RunnerAction::DeleteTask
            &&& a2 == RunnerAction::DeleteDocument
            &&& p3 == (PhaseModel::Done { outcome: Err::<Seq<char>, Seq<char>>(reported) })
            &&& a3 == RunnerAction::Report
        }),
{
}

/// One complete run: the phase reached and the actions requested, in order,
/// when the platform reports the given outcomes one by one.  Outcomes past
/// the report are ignored.
pub open spec fn runner_run(
    trigger: TaskTrigger,
    success: Seq<char>,
    events: Seq<OutcomeModel>,
) -> (PhaseModel, Seq<RunnerAction>)
    decreases events.len(),
{
    if events.len() == 0 {
        (PhaseModel::Start, seq![RunnerAction::WriteDocument])
    } else {
        let prev = runner_run(trigger, success, events.drop_last());
        if prev.0 is Done {
            prev
        } else {
            let next = runner_step_model(trigger, success, prev.0, events.last());
            (next.0, prev.1.push(next.1))
        }
    }
}

/// How many steps a phase is from the report, at most.
pub open spec fn phase_rank(phase: PhaseModel) -> nat {
    match phase {
        PhaseModel::Start => 6,
        PhaseModel::DocumentWritten => 5,
        PhaseModel::Registered => 4,
        PhaseModel::Invoked => 3,
        PhaseModel::CleanupTask { .. } => 2,
        PhaseModel::CleanupDocument { .. } => 1,
        PhaseModel::Done { .. } => 0,
    }
}

/// Every step of a live run strictly lowers the rank.
proof fn lemma_step_reduces_rank(
    trigger: TaskTrigger,
    success: Seq<char>,
    phase: PhaseModel,
    event: OutcomeModel,
)
    requires
        !(phase is Done),
    ensures
        phase_rank(runner_step_model(trigger, success, phase, event).0) < phase_rank(phase),
{
}

/// A run never hangs: six outcomes always suffice to reach the report,
/// whatever the platform answered.
pub proof fn lemma_run_terminates(
    trigger: TaskTrigger,
    success: Seq<char>,
    events: Seq<OutcomeModel>,
)
    requires
        events.len() >= 6,
    ensures
        runner_run(trigger, success, events).0 is Done,
{
    lemma_run_rank_bound(trigger, success, events);
}

/// The rank falls at least as fast as outcomes arrive.
proof fn lemma_run_rank_bound(trigger: TaskTrigger, success: Seq<char>, events: Seq<OutcomeModel>)
    ensures
        phase_rank(runner_run(trigger, success, events).0) + events.len() <= 6 || runner_run(
            trigger,
            success,
            events,
        ).0 is Done,
    decreases events.len(),
{
    if events.len() == 0 {
    } else {
        lemma_run_rank_bound(trigger, success, events.drop_last());
        let prev = runner_run(trigger, success, events.drop_last());
        if !(prev.0 is Done) {
            lemma_step_reduces_rank(trigger, success, prev.0, events.last());
        }
    }
}

/// Actions already requested stay requested.
proof fn lemma_push_keeps_contains(acts: Seq<RunnerAction>, a: RunnerAction, d: RunnerAction)
    requires
        acts.contains(d),
    ensures
        acts.push(a).contains(d),
{
    let i = choose|i: int| 0 <= i < acts.len() && acts[i] == d;
    assert(acts.push(a)[i] == d);
}

/// The scoped-resource obligation over whole runs: once the document write
/// succeeded, a run that reached its report has issued the document deletion
/// on the way — on the success path and on every failure path alike.
pub proof fn lemma_run_deletes_document(
    trigger: TaskTrigger,
    success: Seq<char>,
    events: Seq<OutcomeModel>,
)
    requires
        events.len() >= 1,
        events[0] is Completed,
        runner_run(trigger, success, events).0 is Done,
    ensures
        runner_run(trigger, success, events).1.contains(RunnerAction::DeleteDocument),
{
    lemma_run_document_invariant(trigger, success, events);
}

/// While the document exists the run is not over, and the only way out is
/// the deletion request.
proof fn lemma_run_document_invariant(
    trigger: TaskTrigger,
    success: Seq<char>,
    events: Seq<OutcomeModel>,
)
    requires
        events.len() >= 1,
        events[0] is Completed,
    ensures
        document_pending(runner_run(trigger, success, events).0) || runner_run(
            trigger,
            success,
            events,
        ).1.contains(RunnerAction::DeleteDocument),
    decreases events.len(),
{
    let run = runner_run(trigger, success, events);
    if events.len() == 1 {
        assert(events.drop_last().len() == 0);
        assert(runner_run(trigger, success, events.drop_last()) == (
            PhaseModel::Start,
            seq![RunnerAction::WriteDocument],
        ));
        assert(events.last() == events[0]);
        assert(run.0 == PhaseModel::DocumentWritten);
    } else {
        let head = events.drop_last();
        assert(head[0] == events[0]);
        lemma_run_document_invariant(trigger, success, head);
        let prev = runner_run(trigger, success, head);
        if prev.0 is Done {
            assert(prev.1.contains(RunnerAction::DeleteDocument));
        } else if document_pending(prev.0) {
            lemma_document_always_cleaned(trigger, success, prev.0, events.last());
            let next = runner_step_model(trigger, success, prev.0, events.last());
            if !document_pending(next.0) {
                assert(next.1 == RunnerAction::DeleteDocument);
                assert(prev.1.push(next.1)[prev.1.len() as int] == RunnerAction::DeleteDocument);
            }
        } else {
            lemma_push_keeps_contains(
                prev.1,
                runner_step_model(trigger, success, prev.0, events.last()).1,
                RunnerAction::DeleteDocument,
            );
        }
    }
}

/// The task-cleanup obligation over whole runs: once an on-demand task was
/// registered, a run that reached its report has issued the task deletion on
/// the way, whether the invocation succeeded or failed.
pub proof fn lemma_run_deletes_task(
    trigger: TaskTrigger,
    success: Seq<char>,
    events: Seq<OutcomeModel>,
)
    requires
        trigger == TaskTrigger::Immediate,
        events.len() >= 2,
        events[0] is Completed,
        events[1] is Completed,
        runner_run(trigger, success, events).0 is Done,
    ensures
        runner_run(trigger, success, events).1.contains(RunnerAction::DeleteTask),
{
    lemma_run_task_invariant(trigger, success, events);
}

/// While the registered task exists the run is not over, and the only way
/// out is the deletion request.
proof fn lemma_run_task_invariant(
    trigger: TaskTrigger,
    success: Seq<char>,
    events: Seq<OutcomeModel>,
)
    requires
        trigger == TaskTrigger::Immediate,
        events.len() >= 2,
        events[0] is Completed,
        events[1] is Completed,
    ensures
        task_pending(runner_run(trigger, success, events).0) || runner_run(
            trigger,
            success,
            events,
        ).1.contains(RunnerAction::DeleteTask),
    decreases events.len(),
{
    let run = runner_run(trigger, success, events);
    if events.len() == 2 {
        let head = events.drop_last();
        assert(head.len() == 1);
        assert(head.drop_last().len() == 0);
        assert(head[0] == events[0]);
        assert(runner_run(trigger, success, head.drop_last()) == (
            PhaseModel::Start,
            seq![RunnerAction::WriteDocument],
        ));
        assert(head.last() == head[0]);
        assert(runner_run(trigger, success, head).0 == PhaseModel::DocumentWritten);
        assert(events.last() == events[1]);
        assert(run.0 == PhaseModel::Registered);
    } else {
        let head = events.drop_last();
        assert(head[0] == events[0]);
        assert(head[1] == events[1]);
        lemma_run_task_invariant(trigger, success, head);
        let prev = runner_run(trigger, success, head);
        if prev.0 is Done {
            assert(prev.1.contains(RunnerAction::DeleteTask));
        } else if task_pending(prev.0) {
            lemma_task_always_cleaned(trigger, success, prev.0, events.last());
            let next = runner_step_model(trigger, success, prev.0, events.last());
            if !task_pending(next.0) {
                assert(next.1 == RunnerAction::DeleteTask);
                assert(prev.1.push(next.1)[prev.1.len() as int] == RunnerAction::DeleteTask);
            }
        } else {
            lemma_push_keeps_contains(
                prev.1,
                runner_step_model(trigger, success, prev.0, events.last()).1,
                RunnerAction::DeleteTask,
            );
        }
    }
}

/// Once a run is over its outcome never changes: `Done` is absorbing under
/// every further event.
pub proof fn lemma_done_is_absorbing(
    trigger: TaskTrigger,
    success: Seq<char>,
    outcome: Result<Seq<char>, Seq<char>>,
    event: OutcomeModel,
)
    ensures
        runner_step_model(trigger, success, PhaseModel::Done { outcome }, event) == (
            PhaseModel::Done { outcome },
            RunnerAction::Report,
        ),
{
}

} // verus!
