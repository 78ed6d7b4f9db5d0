use aovpn_manager::ops::boot_workaround_request;
use aovpn_manager::ops::run_as_system_task_request;
use aovpn_manager::ops::run_cmd_as_system_request;
use aovpn_manager::runner::RunnerAction;
use aovpn_manager::runner::RunnerPhase;
use aovpn_manager::runner::StepOutcome;
use aovpn_manager::runner::runner_init;
use aovpn_manager::runner::runner_step;
use aovpn_manager::taskdoc::ElevatedTaskSpec;

/// Drives the machine over the given outcomes and returns every action it
/// requested plus the final outcome.
fn drive(
    spec: &ElevatedTaskSpec,
    outcomes: Vec<StepOutcome>,
) -> (Vec<RunnerAction>, Result<String, String>) {
    let (mut phase, mut action) = runner_init();
    let mut actions = vec![action];
    let mut outcomes = outcomes.into_iter();
    loop {
        match phase {
            RunnerPhase::Done { outcome } => {
                assert_eq!(action, RunnerAction::Report);
                return (actions, outcome);
            }
            live => {
                let event = outcomes.next().expect("machine asked for more outcomes");
                let next = runner_step(spec, live, event);
                phase = next.0;
                action = next.1;
                actions.push(action);
            }
        }
    }
}

#[test]
fn invocation_failure_cleans_up_both_and_reports_the_run_error() {
    // Registration succeeds, invocation fails, and both cleanups fail too:
    // the runner still attempts to delete the task and the document, and the
    // reported error is the invocation failure, not a cleanup failure.
    let spec = run_cmd_as_system_request("T1", "rasdial.exe", "\"Acme Device Tunnel\" /disconnect");
    let (actions, outcome) = drive(
        &spec,
        vec![
            StepOutcome::Completed,
            StepOutcome::Completed,
            StepOutcome::CommandFailure("ERROR: Access is denied.".to_string()),
            StepOutcome::CommandFailure("cannot delete task".to_string()),
            StepOutcome::LaunchFailure("cannot delete file".to_string()),
        ],
    );
    assert_eq!(
        actions,
        vec![
            RunnerAction::WriteDocument,
            RunnerAction::RegisterTask,
            RunnerAction::RunTask,
            RunnerAction::DeleteTask,
            RunnerAction::DeleteDocument,
            RunnerAction::Report,
        ]
    );
    assert_eq!(outcome, Err("Task run failed: ERROR: Access is denied.".to_string()));
}

#[test]
fn successful_run_waits_then_tears_down() {
    let spec = run_as_system_task_request("T2", "Write-Host hi");
    let (actions, outcome) = drive(
        &spec,
        vec![
            StepOutcome::Completed,
            StepOutcome::Completed,
            StepOutcome::Completed,
            StepOutcome::Completed,
            StepOutcome::Completed,
            StepOutcome::Completed,
        ],
    );
    assert_eq!(
        actions,
        vec![
            RunnerAction::WriteDocument,
            RunnerAction::RegisterTask,
            RunnerAction::RunTask,
            RunnerAction::Wait,
            RunnerAction::DeleteTask,
            RunnerAction::DeleteDocument,
            RunnerAction::Report,
        ]
    );
    assert_eq!(
        outcome,
        Ok("WMI Injection Task successfully triggered and completed.".to_string())
    );
}

#[test]
fn write_failure_is_fatal_with_nothing_to_clean() {
    let spec = run_cmd_as_system_request("T1", "cmd.exe", "/c echo");
    let (actions, outcome) = drive(
        &spec,
        vec![StepOutcome::LaunchFailure("disk full".to_string())],
    );
    assert_eq!(actions, vec![RunnerAction::WriteDocument, RunnerAction::Report]);
    assert_eq!(outcome, Err("Failed to write task XML: disk full".to_string()));
}

#[test]
fn registration_rejection_still_deletes_the_document() {
    let spec = run_cmd_as_system_request("T1", "cmd.exe", "/c echo");
    let (actions, outcome) = drive(
        &spec,
        vec![
            StepOutcome::Completed,
            StepOutcome::CommandFailure("denied".to_string()),
            StepOutcome::Completed,
        ],
    );
    assert_eq!(
        actions,
        vec![
            RunnerAction::WriteDocument,
            RunnerAction::RegisterTask,
            RunnerAction::DeleteDocument,
            RunnerAction::Report,
        ]
    );
    assert_eq!(outcome, Err("Task create failed: denied".to_string()));
}

#[test]
fn registration_launch_failure_reports_the_scheduler_error() {
    let spec = run_cmd_as_system_request("T1", "cmd.exe", "/c echo");
    let (_, outcome) = drive(
        &spec,
        vec![
            StepOutcome::Completed,
            StepOutcome::LaunchFailure("program not found".to_string()),
            StepOutcome::Completed,
        ],
    );
    assert_eq!(
        outcome,
        Err("Failed to run schtasks /create: program not found".to_string())
    );
}

#[test]
fn run_launch_failure_reports_and_cleans_up() {
    let spec = run_cmd_as_system_request("T1", "cmd.exe", "/c echo");
    let (actions, outcome) = drive(
        &spec,
        vec![
            StepOutcome::Completed,
            StepOutcome::Completed,
            StepOutcome::LaunchFailure("no such program".to_string()),
            StepOutcome::Completed,
            StepOutcome::Completed,
        ],
    );
    assert!(actions.contains(&RunnerAction::DeleteTask));
    assert!(actions.contains(&RunnerAction::DeleteDocument));
    assert_eq!(outcome, Err("Failed to run task: no such program".to_string()));
}

#[test]
fn boot_task_is_registered_and_left_installed() {
    // The workaround flow registers the task, removes only the temporary
    // document, and never runs or deletes the task itself.
    let spec = boot_workaround_request("\\Acme\\Start Acme Device Tunnel", "exit 0");
    let (actions, outcome) = drive(
        &spec,
        vec![StepOutcome::Completed, StepOutcome::Completed, StepOutcome::Completed],
    );
    assert_eq!(
        actions,
        vec![
            RunnerAction::WriteDocument,
            RunnerAction::RegisterTask,
            RunnerAction::DeleteDocument,
            RunnerAction::Report,
        ]
    );
    assert_eq!(outcome, Ok("Workaround Task Registered Successfully".to_string()));
    assert!(!actions.contains(&RunnerAction::RunTask));
    assert!(!actions.contains(&RunnerAction::DeleteTask));
}

#[test]
fn boot_registration_rejection_reports_the_raw_error() {
    let spec = boot_workaround_request("\\Acme\\Start Acme Device Tunnel", "exit 0");
    let (actions, outcome) = drive(
        &spec,
        vec![
            StepOutcome::Completed,
            StepOutcome::CommandFailure("ERROR: Access is denied.".to_string()),
            StepOutcome::Completed,
        ],
    );
    assert!(actions.contains(&RunnerAction::DeleteDocument));
    assert_eq!(outcome, Err("ERROR: Access is denied.".to_string()));
}
