use app_bootstrap::SetupError;
use app_bootstrap::phase::{phase_after_setup, AppPhase};
use app_bootstrap::setup::{run_setup, AssignOutcome, SetupAction, SetupDriver};

#[test]
fn no_windows_valid_icon() {
    let answers: Vec<bool> = vec![];
    let r = run_setup(true, &answers);
    assert_eq!(r.attempts, 0);
    assert_eq!(r.result, Ok(()));
    assert!(r.outcomes.is_empty());
}

#[test]
fn three_windows_all_accept() {
    let answers: Vec<bool> = vec![true, true, true];
    let r = run_setup(true, &answers);
    assert_eq!(r.attempts, 3);
    assert_eq!(r.result, Ok(()));
    assert_eq!(
        r.outcomes,
        vec![
            AssignOutcome::Assigned,
            AssignOutcome::Assigned,
            AssignOutcome::Assigned,
        ]
    );
    assert_eq!(phase_after_setup(&r.result), AppPhase::EventLoopRunning);
}

#[test]
fn three_windows_middle_fails() {
    let answers: Vec<bool> = vec![true, false, true];
    let r = run_setup(true, &answers);
    assert_eq!(r.attempts, 3);
    assert_eq!(r.result, Ok(()));
    assert_eq!(
        r.outcomes,
        vec![
            AssignOutcome::Assigned,
            AssignOutcome::Failed,
            AssignOutcome::Assigned,
        ]
    );
}

#[test]
fn all_assignments_fail_setup_still_succeeds() {
    let answers: Vec<bool> = vec![false, false];
    let r = run_setup(true, &answers);
    assert_eq!(r.attempts, 2);
    assert_eq!(r.result, Ok(()));
    assert_eq!(r.outcomes, vec![AssignOutcome::Failed, AssignOutcome::Failed]);
}

#[test]
fn invalid_icon_fails_setup() {
    let answers: Vec<bool> = vec![true];
    let r = run_setup(false, &answers);
    assert_eq!(r.attempts, 0);
    assert_eq!(r.result, Err(SetupError::InvalidIcon));
    assert!(r.outcomes.is_empty());
    assert_eq!(phase_after_setup(&r.result), AppPhase::Terminated);
}

#[test]
fn setup_idempotent_no_windows() {
    let answers: Vec<bool> = vec![];
    let first = run_setup(true, &answers);
    let second = run_setup(true, &answers);
    assert_eq!(first.attempts, 0);
    assert_eq!(second.attempts, first.attempts);
    assert_eq!(second.result, first.result);
    assert_eq!(second.outcomes, first.outcomes);
    assert_eq!(first.result, Ok(()));
}

#[test]
fn driver_walks_every_window_despite_failure() {
    let mut driver = SetupDriver::new(3);
    assert_eq!(driver.next_action(), SetupAction::DecodeIcon);
    driver.on_decoded(true);
    assert_eq!(driver.next_action(), SetupAction::AssignIcon(0));
    driver.on_assigned(true);
    assert_eq!(driver.next_action(), SetupAction::AssignIcon(1));
    driver.on_assigned(false);
    assert_eq!(driver.next_action(), SetupAction::AssignIcon(2));
    driver.on_assigned(true);
    assert_eq!(driver.next_action(), SetupAction::ReportSuccess);
    assert_eq!(driver.attempted, 3);
}

#[test]
fn driver_fails_before_any_assignment() {
    let mut driver = SetupDriver::new(2);
    assert_eq!(driver.next_action(), SetupAction::DecodeIcon);
    driver.on_decoded(false);
    assert_eq!(driver.next_action(), SetupAction::ReportFailure);
    assert_eq!(driver.attempted, 0);
}

#[test]
fn driver_succeeds_at_once_without_windows() {
    let mut driver = SetupDriver::new(0);
    driver.on_decoded(true);
    assert_eq!(driver.next_action(), SetupAction::ReportSuccess);
    assert_eq!(driver.attempted, 0);
}

#[test]
fn phase_follows_setup_result() {
    assert_eq!(phase_after_setup(&Ok(())), AppPhase::EventLoopRunning);
    assert_eq!(
        phase_after_setup(&Err(SetupError::InvalidIcon)),
        AppPhase::Terminated
    );
}
