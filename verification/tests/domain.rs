use persona_pilot::domain::run::RunStatus;
use persona_pilot::domain::state_machine::{can_transition, ensure_transition, TransitionError};
use persona_pilot::domain::task::TaskStatus;

#[test]
fn allows_expected_transitions() {
    assert!(can_transition(&TaskStatus::Pending, &TaskStatus::Queued));
    assert!(can_transition(&TaskStatus::Queued, &TaskStatus::Running));
    assert!(can_transition(&TaskStatus::Running, &TaskStatus::Succeeded));
    assert!(can_transition(&TaskStatus::Running, &TaskStatus::TimedOut));
    assert!(can_transition(&TaskStatus::Failed, &TaskStatus::Queued));
    assert!(can_transition(&TaskStatus::TimedOut, &TaskStatus::Queued));
}

#[test]
fn rejects_invalid_transitions() {
    assert!(!can_transition(&TaskStatus::Pending, &TaskStatus::Running));
    assert!(!can_transition(&TaskStatus::Queued, &TaskStatus::Succeeded));
    assert!(!can_transition(&TaskStatus::Succeeded, &TaskStatus::Queued));
    assert!(!can_transition(&TaskStatus::Cancelled, &TaskStatus::Queued));
}

fn all_statuses() -> Vec<TaskStatus> {
    vec![
        TaskStatus::Pending,
        TaskStatus::Queued,
        TaskStatus::Running,
        TaskStatus::Succeeded,
        TaskStatus::Failed,
        TaskStatus::Cancelled,
        TaskStatus::TimedOut,
    ]
}

#[test]
fn no_status_transitions_to_itself() {
    for s in all_statuses() {
        assert!(!can_transition(&s, &s));
    }
}

#[test]
fn succeeded_and_cancelled_have_no_exit() {
    for to in all_statuses() {
        assert!(!can_transition(&TaskStatus::Succeeded, &to));
        assert!(!can_transition(&TaskStatus::Cancelled, &to));
    }
}

#[test]
fn active_tasks_can_be_cancelled() {
    assert!(can_transition(&TaskStatus::Pending, &TaskStatus::Cancelled));
    assert!(can_transition(&TaskStatus::Queued, &TaskStatus::Cancelled));
    assert!(can_transition(&TaskStatus::Running, &TaskStatus::Cancelled));
}

#[test]
fn ensure_transition_reports_the_refused_pair() {
    assert!(ensure_transition(&TaskStatus::Pending, &TaskStatus::Queued).is_ok());
    match ensure_transition(&TaskStatus::Pending, &TaskStatus::Running) {
        Err(TransitionError::InvalidTransition { from, to }) => {
            assert!(matches!(from, TaskStatus::Pending));
            assert!(matches!(to, TaskStatus::Running));
        }
        Ok(()) => panic!("pending must not jump to running"),
    }
}

#[test]
fn task_status_wire_names() {
    assert_eq!(TaskStatus::Pending.as_str(), "pending");
    assert_eq!(TaskStatus::TimedOut.as_str(), "timed_out");
    assert!(TaskStatus::Succeeded.is_terminal());
    assert!(TaskStatus::Cancelled.is_terminal());
    assert!(TaskStatus::Failed.is_terminal());
    assert!(TaskStatus::TimedOut.is_terminal());
    assert!(!TaskStatus::Running.is_terminal());
    assert_eq!(RunStatus::Running.as_str(), "running");
}

#[test]
fn refused_transition_names_both_statuses() {
    let err = ensure_transition(&TaskStatus::Succeeded, &TaskStatus::Running).unwrap_err();
    assert_eq!(err.message(), "invalid task status transition: succeeded -> running");
    let err = ensure_transition(&TaskStatus::Cancelled, &TaskStatus::TimedOut).unwrap_err();
    assert_eq!(err.message(), "invalid task status transition: cancelled -> timed_out");
}
