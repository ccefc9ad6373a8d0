use persona_pilot::desktop::task_control::{
    gate_message, gate_rejection_message, gate_result_status, plan_manual_gate, plan_task_cancel,
    plan_task_retry, queued_cancel_message, requested_gate_id, retry_message, settle_running_cancel,
    settle_task_retry, CancelPlan, GatePlan, ManualGateAction, RetryPlan, TaskControlError,
};

fn status(s: &str) -> Option<String> {
    Some(s.to_string())
}

#[test]
fn retry_requeues_failed_and_timed_out_tasks_only() {
    assert!(matches!(plan_task_retry("t1", status("failed")), Ok(RetryPlan::Requeue)));
    assert!(matches!(plan_task_retry("t1", status("timed_out")), Ok(RetryPlan::Requeue)));
    assert!(matches!(plan_task_retry("t1", status("queued")), Ok(RetryPlan::AlreadyQueued)));
    for refused in ["pending", "running", "succeeded", "cancelled", "FAILED"] {
        let err = plan_task_retry("t1", status(refused)).unwrap_err();
        assert_eq!(err.message(), format!("task status does not allow retry now: {refused}"));
    }
    let missing = plan_task_retry("t9", None).unwrap_err();
    assert_eq!(missing.message(), "task not found: t9");
    assert_eq!(retry_message(RetryPlan::AlreadyQueued), "task already queued; retry treated as idempotent");
    assert_eq!(retry_message(RetryPlan::Requeue), "task re-queued for retry");
}

#[test]
fn retry_write_that_changed_nothing_reports_a_race() {
    assert!(settle_task_retry("t1", 1).is_ok());
    let err = settle_task_retry("t1", 0).unwrap_err();
    assert_eq!(err.message(), "task status changed before retry could be applied: t1");
}

#[test]
fn cancel_handles_queued_and_running_tasks() {
    assert!(matches!(plan_task_cancel("t1", status("queued")), Ok(CancelPlan::CancelQueued)));
    assert!(matches!(plan_task_cancel("t1", status("running")), Ok(CancelPlan::CancelRunning)));
    let err = plan_task_cancel("t1", status("succeeded")).unwrap_err();
    assert_eq!(err.message(), "task status does not allow cancel: succeeded");
    assert_eq!(plan_task_cancel("t2", None).unwrap_err().message(), "task not found: t2");
    assert_eq!(queued_cancel_message(), "task cancelled while queued");
    assert_eq!(
        settle_running_cancel("fake", true, "stopped").unwrap(),
        "task cancelled while running; stopped"
    );
    let refused = settle_running_cancel("lightpanda", false, "busy").unwrap_err();
    assert!(matches!(refused, TaskControlError::CancelRefusedByRunner { .. }));
    assert_eq!(refused.message(), "running task cancel was not accepted by runner lightpanda: busy");
}

#[test]
fn manual_gate_confirm_and_reject() {
    assert_eq!(requested_gate_id("  gate-1 ").unwrap(), "gate-1");
    assert_eq!(requested_gate_id("   ").unwrap_err().message(), "manual_gate_request_id is required");

    let pending = Some(("task-1".to_string(), "pending".to_string()));
    assert!(matches!(plan_manual_gate(ManualGateAction::Confirm, "g", pending.clone()), Ok(GatePlan::Resolve)));
    assert!(matches!(plan_manual_gate(ManualGateAction::Reject, "g", pending), Ok(GatePlan::Resolve)));
    let confirmed = Some(("task-1".to_string(), "confirmed".to_string()));
    assert!(matches!(
        plan_manual_gate(ManualGateAction::Confirm, "g", confirmed.clone()),
        Ok(GatePlan::AlreadyResolved)
    ));
    let err = plan_manual_gate(ManualGateAction::Reject, "g", confirmed).unwrap_err();
    assert_eq!(err.message(), "manual gate cannot be rejected from status: confirmed");
    let err = plan_manual_gate(ManualGateAction::Confirm, "g", Some(("t".to_string(), "rejected".to_string()))).unwrap_err();
    assert_eq!(err.message(), "manual gate cannot be confirmed from status: rejected");
    assert_eq!(plan_manual_gate(ManualGateAction::Confirm, "g7", None).unwrap_err().message(), "manual gate not found: g7");

    assert_eq!(gate_result_status(ManualGateAction::Confirm), "confirmed");
    assert_eq!(gate_result_status(ManualGateAction::Reject), "rejected");
    assert_eq!(gate_message(ManualGateAction::Confirm, GatePlan::Resolve), "manual gate confirmed; task queued for execution");
    assert_eq!(gate_message(ManualGateAction::Reject, GatePlan::Resolve), "manual gate rejected; task cancelled");
    assert_eq!(gate_message(ManualGateAction::Confirm, GatePlan::AlreadyResolved), "manual gate already confirmed");
    assert_eq!(gate_message(ManualGateAction::Reject, GatePlan::AlreadyResolved), "manual gate already rejected");
    assert_eq!(gate_rejection_message(&Some("not today".to_string())), "not today");
    assert_eq!(gate_rejection_message(&None), "manual gate rejected");
}

#[test]
fn repeated_controls_are_idempotent() {
    // A second retry of a queued task and a second confirm of a confirmed gate write nothing.
    assert!(matches!(plan_task_retry("t", status("queued")), Ok(RetryPlan::AlreadyQueued)));
    assert!(matches!(
        plan_manual_gate(ManualGateAction::Reject, "g", Some(("t".to_string(), "rejected".to_string()))),
        Ok(GatePlan::AlreadyResolved)
    ));
}
