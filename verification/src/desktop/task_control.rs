//! Operator controls on tasks: retry, cancel, and the manual gate that holds
//! a task until someone confirms or rejects it. Each control reads the stored
//! status and decides what to write; the writes themselves happen elsewhere.
use vstd::prelude::*;

use crate::domain::state_machine::transition_allowed;
use crate::domain::task::{task_status_name, TaskStatus};
use crate::text::{concat2, concat3, nonblank_trimmed, owned, str_eq, trim_str};

verus! {

/// The status a stored status name stands for.
pub open spec fn status_of_name(name: Seq<char>) -> Option<TaskStatus> {
    if name == "pending"@ {
        Some(TaskStatus::Pending)
    } else if name == "queued"@ {
        Some(TaskStatus::Queued)
    } else if name == "running"@ {
        Some(TaskStatus::Running)
    } else if name == "succeeded"@ {
        Some(TaskStatus::Succeeded)
    } else if name == "failed"@ {
        Some(TaskStatus::Failed)
    } else if name == "cancelled"@ {
        Some(TaskStatus::Cancelled)
    } else if name == "timed_out"@ {
        Some(TaskStatus::TimedOut)
    } else {
        None
    }
}

/// Why a task control was refused.
#[derive(Debug, Clone)]
pub enum TaskControlError {
    TaskNotFound { task_id: String },
    RetryNotAllowed { status: String },
    RetryRaced { task_id: String },
    CancelNotAllowed { status: String },
    CancelRefusedByRunner { runner: String, message: String },
    GateIdRequired,
    GateNotFound { gate_id: String },
    GateNotPending { action: ManualGateAction, status: String },
}

/// What an operator does with a manual gate.
#[derive(Debug, Clone, Copy, PartialEq, Eq, Structural)]
pub enum ManualGateAction {
    Confirm,
    Reject,
}

/// The word for a manual gate action in messages and results.
pub open spec fn gate_action_word(action: ManualGateAction) -> Seq<char> {
    match action {
        ManualGateAction::Confirm => "confirmed"@,
        ManualGateAction::Reject => "rejected"@,
    }
}

/// The message each refusal is reported with.
pub open spec fn task_control_error_message(e: TaskControlError) -> Seq<char> {
    match e {
        TaskControlError::TaskNotFound { task_id } => "task not found: "@ + task_id@,
        TaskControlError::RetryNotAllowed { status } => "task status does not allow retry now: "@
            + status@,
        TaskControlError::RetryRaced { task_id } => "task status changed before retry could be applied: "@
            + task_id@,
        TaskControlError::CancelNotAllowed { status } => "task status does not allow cancel: "@
            + status@,
        TaskControlError::CancelRefusedByRunner { runner, message } =>
            "running task cancel was not accepted by runner "@ + runner@ + ": "@ + message@,
        TaskControlError::GateIdRequired => "manual_gate_request_id is required"@,
        TaskControlError::GateNotFound { gate_id } => "manual gate not found: "@ + gate_id@,
        TaskControlError::GateNotPending { action, status } => "manual gate cannot be "@
            + gate_action_word(action) + " from status: "@ + status@,
    }
}

fn gate_action_text(action: ManualGateAction) -> (w: &'static str)
    ensures
        w@ == gate_action_word(action),
{
    match action {
        ManualGateAction::Confirm => "confirmed",
        ManualGateAction::Reject => "rejected",
    }
}

impl TaskControlError {
    /// The message the refusal is reported with.
    pub fn message(&self) -> (m: String)
        ensures
            m@ == task_control_error_message(*self),
    {
        match self {
            TaskControlError::TaskNotFound { task_id } => concat2("task not found: ", task_id.as_str()),
            TaskControlError::RetryNotAllowed { status } => concat2(
                "task status does not allow retry now: ",
                status.as_str(),
            ),
            TaskControlError::RetryRaced { task_id } => concat2(
                "task status changed before retry could be applied: ",
                task_id.as_str(),
            ),
            TaskControlError::CancelNotAllowed { status } => concat2(
                "task status does not allow cancel: ",
                status.as_str(),
            ),
            TaskControlError::CancelRefusedByRunner { runner, message } => {
                let head = concat3(
                    "running task cancel was not accepted by runner ",
                    runner.as_str(),
                    ": ",
                );
                let m = concat2(head.as_str(), message.as_str());
                proof {
                    assert(m@ == "running task cancel was not accepted by runner "@ + runner@ + ": "@
                        + message@);
                }
                m
            },
            TaskControlError::GateIdRequired => owned("manual_gate_request_id is required"),
            TaskControlError::GateNotFound { gate_id } => concat2(
                "manual gate not found: ",
                gate_id.as_str(),
            ),
            TaskControlError::GateNotPending { action, status } => {
                let head = concat3("manual gate cannot be ", gate_action_text(*action), " from status: ");
                let m = concat2(head.as_str(), status.as_str());
                proof {
                    assert(m@ == "manual gate cannot be "@ + gate_action_word(*action) + " from status: "@
                        + status@);
                }
                m
            },
        }
    }
}

/// What a retry does to a task in a given status.
#[derive(Debug, Clone, Copy, PartialEq, Eq, Structural)]
pub enum RetryPlan {
    /// The task is queued already; the retry changes nothing.
    AlreadyQueued,
    /// The task goes back into the queue with its run state cleared.
    Requeue,
}

/// The retry plan for a stored status, or `None` where retry is refused.
pub open spec fn retry_plan_for(status: Seq<char>) -> Option<RetryPlan> {
    if status == "queued"@ {
        Some(RetryPlan::AlreadyQueued)
    } else if status == "failed"@ || status == "timed_out"@ {
        Some(RetryPlan::Requeue)
    } else {
        None
    }
}

/// Decides a retry of task `task_id` from its stored status (`None` where no
/// such task is stored).
pub fn plan_task_retry(task_id: &str, status: Option<String>) -> (r: Result<RetryPlan, TaskControlError>)
    ensures
        match status {
            None => r matches Err(TaskControlError::TaskNotFound { task_id: t }) && t@ == task_id@,
            Some(s) => match retry_plan_for(s@) {
                Some(p) => r == Ok::<RetryPlan, TaskControlError>(p),
                None => r matches Err(TaskControlError::RetryNotAllowed { status: st }) && st@ == s@,
            },
        },
{
    match status {
        None => Err(TaskControlError::TaskNotFound { task_id: owned(task_id) }),
        Some(s) => {
            if str_eq(s.as_str(), "queued") {
                Ok(RetryPlan::AlreadyQueued)
            } else if str_eq(s.as_str(), "failed") || str_eq(s.as_str(), "timed_out") {
                Ok(RetryPlan::Requeue)
            } else {
                Err(TaskControlError::RetryNotAllowed { status: s })
            }
        },
    }
}

/// The outcome of a requeue write: it is refused when no row changed, because
/// the status moved on between the read and the write.
pub fn settle_task_retry(task_id: &str, rows_affected: u64) -> (r: Result<(), TaskControlError>)
    ensures
        rows_affected == 0 <==> r is Err,
        r matches Err(TaskControlError::RetryRaced { task_id: t }) ==> t@ == task_id@,
        r is Err ==> r matches Err(TaskControlError::RetryRaced { .. }),
{
    if rows_affected == 0 {
        Err(TaskControlError::RetryRaced { task_id: owned(task_id) })
    } else {
        Ok(())
    }
}

/// The message a retry reports.
pub fn retry_message(plan: RetryPlan) -> (m: &'static str)
    ensures
        plan == RetryPlan::AlreadyQueued ==> m@ == "task already queued; retry treated as idempotent"@,
        plan == RetryPlan::Requeue ==> m@ == "task re-queued for retry"@,
{
    match plan {
        RetryPlan::AlreadyQueued => "task already queued; retry treated as idempotent",
        RetryPlan::Requeue => "task re-queued for retry",
    }
}

/// What a cancel does to a task in a given status.
#[derive(Debug, Clone, Copy, PartialEq, Eq, Structural)]
pub enum CancelPlan {
    /// The task leaves the queue before any runner took it.
    CancelQueued,
    /// The runner that holds the task is asked to stop it first.
    CancelRunning,
}

/// The cancel plan for a stored status, or `None` where cancel is refused.
pub open spec fn cancel_plan_for(status: Seq<char>) -> Option<CancelPlan> {
    if status == "queued"@ {
        Some(CancelPlan::CancelQueued)
    } else if status == "running"@ {
        Some(CancelPlan::CancelRunning)
    } else {
        None
    }
}

/// Decides a cancel of task `task_id` from its stored status (`None` where no
/// such task is stored).
pub fn plan_task_cancel(task_id: &str, status: Option<String>) -> (r: Result<CancelPlan, TaskControlError>)
    ensures
        match status {
            None => r matches Err(TaskControlError::TaskNotFound { task_id: t }) && t@ == task_id@,
            Some(s) => match cancel_plan_for(s@) {
                Some(p) => r == Ok::<CancelPlan, TaskControlError>(p),
                None => r matches Err(TaskControlError::CancelNotAllowed { status: st }) && st@ == s@,
            },
        },
{
    match status {
        None => Err(TaskControlError::TaskNotFound { task_id: owned(task_id) }),
        Some(s) => {
            if str_eq(s.as_str(), "queued") {
                Ok(CancelPlan::CancelQueued)
            } else if str_eq(s.as_str(), "running") {
                Ok(CancelPlan::CancelRunning)
            } else {
                Err(TaskControlError::CancelNotAllowed { status: s })
            }
        },
    }
}

/// The message a cancel of a queued task records.
pub fn queued_cancel_message() -> (m: &'static str)
    ensures
        m@ == "task cancelled while queued"@,
{
    "task cancelled while queued"
}

/// What the runner `runner` answered to a cancel of a running task decides:
/// a refusal is reported with the runner's words; an accepted cancel is
/// recorded with the message returned here.
pub fn settle_running_cancel(runner: &str, accepted: bool, runner_message: &str) -> (r: Result<
    String,
    TaskControlError,
>)
    ensures
        accepted ==> (r matches Ok(m) && m@ == "task cancelled while running; "@ + runner_message@),
        !accepted ==> (r matches Err(TaskControlError::CancelRefusedByRunner { runner: n, message: t })
            && n@ == runner@ && t@ == runner_message@),
{
    if accepted {
        Ok(concat2("task cancelled while running; ", runner_message))
    } else {
        Err(TaskControlError::CancelRefusedByRunner { runner: owned(runner), message: owned(runner_message) })
    }
}

/// The id a manual gate request names, trimmed; a blank id is refused.
pub fn requested_gate_id(raw: &str) -> (r: Result<String, TaskControlError>)
    ensures
        match r {
            Ok(id) => nonblank_trimmed(Some(raw@)) == Some(id@),
            Err(e) => nonblank_trimmed(Some(raw@)) is None && e is GateIdRequired,
        },
{
    let t = trim_str(raw);
    if t.as_str().is_empty() {
        Err(TaskControlError::GateIdRequired)
    } else {
        Ok(t)
    }
}

/// What a gate action does to a gate in a given status.
#[derive(Debug, Clone, Copy, PartialEq, Eq, Structural)]
pub enum GatePlan {
    /// Resolved the same way already; nothing changes.
    AlreadyResolved,
    /// The pending gate is resolved and its task moves on.
    Resolve,
}

/// The plan for an action on a manual gate in `status`, or `None` where
/// the action is refused.
pub open spec fn gate_plan_for(action: ManualGateAction, status: Seq<char>) -> Option<GatePlan> {
    if status == gate_action_word(action) {
        Some(GatePlan::AlreadyResolved)
    } else if status == "pending"@ {
        Some(GatePlan::Resolve)
    } else {
        None
    }
}

/// Decides a gate action from the stored gate (`None` where no gate with the
/// id `gate_id` is stored; otherwise its task id and status).
pub fn plan_manual_gate(action: ManualGateAction, gate_id: &str, stored: Option<(String, String)>) -> (r: Result<
    GatePlan,
    TaskControlError,
>)
    ensures
        match stored {
            None => r matches Err(TaskControlError::GateNotFound { gate_id: g }) && g@ == gate_id@,
            Some((_, s)) => match gate_plan_for(action, s@) {
                Some(p) => r == Ok::<GatePlan, TaskControlError>(p),
                None => r matches Err(TaskControlError::GateNotPending { action: a, status: st })
                    && a == action && st@ == s@,
            },
        },
{
    match stored {
        None => Err(TaskControlError::GateNotFound { gate_id: owned(gate_id) }),
        Some((_, s)) => {
            if str_eq(s.as_str(), gate_action_text(action)) {
                Ok(GatePlan::AlreadyResolved)
            } else if str_eq(s.as_str(), "pending") {
                Ok(GatePlan::Resolve)
            } else {
                Err(TaskControlError::GateNotPending { action, status: s })
            }
        },
    }
}

/// The status a gate action reports.
pub fn gate_result_status(action: ManualGateAction) -> (s: &'static str)
    ensures
        s@ == gate_action_word(action),
{
    gate_action_text(action)
}

/// The message a gate action reports.
pub fn gate_message(action: ManualGateAction, plan: GatePlan) -> (m: &'static str)
    ensures
        m@ == match (action, plan) {
            (ManualGateAction::Confirm, GatePlan::AlreadyResolved) => "manual gate already confirmed"@,
            (ManualGateAction::Reject, GatePlan::AlreadyResolved) => "manual gate already rejected"@,
            (ManualGateAction::Confirm, GatePlan::Resolve) => "manual gate confirmed; task queued for execution"@,
            (ManualGateAction::Reject, GatePlan::Resolve) => "manual gate rejected; task cancelled"@,
        },
{
    match (action, plan) {
        (ManualGateAction::Confirm, GatePlan::AlreadyResolved) => "manual gate already confirmed",
        (ManualGateAction::Reject, GatePlan::AlreadyResolved) => "manual gate already rejected",
        (ManualGateAction::Confirm, GatePlan::Resolve) => "manual gate confirmed; task queued for execution",
        (ManualGateAction::Reject, GatePlan::Resolve) => "manual gate rejected; task cancelled",
    }
}

/// The error a rejected gate leaves on its task: the operator's note, or a
/// default.
pub fn gate_rejection_message(note: &Option<String>) -> (m: String)
    ensures
        match note {
            Some(n) => m@ == n@,
            None => m@ == "manual gate rejected"@,
        },
{
    match note {
        Some(n) => owned(n.as_str()),
        None => owned("manual gate rejected"),
    }
}

/// The status a resolved gate moves its pending task to.
pub open spec fn gate_task_target(action: ManualGateAction) -> TaskStatus {
    match action {
        ManualGateAction::Confirm => TaskStatus::Queued,
        ManualGateAction::Reject => TaskStatus::Cancelled,
    }
}

/// The stored status names differ in their first letter.
proof fn lemma_status_names_first_letters()
    ensures
        "pending"@.len() > 0 && "pending"@[0] == 'p',
        "queued"@.len() > 0 && "queued"@[0] == 'q',
        "running"@.len() > 0 && "running"@[0] == 'r',
        "succeeded"@.len() > 0 && "succeeded"@[0] == 's',
        "failed"@.len() > 0 && "failed"@[0] == 'f',
        "cancelled"@.len() > 0 && "cancelled"@[0] == 'c',
        "timed_out"@.len() > 0 && "timed_out"@[0] == 't',
{
    reveal_strlit("pending");
    reveal_strlit("queued");
    reveal_strlit("running");
    reveal_strlit("succeeded");
    reveal_strlit("failed");
    reveal_strlit("cancelled");
    reveal_strlit("timed_out");
}

/// A retry writes only what the task scheduler allows: a requeue starts from a
/// status that may move back into the queue, and an idempotent retry finds
/// the task queued already.
pub proof fn lemma_retry_follows_scheduler(status: Seq<char>)
    ensures
        retry_plan_for(status) == Some(RetryPlan::Requeue) ==> (status_of_name(status) matches Some(
            from,
        ) && transition_allowed(from, TaskStatus::Queued)),
        retry_plan_for(status) == Some(RetryPlan::AlreadyQueued) ==> status_of_name(status) == Some(
            TaskStatus::Queued,
        ),
{
    lemma_status_names_first_letters();
}

/// A cancel writes only what the task scheduler allows: the task's status may
/// move to cancelled.
pub proof fn lemma_cancel_follows_scheduler(status: Seq<char>)
    ensures
        cancel_plan_for(status) is Some ==> (status_of_name(status) matches Some(from)
            && transition_allowed(from, TaskStatus::Cancelled)),
{
    lemma_status_names_first_letters();
}

/// Resolving a gate moves its pending task only where the scheduler allows:
/// a confirm queues it, a reject cancels it.
pub proof fn lemma_gate_follows_scheduler(action: ManualGateAction)
    ensures
        transition_allowed(TaskStatus::Pending, gate_task_target(action)),
{
}

/// Names and statuses agree: each status is read back from its own name.
pub proof fn lemma_status_names_round_trip(status: TaskStatus)
    ensures
        status_of_name(task_status_name(status)) == Some(status),
{
    lemma_status_names_first_letters();
}

/// Every control is idempotent where it says so: repeating a retry of a queued
/// task, or a gate action already taken, asks for no write.
pub proof fn lemma_repeat_controls_write_nothing(action: ManualGateAction)
    ensures
        retry_plan_for("queued"@) == Some(RetryPlan::AlreadyQueued),
        gate_plan_for(action, gate_action_word(action)) == Some(GatePlan::AlreadyResolved),
{
}

} // verus!
