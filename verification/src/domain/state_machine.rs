use vstd::prelude::*;

use super::task::{task_status_name, task_status_terminal, TaskStatus};
use crate::text::concat3;

verus! {

/// The transitions that the task scheduler allows.
pub open spec fn transition_allowed(from: TaskStatus, to: TaskStatus) -> bool {
    match (from, to) {
        (TaskStatus::Pending, TaskStatus::Queued) => true,
        (TaskStatus::Pending, TaskStatus::Cancelled) => true,
        (TaskStatus::Queued, TaskStatus::Running) => true,
        (TaskStatus::Queued, TaskStatus::Cancelled) => true,
        (TaskStatus::Running, TaskStatus::Succeeded) => true,
        (TaskStatus::Running, TaskStatus::Failed) => true,
        (TaskStatus::Running, TaskStatus::Cancelled) => true,
        (TaskStatus::Running, TaskStatus::TimedOut) => true,
        (TaskStatus::Failed, TaskStatus::Queued) => true,
        (TaskStatus::TimedOut, TaskStatus::Queued) => true,
        _ => false,
    }
}

/// Why a requested status change was refused.
#[derive(Debug, Clone, Copy, PartialEq, Eq, Structural)]
pub enum TransitionError {
    InvalidTransition { from: TaskStatus, to: TaskStatus },
}

impl TransitionError {
    /// The message the refusal is reported with.
    pub fn message(&self) -> (m: String)
        ensures
            m@ == match self {
                TransitionError::InvalidTransition { from, to } =>
                    "invalid task status transition: "@ + task_status_name(*from) + " -> "@ + task_status_name(*to),
            },
    {
        match self {
            TransitionError::InvalidTransition { from, to } => {
                let head = concat3("invalid task status transition: ", from.as_str(), " -> ");
                let mut m = head;
                m.append(to.as_str());
                m
            },
        }
    }
}

pub fn can_transition(from: &TaskStatus, to: &TaskStatus) -> (allowed: bool)
    ensures
        allowed == transition_allowed(*from, *to),
{
    match (from, to) {
        (TaskStatus::Pending, TaskStatus::Queued)
        | (TaskStatus::Pending, TaskStatus::Cancelled)
        | (TaskStatus::Queued, TaskStatus::Running)
        | (TaskStatus::Queued, TaskStatus::Cancelled)
        | (TaskStatus::Running, TaskStatus::Succeeded)
        | (TaskStatus::Running, TaskStatus::Failed)
        | (TaskStatus::Running, TaskStatus::Cancelled)
        | (TaskStatus::Running, TaskStatus::TimedOut)
        | (TaskStatus::Failed, TaskStatus::Queued)
        | (TaskStatus::TimedOut, TaskStatus::Queued) => true,
        _ => false,
    }
}

pub fn ensure_transition(from: &TaskStatus, to: &TaskStatus) -> (result: Result<(), TransitionError>)
    ensures
        result is Ok <==> transition_allowed(*from, *to),
        result is Err ==> result == Err::<(), TransitionError>(
            TransitionError::InvalidTransition { from: *from, to: *to },
        ),
{
    if can_transition(from, to) {
        Ok(())
    } else {
        Err(TransitionError::InvalidTransition { from: *from, to: *to })
    }
}

/// A task never stays in place: every allowed transition changes the status.
pub proof fn lemma_transition_changes_status(from: TaskStatus, to: TaskStatus)
    requires
        transition_allowed(from, to),
    ensures
        from != to,
{
}

/// Succeeded and cancelled tasks are final: no transition leaves them.
pub proof fn lemma_final_states_have_no_exit(from: TaskStatus, to: TaskStatus)
    requires
        from == TaskStatus::Succeeded || from == TaskStatus::Cancelled,
    ensures
        !transition_allowed(from, to),
{
}

/// The only way out of a terminal status is a retry back into the queue,
/// and only failed or timed-out tasks can be retried.
pub proof fn lemma_terminal_exit_is_retry(from: TaskStatus, to: TaskStatus)
    requires
        task_status_terminal(from),
        transition_allowed(from, to),
    ensures
        to == TaskStatus::Queued,
        from == TaskStatus::Failed || from == TaskStatus::TimedOut,
{
}

/// Only a running task can reach succeeded, failed or timed out.
pub proof fn lemma_outcomes_come_from_running(from: TaskStatus, to: TaskStatus)
    requires
        transition_allowed(from, to),
        to == TaskStatus::Succeeded || to == TaskStatus::Failed || to == TaskStatus::TimedOut,
    ensures
        from == TaskStatus::Running,
{
}

/// A task starts running only from the queue.
pub proof fn lemma_running_comes_from_queue(from: TaskStatus)
    requires
        transition_allowed(from, TaskStatus::Running),
    ensures
        from == TaskStatus::Queued,
{
}

/// Every non-terminal status can still be cancelled.
pub proof fn lemma_active_tasks_can_be_cancelled(from: TaskStatus)
    requires
        !task_status_terminal(from),
    ensures
        transition_allowed(from, TaskStatus::Cancelled),
{
}

/// A running task can end in every outcome: succeeded, failed, cancelled or
/// timed out are each reachable from running in one step.
pub proof fn lemma_running_reaches_every_outcome(to: TaskStatus)
    requires
        task_status_terminal(to),
    ensures
        transition_allowed(TaskStatus::Running, to),
{
}

/// The whole lifecycle is open: a pending task can be queued, a queued task
/// started, and a failed or timed-out task queued again.
pub proof fn lemma_lifecycle_steps_allowed()
    ensures
        transition_allowed(TaskStatus::Pending, TaskStatus::Queued),
        transition_allowed(TaskStatus::Queued, TaskStatus::Running),
        transition_allowed(TaskStatus::Failed, TaskStatus::Queued),
        transition_allowed(TaskStatus::TimedOut, TaskStatus::Queued),
{
}

} // verus!
