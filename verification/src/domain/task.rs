use vstd::prelude::*;

verus! {

/// Lifecycle status of a queued task.
#[derive(Debug, Clone, Copy, PartialEq, Eq, Structural)]
pub enum TaskStatus {
    Pending,
    Queued,
    Running,
    Succeeded,
    Failed,
    Cancelled,
    TimedOut,
}

/// The wire name of a task status.
pub open spec fn task_status_name(status: TaskStatus) -> Seq<char> {
    match status {
        TaskStatus::Pending => "pending"@,
        TaskStatus::Queued => "queued"@,
        TaskStatus::Running => "running"@,
        TaskStatus::Succeeded => "succeeded"@,
        TaskStatus::Failed => "failed"@,
        TaskStatus::Cancelled => "cancelled"@,
        TaskStatus::TimedOut => "timed_out"@,
    }
}

/// A status is terminal when the worker has stopped working on the task.
pub open spec fn task_status_terminal(status: TaskStatus) -> bool {
    status == TaskStatus::Succeeded || status == TaskStatus::Failed
        || status == TaskStatus::Cancelled || status == TaskStatus::TimedOut
}

impl TaskStatus {
    pub fn as_str(&self) -> (name: &'static str)
        ensures
            name@ == task_status_name(*self),
    {
        match self {
            TaskStatus::Pending => "pending",
            TaskStatus::Queued => "queued",
            TaskStatus::Running => "running",
            TaskStatus::Succeeded => "succeeded",
            TaskStatus::Failed => "failed",
            TaskStatus::Cancelled => "cancelled",
            TaskStatus::TimedOut => "timed_out",
        }
    }

    pub fn is_terminal(&self) -> (terminal: bool)
        ensures
            terminal == task_status_terminal(*self),
    {
        match self {
            TaskStatus::Succeeded | TaskStatus::Failed | TaskStatus::Cancelled
            | TaskStatus::TimedOut => true,
            _ => false,
        }
    }
}

/// Raw input of a task as submitted by a caller.
#[derive(Debug, Clone)]
pub struct TaskInput {
    pub url: Option<String>,
    pub script: Option<String>,
    pub metadata_json: Option<String>,
    pub fingerprint_profile_id: Option<String>,
}

/// A task as stored by the scheduler.
#[derive(Debug, Clone)]
pub struct Task {
    pub id: String,
    pub kind: String,
    pub status: TaskStatus,
    pub priority: i32,
    pub input: TaskInput,
    pub fingerprint_profile_id: Option<String>,
    pub fingerprint_profile_version: Option<i64>,
    pub created_at: String,
}

} // verus!
