use vstd::prelude::*;

verus! {

/// Lifecycle status of one execution attempt of a task.
#[derive(Debug, Clone, Copy, PartialEq, Eq, Structural)]
pub enum RunStatus {
    Pending,
    Running,
    Succeeded,
    Failed,
    Cancelled,
    TimedOut,
}

/// The wire name of a run status.
pub open spec fn run_status_name(status: RunStatus) -> Seq<char> {
    match status {
        RunStatus::Pending => "pending"@,
        RunStatus::Running => "running"@,
        RunStatus::Succeeded => "succeeded"@,
        RunStatus::Failed => "failed"@,
        RunStatus::Cancelled => "cancelled"@,
        RunStatus::TimedOut => "timed_out"@,
    }
}

impl RunStatus {
    pub fn as_str(&self) -> (name: &'static str)
        ensures
            name@ == run_status_name(*self),
    {
        match self {
            RunStatus::Pending => "pending",
            RunStatus::Running => "running",
            RunStatus::Succeeded => "succeeded",
            RunStatus::Failed => "failed",
            RunStatus::Cancelled => "cancelled",
            RunStatus::TimedOut => "timed_out",
        }
    }
}

/// One execution attempt of a task.
#[derive(Debug, Clone)]
pub struct Run {
    pub id: String,
    pub task_id: String,
    pub status: RunStatus,
    pub attempt: i32,
    pub runner_kind: String,
}

} // verus!
