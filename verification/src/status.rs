//! The two status vocabularies of the server: the state of the single slot,
//! and the state of the task it currently holds.

use vstd::prelude::*;

verus! {

/// State of the single task slot, as observed by clients.
#[derive(Clone, Copy, Debug, PartialEq, Eq, Structural)]
pub enum ServerStatus {
    /// No client holds the slot.
    Free,
    /// A client has reserved the slot but has not yet submitted work.
    Locked,
    /// Work has been submitted; it is executing, done, or failed awaiting pickup.
    Working,
    /// Terminal, degraded state; never recovered from without a restart.
    Unknown,
}

/// State of the task currently held by the slot.
#[derive(Clone, Copy, Debug, PartialEq, Eq, Structural)]
pub enum TaskStatus {
    /// Submitted, queued for the executor.
    Ready,
    /// The executor is running the task.
    Working,
    /// Result bytes are available.
    Done,
    /// An error string is available.
    Failed,
    /// The result has already been delivered to the client.
    Returned,
}

/// The wire name of a slot status, as the lock RPC reports it.
pub open spec fn server_status_name(s: ServerStatus) -> Seq<char> {
    match s {
        ServerStatus::Free => "Free"@,
        ServerStatus::Locked => "Locked"@,
        ServerStatus::Working => "Working"@,
        ServerStatus::Unknown => "Unknown"@,
    }
}

/// The wire name of a task status, as the poll RPC reports it.
pub open spec fn task_status_name(s: TaskStatus) -> Seq<char> {
    match s {
        TaskStatus::Ready => "Ready"@,
        TaskStatus::Working => "Working"@,
        TaskStatus::Done => "Done"@,
        TaskStatus::Failed => "Failed"@,
        TaskStatus::Returned => "Returned"@,
    }
}

impl Default for ServerStatus {
    /// A fresh slot is free.
    fn default() -> (s: Self)
        ensures
            s == ServerStatus::Free,
    {
        ServerStatus::Free
    }
}

impl Default for TaskStatus {
    /// A fresh task record is queued for the executor.
    fn default() -> (s: Self)
        ensures
            s == TaskStatus::Ready,
    {
        TaskStatus::Ready
    }
}

impl ServerStatus {
    /// The name of this status for RPC responses.
    pub fn as_str(&self) -> (r: &'static str)
        ensures
            r@ == server_status_name(*self),
    {
        match self {
            ServerStatus::Free => "Free",
            ServerStatus::Locked => "Locked",
            ServerStatus::Working => "Working",
            ServerStatus::Unknown => "Unknown",
        }
    }
}

impl TaskStatus {
    /// The name of this status for RPC responses.
    pub fn as_str(&self) -> (r: &'static str)
        ensures
            r@ == task_status_name(*self),
    {
        match self {
            TaskStatus::Ready => "Ready",
            TaskStatus::Working => "Working",
            TaskStatus::Done => "Done",
            TaskStatus::Failed => "Failed",
            TaskStatus::Returned => "Returned",
        }
    }
}

} // verus!
