//! The single-slot state machine.
//!
//! All operations are atomic: the caller serializes them (one mutex around
//! the [`ServerInfo`] record) and evaluates every timing decision against a
//! monotonic timestamp in milliseconds taken at operation entry.

use vstd::prelude::*;
use vstd::string::StringExecFns;

use crate::error::Error;
use crate::rpc::{SnarkTaskRequestParams, SnarkTaskRequestParamsView};
use crate::status::{ServerStatus, TaskStatus};
use crate::tasks::{
    clone_bytes, fresh_lock_task, set_task_info, task_of_params, zeroed_task, TaskInfo,
    TaskInfoView,
};

verus! {

/// Longest a reservation may sit without a submission before another
/// client may steal the slot, in milliseconds.
pub const SERVER_LOCK_TIME_OUT_DEFAULT_MS: u64 = 10_000;

/// Longest a finished task may await pickup before another client may
/// steal the slot and discard it, in milliseconds.
pub const SERVER_TASK_GET_BACK_TIME_OUT_DEFAULT_MS: u64 = 60_000;

/// Idle time in the free state after a completed task that should make the
/// process exit, in milliseconds.
pub const SERVER_EXIT_TIME_OUT_AFTER_TASK_DONE_DEFAULT_MS: u64 = 300_000;

/// Everything the server knows: the one task slot, its status, and the
/// timeout policy. Accessed under a single mutex by the caller.
#[derive(Debug)]
pub struct ServerInfo {
    pub task_info: TaskInfo,
    pub status: ServerStatus,
    pub last_update_time: u64,
    pub server_lock_time_out: u64,
    pub server_task_get_back_time_out: u64,
    pub server_exit_time_out_after_task_done: u64,
    pub error: String,
}

/// Mathematical image of [`ServerInfo`].
#[verifier::ext_equal]
pub struct ServerInfoView {
    pub task_info: TaskInfoView,
    pub status: ServerStatus,
    pub last_update_time: u64,
    pub server_lock_time_out: u64,
    pub server_task_get_back_time_out: u64,
    pub server_exit_time_out_after_task_done: u64,
    pub error: Seq<char>,
}

impl View for ServerInfo {
    type V = ServerInfoView;

    open spec fn view(&self) -> ServerInfoView {
        ServerInfoView {
            task_info: self.task_info@,
            status: self.status,
            last_update_time: self.last_update_time,
            server_lock_time_out: self.server_lock_time_out,
            server_task_get_back_time_out: self.server_task_get_back_time_out,
            server_exit_time_out_after_task_done: self.server_exit_time_out_after_task_done,
            error: self.error@,
        }
    }
}

/// The well-formedness every operation preserves:
/// a reserved slot carries the reserving id and nothing else; a working
/// slot carries a real task; a done task has its result; the error field
/// is exactly the message of a failed task.
pub open spec fn inv(s: ServerInfoView) -> bool {
    &&& s.status is Locked ==> {
        &&& s.task_info.task_id.len() > 0
        &&& s.task_info.task_status is Ready
        &&& s.task_info.result.len() == 0
    }
    &&& s.status is Working ==> {
        &&& s.task_info.task_id.len() > 0
        &&& s.task_info.task_status !is Returned
    }
    &&& s.task_info.task_status is Done ==> s.task_info.result.len() > 0
    &&& (s.task_info.task_status is Failed <==> s.error.len() > 0)
}

/// The state of a server that has just started, with the default timeout
/// policy and the clock reading `now`.
pub open spec fn initial_server(now: u64) -> ServerInfoView {
    ServerInfoView {
        task_info: zeroed_task(),
        status: ServerStatus::Free,
        last_update_time: now,
        server_lock_time_out: SERVER_LOCK_TIME_OUT_DEFAULT_MS,
        server_task_get_back_time_out: SERVER_TASK_GET_BACK_TIME_OUT_DEFAULT_MS,
        server_exit_time_out_after_task_done: SERVER_EXIT_TIME_OUT_AFTER_TASK_DONE_DEFAULT_MS,
        error: Seq::empty(),
    }
}

/// Whether a lock request arriving at `now` acquires the slot: the slot is
/// free, or its reservation went stale, or its finished task was never
/// picked up within the get-back window.
pub open spec fn lock_acquires(s: ServerInfoView, now: u64) -> bool {
    match s.status {
        ServerStatus::Free => true,
        ServerStatus::Locked => now - s.last_update_time > s.server_lock_time_out,
        ServerStatus::Working => (s.task_info.task_status is Done
            || s.task_info.task_status is Failed) && now - s.last_update_time
            >= s.server_task_get_back_time_out,
        ServerStatus::Unknown => false,
    }
}

/// The status a lock request observes: `Free` means the caller now holds
/// the slot; anything else reports who stands in the way.
pub open spec fn lock_outcome(s: ServerInfoView, now: u64) -> ServerStatus {
    if lock_acquires(s, now) {
        ServerStatus::Free
    } else {
        s.status
    }
}

/// The state after a lock request by `id` at `now`.
pub open spec fn lock_next(s: ServerInfoView, id: Seq<char>, now: u64) -> ServerInfoView {
    if lock_acquires(s, now) {
        ServerInfoView {
            task_info: fresh_lock_task(id),
            status: ServerStatus::Locked,
            last_update_time: now,
            error: Seq::empty(),
            ..s
        }
    } else {
        s
    }
}

/// Why a submission was refused.
#[derive(Debug)]
pub enum SubmitRefusal {
    /// The slot is reserved by a different task id.
    LockedByAnotherTask,
    /// The slot was never reserved.
    ServerFree,
    /// The slot already carries submitted work.
    ServerWorking,
    /// The server is in its terminal degraded state.
    ServerUnknown,
}

/// The message each submit refusal renders to.
pub open spec fn submit_refusal_message(f: SubmitRefusal) -> Seq<char> {
    match f {
        SubmitRefusal::LockedByAnotherTask => "server was locked by another task, can not be used now"@,
        SubmitRefusal::ServerFree => "server should be locked until task is executed"@,
        SubmitRefusal::ServerWorking => "server is working on another task, can not be used now"@,
        SubmitRefusal::ServerUnknown => "server is Unknown, can not be used now"@,
    }
}

impl SubmitRefusal {
    /// Render this refusal as the message a client sees.
    pub fn message(&self) -> (m: &'static str)
        ensures
            m@ == submit_refusal_message(*self),
    {
        match self {
            SubmitRefusal::LockedByAnotherTask => "server was locked by another task, can not be used now",
            SubmitRefusal::ServerFree => "server should be locked until task is executed",
            SubmitRefusal::ServerWorking => "server is working on another task, can not be used now",
            SubmitRefusal::ServerUnknown => "server is Unknown, can not be used now",
        }
    }
}

/// Why an unlock was refused.
#[derive(Debug)]
pub enum UnlockRefusal {
    /// There is nothing to release.
    AlreadyFree,
    /// The slot is reserved by a different task id.
    LockedByAnotherTask { locked_by: String, requested: String },
    /// The slot is working or degraded; only a reservation can be released.
    NotLocked,
}

/// The message each unlock refusal renders to.
pub open spec fn unlock_refusal_message(f: UnlockRefusal) -> Seq<char> {
    match f {
        UnlockRefusal::AlreadyFree => "server is already Free"@,
        UnlockRefusal::LockedByAnotherTask { locked_by, requested } =>
            "can not be unlocked by another task ,which is locked by task_id:"@ + locked_by@
            + ",but "@ + requested@,
        UnlockRefusal::NotLocked => "this operation just used to unlock a server in status Locked"@,
    }
}

impl UnlockRefusal {
    /// Render this refusal as the message a client sees.
    pub fn message(&self) -> (m: String)
        ensures
            m@ == unlock_refusal_message(*self),
    {
        match self {
            UnlockRefusal::AlreadyFree => "server is already Free".to_owned(),
            UnlockRefusal::LockedByAnotherTask { locked_by, requested } => {
                let mut m = "can not be unlocked by another task ,which is locked by task_id:".to_owned();
                m.append(locked_by.as_str());
                m.append(",but ");
                m.append(requested.as_str());
                m
            },
            UnlockRefusal::NotLocked => "this operation just used to unlock a server in status Locked".to_owned(),
        }
    }
}

/// Whether a submission with id `id` is accepted: the slot must be
/// reserved, by that very id.
pub open spec fn submit_accepts(s: ServerInfoView, id: Seq<char>) -> bool {
    s.status is Locked && s.task_info.task_id == id
}

/// The refusal a rejected submission reports, by slot status.
pub open spec fn submit_refusal_for(s: ServerInfoView) -> SubmitRefusal {
    match s.status {
        ServerStatus::Locked => SubmitRefusal::LockedByAnotherTask,
        ServerStatus::Free => SubmitRefusal::ServerFree,
        ServerStatus::Working => SubmitRefusal::ServerWorking,
        ServerStatus::Unknown => SubmitRefusal::ServerUnknown,
    }
}

/// The state after a submission with parameters `p` at `now`.
pub open spec fn submit_next(
    s: ServerInfoView,
    p: SnarkTaskRequestParamsView,
    now: u64,
) -> ServerInfoView {
    if submit_accepts(s, p.task_id) {
        ServerInfoView {
            task_info: task_of_params(p),
            status: ServerStatus::Working,
            last_update_time: now,
            ..s
        }
    } else {
        s
    }
}

/// Whether a poll or a pickup with id `id` addresses the current task.
pub open spec fn get_owned(s: ServerInfoView, id: Seq<char>) -> bool {
    s.status is Working && s.task_info.task_id == id
}

/// The message a poll with the wrong id reports, quoting both ids.
pub open spec fn invalid_result_request_msg(current: Seq<char>, requested: Seq<char>) -> Seq<
    char,
> {
    "current working task id is:"@ + current + ",but:"@ + requested
}

/// The state after a poll with id `id` at `now`: delivering a done or a
/// failed task frees the slot; anything else changes nothing.
pub open spec fn get_next(s: ServerInfoView, id: Seq<char>, now: u64) -> ServerInfoView {
    if get_owned(s, id) {
        if s.task_info.task_status is Done {
            ServerInfoView {
                status: ServerStatus::Free,
                last_update_time: now,
                task_info: TaskInfoView { task_status: TaskStatus::Returned, ..s.task_info },
                ..s
            }
        } else if s.task_info.task_status is Failed {
            ServerInfoView { status: ServerStatus::Free, last_update_time: now, ..s }
        } else {
            s
        }
    } else {
        s
    }
}

/// Whether an unlock with id `id` is accepted: only the reserving client
/// may release its own reservation.
pub open spec fn unlock_accepts(s: ServerInfoView, id: Seq<char>) -> bool {
    s.status is Locked && s.task_info.task_id == id
}

/// The state after an unlock with id `id` at `now`.
pub open spec fn unlock_next(s: ServerInfoView, id: Seq<char>, now: u64) -> ServerInfoView {
    if unlock_accepts(s, id) {
        ServerInfoView {
            task_info: zeroed_task(),
            status: ServerStatus::Free,
            last_update_time: now,
            ..s
        }
    } else {
        s
    }
}

/// Whether submitted work is waiting for the executor to pick it up.
pub open spec fn run_pending(s: ServerInfoView) -> bool {
    s.status is Working && s.task_info.task_status is Ready
}

/// The state after the executor picked the queued task up at `now`.
pub open spec fn start_next(s: ServerInfoView, now: u64) -> ServerInfoView {
    if run_pending(s) {
        ServerInfoView {
            task_info: TaskInfoView { task_status: TaskStatus::Working, ..s.task_info },
            last_update_time: now,
            ..s
        }
    } else {
        s
    }
}

/// Whether the executor finishing task `id` still owns the slot: the slot
/// was not stolen and still runs that very task.
pub open spec fn write_owned(s: ServerInfoView, id: Seq<char>) -> bool {
    s.status is Working && s.task_info.task_id == id && s.task_info.task_status is Working
}

/// The state after the executor reports success for task `id` at `now`.
/// A write whose task no longer owns the slot is dropped.
pub open spec fn complete_next(
    s: ServerInfoView,
    id: Seq<char>,
    result: Seq<u8>,
    now: u64,
) -> ServerInfoView {
    if write_owned(s, id) {
        ServerInfoView {
            task_info: TaskInfoView { result, task_status: TaskStatus::Done, ..s.task_info },
            last_update_time: now,
            ..s
        }
    } else {
        s
    }
}

/// The state after the executor reports failure for task `id` at `now`.
/// A write whose task no longer owns the slot is dropped.
pub open spec fn fail_next(
    s: ServerInfoView,
    id: Seq<char>,
    error: Seq<char>,
    now: u64,
) -> ServerInfoView {
    if write_owned(s, id) {
        ServerInfoView {
            task_info: TaskInfoView { task_status: TaskStatus::Failed, ..s.task_info },
            error,
            last_update_time: now,
            ..s
        }
    } else {
        s
    }
}

impl Default for ServerInfo {
    /// A fresh server: slot free, default timeout policy, clock origin.
    fn default() -> (s: Self)
        ensures
            s@ == initial_server(0),
            inv(s@),
    {
        ServerInfo::new(0)
    }
}

impl ServerInfo {
    /// A fresh server whose monotonic clock reads `now`.
    pub fn new(now: u64) -> (s: Self)
        ensures
            s@ == initial_server(now),
            inv(s@),
    {
        let s = ServerInfo {
            task_info: TaskInfo::default(),
            status: ServerStatus::Free,
            last_update_time: now,
            server_lock_time_out: SERVER_LOCK_TIME_OUT_DEFAULT_MS,
            server_task_get_back_time_out: SERVER_TASK_GET_BACK_TIME_OUT_DEFAULT_MS,
            server_exit_time_out_after_task_done: SERVER_EXIT_TIME_OUT_AFTER_TASK_DONE_DEFAULT_MS,
            error: String::new(),
        };
        proof {
            assert(s@ =~= initial_server(now));
        }
        s
    }

    /// Reserve the slot for `task_id` if it is free, or steal it from a
    /// stale reservation or an abandoned finished task. The returned
    /// status is what the caller observes: `Free` means acquisition
    /// succeeded and the prior occupant, if any, is discarded.
    pub fn lock_server_if_free(&mut self, task_id: String, now: u64) -> (r: ServerStatus)
        requires
            inv(old(self)@),
            task_id@.len() > 0,
            now >= old(self)@.last_update_time,
        ensures
            inv(final(self)@),
            r == lock_outcome(old(self)@, now),
            final(self)@ == lock_next(old(self)@, task_id@, now),
    {
        let acquires: bool = match self.status {
            ServerStatus::Free => true,
            ServerStatus::Locked => now - self.last_update_time > self.server_lock_time_out,
            ServerStatus::Working => (self.task_info.task_status == TaskStatus::Done
                || self.task_info.task_status == TaskStatus::Failed) && now
                - self.last_update_time >= self.server_task_get_back_time_out,
            ServerStatus::Unknown => false,
        };
        if acquires {
            self.task_info = TaskInfo::default();
            self.task_info.task_id = task_id;
            self.status = ServerStatus::Locked;
            self.last_update_time = now;
            self.error = String::new();
            proof {
                assert(self@ =~= lock_next(old(self)@, self.task_info.task_id@, now));
            }
            ServerStatus::Free
        } else {
            self.status
        }
    }

    /// Accept submitted work from the client that reserved the slot:
    /// populate the task record, mark the slot working, and tell the
    /// caller to signal the executor. Any other caller or status is
    /// refused and nothing changes.
    pub fn do_task(&mut self, task_params: &SnarkTaskRequestParams, now: u64) -> (r: Result<
        (),
        SubmitRefusal,
    >)
        requires
            inv(old(self)@),
            now >= old(self)@.last_update_time,
        ensures
            inv(final(self)@),
            final(self)@ == submit_next(old(self)@, task_params@, now),
            r is Ok <==> submit_accepts(old(self)@, task_params@.task_id),
            r matches Err(f) ==> f == submit_refusal_for(old(self)@),
    {
        if self.status == ServerStatus::Locked && self.task_info.task_id == task_params.task_id {
            self.task_info = set_task_info(task_params);
            self.status = ServerStatus::Working;
            self.last_update_time = now;
            proof {
                assert(self@ =~= submit_next(old(self)@, task_params@, now));
            }
            Ok(())
        } else {
            let refusal = match self.status {
                ServerStatus::Locked => SubmitRefusal::LockedByAnotherTask,
                ServerStatus::Free => SubmitRefusal::ServerFree,
                ServerStatus::Working => SubmitRefusal::ServerWorking,
                ServerStatus::Unknown => SubmitRefusal::ServerUnknown,
            };
            Err(refusal)
        }
    }

    /// Hand the current task's outcome to the polling client. Delivering a
    /// done task returns its bytes and frees the slot; delivering a failed
    /// task returns its error and frees the slot; a task still in progress
    /// returns empty bytes and changes nothing.
    pub fn get_task_result(&mut self, task_id: String, now: u64) -> (r: Result<Vec<u8>, Error>)
        requires
            inv(old(self)@),
            now >= old(self)@.last_update_time,
        ensures
            inv(final(self)@),
            final(self)@ == get_next(old(self)@, task_id@, now),
            old(self)@.status !is Working ==> (r matches Err(e) && e is NoTaskRunningOnSever),
            old(self)@.status is Working && task_id@ != old(self)@.task_info.task_id ==> (
            r matches Err(e) && e matches Error::InvalidParameters(m) && m@
                == invalid_result_request_msg(old(self)@.task_info.task_id, task_id@)),
            get_owned(old(self)@, task_id@) && old(self)@.task_info.task_status is Done ==> (
            r matches Ok(b) && b@ == old(self)@.task_info.result),
            get_owned(old(self)@, task_id@) && old(self)@.task_info.task_status is Failed ==> (
            r matches Err(e) && e matches Error::TaskFailedWithError(m) && m@ == old(self)@.error),
            get_owned(old(self)@, task_id@) && (old(self)@.task_info.task_status is Ready || old(
                self,
            )@.task_info.task_status is Working) ==> (r matches Ok(b) && b@.len() == 0),
    {
        if self.status == ServerStatus::Working {
            if task_id != self.task_info.task_id {
                let mut m = "current working task id is:".to_owned();
                m.append(self.task_info.task_id.as_str());
                m.append(",but:");
                m.append(task_id.as_str());
                Err(Error::InvalidParameters(m))
            } else {
                if self.task_info.task_status == TaskStatus::Done {
                    let bytes = clone_bytes(&self.task_info.result);
                    self.status = ServerStatus::Free;
                    self.last_update_time = now;
                    self.task_info.task_status = TaskStatus::Returned;
                    proof {
                        assert(self@ =~= get_next(old(self)@, task_id@, now));
                    }
                    Ok(bytes)
                } else if self.task_info.task_status == TaskStatus::Failed {
                    self.status = ServerStatus::Free;
                    self.last_update_time = now;
                    proof {
                        assert(self@ =~= get_next(old(self)@, task_id@, now));
                    }
                    Err(Error::TaskFailedWithError(self.error.clone()))
                } else {
                    Ok(Vec::new())
                }
            }
        } else {
            Err(Error::NoTaskRunningOnSever)
        }
    }

    /// Release a reservation that will not be used, so the slot is free
    /// again without waiting for the lock timeout. Only the reserving
    /// client may release, and only a reservation can be released.
    pub fn unlock(&mut self, task_id: String, now: u64) -> (r: Result<(), UnlockRefusal>)
        requires
            inv(old(self)@),
            now >= old(self)@.last_update_time,
        ensures
            inv(final(self)@),
            final(self)@ == unlock_next(old(self)@, task_id@, now),
            r is Ok <==> unlock_accepts(old(self)@, task_id@),
            old(self)@.status is Free ==> (r matches Err(f) && f is AlreadyFree),
            old(self)@.status is Locked && task_id@ != old(self)@.task_info.task_id ==> (
            r matches Err(f) && f matches UnlockRefusal::LockedByAnotherTask {
                locked_by,
                requested,
            } && locked_by@ == old(self)@.task_info.task_id && requested@ == task_id@),
            old(self)@.status is Working || old(self)@.status is Unknown ==> (r matches Err(f)
                && f is NotLocked),
    {
        if self.status == ServerStatus::Free {
            Err(UnlockRefusal::AlreadyFree)
        } else {
            if self.status == ServerStatus::Locked {
                if task_id == self.task_info.task_id {
                    self.status = ServerStatus::Free;
                    self.task_info = TaskInfo::default();
                    self.last_update_time = now;
                    proof {
                        assert(self@ =~= unlock_next(old(self)@, task_id@, now));
                    }
                    Ok(())
                } else {
                    Err(
                        UnlockRefusal::LockedByAnotherTask {
                            locked_by: self.task_info.task_id.clone(),
                            requested: task_id,
                        },
                    )
                }
            } else {
                Err(UnlockRefusal::NotLocked)
            }
        }
    }

    /// The executor's pickup of the queued task: flip it to working and
    /// return a snapshot of its record for the proof engine. A signal that
    /// finds no queued work is spurious and changes nothing.
    pub fn start_task(&mut self, now: u64) -> (r: Option<TaskInfo>)
        requires
            inv(old(self)@),
            now >= old(self)@.last_update_time,
        ensures
            inv(final(self)@),
            final(self)@ == start_next(old(self)@, now),
            run_pending(old(self)@) ==> (r matches Some(t) && t@ == old(self)@.task_info),
            !run_pending(old(self)@) ==> r is None,
    {
        if self.status == ServerStatus::Working && self.task_info.task_status == TaskStatus::Ready {
            let snapshot = TaskInfo {
                task_id: self.task_info.task_id.clone(),
                vanilla_proof: clone_bytes(&self.task_info.vanilla_proof),
                pub_in: clone_bytes(&self.task_info.pub_in),
                post_config: clone_bytes(&self.task_info.post_config),
                replicas_len: self.task_info.replicas_len,
                result: clone_bytes(&self.task_info.result),
                task_status: TaskStatus::Ready,
            };
            self.task_info.task_status = TaskStatus::Working;
            self.last_update_time = now;
            proof {
                assert(snapshot@ =~= old(self)@.task_info);
                assert(self@ =~= start_next(old(self)@, now));
            }
            Some(snapshot)
        } else {
            None
        }
    }

    /// The executor's success report for task `id`: store the result bytes
    /// and mark the task done, awaiting pickup. Returns whether the write
    /// was applied; a write for a task that no longer owns the slot is
    /// dropped silently.
    pub fn complete_task(&mut self, task_id: &String, result: Vec<u8>, now: u64) -> (r: bool)
        requires
            inv(old(self)@),
            result@.len() > 0,
            now >= old(self)@.last_update_time,
        ensures
            inv(final(self)@),
            final(self)@ == complete_next(old(self)@, task_id@, result@, now),
            r == write_owned(old(self)@, task_id@),
    {
        if self.status == ServerStatus::Working && self.task_info.task_id == *task_id
            && self.task_info.task_status == TaskStatus::Working {
            self.task_info.result = result;
            self.task_info.task_status = TaskStatus::Done;
            self.last_update_time = now;
            proof {
                assert(self@ =~= complete_next(old(self)@, task_id@, result@, now));
            }
            true
        } else {
            false
        }
    }

    /// The executor's failure report for task `id`: record the error and
    /// mark the task failed, awaiting pickup. Returns whether the write
    /// was applied; a write for a task that no longer owns the slot is
    /// dropped silently.
    pub fn fail_task(&mut self, task_id: &String, error: String, now: u64) -> (r: bool)
        requires
            inv(old(self)@),
            error@.len() > 0,
            now >= old(self)@.last_update_time,
        ensures
            inv(final(self)@),
            final(self)@ == fail_next(old(self)@, task_id@, error@, now),
            r == write_owned(old(self)@, task_id@),
    {
        if self.status == ServerStatus::Working && self.task_info.task_id == *task_id
            && self.task_info.task_status == TaskStatus::Working {
            self.task_info.task_status = TaskStatus::Failed;
            self.error = error;
            self.last_update_time = now;
            proof {
                assert(self@ =~= fail_next(old(self)@, task_id@, error@, now));
            }
            true
        } else {
            false
        }
    }

    /// The supervisor's shutdown test: the process should exit once the
    /// slot has sat free for longer than the exit timeout and at least one
    /// task has completed since startup.
    pub fn should_exit(&self, now: u64, task_completed_before: bool) -> (r: bool)
        requires
            now >= self@.last_update_time,
        ensures
            r == (task_completed_before && self@.status is Free && now - self@.last_update_time
                > self@.server_exit_time_out_after_task_done),
    {
        task_completed_before && self.status == ServerStatus::Free && now - self.last_update_time
            > self.server_exit_time_out_after_task_done
    }

    /// Set the whole timeout policy, in milliseconds.
    pub fn set_time_out(
        &mut self,
        server_lock_time_out: u64,
        server_task_get_back_time_out: u64,
        server_exit_time_out_after_task_done: u64,
    )
        requires
            inv(old(self)@),
        ensures
            inv(final(self)@),
            final(self)@ == (ServerInfoView {
                server_lock_time_out,
                server_task_get_back_time_out,
                server_exit_time_out_after_task_done,
                ..old(self)@
            }),
    {
        self.server_lock_time_out = server_lock_time_out;
        self.server_task_get_back_time_out = server_task_get_back_time_out;
        self.server_exit_time_out_after_task_done = server_exit_time_out_after_task_done;
    }

    /// Set how long a reservation may sit without a submission, in
    /// milliseconds.
    pub fn set_server_lock_time_out(&mut self, time_out: u64)
        requires
            inv(old(self)@),
        ensures
            inv(final(self)@),
            final(self)@ == (ServerInfoView { server_lock_time_out: time_out, ..old(self)@ }),
    {
        self.server_lock_time_out = time_out;
    }

    /// Set how long a finished task may await pickup, in milliseconds.
    pub fn set_server_task_get_back_time_out(&mut self, time_out: u64)
        requires
            inv(old(self)@),
        ensures
            inv(final(self)@),
            final(self)@ == (ServerInfoView {
                server_task_get_back_time_out: time_out,
                ..old(self)@
            }),
    {
        self.server_task_get_back_time_out = time_out;
    }

    /// Set how long the slot may idle free after a completed task before
    /// the process exits, in milliseconds.
    pub fn set_server_exit_time_out_after_task_done(&mut self, time_out: u64)
        requires
            inv(old(self)@),
        ensures
            inv(final(self)@),
            final(self)@ == (ServerInfoView {
                server_exit_time_out_after_task_done: time_out,
                ..old(self)@
            }),
    {
        self.server_exit_time_out_after_task_done = time_out;
    }
}

} // verus!
