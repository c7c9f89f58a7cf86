//! What the slot state machine guarantees across operations.
//!
//! Each proof function states one guarantee over the transition functions
//! of [`crate::server`], for every state the invariant admits.

use vstd::prelude::*;

use crate::rpc::SnarkTaskRequestParamsView;
use crate::server::{
    complete_next, fail_next, get_next, get_owned, inv, lock_acquires, lock_next, lock_outcome,
    submit_accepts, submit_next, unlock_accepts, unlock_next, write_owned, ServerInfoView,
};
use crate::status::{ServerStatus, TaskStatus};
use crate::tasks::fresh_lock_task;

verus! {

/// The statuses observed by a run of lock requests, one per caller,
/// applied in the order the mutex serializes them.
pub open spec fn lock_call_results(
    s: ServerInfoView,
    ids: Seq<Seq<char>>,
    times: Seq<u64>,
) -> Seq<ServerStatus>
    decreases ids.len(),
{
    if ids.len() == 0 {
        Seq::empty()
    } else {
        seq![lock_outcome(s, times[0])] + lock_call_results(
            lock_next(s, ids[0], times[0]),
            ids.drop_first(),
            times.drop_first(),
        )
    }
}

/// The state left behind by a run of lock requests, applied in the order
/// the mutex serializes them.
pub open spec fn lock_calls_final(
    s: ServerInfoView,
    ids: Seq<Seq<char>>,
    times: Seq<u64>,
) -> ServerInfoView
    decreases ids.len(),
{
    if ids.len() == 0 {
        s
    } else {
        lock_calls_final(lock_next(s, ids[0], times[0]), ids.drop_first(), times.drop_first())
    }
}

/// A run of lock requests yields one observed status per request.
pub proof fn lemma_lock_call_results_len(s: ServerInfoView, ids: Seq<Seq<char>>, times: Seq<u64>)
    ensures
        lock_call_results(s, ids, times).len() == ids.len(),
    decreases ids.len(),
{
    if ids.len() > 0 {
        lemma_lock_call_results_len(
            lock_next(s, ids[0], times[0]),
            ids.drop_first(),
            times.drop_first(),
        );
    }
}

/// While a reservation is fresh, lock requests observe `Locked` and leave
/// the state alone.
pub proof fn lemma_held_lock_excludes(s: ServerInfoView, ids: Seq<Seq<char>>, times: Seq<u64>)
    requires
        s.status is Locked,
        ids.len() == times.len(),
        forall|i: int|
            0 <= i < times.len() ==> times[i] >= s.last_update_time && times[i]
                - s.last_update_time <= s.server_lock_time_out,
    ensures
        forall|i: int|
            0 <= i < ids.len() ==> lock_call_results(s, ids, times)[i] == ServerStatus::Locked,
        lock_calls_final(s, ids, times) == s,
    decreases ids.len(),
{
    if ids.len() > 0 {
        assert(!lock_acquires(s, times[0]));
        assert(lock_next(s, ids[0], times[0]) == s);
        assert(lock_outcome(s, times[0]) == ServerStatus::Locked);
        assert forall|j: int| 0 <= j < times.drop_first().len() implies times.drop_first()[j]
            >= s.last_update_time && times.drop_first()[j] - s.last_update_time
            <= s.server_lock_time_out by {
            assert(times.drop_first()[j] == times[j + 1]);
        }
        lemma_held_lock_excludes(s, ids.drop_first(), times.drop_first());
        lemma_lock_call_results_len(s, ids.drop_first(), times.drop_first());
        assert forall|i: int| 0 <= i < ids.len() implies lock_call_results(s, ids, times)[i]
            == ServerStatus::Locked by {
            if i > 0 {
                assert(lock_call_results(s, ids, times)[i] == lock_call_results(
                    s,
                    ids.drop_first(),
                    times.drop_first(),
                )[i - 1]);
            }
        }
    }
}

/// Single-slot mutual exclusion: of any number of lock requests hitting a
/// free slot, serialized in time order and all arriving before the lock
/// timeout runs out, exactly the first observes `Free` (and so holds the
/// slot); every later one observes `Locked`, and the first caller's
/// reservation survives the whole run untouched.
pub proof fn lemma_single_slot_mutual_exclusion(
    s: ServerInfoView,
    ids: Seq<Seq<char>>,
    times: Seq<u64>,
)
    requires
        inv(s),
        s.status is Free,
        ids.len() == times.len(),
        ids.len() >= 1,
        forall|i: int| 0 <= i < ids.len() ==> ids[i].len() > 0,
        forall|i: int, j: int| 0 <= i <= j < times.len() ==> times[i] <= times[j],
        forall|i: int|
            0 <= i < times.len() ==> (#[trigger] times[i]) - times[0] <= s.server_lock_time_out,
    ensures
        lock_call_results(s, ids, times)[0] == ServerStatus::Free,
        forall|i: int|
            1 <= i < ids.len() ==> lock_call_results(s, ids, times)[i] == ServerStatus::Locked,
        lock_calls_final(s, ids, times) == lock_next(s, ids[0], times[0]),
        lock_calls_final(s, ids, times).status is Locked,
        lock_calls_final(s, ids, times).task_info.task_id == ids[0],
{
    let s1 = lock_next(s, ids[0], times[0]);
    assert(lock_acquires(s, times[0]));
    assert(s1.status is Locked);
    assert(s1.last_update_time == times[0]);
    assert(s1.server_lock_time_out == s.server_lock_time_out);
    assert forall|j: int| 0 <= j < times.drop_first().len() implies times.drop_first()[j]
        >= s1.last_update_time && times.drop_first()[j] - s1.last_update_time
        <= s1.server_lock_time_out by {
        assert(times.drop_first()[j] == times[j + 1]);
        assert(times[0] <= times[j + 1]);
    }
    lemma_held_lock_excludes(s1, ids.drop_first(), times.drop_first());
    lemma_lock_call_results_len(s1, ids.drop_first(), times.drop_first());
    assert forall|i: int| 1 <= i < ids.len() implies lock_call_results(s, ids, times)[i]
        == ServerStatus::Locked by {
        assert(lock_call_results(s, ids, times)[i] == lock_call_results(
            s1,
            ids.drop_first(),
            times.drop_first(),
        )[i - 1]);
    }
}

/// Timeout reclamation: a client that reserves the slot and never submits
/// loses it. Once more than the lock timeout has passed since the
/// reservation, the next lock request observes `Free` and takes the slot
/// over.
pub proof fn lemma_timeout_reclamation(
    s0: ServerInfoView,
    first_id: Seq<char>,
    second_id: Seq<char>,
    t: u64,
    t2: u64,
)
    requires
        inv(s0),
        s0.status is Free,
        first_id.len() > 0,
        second_id.len() > 0,
        t2 >= t,
        t2 - t > s0.server_lock_time_out,
    ensures
        ({
            let s1 = lock_next(s0, first_id, t);
            &&& lock_outcome(s1, t2) == ServerStatus::Free
            &&& lock_next(s1, second_id, t2).status is Locked
            &&& lock_next(s1, second_id, t2).task_info == fresh_lock_task(second_id)
        }),
{
    let s1 = lock_next(s0, first_id, t);
    assert(lock_acquires(s0, t));
    assert(s1.status is Locked && s1.last_update_time == t);
    assert(lock_acquires(s1, t2));
}

/// Result-pickup reclamation: a finished task that is not picked up
/// within the get-back window is discarded. The next lock request by
/// another client observes `Free`, takes the slot over, and the prior
/// result is gone.
pub proof fn lemma_result_pickup_reclamation(s: ServerInfoView, new_id: Seq<char>, now: u64)
    requires
        inv(s),
        s.status is Working,
        s.task_info.task_status is Done || s.task_info.task_status is Failed,
        now >= s.last_update_time,
        now - s.last_update_time >= s.server_task_get_back_time_out,
        new_id.len() > 0,
        new_id != s.task_info.task_id,
    ensures
        lock_outcome(s, now) == ServerStatus::Free,
        lock_next(s, new_id, now).status is Locked,
        lock_next(s, new_id, now).task_info == fresh_lock_task(new_id),
        lock_next(s, new_id, now).task_info.result.len() == 0,
{
    assert(lock_acquires(s, now));
}

/// Ownership of results: an executor write for a task that no longer owns
/// the slot is dropped and changes nothing.
pub proof fn lemma_stale_executor_write_dropped(
    s: ServerInfoView,
    id: Seq<char>,
    result: Seq<u8>,
    error: Seq<char>,
    now: u64,
)
    requires
        !write_owned(s, id),
    ensures
        complete_next(s, id, result, now) == s,
        fail_next(s, id, error, now) == s,
{
}

/// Ownership of results, across a steal: once an abandoned finished task
/// is stolen, no executor write for any task id can corrupt the new
/// reservation, because the fresh reservation has no running task.
pub proof fn lemma_steal_keeps_new_task_clean(
    s: ServerInfoView,
    new_id: Seq<char>,
    stale_id: Seq<char>,
    t1: u64,
    t2: u64,
    result: Seq<u8>,
    error: Seq<char>,
)
    requires
        inv(s),
        s.status is Working,
        s.task_info.task_status is Done || s.task_info.task_status is Failed,
        t1 >= s.last_update_time,
        t1 - s.last_update_time >= s.server_task_get_back_time_out,
        new_id.len() > 0,
    ensures
        ({
            let s1 = lock_next(s, new_id, t1);
            &&& complete_next(s1, stale_id, result, t2) == s1
            &&& fail_next(s1, stale_id, error, t2) == s1
        }),
{
    let s1 = lock_next(s, new_id, t1);
    assert(s1.task_info.task_status is Ready);
    assert(!write_owned(s1, stale_id));
}

/// Id matching: a submission, a poll, or an unlock whose task id is not
/// the one the slot holds is never accepted and changes nothing.
pub proof fn lemma_id_mismatch_rejected(
    s: ServerInfoView,
    id: Seq<char>,
    p: SnarkTaskRequestParamsView,
    now: u64,
)
    requires
        p.task_id != s.task_info.task_id,
        id != s.task_info.task_id,
    ensures
        !submit_accepts(s, p.task_id),
        submit_next(s, p, now) == s,
        !get_owned(s, id),
        get_next(s, id, now) == s,
        !unlock_accepts(s, id),
        unlock_next(s, id, now) == s,
{
}

/// Idempotent polling: while the task is still queued or running, a poll
/// changes nothing, and so any number of repeated polls observe the same
/// pending answer.
pub proof fn lemma_idempotent_polling(s: ServerInfoView, id: Seq<char>, t1: u64, t2: u64)
    requires
        inv(s),
        get_owned(s, id),
        s.task_info.task_status is Ready || s.task_info.task_status is Working,
    ensures
        get_next(s, id, t1) == s,
        get_next(get_next(s, id, t1), id, t2) == s,
{
}

/// Exactly-once delivery: picking a done task's result up frees the slot,
/// and a second poll with the same id finds no task running and cannot
/// obtain the result again.
pub proof fn lemma_exactly_once_delivery(s: ServerInfoView, id: Seq<char>, t1: u64, t2: u64)
    requires
        inv(s),
        get_owned(s, id),
        s.task_info.task_status is Done,
    ensures
        ({
            let s1 = get_next(s, id, t1);
            &&& s1.status is Free
            &&& s1.task_info.task_status is Returned
            &&& !get_owned(s1, id)
            &&& get_next(s1, id, t2) == s1
        }),
{
}

} // verus!
