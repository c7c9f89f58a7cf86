use snark_server::error::Error;
use snark_server::rpc::{task_result_response, SnarkTaskRequestParams};
use snark_server::server::{
    ServerInfo, SubmitRefusal, UnlockRefusal, SERVER_EXIT_TIME_OUT_AFTER_TASK_DONE_DEFAULT_MS,
    SERVER_LOCK_TIME_OUT_DEFAULT_MS, SERVER_TASK_GET_BACK_TIME_OUT_DEFAULT_MS,
};
use snark_server::status::{ServerStatus, TaskStatus};
use snark_server::tasks::set_task_info;

fn params(id: &str, v: Vec<u8>, p: Vec<u8>, c: Vec<u8>, n: u32) -> SnarkTaskRequestParams {
    SnarkTaskRequestParams {
        task_id: id.to_string(),
        vanilla_proof: v,
        pub_in: p,
        post_config: c,
        replicas_len: n,
    }
}

#[test]
fn happy_path_lock_submit_run_pickup() {
    let mut s = ServerInfo::new(0);
    assert_eq!(s.lock_server_if_free("A".to_string(), 1), ServerStatus::Free);
    assert_eq!(s.status, ServerStatus::Locked);

    let p = params("A", vec![1, 2, 3], vec![4], vec![5], 1);
    assert!(s.do_task(&p, 2).is_ok());
    assert_eq!(s.status, ServerStatus::Working);
    assert_eq!(s.task_info.task_status, TaskStatus::Ready);

    let snapshot = s.start_task(3).expect("queued task should be handed out");
    assert_eq!(snapshot.task_id, "A");
    assert_eq!(snapshot.vanilla_proof, vec![1, 2, 3]);
    assert_eq!(snapshot.pub_in, vec![4]);
    assert_eq!(snapshot.post_config, vec![5]);
    assert_eq!(snapshot.replicas_len, 1);
    assert_eq!(s.task_info.task_status, TaskStatus::Working);

    assert!(s.complete_task(&"A".to_string(), vec![0xDE, 0xAD], 4));
    assert_eq!(s.task_info.task_status, TaskStatus::Done);

    let bytes = s.get_task_result("A".to_string(), 5).expect("result should be delivered");
    assert_eq!(bytes, vec![0xDE, 0xAD]);
    let resp = task_result_response(bytes);
    assert_eq!(resp.msg, "ok");
    assert_eq!(resp.result, vec![0xDE, 0xAD]);
    assert_eq!(s.status, ServerStatus::Free);
    assert_eq!(s.task_info.task_status, TaskStatus::Returned);
}

#[test]
fn lock_is_exclusive_until_timeout() {
    let mut s = ServerInfo::new(0);
    assert_eq!(s.lock_server_if_free("A".to_string(), 0), ServerStatus::Free);
    assert_eq!(s.lock_server_if_free("B".to_string(), 1), ServerStatus::Locked);
    // exactly at the timeout the reservation still stands: staleness is strict
    let at_timeout = SERVER_LOCK_TIME_OUT_DEFAULT_MS;
    assert_eq!(s.lock_server_if_free("C".to_string(), at_timeout), ServerStatus::Locked);
    assert_eq!(s.task_info.task_id, "A");
}

#[test]
fn stale_lock_stolen_after_timeout() {
    let mut s = ServerInfo::new(0);
    s.set_server_lock_time_out(1000);
    assert_eq!(s.lock_server_if_free("A".to_string(), 0), ServerStatus::Free);
    assert_eq!(s.lock_server_if_free("B".to_string(), 2000), ServerStatus::Free);
    assert_eq!(s.task_info.task_id, "B");

    // the evicted client's submission is now refused
    let p = params("A", vec![1], vec![], vec![], 0);
    match s.do_task(&p, 2100) {
        Err(SubmitRefusal::LockedByAnotherTask) => {}
        other => panic!("expected a locked-by-another refusal, got {:?}", other),
    }
}

#[test]
fn abandoned_done_task_reclaimed() {
    let mut s = ServerInfo::new(0);
    assert_eq!(s.lock_server_if_free("Y".to_string(), 1), ServerStatus::Free);
    let p = params("Y", vec![7], vec![], vec![], 0);
    assert!(s.do_task(&p, 2).is_ok());
    s.start_task(3).expect("queued task should be handed out");
    assert!(s.complete_task(&"Y".to_string(), vec![9], 100));

    // client "Y" never polls; before the get-back window closes the slot is held
    let early = 100 + SERVER_TASK_GET_BACK_TIME_OUT_DEFAULT_MS - 1;
    assert_eq!(s.lock_server_if_free("Z".to_string(), early), ServerStatus::Working);

    // at the window's edge the slot is stolen and the result discarded
    let at_window = 100 + SERVER_TASK_GET_BACK_TIME_OUT_DEFAULT_MS;
    assert_eq!(s.lock_server_if_free("Z".to_string(), at_window), ServerStatus::Free);
    assert_eq!(s.task_info.task_id, "Z");
    assert!(s.task_info.result.is_empty());

    // the late poll by "Y" finds no task running
    match s.get_task_result("Y".to_string(), at_window + 1) {
        Err(Error::NoTaskRunningOnSever) => {}
        other => panic!("expected no-task-running, got {:?}", other),
    }
}

#[test]
fn stale_executor_write_dropped() {
    let mut s = ServerInfo::new(0);
    assert_eq!(s.lock_server_if_free("Y".to_string(), 1), ServerStatus::Free);
    let p = params("Y", vec![7], vec![], vec![], 0);
    assert!(s.do_task(&p, 2).is_ok());
    s.start_task(3).expect("queued task should be handed out");
    assert!(s.fail_task(&"Y".to_string(), "gpu oom".to_string(), 10));

    // the failed task is abandoned and the slot stolen
    let t = 10 + SERVER_TASK_GET_BACK_TIME_OUT_DEFAULT_MS;
    assert_eq!(s.lock_server_if_free("Z".to_string(), t), ServerStatus::Free);

    // a leftover executor write for the old task changes nothing
    assert!(!s.complete_task(&"Y".to_string(), vec![1, 2], t + 1));
    assert!(!s.fail_task(&"Y".to_string(), "late".to_string(), t + 1));
    assert_eq!(s.task_info.task_id, "Z");
    assert_eq!(s.task_info.task_status, TaskStatus::Ready);
    assert!(s.task_info.result.is_empty());
    assert_eq!(s.status, ServerStatus::Locked);
    assert_eq!(s.last_update_time, t);
}

#[test]
fn wrong_id_is_rejected_everywhere() {
    let mut s = ServerInfo::new(0);
    assert_eq!(s.lock_server_if_free("P".to_string(), 1), ServerStatus::Free);

    // submit under a different id
    let p = params("Q", vec![1], vec![], vec![], 0);
    match s.do_task(&p, 2) {
        Err(SubmitRefusal::LockedByAnotherTask) => {}
        other => panic!("expected a locked-by-another refusal, got {:?}", other),
    }

    // unlock under a different id
    match s.unlock("Q".to_string(), 3) {
        Err(UnlockRefusal::LockedByAnotherTask { locked_by, requested }) => {
            assert_eq!(locked_by, "P");
            assert_eq!(requested, "Q");
        }
        other => panic!("expected a locked-by-another refusal, got {:?}", other),
    }

    // poll under a different id once work is running
    let p = params("P", vec![1], vec![], vec![], 0);
    assert!(s.do_task(&p, 4).is_ok());
    match s.get_task_result("Q".to_string(), 5) {
        Err(Error::InvalidParameters(m)) => {
            assert_eq!(m, "current working task id is:P,but:Q");
        }
        other => panic!("expected invalid parameters, got {:?}", other),
    }
    assert_eq!(s.task_info.task_id, "P");
}

#[test]
fn polling_pending_task_changes_nothing() {
    let mut s = ServerInfo::new(0);
    assert_eq!(s.lock_server_if_free("A".to_string(), 1), ServerStatus::Free);
    let p = params("A", vec![1], vec![], vec![], 0);
    assert!(s.do_task(&p, 2).is_ok());

    // queued
    let bytes = s.get_task_result("A".to_string(), 3).expect("pending poll should succeed");
    assert!(bytes.is_empty());
    let resp = task_result_response(bytes);
    assert_eq!(resp.msg, "Working");
    assert!(resp.result.is_empty());
    assert_eq!(s.task_info.task_status, TaskStatus::Ready);
    assert_eq!(s.last_update_time, 2);

    // running
    s.start_task(4).expect("queued task should be handed out");
    let bytes = s.get_task_result("A".to_string(), 5).expect("pending poll should succeed");
    assert!(bytes.is_empty());
    let bytes = s.get_task_result("A".to_string(), 6).expect("pending poll should succeed");
    assert!(bytes.is_empty());
    assert_eq!(s.status, ServerStatus::Working);
    assert_eq!(s.task_info.task_status, TaskStatus::Working);
    assert_eq!(s.last_update_time, 4);
}

#[test]
fn result_is_delivered_exactly_once() {
    let mut s = ServerInfo::new(0);
    assert_eq!(s.lock_server_if_free("A".to_string(), 1), ServerStatus::Free);
    let p = params("A", vec![1], vec![], vec![], 0);
    assert!(s.do_task(&p, 2).is_ok());
    s.start_task(3).expect("queued task should be handed out");
    assert!(s.complete_task(&"A".to_string(), vec![42], 4));

    let bytes = s.get_task_result("A".to_string(), 5).expect("result should be delivered");
    assert_eq!(bytes, vec![42]);
    assert_eq!(s.status, ServerStatus::Free);

    match s.get_task_result("A".to_string(), 6) {
        Err(Error::NoTaskRunningOnSever) => {}
        other => panic!("expected no-task-running, got {:?}", other),
    }
}

#[test]
fn failed_task_reports_its_error_and_frees_the_slot() {
    let mut s = ServerInfo::new(0);
    assert_eq!(s.lock_server_if_free("X".to_string(), 1), ServerStatus::Free);
    let p = params("X", vec![1], vec![], vec![], 0);
    assert!(s.do_task(&p, 2).is_ok());
    s.start_task(3).expect("queued task should be handed out");
    assert!(s.fail_task(&"X".to_string(), "gpu oom".to_string(), 4));
    assert_eq!(s.task_info.task_status, TaskStatus::Failed);
    assert_eq!(s.error, "gpu oom");

    match s.get_task_result("X".to_string(), 5) {
        Err(Error::TaskFailedWithError(e)) => {
            assert_eq!(e, "gpu oom");
            assert_eq!(
                Error::TaskFailedWithError(e).message(),
                "task failed with error: gpu oom"
            );
        }
        other => panic!("expected task-failed, got {:?}", other),
    }
    assert_eq!(s.status, ServerStatus::Free);
}

#[test]
fn unlock_then_relock_succeeds() {
    let mut s = ServerInfo::new(0);
    assert_eq!(s.lock_server_if_free("M".to_string(), 1), ServerStatus::Free);
    assert!(s.unlock("M".to_string(), 2).is_ok());
    assert_eq!(s.status, ServerStatus::Free);
    assert!(s.task_info.task_id.is_empty());
    assert_eq!(s.lock_server_if_free("M".to_string(), 3), ServerStatus::Free);
    assert_eq!(s.task_info.task_id, "M");
}

#[test]
fn unlock_refused_when_free_or_working() {
    let mut s = ServerInfo::new(0);
    match s.unlock("A".to_string(), 1) {
        Err(UnlockRefusal::AlreadyFree) => {}
        other => panic!("expected already-free, got {:?}", other),
    }

    assert_eq!(s.lock_server_if_free("A".to_string(), 2), ServerStatus::Free);
    let p = params("A", vec![1], vec![], vec![], 0);
    assert!(s.do_task(&p, 3).is_ok());
    match s.unlock("A".to_string(), 4) {
        Err(UnlockRefusal::NotLocked) => {}
        other => panic!("expected not-locked, got {:?}", other),
    }
    assert_eq!(s.status, ServerStatus::Working);
}

#[test]
fn unknown_status_is_terminal() {
    let mut s = ServerInfo::new(0);
    s.status = ServerStatus::Unknown;

    assert_eq!(s.lock_server_if_free("A".to_string(), 1), ServerStatus::Unknown);
    assert_eq!(s.status, ServerStatus::Unknown);

    let p = params("A", vec![1], vec![], vec![], 0);
    match s.do_task(&p, 2) {
        Err(SubmitRefusal::ServerUnknown) => {}
        other => panic!("expected server-unknown, got {:?}", other),
    }
    match s.get_task_result("A".to_string(), 3) {
        Err(Error::NoTaskRunningOnSever) => {}
        other => panic!("expected no-task-running, got {:?}", other),
    }
    match s.unlock("A".to_string(), 4) {
        Err(UnlockRefusal::NotLocked) => {}
        other => panic!("expected not-locked, got {:?}", other),
    }
}

#[test]
fn submit_requires_a_reservation() {
    let mut s = ServerInfo::new(0);
    let p = params("A", vec![1], vec![], vec![], 0);
    match s.do_task(&p, 1) {
        Err(SubmitRefusal::ServerFree) => {}
        other => panic!("expected server-free, got {:?}", other),
    }

    assert_eq!(s.lock_server_if_free("A".to_string(), 2), ServerStatus::Free);
    assert!(s.do_task(&p, 3).is_ok());
    match s.do_task(&p, 4) {
        Err(SubmitRefusal::ServerWorking) => {}
        other => panic!("expected server-working, got {:?}", other),
    }
}

#[test]
fn start_task_ignores_spurious_signals() {
    let mut s = ServerInfo::new(0);
    assert!(s.start_task(1).is_none());
    assert_eq!(s.lock_server_if_free("A".to_string(), 2), ServerStatus::Free);
    assert!(s.start_task(3).is_none());
    assert_eq!(s.status, ServerStatus::Locked);
}

#[test]
fn defaults_and_setters() {
    let s = ServerInfo::default();
    assert_eq!(s.status, ServerStatus::Free);
    assert!(s.task_info.task_id.is_empty());
    assert!(s.task_info.result.is_empty());
    assert!(s.error.is_empty());
    assert_eq!(s.server_lock_time_out, SERVER_LOCK_TIME_OUT_DEFAULT_MS);
    assert_eq!(s.server_task_get_back_time_out, SERVER_TASK_GET_BACK_TIME_OUT_DEFAULT_MS);
    assert_eq!(
        s.server_exit_time_out_after_task_done,
        SERVER_EXIT_TIME_OUT_AFTER_TASK_DONE_DEFAULT_MS
    );

    let mut s = ServerInfo::new(7);
    assert_eq!(s.last_update_time, 7);
    s.set_time_out(100, 200, 300);
    assert_eq!(s.server_lock_time_out, 100);
    assert_eq!(s.server_task_get_back_time_out, 200);
    assert_eq!(s.server_exit_time_out_after_task_done, 300);
    s.set_server_lock_time_out(11);
    s.set_server_task_get_back_time_out(22);
    s.set_server_exit_time_out_after_task_done(33);
    assert_eq!(s.server_lock_time_out, 11);
    assert_eq!(s.server_task_get_back_time_out, 22);
    assert_eq!(s.server_exit_time_out_after_task_done, 33);
}

#[test]
fn should_exit_only_after_idle_free_and_a_completed_task() {
    let s = ServerInfo::new(0);
    let limit = SERVER_EXIT_TIME_OUT_AFTER_TASK_DONE_DEFAULT_MS;
    assert!(!s.should_exit(limit, true));
    assert!(s.should_exit(limit + 1, true));
    assert!(!s.should_exit(limit + 1, false));

    let mut s = ServerInfo::new(0);
    assert_eq!(s.lock_server_if_free("A".to_string(), 0), ServerStatus::Free);
    assert!(!s.should_exit(limit + 1, true));
}

#[test]
fn set_task_info_maps_every_field() {
    let p = params("T", vec![1, 2], vec![3], vec![4, 5, 6], 9);
    let t = set_task_info(&p);
    assert_eq!(t.task_id, "T");
    assert_eq!(t.vanilla_proof, vec![1, 2]);
    assert_eq!(t.pub_in, vec![3]);
    assert_eq!(t.post_config, vec![4, 5, 6]);
    assert_eq!(t.replicas_len, 9usize);
    assert!(t.result.is_empty());
    assert_eq!(t.task_status, TaskStatus::Ready);
}
