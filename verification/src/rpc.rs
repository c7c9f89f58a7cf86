//! The message schema of the four RPC methods, and the shaping of
//! state-machine outcomes into responses.
//!
//! Transport mechanics (connection handling, framing) live outside the
//! library; these types carry only plain values.

use vstd::prelude::*;

use crate::status::{server_status_name, task_status_name, ServerStatus, TaskStatus};

verus! {

/// Parameters of a task submission: the client-chosen id and the opaque
/// byte blobs handed to the proof engine.
#[derive(Clone, Debug)]
pub struct SnarkTaskRequestParams {
    pub task_id: String,
    pub vanilla_proof: Vec<u8>,
    pub pub_in: Vec<u8>,
    pub post_config: Vec<u8>,
    pub replicas_len: u32,
}

/// Mathematical image of [`SnarkTaskRequestParams`].
#[verifier::ext_equal]
pub struct SnarkTaskRequestParamsView {
    pub task_id: Seq<char>,
    pub vanilla_proof: Seq<u8>,
    pub pub_in: Seq<u8>,
    pub post_config: Seq<u8>,
    pub replicas_len: u32,
}

impl View for SnarkTaskRequestParams {
    type V = SnarkTaskRequestParamsView;

    open spec fn view(&self) -> SnarkTaskRequestParamsView {
        SnarkTaskRequestParamsView {
            task_id: self.task_id@,
            vanilla_proof: self.vanilla_proof@,
            pub_in: self.pub_in@,
            post_config: self.post_config@,
            replicas_len: self.replicas_len,
        }
    }
}

/// Response body shared by the lock, submit and unlock methods.
#[derive(Debug)]
pub struct BaseResponse {
    pub msg: String,
}

/// Response body of the poll method.
#[derive(Debug)]
pub struct GetTaskResultResponse {
    pub msg: String,
    pub result: Vec<u8>,
}

/// The response sent when a submit or an unlock succeeded.
pub fn ok_response() -> (r: BaseResponse)
    ensures
        r.msg@ == "ok"@,
{
    BaseResponse { msg: "ok".to_owned() }
}

/// The response of the lock method: the observed slot status by name.
pub fn status_response(s: ServerStatus) -> (r: BaseResponse)
    ensures
        r.msg@ == server_status_name(s),
{
    BaseResponse { msg: s.as_str().to_owned() }
}

/// The response of the poll method. Non-empty bytes mean the result is
/// delivered; empty bytes mean the task is still in progress and the client
/// should poll again.
pub fn task_result_response(result: Vec<u8>) -> (r: GetTaskResultResponse)
    ensures
        r.result@ == result@,
        result@.len() > 0 ==> r.msg@ == "ok"@,
        result@.len() == 0 ==> r.msg@ == task_status_name(TaskStatus::Working),
{
    if result.len() > 0 {
        GetTaskResultResponse { msg: "ok".to_owned(), result }
    } else {
        GetTaskResultResponse { msg: TaskStatus::Working.as_str().to_owned(), result }
    }
}

} // verus!
