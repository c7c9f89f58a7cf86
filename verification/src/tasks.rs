//! The task record owned by the slot, and the configuration types a
//! submitted `post_config` blob decodes to.

use vstd::prelude::*;

use crate::rpc::{SnarkTaskRequestParams, SnarkTaskRequestParamsView};
use crate::status::TaskStatus;

verus! {

/// Kind of proof-of-spacetime a configuration describes.
#[derive(Debug, Clone, PartialEq, Eq, Structural)]
pub enum PoStType {
    Winning,
    Window,
}

/// Size of a sector in bytes.
#[derive(Clone, Copy, Debug, PartialEq, Eq, Hash, Structural)]
pub struct SectorSize(pub u64);

/// Version of the proofs API a configuration was written against.
#[derive(Clone, Copy, Debug, PartialEq, Eq, Hash, Structural)]
pub enum ApiVersion {
    V1_0,
    V1_1,
}

/// Proof-of-spacetime configuration carried in the `post_config` blob.
#[derive(Clone, Debug)]
pub struct PoStConfig {
    pub sector_size: SectorSize,
    pub challenge_count: usize,
    pub sector_count: usize,
    pub typ: PoStType,
    /// High priority (always runs on GPU) == true
    pub priority: bool,
    pub api_version: ApiVersion,
}

/// The one task record owned by the slot.
#[derive(Debug)]
pub struct TaskInfo {
    pub task_id: String,
    pub vanilla_proof: Vec<u8>,
    pub pub_in: Vec<u8>,
    pub post_config: Vec<u8>,
    pub replicas_len: usize,
    pub result: Vec<u8>,
    pub task_status: TaskStatus,
}

/// Mathematical image of [`TaskInfo`].
#[verifier::ext_equal]
pub struct TaskInfoView {
    pub task_id: Seq<char>,
    pub vanilla_proof: Seq<u8>,
    pub pub_in: Seq<u8>,
    pub post_config: Seq<u8>,
    pub replicas_len: usize,
    pub result: Seq<u8>,
    pub task_status: TaskStatus,
}

impl View for TaskInfo {
    type V = TaskInfoView;

    open spec fn view(&self) -> TaskInfoView {
        TaskInfoView {
            task_id: self.task_id@,
            vanilla_proof: self.vanilla_proof@,
            pub_in: self.pub_in@,
            post_config: self.post_config@,
            replicas_len: self.replicas_len,
            result: self.result@,
            task_status: self.task_status,
        }
    }
}

/// The task record of a free slot: everything empty, queued by default.
pub open spec fn zeroed_task() -> TaskInfoView {
    TaskInfoView {
        task_id: Seq::empty(),
        vanilla_proof: Seq::empty(),
        pub_in: Seq::empty(),
        post_config: Seq::empty(),
        replicas_len: 0,
        result: Seq::empty(),
        task_status: TaskStatus::Ready,
    }
}

/// The task record right after a client reserved the slot: zeroed but for
/// the reserving client's id.
pub open spec fn fresh_lock_task(id: Seq<char>) -> TaskInfoView {
    TaskInfoView { task_id: id, ..zeroed_task() }
}

/// The task record a submission builds: the id and blobs of the request,
/// an empty result, and the task queued for the executor.
pub open spec fn task_of_params(p: SnarkTaskRequestParamsView) -> TaskInfoView {
    TaskInfoView {
        task_id: p.task_id,
        vanilla_proof: p.vanilla_proof,
        pub_in: p.pub_in,
        post_config: p.post_config,
        replicas_len: p.replicas_len as usize,
        result: Seq::empty(),
        task_status: TaskStatus::Ready,
    }
}

impl Default for TaskInfo {
    /// A fresh record holds no task.
    fn default() -> (t: Self)
        ensures
            t@ == zeroed_task(),
    {
        let t = TaskInfo {
            task_id: String::new(),
            vanilla_proof: Vec::new(),
            pub_in: Vec::new(),
            post_config: Vec::new(),
            replicas_len: 0,
            result: Vec::new(),
            task_status: TaskStatus::Ready,
        };
        proof {
            assert(t@ =~= zeroed_task());
        }
        t
    }
}

/// Copy a byte blob.
pub(crate) fn clone_bytes(v: &Vec<u8>) -> (out: Vec<u8>)
    ensures
        out@ == v@,
{
    vstd::slice::slice_to_vec(v.as_slice())
}

/// Build the slot's task record from the parameters of a submission.
pub fn set_task_info(snark_params: &SnarkTaskRequestParams) -> (t: TaskInfo)
    ensures
        t@ == task_of_params(snark_params@),
{
    let t = TaskInfo {
        task_id: snark_params.task_id.clone(),
        vanilla_proof: clone_bytes(&snark_params.vanilla_proof),
        pub_in: clone_bytes(&snark_params.pub_in),
        post_config: clone_bytes(&snark_params.post_config),
        replicas_len: snark_params.replicas_len as usize,
        result: Vec::new(),
        task_status: TaskStatus::Ready,
    };
    proof {
        assert(t@ =~= task_of_params(snark_params@));
    }
    t
}

} // verus!
