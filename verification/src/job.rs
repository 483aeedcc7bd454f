//! A job as its states see it.

use crate::types::{JobConfig, LogicalProgram, StateBackendSelector, WorkerId};
use vstd::prelude::*;

verus! {

/// The worker that leads a generation.
#[derive(Clone, Debug, PartialEq, Eq)]
pub struct LeaderContext {
    pub worker_id: WorkerId,
    pub rpc_address: String,
    pub generation: u64,
}

/// What the job's row says about its execution.
#[derive(Clone, Debug, PartialEq, Eq)]
pub struct JobStatus {
    pub generation: u64,
    pub restarts: i32,
    pub restart_nonce: i32,
    pub tasks: Option<i32>,
    pub leader: Option<LeaderContext>,
}

/// A job: what is asked of it, what its row says, and what it runs.
#[derive(Clone, Debug, PartialEq, Eq)]
pub struct JobContext {
    pub config: JobConfig,
    pub status: JobStatus,
    pub program: LogicalProgram,
    pub pipeline_id: String,
    /// The tags of the job's pipeline, each with its value.
    pub pipeline_tags: Vec<(String, String)>,
    /// The backend this execution runs with, whatever the row says meanwhile.
    pub execution_selector: StateBackendSelector,
}

} // verus!
