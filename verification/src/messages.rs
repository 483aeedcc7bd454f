//! What a job's task is told while it runs.

use crate::states::ErrorDomain;
use crate::types::{JobConfig, WorkerId};
use vstd::prelude::*;

verus! {

/// A task's report of its own failure.
#[derive(Clone, Debug, PartialEq, Eq)]
pub struct TaskFailure {
    pub operator_id: String,
    pub subtask_idx: u32,
    pub reason: String,
    pub error_domain: ErrorDomain,
}

/// What the running job itself reports.
#[derive(Clone, Debug, PartialEq, Eq)]
pub enum RunningMessage {
    TaskFailed(TaskFailure),
    /// Any other report, under a number its sender knows it by.
    Other(u64),
}

/// One message on a job's channel.
#[derive(Clone, Debug, PartialEq, Eq)]
pub enum JobMessage {
    ConfigUpdate(JobConfig),
    WorkerConnect {
        worker_id: WorkerId,
        machine_id: String,
        generation: u64,
        rpc_address: String,
        data_address: String,
        slots: usize,
        reconciles_start_execution: bool,
    },
    WorkerInitializationComplete {
        worker_id: WorkerId,
        success: bool,
        error_message: Option<String>,
    },
    TaskStarted { task_id: u32, subtask_idx: u32 },
    RunningMessage(RunningMessage),
    /// Any other message, under a number its sender knows it by.
    Other(u64),
}

} // verus!
