//! The two waits of a scheduling attempt: for its workers, and for its tasks.

use crate::messages::{JobMessage, RunningMessage, TaskFailure};
use crate::scheduling::connect::{handle_worker_connect, ConnectStep};
use crate::scheduling::context::PhaseContext;
use crate::scheduling::observation::{stop_transition, PhaseWait};
use crate::scheduling::workers::{Worker, WorkerState, WorkerStatus, Workers};
use crate::states::{retryable, NextState, StateError, StateName, StopBehavior, Transition};
use crate::text;
use crate::types::{JobConfig, StopMode, WorkerId};
use vstd::prelude::*;
use vstd::string::*;

verus! {

/// What is left to do about a message that arrived during a wait.
#[derive(Debug, PartialEq, Eq)]
pub enum WaitStep {
    /// Nothing but this.
    Wait(PhaseWait),
    /// A worker registered; its address is to be dialled.
    Dial { worker_id: WorkerId, rpc_address: String },
    /// A task failed; the job decides what follows.
    TaskFailed(TaskFailure),
    /// The message is the job's to handle.
    HandOn(JobMessage),
}

/// The states a leader can report its job in.
#[derive(Clone, Copy, Debug, PartialEq, Eq, Structural)]
pub enum JobState {
    JobUnknown,
    JobInitializing,
    JobRunning,
    JobStopping,
    JobStopped,
    JobFinishing,
    JobFinished,
    JobFailing,
    JobFailed,
}

/// Why a leader says its job failed.
#[derive(Clone, Debug, PartialEq, Eq)]
pub struct JobFailure {
    pub task_failure: TaskFailure,
}

/// What a leader answers when it is asked how its job is.
#[derive(Clone, Debug, PartialEq, Eq)]
pub struct LeaderStatus {
    /// The state, where it is one there is.
    pub job_state: Option<JobState>,
    pub job_failure: Option<JobFailure>,
}

/// What a leader's answer says about a startup that timed out.
#[derive(Debug, PartialEq, Eq)]
pub enum LeaderVerdict {
    NoFailure,
    Failed(JobFailure),
    FailedWithoutReason,
}

/// The least of a budget and the job's time to live, less what has elapsed.
pub open spec fn remaining_of(budget: u64, ttl: Option<u64>, elapsed: u64) -> u64 {
    let allowed = match ttl {
        Some(ttl) => if ttl < budget {
            ttl
        } else {
            budget
        },
        None => budget,
    };
    if elapsed < allowed {
        (allowed - elapsed) as u64
    } else {
        0
    }
}

/// What is reported of a startup that timed out, given the budget as it prints.
pub open spec fn startup_timeout(budget: Seq<char>) -> Seq<char> {
    "timed out after "@ + budget + " while waiting for worker startup"@
}

fn timed_out_after(budget: &str) -> (r: String)
    ensures
        r@ == startup_timeout(budget@),
{
    let mut r = "timed out after ".to_owned();
    r.append(budget);
    r.append(" while waiting for worker startup");
    r
}

/// What a configuration that arrives during a wait does to it: a stop leaves, a refused change
/// fails, anything else is read again from the job's own configuration later.
pub open spec fn update_in_wait(
    mode: crate::types::StopMode,
    checked: Result<(), StateError>,
) -> Result<PhaseWait, StateError> {
    match crate::states::stop_of_not_running(mode) {
        Some(stop) => Ok(PhaseWait::Leave(stop)),
        None => match checked {
            Ok(()) => Ok(PhaseWait::Continue),
            Err(e) => Err(e),
        },
    }
}

impl PhaseContext {
    /// How long a wait that began `elapsed` ago may still last.
    pub fn remaining(&self, budget: u64, elapsed: u64) -> (r: u64)
        ensures
            r == remaining_of(budget, self.job.config.ttl, elapsed),
    {
        let allowed: u64 = match self.job.config.ttl {
            Some(ttl) => if ttl < budget {
                ttl
            } else {
                budget
            },
            None => budget,
        };
        if elapsed < allowed {
            allowed - elapsed
        } else {
            0
        }
    }

    /// Whether the workers that registered have the slots the job needs.
    pub fn workers_are_sufficient(&self) -> (r: bool)
        ensures
            r == (crate::scheduling::workers::total_slots(self.workers@) >= self.slots_needed),
    {
        self.workers.have_slots(self.slots_needed)
    }

    /// Whether every worker that registered has been reached.
    pub fn worker_channels_are_open(&self) -> (r: bool)
        ensures
            r == (self.dialling == 0),
    {
        self.dialling == 0
    }

    /// Whether every task of the job has started.
    pub fn tasks_are_all_started(&self) -> (r: bool)
        ensures
            r == (self.started_tasks@.len() >= self.job.program.task_count),
    {
        self.started_tasks.len() >= self.job.program.task_count
    }

    /// Reads a message that arrived while workers were being waited for. `checked` is whether a
    /// configuration update may be carried on with, and is consulted for nothing else.
    pub fn handle_worker_wait_message(
        &mut self,
        msg: JobMessage,
        checked: Result<(), StateError>,
    ) -> (r: Result<WaitStep, StateError>)
        requires
            old(self).dialling < usize::MAX,
        ensures
            worker_turn(*old(self), *final(self), msg, checked, r),
    {
        match msg {
            JobMessage::ConfigUpdate(c) => {
                if let Some(stop) = stop_transition(&c) {
                    return Ok(WaitStep::Wait(PhaseWait::Leave(stop)));
                }
                match checked {
                    Ok(()) => Ok(WaitStep::Wait(PhaseWait::Continue)),
                    Err(e) => Err(e),
                }
            },
            msg => match handle_worker_connect(
                msg,
                &mut self.workers,
                self.job.status.generation,
            ) {
                ConnectStep::WrongGeneration => Ok(WaitStep::Wait(PhaseWait::Continue)),
                ConnectStep::Dial { worker_id, rpc_address } => {
                    self.dialling = self.dialling + 1;
                    Ok(WaitStep::Dial { worker_id, rpc_address })
                },
                ConnectStep::NotAConnect(msg) => Ok(WaitStep::HandOn(msg)),
            },
        }
    }

    /// The wait for workers ran out of time. The budget is given as it prints.
    pub fn worker_startup_timeout(&self, budget: &str) -> (r: StateError)
        ensures
            r.retryable_with(
                StateName::Scheduling,
                "timed out while waiting for workers to start"@,
                startup_timeout(budget@),
                3,
            ),
    {
        retryable(
            StateName::Scheduling,
            "timed out while waiting for workers to start",
            timed_out_after(budget),
            3,
        )
    }

    /// One worker was reached, or could not be, or the wait was woken before either.
    pub fn await_worker_channels(&mut self, joined: Option<Result<(), String>>) -> (r: Result<
        PhaseWait,
        StateError,
    >)
        requires
            joined is Some ==> old(self).dialling > 0,
        ensures
            channel_turn(*old(self), *final(self), joined, r),
    {
        match joined {
            None => Ok(PhaseWait::Continue),
            Some(joined) => {
                self.dialling = self.dialling - 1;
                match joined {
                    Ok(()) => Ok(PhaseWait::Continue),
                    Err(source) => Err(
                        retryable(
                            StateName::Scheduling,
                            "Failed to start cluster for pipeline",
                            source,
                            10,
                        ),
                    ),
                }
            },
        }
    }

    /// Records how a worker's initialization ended. A worker this attempt does not know changes
    /// nothing.
    pub fn record_worker_initialization(
        &mut self,
        worker_id: WorkerId,
        success: bool,
        error_message: Option<String>,
    ) -> (r: Result<PhaseWait, StateError>)
        ensures
            initialization_recorded(*old(self), *final(self), worker_id, success, error_message, r),
    {
        let state = if success {
            WorkerState::Ready
        } else {
            WorkerState::Failed
        };
        let known = self.workers.mark(worker_id, state);
        if !known || success {
            return Ok(PhaseWait::Continue);
        }
        let error = match error_message {
            Some(error) => error,
            None => "Unknown error".to_owned(),
        };
        let mut source = "worker ".to_owned();
        let id = text::decimal(worker_id.0);
        source.append(id.as_str());
        source.append(" initialization failed: ");
        source.append(error.as_str());
        Err(retryable(StateName::Scheduling, "worker initialization failed", source, 5))
    }

    /// Reads a message that arrived while tasks were being waited for. `checked` is whether a
    /// configuration update may be carried on with, and is consulted for nothing else.
    pub fn handle_task_wait_message(
        &mut self,
        msg: JobMessage,
        checked: Result<(), StateError>,
    ) -> (r: Result<WaitStep, StateError>)
        ensures
            task_turn(*old(self), *final(self), msg, checked, r),
    {
        match msg {
            JobMessage::WorkerInitializationComplete { worker_id, success, error_message } => {
                match self.record_worker_initialization(worker_id, success, error_message) {
                    Ok(wait) => Ok(WaitStep::Wait(wait)),
                    Err(e) => Err(e),
                }
            },
            JobMessage::TaskStarted { task_id, subtask_idx } => {
                self.started_tasks.insert(task_id, subtask_idx);
                Ok(WaitStep::Wait(PhaseWait::Continue))
            },
            JobMessage::RunningMessage(RunningMessage::TaskFailed(event)) => Ok(
                WaitStep::TaskFailed(event),
            ),
            JobMessage::ConfigUpdate(c) => {
                if let Some(stop) = stop_transition(&c) {
                    return Ok(WaitStep::Wait(PhaseWait::Leave(stop)));
                }
                match checked {
                    Ok(()) => Ok(WaitStep::Wait(PhaseWait::Continue)),
                    Err(e) => Err(e),
                }
            },
            msg => Ok(WaitStep::HandOn(msg)),
        }
    }

    /// What the leader's answer says about a startup that timed out. Nothing where there is no
    /// leader or it could not be asked.
    pub fn leader_startup_verdict(&self, status: Option<LeaderStatus>) -> (r: LeaderVerdict)
        ensures
            r == verdict_of(status),
    {
        match status {
            None => LeaderVerdict::NoFailure,
            Some(status) => match status.job_state {
                Some(JobState::JobFailing) | Some(JobState::JobFailed) => match status.job_failure {
                    Some(failure) => LeaderVerdict::Failed(failure),
                    None => LeaderVerdict::FailedWithoutReason,
                },
                _ => LeaderVerdict::NoFailure,
            },
        }
    }

    /// The wait for tasks ran out of time. A failure its leader reports is the job's to handle;
    /// otherwise the attempt is retried. The budget is given as it prints.
    pub fn task_startup_timeout(&self, status: Option<LeaderStatus>, budget: &str) -> (r: Result<
        JobFailure,
        StateError,
    >)
        ensures
            timed_out(status, budget@, r),
    {
        match self.leader_startup_verdict(status) {
            LeaderVerdict::Failed(failure) => Ok(failure),
            LeaderVerdict::FailedWithoutReason => Err(
                retryable(
                    StateName::Scheduling,
                    "leader reported failing status without failure payload",
                    "missing job failure".to_owned(),
                    10,
                ),
            ),
            LeaderVerdict::NoFailure => Err(
                retryable(
                    StateName::Scheduling,
                    "timed out while waiting for tasks to start",
                    timed_out_after(budget),
                    3,
                ),
            ),
        }
    }
}

/// What a message does to an attempt that waits for its workers.
pub open spec fn worker_turn(
    before: PhaseContext,
    after: PhaseContext,
    msg: JobMessage,
    checked: Result<(), StateError>,
    r: Result<WaitStep, StateError>,
) -> bool {
    match msg {
        JobMessage::ConfigUpdate(c) => {
            &&& after == before
            &&& match update_in_wait(c.stop_mode, checked) {
                Ok(wait) => r == Ok::<_, StateError>(WaitStep::Wait(wait)),
                Err(e) => r == Err::<WaitStep, _>(e),
            }
        },
        JobMessage::WorkerConnect { worker_id, generation, rpc_address, .. } => {
            &&& crate::scheduling::connect::registered(
                msg,
                before.job.status.generation,
                before.workers@,
                after.workers@,
            )
            &&& if generation != before.job.status.generation {
                &&& r == Ok::<_, StateError>(WaitStep::Wait(PhaseWait::Continue))
                &&& after == (PhaseContext {
                    workers: after.workers,
                    ..before
                })
            } else {
                &&& r matches Ok(WaitStep::Dial { worker_id: dialled, rpc_address: address })
                    && dialled == worker_id && address@ == rpc_address@
                &&& after == (PhaseContext {
                    workers: after.workers,
                    dialling: (before.dialling + 1) as usize,
                    ..before
                })
            }
        },
        other => r == Ok::<_, StateError>(WaitStep::HandOn(other)) && after.workers@
            == before.workers@ && after == (PhaseContext {
            workers: after.workers,
            ..before
        }),
    }
}

/// What reaching a worker, or not, does to an attempt.
pub open spec fn channel_turn(
    before: PhaseContext,
    after: PhaseContext,
    joined: Option<Result<(), String>>,
    r: Result<PhaseWait, StateError>,
) -> bool {
    match joined {
        None => r == Ok::<_, StateError>(PhaseWait::Continue) && after == before,
        Some(joined) => {
            &&& after == (PhaseContext {
                dialling: (before.dialling - 1) as usize,
                ..before
            })
            &&& match joined {
                Ok(()) => r == Ok::<_, StateError>(PhaseWait::Continue),
                Err(source) => r matches Err(e) && e.retryable_with(
                    StateName::Scheduling,
                    "Failed to start cluster for pipeline"@,
                    source@,
                    10,
                ),
            }
        },
    }
}

/// What a message does to an attempt that waits for its tasks.
pub open spec fn task_turn(
    before: PhaseContext,
    after: PhaseContext,
    msg: JobMessage,
    checked: Result<(), StateError>,
    r: Result<WaitStep, StateError>,
) -> bool {
    match msg {
        JobMessage::WorkerInitializationComplete { worker_id, success, error_message } => {
            exists|recorded: Result<PhaseWait, StateError>| #[trigger]
                initialization_recorded(
                    before,
                    after,
                    worker_id,
                    success,
                    error_message,
                    recorded,
                ) && r == (match recorded {
                    Ok(wait) => Ok(WaitStep::Wait(wait)),
                    Err(e) => Err(e),
                })
        },
        JobMessage::TaskStarted { task_id, subtask_idx } => {
            &&& r == Ok::<_, StateError>(WaitStep::Wait(PhaseWait::Continue))
            &&& after.started_tasks@ == before.started_tasks@.insert((task_id, subtask_idx))
            &&& after == (PhaseContext { started_tasks: after.started_tasks, ..before })
        },
        JobMessage::RunningMessage(RunningMessage::TaskFailed(event)) => after == before && r
            == Ok::<_, StateError>(WaitStep::TaskFailed(event)),
        JobMessage::ConfigUpdate(c) => {
            &&& after == before
            &&& match update_in_wait(c.stop_mode, checked) {
                Ok(wait) => r == Ok::<_, StateError>(WaitStep::Wait(wait)),
                Err(e) => r == Err::<WaitStep, _>(e),
            }
        },
        other => after == before && r == Ok::<_, StateError>(WaitStep::HandOn(other)),
    }
}

/// What a wait for tasks that ran out of time comes to.
pub open spec fn timed_out(
    status: Option<LeaderStatus>,
    budget: Seq<char>,
    r: Result<JobFailure, StateError>,
) -> bool {
    match verdict_of(status) {
        LeaderVerdict::Failed(failure) => r == Ok::<_, StateError>(failure),
        LeaderVerdict::FailedWithoutReason => r matches Err(e) && e.retryable_with(
            StateName::Scheduling,
            "leader reported failing status without failure payload"@,
            "missing job failure"@,
            10,
        ),
        LeaderVerdict::NoFailure => r matches Err(e) && e.retryable_with(
            StateName::Scheduling,
            "timed out while waiting for tasks to start"@,
            startup_timeout(budget),
            3,
        ),
    }
}

/// What a leader's answer says about a startup that timed out.
pub open spec fn verdict_of(status: Option<LeaderStatus>) -> LeaderVerdict {
    match status {
        None => LeaderVerdict::NoFailure,
        Some(status) => if status.job_state == Some(JobState::JobFailing) || status.job_state
            == Some(JobState::JobFailed) {
            match status.job_failure {
                Some(failure) => LeaderVerdict::Failed(failure),
                None => LeaderVerdict::FailedWithoutReason,
            }
        } else {
            LeaderVerdict::NoFailure
        },
    }
}

/// What a worker's report of its initialization does: it is marked, and a failure fails the
/// attempt. A worker that is not known changes nothing.
pub open spec fn initialization_recorded(
    before: PhaseContext,
    after: PhaseContext,
    worker_id: WorkerId,
    success: bool,
    error_message: Option<String>,
    r: Result<PhaseWait, StateError>,
) -> bool {
    &&& after == (PhaseContext { workers: after.workers, ..before })
    &&& if !before.workers@.contains_key(worker_id.0) {
        after.workers@ == before.workers@ && r == Ok::<_, StateError>(PhaseWait::Continue)
    } else {
        let state = if success {
            WorkerState::Ready
        } else {
            WorkerState::Failed
        };
        &&& after.workers@ == before.workers@.insert(
            worker_id.0,
            Worker { state, ..before.workers@[worker_id.0] },
        )
        &&& if success {
            r == Ok::<_, StateError>(PhaseWait::Continue)
        } else {
            r matches Err(e) && e.retryable_with(
                StateName::Scheduling,
                "worker initialization failed"@,
                "worker "@ + text::decimal_digits(worker_id.0 as nat) + " initialization failed: "@
                    + (match error_message {
                    Some(error) => error@,
                    None => "Unknown error"@,
                }),
                5,
            )
        }
    }
}

/// A wait lasts to the end of its budget or of the job's time to live, whichever is sooner, and no
/// longer.
pub proof fn a_wait_ends_with_its_budget_or_the_jobs_time(
    context: &PhaseContext,
    budget: u64,
    elapsed: u64,
    left: u64,
)
    requires
        call_ensures(PhaseContext::remaining, (context, budget, elapsed), left),
    ensures
        left == 0 || elapsed + left <= budget,
        context.job.config.ttl matches Some(ttl) ==> left == 0 || elapsed + left <= ttl,
        left > 0 ==> elapsed + left == budget || context.job.config.ttl is Some && elapsed + left
            == context.job.config.ttl->0,
        left == 0 ==> elapsed >= budget || context.job.config.ttl is Some && elapsed
            >= context.job.config.ttl->0,
{
}

/// A wait goes on until the slots that registered suffice, until every address was dialled to an
/// end, and until as many subtasks started as the program has tasks.
pub proof fn waits_end_when_what_they_wait_for_is_there(
    context: &PhaseContext,
    enough: bool,
    slots: bool,
    open: bool,
    all: bool,
    started: usize,
)
    requires
        call_ensures(PhaseContext::workers_are_sufficient, (context,), enough),
        call_ensures(
            crate::scheduling::workers::Workers::have_slots,
            (&context.workers, context.slots_needed),
            slots,
        ),
        call_ensures(PhaseContext::worker_channels_are_open, (context,), open),
        call_ensures(PhaseContext::tasks_are_all_started, (context,), all),
        call_ensures(
            crate::scheduling::tasks::StartedTasks::len,
            (&context.started_tasks,),
            started,
        ),
    ensures
        enough == slots,
        open <==> context.dialling == 0,
        all <==> started >= context.job.program.task_count,
{
}

/// Whether a step leaves for a stop.
pub open spec fn leaves_for(r: Result<WaitStep, StateError>, behavior: StopBehavior) -> bool {
    r == Ok::<_, StateError>(
        WaitStep::Wait(
            PhaseWait::Leave(Transition::Advance(NextState::Stopping { stop_mode: behavior })),
        ),
    )
}

/// Both waits answer a configuration alike: the job leaves exactly where the configuration asks it
/// to stop, through the workers where the stop is forced and at once otherwise; a change that was
/// refused fails the attempt with the refusal; and any other changes nothing.
pub proof fn a_configuration_is_answered_alike_in_both_waits(
    workers: &mut PhaseContext,
    tasks: &mut PhaseContext,
    config: JobConfig,
    checked: Result<(), StateError>,
    for_workers: Result<WaitStep, StateError>,
    for_tasks: Result<WaitStep, StateError>,
)
    requires
        call_ensures(
            PhaseContext::handle_worker_wait_message,
            (workers, JobMessage::ConfigUpdate(config), checked),
            for_workers,
        ),
        call_ensures(
            PhaseContext::handle_task_wait_message,
            (tasks, JobMessage::ConfigUpdate(config), checked),
            for_tasks,
        ),
    ensures
        for_workers == for_tasks,
        *final(workers) == *old(workers),
        *final(tasks) == *old(tasks),
        leaves_for(for_workers, StopBehavior::StopWorkers) <==> config.stop_mode == StopMode::force,
        leaves_for(for_workers, StopBehavior::StopJobImmediate) <==> config.stop_mode
            != StopMode::force && config.stop_mode != StopMode::none,
        for_workers is Err <==> config.stop_mode == StopMode::none && checked is Err,
        for_workers matches Err(e) ==> e == checked->Err_0,
        config.stop_mode == StopMode::none && checked is Ok ==> for_workers == Ok::<_, StateError>(
            WaitStep::Wait(PhaseWait::Continue),
        ),
{
}

/// While workers are waited for, a worker is dialled exactly where it registers with the attempt's
/// own generation: at the address it gave, and one address more is then being dialled. It is known
/// from then on with the slots it gave. Whatever is neither a registration nor a configuration is
/// handed on as it is, and changes nothing.
pub proof fn a_worker_is_dialled_where_it_registers(
    context: &mut PhaseContext,
    msg: JobMessage,
    checked: Result<(), StateError>,
    r: Result<WaitStep, StateError>,
    asked: WorkerId,
    before: Option<&WorkerStatus>,
    after: Option<&WorkerStatus>,
)
    requires
        old(context).dialling < usize::MAX,
        call_ensures(PhaseContext::handle_worker_wait_message, (context, msg, checked), r),
        call_ensures(Workers::get, (&old(context).workers, asked), before),
        call_ensures(Workers::get, (&final(context).workers, asked), after),
    ensures
        r is Ok && r->Ok_0 is Dial <==> msg is WorkerConnect && msg->generation == old(context).job.status.generation,
        r is Ok && r->Ok_0 is Dial ==> r->Ok_0->worker_id == msg->WorkerConnect_worker_id
            && r->Ok_0->rpc_address@ == msg->rpc_address@ && final(context).dialling == old(context).dialling + 1,
        !(r is Ok && r->Ok_0 is Dial) ==> final(context).dialling == old(context).dialling,
        r is Ok && r->Ok_0 is HandOn <==> !(msg is WorkerConnect) && !(msg is ConfigUpdate),
        r is Ok && r->Ok_0 is HandOn ==> r->Ok_0->HandOn_0 == msg,
        !(r is Ok && r->Ok_0 is TaskFailed),
        msg is WorkerConnect && msg->generation != old(context).job.status.generation ==> r == Ok::<
            _,
            StateError,
        >(WaitStep::Wait(PhaseWait::Continue)),
        after is Some <==> before is Some || r is Ok && r->Ok_0 is Dial && asked
            == msg->WorkerConnect_worker_id,
        r is Ok && r->Ok_0 is Dial && asked == msg->WorkerConnect_worker_id ==> after->0.slots
            == msg->slots && after->0.rpc_address@ == msg->rpc_address@ && after->0.data_address@
            == msg->data_address@ && after->0.machine_id@ == msg->machine_id@
            && after->0.reconciles_start_execution == msg->reconciles_start_execution,
        before is Some && !(r is Ok && r->Ok_0 is Dial && asked == msg->WorkerConnect_worker_id)
            ==> after->0@ == before->0@,
        *final(context) == (PhaseContext {
            workers: final(context).workers,
            dialling: final(context).dialling,
            ..*old(context)
        }),
{
}

/// Every dial that ends is counted off, whichever way it ends, and one that fails fails the attempt
/// with its reason.
pub proof fn every_dial_is_counted_off(
    context: &mut PhaseContext,
    joined: Option<Result<(), String>>,
    r: Result<PhaseWait, StateError>,
)
    requires
        joined is Some ==> old(context).dialling > 0,
        call_ensures(PhaseContext::await_worker_channels, (context, joined), r),
    ensures
        final(context).dialling + (if joined is Some {
            1int
        } else {
            0
        }) == old(context).dialling,
        *final(context) == (PhaseContext { dialling: final(context).dialling, ..*old(context) }),
        r is Err <==> joined is Some && joined->0 is Err,
        r matches Err(e) ==> e is RetryableError && e->RetryableError_source@
            == joined->0->Err_0@ && e->retries == 10 && e->state == StateName::Scheduling,
        r is Ok ==> r->Ok_0 is Continue,
{
}

/// While tasks are waited for, a worker's report marks that worker and no other, ready or failed as
/// it says, and fails the attempt exactly where a worker that is known failed; a subtask that
/// started is counted; a task's failure is the job's to decide about; and everything else is handed
/// on as it is.
pub proof fn a_report_is_recorded_of_whom_it_is_about(
    context: &mut PhaseContext,
    msg: JobMessage,
    checked: Result<(), StateError>,
    r: Result<WaitStep, StateError>,
    asked: WorkerId,
    before: Option<&WorkerStatus>,
    after: Option<&WorkerStatus>,
    reported: WorkerId,
    of_reported: Option<&WorkerStatus>,
)
    requires
        call_ensures(PhaseContext::handle_task_wait_message, (context, msg, checked), r),
        call_ensures(Workers::get, (&old(context).workers, asked), before),
        call_ensures(Workers::get, (&final(context).workers, asked), after),
        msg is WorkerInitializationComplete ==> reported
            == msg->WorkerInitializationComplete_worker_id,
        call_ensures(Workers::get, (&old(context).workers, reported), of_reported),
    ensures
        after is Some <==> before is Some,
        before is Some ==> after->0.state == (if msg is WorkerInitializationComplete && asked
            == reported {
            if msg->success {
                WorkerState::Ready
            } else {
                WorkerState::Failed
            }
        } else {
            before->0.state
        }) && after->0.slots == before->0.slots && after->0.rpc_address@ == before->0.rpc_address@
            && after->0.data_address@ == before->0.data_address@,
        msg is WorkerInitializationComplete ==> (r is Err <==> !msg->success && of_reported
            is Some),
        msg is WorkerInitializationComplete && r is Err ==> r->Err_0 is RetryableError
            && r->Err_0->retries == 5 && r->Err_0->state == StateName::Scheduling,
        msg is WorkerInitializationComplete && r is Ok ==> r->Ok_0 == WaitStep::Wait(
            PhaseWait::Continue,
        ),
        forall|t: (u32, u32)| #[trigger]
            final(context).started_tasks@.contains(t) <==> old(context).started_tasks@.contains(t)
                || msg is TaskStarted && t.0 == msg->task_id && t.1 == msg->subtask_idx,
        msg is TaskStarted ==> r == Ok::<_, StateError>(WaitStep::Wait(PhaseWait::Continue)),
        forall|failure: TaskFailure| #[trigger]
            fails_task(r, failure) <==> msg == JobMessage::RunningMessage(
                RunningMessage::TaskFailed(failure),
            ),
        r is Ok && r->Ok_0 is HandOn <==> msg is Other || msg is WorkerConnect || (msg
            is RunningMessage && msg->RunningMessage_0 is Other),
        r is Ok && r->Ok_0 is HandOn ==> r->Ok_0->HandOn_0 == msg,
        !(r is Ok && r->Ok_0 is Dial),
        *final(context) == (PhaseContext {
            workers: final(context).workers,
            started_tasks: final(context).started_tasks,
            ..*old(context)
        }),
{
}

/// Whether a step hands this failure on to the job.
pub open spec fn fails_task(r: Result<WaitStep, StateError>, failure: TaskFailure) -> bool {
    r is Ok && r->Ok_0 is TaskFailed && r->Ok_0->TaskFailed_0 == failure
}

/// A startup that timed out is the job's failure exactly where its leader says the job is failing or
/// has failed, and why; without a reason, or without such a leader, the attempt is retried, more
/// often where the leader is to blame.
pub proof fn a_timeout_is_the_leaders_failure_where_it_says_so(
    context: &PhaseContext,
    status: Option<LeaderStatus>,
    budget: &str,
    verdict: LeaderVerdict,
    r: Result<JobFailure, StateError>,
)
    requires
        call_ensures(PhaseContext::leader_startup_verdict, (context, status), verdict),
        call_ensures(PhaseContext::task_startup_timeout, (context, status, budget), r),
    ensures
        r is Ok <==> status is Some && (status->0.job_state == Some(JobState::JobFailing)
            || status->0.job_state == Some(JobState::JobFailed)) && status->0.job_failure is Some,
        r matches Ok(failure) ==> Some(failure) == status->0.job_failure,
        verdict is Failed <==> r is Ok,
        r matches Ok(failure) ==> verdict->Failed_0 == failure,
        r matches Err(e) ==> e is RetryableError && e->state == StateName::Scheduling && e->retries
            == (if verdict is FailedWithoutReason {
            10int
        } else {
            3
        }),
        verdict is FailedWithoutReason <==> status is Some && (status->0.job_state == Some(
            JobState::JobFailing,
        ) || status->0.job_state == Some(JobState::JobFailed)) && status->0.job_failure is None,
{
}

/// A wait for workers that runs out of time is retried.
pub proof fn a_wait_for_workers_is_retried(context: &PhaseContext, budget: &str, e: StateError)
    requires
        call_ensures(PhaseContext::worker_startup_timeout, (context, budget), e),
    ensures
        e is RetryableError,
        e->state == StateName::Scheduling,
        e->retries == 3,
{
}

/// A report that a worker initialized is recorded of that worker whether it is read as a message or
/// by itself, and has the same outcome.
pub proof fn an_initialization_is_recorded_alike(
    by_itself: &mut PhaseContext,
    as_message: &mut PhaseContext,
    worker_id: WorkerId,
    success: bool,
    error_message: Option<String>,
    checked: Result<(), StateError>,
    r: Result<PhaseWait, StateError>,
    step: Result<WaitStep, StateError>,
    found: Option<&WorkerStatus>,
)
    requires
        *old(as_message) == *old(by_itself),
        call_ensures(
            PhaseContext::record_worker_initialization,
            (by_itself, worker_id, success, error_message),
            r,
        ),
        call_ensures(
            PhaseContext::handle_task_wait_message,
            (
                as_message,
                JobMessage::WorkerInitializationComplete { worker_id, success, error_message },
                checked,
            ),
            step,
        ),
        call_ensures(Workers::get, (&old(by_itself).workers, worker_id), found),
    ensures
        r is Err <==> step is Err,
        r is Err <==> !success && found is Some,
        final(by_itself).workers@ == final(as_message).workers@,
        final(by_itself).job == final(as_message).job,
        r matches Err(e) ==> e is RetryableError && e->retries == 5 && e->state
            == StateName::Scheduling,
{
}

} // verus!
