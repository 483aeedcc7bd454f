//! Handing a started execution over to the state that runs it.

use crate::job::{JobContext, JobStatus, LeaderContext};
use crate::lifecycle::fence::FenceProtocol;
use crate::scheduling::context::PhaseContext;
use crate::scheduling::restore::CommittingState;
use crate::states::{retryable, NextState, StateError, StateName, Transition};
use crate::running::Running;
use crate::types::WorkerId;
use vstd::prelude::*;

verus! {

/// What the job's controller is built from, where this process runs it.
#[derive(Debug)]
pub struct ControllerPlan {
    pub generation: u64,
    pub start_epoch: u64,
    pub min_epoch: u64,
    pub workers: Vec<WorkerId>,
    pub committing_state: Option<CommittingState>,
    pub protocol: FenceProtocol,
}

/// An attempt after the handover noted what its execution comes to: how many tasks run, and
/// whether restored commits wait to be published.
pub open spec fn noted(context: PhaseContext) -> PhaseContext {
    PhaseContext {
        job: JobContext {
            status: JobStatus {
                tasks: Some(context.job.program.task_count as i32),
                ..context.job.status
            },
            ..context.job
        },
        restored_commits_pending: context.committing_state is Some,
        ..context
    }
}

/// What preparing the handover does to an attempt.
pub open spec fn handed_over(
    before: PhaseContext,
    after: PhaseContext,
    protocol: Result<FenceProtocol, String>,
    r: Result<Option<ControllerPlan>, StateError>,
) -> bool {
    if before.leader_mode {
        r == Ok::<Option<ControllerPlan>, StateError>(None) && after == noted(
            before,
        )
    } else {
        match protocol {
            Err(source) => {
                &&& r matches Err(e) && crate::scheduling::plan::unaddressable(e, source@)
                &&& after == noted(before)
            },
            Ok(protocol) => {
                &&& r matches Ok(Some(plan)) && {
                    &&& plan.generation == before.job.status.generation
                    &&& (plan.start_epoch, plan.min_epoch)
                        == crate::scheduling::context::epochs_of(before)
                    &&& plan.workers == before.started_workers
                    &&& plan.committing_state == before.committing_state
                    &&& plan.protocol == protocol
                }
                &&& after.started_workers@.len() == 0
                &&& after == (PhaseContext {
                    started_workers: after.started_workers,
                    committing_state: None,
                    controller_built: true,
                    ..noted(before)
                })
            },
        }
    }
}

impl PhaseContext {
    /// Whether the restored checkpoint left a commit to finish.
    pub fn needs_restored_commits(&self) -> (r: bool)
        ensures
            r == self.restored_commits_pending,
    {
        self.restored_commits_pending
    }

    /// Notes what the execution comes to and, where no worker leads, says what the job's controller
    /// is built from. The commits go with the controller; that there were any is noted before.
    pub fn prepare_handover(&mut self, protocol: Result<FenceProtocol, String>) -> (r: Result<
        Option<ControllerPlan>,
        StateError,
    >)
        ensures
            final(self).restored_commits_pending == (old(self).committing_state is Some),
            r is Ok && !old(self).leader_mode ==> final(self).controller_built,
            handed_over(*old(self), *final(self), protocol, r),
    {
        self.job.status.tasks = Some(#[verifier::truncate] (self.job.program.task_count as i32));
        self.restored_commits_pending = self.committing_state.is_some();
        if self.leader_mode {
            return Ok(None);
        }
        let (start_epoch, min_epoch) = self.epochs();
        match self.fence_protocol(protocol) {
            Err(e) => Err(e),
            Ok(protocol) => {
                let mut workers: Vec<WorkerId> = Vec::new();
                std::mem::swap(&mut workers, &mut self.started_workers);
                let committing_state = self.committing_state.take();
                self.controller_built = true;
                Ok(
                    Some(
                        ControllerPlan {
                            generation: self.job.status.generation,
                            start_epoch,
                            min_epoch,
                            workers,
                            committing_state,
                            protocol,
                        },
                    ),
                )
            },
        }
    }

    /// Leaves for the state that runs the execution. Where a worker leads it is that worker's
    /// connection that decides, and `connected` says what it came to; the job's row then names it.
    pub fn into_transition(self, connected: Result<(), String>) -> (r: Result<
        (JobContext, Transition),
        (PhaseContext, StateError),
    >)
        ensures
            left_for(self, connected, r),
    {
        let mut this = self;
        match this.leader_endpoint() {
            None => Ok((this.job, Transition::Advance(NextState::Running(Running {  })))),
            Some((worker_id, rpc_address)) => match connected {
                Err(source) => {
                    let reason = retryable(
                        StateName::Scheduling,
                        "failed to connect to worker leader",
                        source,
                        10,
                    );
                    Err((this, reason))
                },
                Ok(()) => {
                    let generation: u64 = this.job.status.generation;
                    this.job.status.leader = Some(
                        LeaderContext { worker_id, rpc_address, generation },
                    );
                    Ok((this.job, Transition::Advance(NextState::LeaderRunning)))
                },
            },
        }
    }
}

/// What leaving for the state that runs the execution comes to.
pub open spec fn left_for(
    context: PhaseContext,
    connected: Result<(), String>,
    r: Result<(JobContext, Transition), (PhaseContext, StateError)>,
) -> bool {
    if !context.leader_mode || context.workers@.dom() =~= Set::<u64>::empty() {
        r == Ok::<_, (PhaseContext, StateError)>(
            (context.job, Transition::Advance(NextState::Running(Running {  }))),
        )
    } else {
        match connected {
            Err(source) => r matches Err((kept, e)) && kept == context && e.retryable_with(
                StateName::Scheduling,
                "failed to connect to worker leader"@,
                source@,
                10,
            ),
            Ok(()) => r matches Ok((job, transition)) && {
                &&& transition == Transition::Advance(NextState::LeaderRunning)
                &&& job == (JobContext {
                    status: JobStatus { leader: job.status.leader, ..context.job.status },
                    ..context.job
                })
                &&& job.status.leader matches Some(leader) && {
                    &&& crate::scheduling::workers::leads(context.workers@, leader.worker_id.0)
                    &&& leader.rpc_address@ == context.workers@[leader.worker_id.0].rpc_address
                    &&& leader.generation == context.job.status.generation
                }
            },
        }
    }
}

/// An execution is handed over as it was started: a controller is built exactly where no worker
/// leads and the workers can be addressed, for this generation, with the workers that started and
/// the commits that are to be replayed, both of which leave the attempt with it. That there are
/// commits is noted before they leave.
pub proof fn a_controller_is_built_from_what_was_started(
    context: &mut PhaseContext,
    protocol: Result<FenceProtocol, String>,
    r: Result<Option<ControllerPlan>, StateError>,
    epochs: (u64, u64),
)
    requires
        call_ensures(PhaseContext::prepare_handover, (context, protocol), r),
        call_ensures(PhaseContext::epochs, (&*old(context),), epochs),
    ensures
        r is Err <==> !old(context).leader_mode && protocol is Err,
        r matches Err(e) ==> e is RetryableError && e->RetryableError_source@ == protocol->Err_0@
            && e->retries == 10 && e->state == StateName::Scheduling,
        r matches Ok(plan) ==> (plan is None <==> old(context).leader_mode),
        r matches Ok(Some(plan)) ==> {
            &&& plan.generation == old(context).job.status.generation
            &&& plan.start_epoch == epochs.0
            &&& plan.min_epoch == epochs.1
            &&& plan.workers@ == old(context).started_workers@
            &&& plan.committing_state == old(context).committing_state
            &&& plan.protocol == protocol->Ok_0
            &&& final(context).started_workers@.len() == 0
            &&& final(context).committing_state is None
            &&& final(context).controller_built
        },
        final(context).restored_commits_pending == (old(context).committing_state is Some),
        final(context).job.status.tasks == Some(old(context).job.program.task_count as i32),
        final(context).job.status.generation == old(context).job.status.generation,
        final(context).job.status.restarts == old(context).job.status.restarts,
        final(context).job.status.leader == old(context).job.status.leader,
        final(context).job.config == old(context).job.config,
        final(context).job.program == old(context).job.program,
{
}

/// A job leaves for its worker leader exactly where a worker leads and was connected to: the row
/// then names the worker with the smallest id, at its own address and in this generation. A leader
/// that could not be connected to is tried again, and a job no worker leads is run from here.
pub proof fn a_led_job_leaves_for_the_worker_that_leads(
    context: PhaseContext,
    connected: Result<(), String>,
    r: Result<(JobContext, Transition), (PhaseContext, StateError)>,
    endpoint: Option<(WorkerId, String)>,
)
    requires
        call_ensures(PhaseContext::into_transition, (context, connected), r),
        call_ensures(PhaseContext::leader_endpoint, (&context,), endpoint),
    ensures
        endpoint is Some <==> context.leader_mode && !(context.workers@.dom() =~= Set::<
            u64,
        >::empty()),
        endpoint is None ==> r is Ok && r->Ok_0.1 == Transition::Advance(
            NextState::Running(Running {  }),
        ) && r->Ok_0.0 == context.job,
        endpoint is Some ==> (r is Err <==> connected is Err),
        endpoint is Some && connected is Ok ==> {
            let (job, to) = r->Ok_0;
            &&& to == Transition::Advance(NextState::LeaderRunning)
            &&& job.status.leader is Some
            &&& job.status.leader->0.worker_id == (endpoint->0).0
            &&& job.status.leader->0.rpc_address@ == (endpoint->0).1@
            &&& job.status.leader->0.generation == context.job.status.generation
            &&& forall|w: u64| #[trigger]
                context.workers@.contains_key(w) ==> job.status.leader->0.worker_id.0 <= w
            &&& job.status.generation == context.job.status.generation
            &&& job.status.restarts == context.job.status.restarts
            &&& job.status.tasks == context.job.status.tasks
            &&& job.config == context.job.config
            &&& job.program == context.job.program
        },
        r matches Err((kept, e)) ==> kept == context && e is RetryableError
            && e->RetryableError_source@ == connected->Err_0@ && e->retries == 10,
{
    if context.leader_mode && !(context.workers@.dom() =~= Set::<u64>::empty()) && connected is Ok {
        let leader = r->Ok_0.0.status.leader->0;
        assert(context.workers@.contains_key(leader.worker_id.0));
        assert(context.workers@.contains_key(((endpoint->0).0).0));
        assert(leader.worker_id.0 == ((endpoint->0).0).0);
    }
}

} // verus!
