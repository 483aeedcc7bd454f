//! One scheduling attempt: what it knows, and what the outcome of each of its irreversible
//! effects does to it.

use crate::admission::Released;
use crate::job::JobContext;
use crate::lifecycle::fence::FenceProtocol;
use crate::lifecycle::witness::{FenceAcknowledgement, ObservedTermination};
use crate::scheduling::checkpoint;
use crate::scheduling::checkpoint::LeaderRecoveryFailure;
use crate::scheduling::fanout::IssuedAttempts;
use crate::scheduling::restore::{CheckpointInfo, CommittingState};
use crate::scheduling::tasks::StartedTasks;
use crate::scheduling::workers::{slots_for_job, Worker, WorkerState, WorkerStatus, Workers};
use crate::scheduling::observation::FencedIntent;
use crate::scheduling::Scheduling;
use crate::states::{
    fatal, retryable, FatalProvenance, NextState, StateError, StateName, Transition,
};
use crate::types::{LogicalProgram, WorkerId};
use vstd::prelude::*;
use vstd::string::*;

verus! {

/// Everything one scheduling attempt knows.
#[derive(Debug)]
pub struct PhaseContext {
    pub job: JobContext,
    /// Whether a worker runs the job's controller.
    pub leader_mode: bool,
    pub slots_needed: usize,
    pub workers: Workers,
    /// How many workers' addresses are being dialled.
    pub dialling: usize,
    /// The workers that accepted their `StartExecution`.
    pub started_workers: Vec<WorkerId>,
    pub started_tasks: StartedTasks,
    pub checkpoint_info: Option<CheckpointInfo>,
    pub committing_state: Option<CommittingState>,
    pub restored_commits_pending: bool,
    pub controller_built: bool,
    /// Who holds the job instead, once another controller was found to.
    pub superseded: Option<String>,
    /// The candidate this attempt published and did not root.
    pub unrooted_candidate: Option<String>,
    /// The current-generation pointer that waits for the root.
    pub deferred_current_generation: Option<String>,
    pub observed_acknowledgements: Vec<FenceAcknowledgement>,
    pub observed_terminations: Vec<ObservedTermination>,
}

/// What a write that is conditional on this controller's authority came to.
#[derive(Debug, PartialEq, Eq)]
pub enum AuthorityOutcome {
    Applied,
    /// The row carries another controller's authority, as it prints.
    Stale(String),
}

/// What publishing the job's status came to.
#[derive(Debug, PartialEq, Eq)]
pub enum StatusPublication {
    Published,
    /// Another controller holds the job, as its authority prints.
    Superseded(String),
}

/// What preparing the recovery checkpoint came to, in either topology.
#[derive(Debug)]
pub enum RecoveryPreparation {
    Leader(Result<Option<CheckpointInfo>, LeaderRecoveryFailure>),
    Controller(Result<(Option<CheckpointInfo>, Option<CommittingState>), StateError>),
}

/// Whether `e` is what an attempt ends with once another controller holds its job.
pub open spec fn stands_down(e: StateError, stale: Seq<char>) -> bool {
    e.fatal_with("another controller holds this job's durable lifecycle authority"@, stale)
}

impl PhaseContext {
    /// An attempt that has done nothing yet.
    pub fn new(job: JobContext, leader_mode: bool) -> (r: Self)
        ensures
            r.job == job,
            r.leader_mode == leader_mode,
            r.slots_needed == 0,
            r.workers@ == Map::<u64, Worker>::empty(),
            r.dialling == 0,
            r.started_workers@.len() == 0,
            r.started_tasks@ == Set::<(u32, u32)>::empty(),
            r.checkpoint_info is None,
            r.committing_state is None,
            !r.restored_commits_pending,
            !r.controller_built,
            r.superseded is None,
            r.unrooted_candidate is None,
            r.deferred_current_generation is None,
            r.observed_acknowledgements@.len() == 0,
            r.observed_terminations@.len() == 0,
    {
        PhaseContext {
            job,
            leader_mode,
            slots_needed: 0,
            workers: Workers::new(),
            dialling: 0,
            started_workers: Vec::new(),
            started_tasks: StartedTasks::new(),
            checkpoint_info: None,
            committing_state: None,
            restored_commits_pending: false,
            controller_built: false,
            superseded: None,
            unrooted_candidate: None,
            deferred_current_generation: None,
            observed_acknowledgements: Vec::new(),
            observed_terminations: Vec::new(),
        }
    }

    /// The error that ends the attempt because another controller holds the job. Who it is stays
    /// with the attempt.
    pub fn stand_down_from(&mut self, stale: String) -> (r: StateError)
        ensures
            stands_down(r, stale@),
            final(self).superseded matches Some(noted) && noted@ == stale@,
            *final(self) == (PhaseContext { superseded: final(self).superseded, ..*old(self) }),
    {
        let reason = fatal(
            "another controller holds this job's durable lifecycle authority",
            stale.clone(),
        );
        self.superseded = Some(stale);
        reason
    }

    /// What adopting the job's durable authority came to.
    pub fn adopt_lifecycle_authority(&mut self, outcome: Result<AuthorityOutcome, String>) -> (r:
        Result<(), StateError>)
        ensures
            adopted(*old(self), *final(self), outcome, r),
    {
        match outcome {
            Ok(AuthorityOutcome::Applied) => Ok(()),
            Ok(AuthorityOutcome::Stale(stale)) => Err(self.stand_down_from(stale)),
            Err(source) => Err(
                retryable(
                    StateName::Scheduling,
                    "failed to adopt the job's durable lifecycle authority",
                    source,
                    10,
                ),
            ),
        }
    }

    /// Raises the job to its next generation, in memory. What is published next carries it.
    pub fn raise_generation(&mut self)
        requires
            old(self).job.status.generation < u64::MAX,
        ensures
            final(self).job.status.generation == old(self).job.status.generation + 1,
            *final(self) == (PhaseContext {
                job: JobContext {
                    status: crate::job::JobStatus {
                        generation: final(self).job.status.generation,
                        ..old(self).job.status
                    },
                    ..old(self).job
                },
                ..*old(self)
            }),
    {
        self.job.status.generation = self.job.status.generation + 1;
    }

    /// What publishing the raised generation came to.
    pub fn persist_generation(&mut self, outcome: Result<StatusPublication, String>) -> (r: Result<
        (),
        StateError,
    >)
        ensures
            persisted(*old(self), *final(self), outcome, r),
    {
        match outcome {
            Ok(StatusPublication::Published) => Ok(()),
            Ok(StatusPublication::Superseded(stale)) => Err(self.stand_down_from(stale)),
            Err(source) => Err(
                retryable(
                    StateName::Scheduling,
                    "failed to advance generation for scheduling retry",
                    source,
                    10,
                ),
            ),
        }
    }

    /// Takes the program with the job's parallelism applied, and says how many slots it needs.
    pub fn start_replacement_workers(&mut self, program: LogicalProgram) -> (r: usize)
        ensures
            r == crate::scheduling::workers::slots_of(program.nodes@),
            *final(self) == (PhaseContext {
                job: JobContext { program, ..old(self).job },
                slots_needed: r,
                ..*old(self)
            }),
    {
        self.slots_needed = slots_for_job(&program);
        self.job.program = program;
        self.slots_needed
    }

    /// What preparing the recovery checkpoint came to. Only the topology in which the controller
    /// keeps the checkpoints replays commits itself.
    pub fn prepare_recovery_checkpoint(&mut self, outcome: RecoveryPreparation) -> (r: Result<
        (),
        StateError,
    >)
        ensures
            recovered(*old(self), *final(self), outcome, r),
    {
        match outcome {
            RecoveryPreparation::Leader(result) => match checkpoint::leader_prepared(result) {
                Ok(info) => {
                    self.checkpoint_info = info;
                    self.committing_state = None;
                    Ok(())
                },
                Err(e) => Err(e),
            },
            RecoveryPreparation::Controller(Ok((info, committing))) => {
                self.checkpoint_info = info;
                self.committing_state = committing;
                Ok(())
            },
            RecoveryPreparation::Controller(Err(e)) => Err(e),
        }
    }

    /// The epoch the job starts from and the oldest one it keeps.
    pub fn epochs(&self) -> (r: (u64, u64))
        ensures
            r == epochs_of(*self),
    {
        checkpoint::epochs(
            self.leader_mode,
            self.job.config.ignore_state_before_epoch,
            &self.checkpoint_info,
        )
    }

    /// The worker that leads, and its address, where one does.
    pub fn leader_endpoint(&self) -> (r: Option<(WorkerId, String)>)
        ensures
            leads_at(*self, r),
    {
        if !self.leader_mode {
            return None;
        }
        self.workers.leader()
    }

    /// Takes the acknowledgements observed so far.
    pub fn observed_fence_acknowledgements(&mut self) -> (r: Vec<FenceAcknowledgement>)
        ensures
            r == old(self).observed_acknowledgements,
            final(self).observed_acknowledgements@.len() == 0,
            *final(self) == (PhaseContext {
                observed_acknowledgements: final(self).observed_acknowledgements,
                ..*old(self)
            }),
    {
        let mut taken: Vec<FenceAcknowledgement> = Vec::new();
        std::mem::swap(&mut taken, &mut self.observed_acknowledgements);
        taken
    }

    /// Records acknowledgements behind those observed already.
    pub fn record_observed_acknowledgements(
        &mut self,
        acknowledgements: Vec<FenceAcknowledgement>,
    )
        ensures
            final(self).observed_acknowledgements@ == old(self).observed_acknowledgements@
                + acknowledgements@,
            *final(self) == (PhaseContext {
                observed_acknowledgements: final(self).observed_acknowledgements,
                ..*old(self)
            }),
    {
        let mut acknowledgements = acknowledgements;
        self.observed_acknowledgements.append(&mut acknowledgements);
    }

    /// Takes the terminations observed so far.
    pub fn observed_generation_terminations(&mut self) -> (r: Vec<ObservedTermination>)
        ensures
            r == old(self).observed_terminations,
            final(self).observed_terminations@.len() == 0,
            *final(self) == (PhaseContext {
                observed_terminations: final(self).observed_terminations,
                ..*old(self)
            }),
    {
        let mut taken: Vec<ObservedTermination> = Vec::new();
        std::mem::swap(&mut taken, &mut self.observed_terminations);
        taken
    }

    /// Records terminations behind those observed already.
    pub fn record_observed_terminations(&mut self, terminations: Vec<ObservedTermination>)
        ensures
            final(self).observed_terminations@ == old(self).observed_terminations@ + terminations@,
            *final(self) == (PhaseContext {
                observed_terminations: final(self).observed_terminations,
                ..*old(self)
            }),
    {
        let mut terminations = terminations;
        self.observed_terminations.append(&mut terminations);
    }

    /// The workers whose termination is worth asking about as the attempt ends. Nothing where it
    /// addressed none.
    pub fn teardown_targets(&self) -> (r: Vec<u64>)
        ensures
            crate::collections::in_order(r@, self.workers@.dom()),
    {
        self.workers.ids()
    }

    /// What asking came to. A scheduler that cannot say leaves every target as it was: not knowing
    /// is not knowing that they are gone.
    pub fn observe_generation_teardown(
        &mut self,
        observed: Result<Vec<ObservedTermination>, String>,
    )
        ensures
            match observed {
                Ok(terminations) => {
                    &&& final(self).observed_terminations@ == old(self).observed_terminations@
                        + terminations@
                    &&& *final(self) == (PhaseContext {
                        observed_terminations: final(self).observed_terminations,
                        ..*old(self)
                    })
                },
                Err(_) => *final(self) == *old(self),
            },
    {
        match observed {
            Ok(terminations) => self.record_observed_terminations(terminations),
            Err(_) => {},
        }
    }

    /// Marks the workers that accepted their `StartExecution`.
    pub fn record_started_connects(&mut self, started: Vec<WorkerId>)
        ensures
            final(self).workers@ == marked_initializing(old(self).workers@, started@),
            *final(self) == (PhaseContext {
                workers: final(self).workers,
                started_workers: started,
                ..*old(self)
            }),
    {
        let mut i: usize = 0;
        assert(started@.take(0) =~= Seq::empty());
        while i < started.len()
            invariant
                i <= started@.len(),
                self.workers@ == marked_initializing(old(self).workers@, started@.take(i as int)),
                *self == (PhaseContext { workers: self.workers, ..*old(self) }),
            decreases started@.len() - i,
        {
            assert(started@.take(i + 1).drop_last() =~= started@.take(i as int));
            let _known = self.workers.mark(started[i], WorkerState::Initializing);
            i = i + 1;
        }
        assert(started@.take(started@.len() as int) =~= started@);
        self.started_workers = started;
    }

    pub fn addressed_generation(&self) -> (r: u64)
        ensures
            r == self.job.status.generation,
    {
        self.job.status.generation
    }

    /// The fence this attempt addresses its workers under, or zero where it holds none.
    pub fn addressed_fence(&self, protocol: &Result<FenceProtocol, String>) -> (r: u64)
        ensures
            r == fence_of(*protocol),
    {
        match protocol {
            Ok(protocol) => protocol.fence(),
            Err(_) => 0,
        }
    }

    /// Where each worker answers, by ascending id.
    pub fn target_addresses(&self) -> (r: Vec<(u64, String)>)
        ensures
            crate::collections::in_order(
                Seq::new(r@.len(), |i: int| r@[i].0),
                self.workers@.dom(),
            ),
            forall|i: int|
                0 <= i < r@.len() ==> (#[trigger] r@[i]).1@ == self.workers@[r@[i].0].rpc_address,
    {
        let ids = self.workers.ids();
        let mut r: Vec<(u64, String)> = Vec::new();
        let mut i: usize = 0;
        while i < ids.len()
            invariant
                i <= ids@.len(),
                r@.len() == i,
                crate::collections::in_order(ids@, self.workers@.dom()),
                forall|j: int|
                    0 <= j < i ==> (#[trigger] r@[j]).0 == ids@[j] && r@[j].1@
                        == self.workers@[ids@[j]].rpc_address,
            decreases ids@.len() - i,
        {
            assert(ids@.contains(ids@[i as int]));
            assert(self.workers@.dom().contains(ids@[i as int]));
            if let Some(status) = self.workers.get(WorkerId(ids[i])) {
                r.push((ids[i], status.rpc_address.clone()));
            }
            i = i + 1;
        }
        assert(Seq::new(r@.len(), |i: int| r@[i].0) =~= ids@);
        r
    }

    /// Ends the attempt: what interrupted it, what it is still answerable for, and which worker
    /// generations may have been addressed.
    pub fn into_fencing(
        self,
        reason: StateError,
        outstanding: IssuedAttempts,
        addressed_fence: u64,
        released: Option<Released>,
    ) -> (r: Interrupted)
        ensures
            r.reason == reason,
            r.released == released,
            r.fencing.outstanding == outstanding,
            r.fencing.transferred == 0,
            r.fencing.abandoned == 0,
            fences(self, addressed_fence, r.fencing),
    {
        let mut context = self;
        let superseded = context.superseded.take();
        let unrooted_candidate = context.unrooted_candidate.take();
        let targets = context.workers.ids();
        Interrupted {
            fencing: Fencing {
                context,
                targets,
                addressed_fence,
                outstanding,
                superseded,
                unrooted_candidate,
                transferred: 0,
                abandoned: 0,
            },
            reason,
            released,
        }
    }
}

/// What adopting the job's durable authority does to an attempt.
pub open spec fn adopted(
    before: PhaseContext,
    after: PhaseContext,
    outcome: Result<AuthorityOutcome, String>,
    r: Result<(), StateError>,
) -> bool {
    match outcome {
        Ok(AuthorityOutcome::Applied) => r is Ok && after == before,
        Ok(AuthorityOutcome::Stale(stale)) => {
            &&& r matches Err(e) && stands_down(e, stale@)
            &&& after.superseded matches Some(noted) && noted@ == stale@
            &&& after == (PhaseContext {
                superseded: after.superseded,
                ..before
            })
        },
        Err(source) => {
            &&& r matches Err(e) && e.retryable_with(
                StateName::Scheduling,
                "failed to adopt the job's durable lifecycle authority"@,
                source@,
                10,
            )
            &&& after == before
        },
    }
}

/// What publishing the raised generation does to an attempt.
pub open spec fn persisted(
    before: PhaseContext,
    after: PhaseContext,
    outcome: Result<StatusPublication, String>,
    r: Result<(), StateError>,
) -> bool {
    match outcome {
        Ok(StatusPublication::Published) => r is Ok && after == before,
        Ok(StatusPublication::Superseded(stale)) => {
            &&& r matches Err(e) && stands_down(e, stale@)
            &&& after.superseded matches Some(noted) && noted@ == stale@
            &&& after == (PhaseContext {
                superseded: after.superseded,
                ..before
            })
        },
        Err(source) => {
            &&& r matches Err(e) && e.retryable_with(
                StateName::Scheduling,
                "failed to advance generation for scheduling retry"@,
                source@,
                10,
            )
            &&& after == before
        },
    }
}

/// What preparing the recovery checkpoint does to an attempt.
pub open spec fn recovered(
    before: PhaseContext,
    after: PhaseContext,
    outcome: RecoveryPreparation,
    r: Result<(), StateError>,
) -> bool {
    match outcome {
        RecoveryPreparation::Leader(Ok(info)) => r is Ok && after == (PhaseContext {
            checkpoint_info: info,
            committing_state: None,
            ..before
        }),
        RecoveryPreparation::Leader(Err(LeaderRecoveryFailure::StateBackend(source))) => {
            &&& r matches Err(e) && e.fatal_with(
                "cannot restore a checkpoint written with a different state backend"@,
                source@,
            )
            &&& after == before
        },
        RecoveryPreparation::Leader(Err(LeaderRecoveryFailure::Other(source))) => {
            &&& r matches Err(e) && e.retryable_with(
                StateName::Scheduling,
                "failed to load checkpoint metadata"@,
                source@,
                20,
            )
            &&& after == before
        },
        RecoveryPreparation::Controller(Ok((info, committing))) => r is Ok && after
            == (PhaseContext {
            checkpoint_info: info,
            committing_state: committing,
            ..before
        }),
        RecoveryPreparation::Controller(Err(e)) => r == Err::<(), _>(e) && after
            == before,
    }
}

/// The fence a job's protocol carries, or zero where the job can address nothing.
pub open spec fn fence_of(protocol: Result<FenceProtocol, String>) -> u64 {
    match protocol {
        Ok(protocol) => protocol.carries(),
        Err(_) => 0,
    }
}

/// The epoch an attempt's job starts from and the oldest one it keeps.
pub open spec fn epochs_of(context: PhaseContext) -> (u64, u64) {
    match context.checkpoint_info {
        Some(info) => (info.epoch, info.min_epoch),
        None => {
            let default = checkpoint::default_epoch(
                context.leader_mode,
                context.job.config.ignore_state_before_epoch,
            );
            (default, default)
        },
    }
}

/// Whether `endpoint` is the worker that leads the attempt, and its address.
pub open spec fn leads_at(context: PhaseContext, endpoint: Option<(WorkerId, String)>) -> bool {
    if !context.leader_mode || context.workers@.dom() =~= Set::<u64>::empty() {
        endpoint is None
    } else {
        endpoint matches Some((id, address)) && crate::scheduling::workers::leads(
            context.workers@,
            id.0,
        ) && address@ == context.workers@[id.0].rpc_address
    }
}

/// The workers after those of `started` that are known were marked as initializing.
pub open spec fn marked_initializing(workers: Map<u64, Worker>, started: Seq<WorkerId>) -> Map<
    u64,
    Worker,
>
    decreases started.len(),
{
    if started.len() == 0 {
        workers
    } else {
        let before = marked_initializing(workers, started.drop_last());
        let id = started.last().0;
        if before.contains_key(id) {
            before.insert(id, Worker { state: WorkerState::Initializing, ..before[id] })
        } else {
            before
        }
    }
}

/// Whether `fencing` is what an attempt that addressed its workers under `addressed_fence` leaves
/// to be fenced, whatever it issued: every worker it may have addressed, and what it found out.
pub open spec fn fences(context: PhaseContext, addressed_fence: u64, fencing: Fencing) -> bool {
    &&& fencing.addressed_fence == addressed_fence
    &&& crate::collections::in_order(fencing.targets@, context.workers@.dom())
    &&& fencing.superseded == context.superseded
    &&& fencing.unrooted_candidate == context.unrooted_candidate
    &&& fencing.context == (PhaseContext {
        superseded: None,
        unrooted_candidate: None,
        ..context
    })
}

/// What an interrupted attempt leaves to be fenced.
#[derive(Debug)]
pub struct Fencing {
    pub context: PhaseContext,
    /// The workers the attempt may have addressed, smallest id first.
    pub targets: Vec<u64>,
    pub addressed_fence: u64,
    pub outstanding: IssuedAttempts,
    pub superseded: Option<String>,
    pub unrooted_candidate: Option<String>,
    /// How many issued attempts a settlement owner took over.
    pub transferred: usize,
    /// How many issued attempts were lost with an owner that dropped them.
    pub abandoned: usize,
}

/// An attempt that was interrupted, and why.
#[derive(Debug)]
pub struct Interrupted {
    pub fencing: Fencing,
    pub reason: StateError,
    /// The release of the authority the attempt held last, unless a settlement owner took that
    /// over.
    pub released: Option<Released>,
}

impl Fencing {
    /// Records attempts that a settlement owner took over.
    pub fn note_transferred(&mut self, attempts: usize)
        ensures
            *final(self) == (Fencing { transferred: attempts, ..*old(self) }),
    {
        self.transferred = attempts;
    }

    /// Records attempts that were lost.
    pub fn note_abandoned(&mut self, attempts: usize)
        ensures
            *final(self) == (Fencing { abandoned: attempts, ..*old(self) }),
    {
        self.abandoned = attempts;
    }
}

impl Interrupted {
    /// What is to be fenced, for recording what became of the attempts.
    pub fn fencing_mut(&mut self) -> (r: &mut Fencing)
        ensures
            *r == old(self).fencing,
            *final(self) == (Interrupted { fencing: *final(r), ..*old(self) }),
    {
        &mut self.fencing
    }

    /// Where the job goes from an attempt that was interrupted, once its writer was read again. A
    /// controller that lost the job stops, whatever else is the case: losing it is no failure of the
    /// job. A stop decided meanwhile is answered, and a new configuration answers a refused one;
    /// otherwise what interrupted the attempt is reported.
    pub fn reconcile_and_report(self, intent: Result<FencedIntent, StateError>) -> (r: (
        JobContext,
        Result<Transition, StateError>,
    ))
        ensures
            r.0 == self.fencing.context.job,
            r.1 == reported(self.fencing.superseded is Some, self.reason, intent),
    {
        let Interrupted { fencing, reason, released: _ } = self;
        let job = fencing.context.job;
        if fencing.superseded.is_some() {
            return (job, Ok(Transition::Stop));
        }
        let result = match intent {
            Err(refusal) => Err(refusal),
            Ok(FencedIntent::Leave(stop)) => Ok(stop),
            Ok(FencedIntent::Superseded) => match reason {
                StateError::FatalError { provenance: FatalProvenance::Configuration, .. } => Ok(
                    Transition::Advance(NextState::Scheduling(Scheduling {  })),
                ),
                reason => Err(reason),
            },
            Ok(FencedIntent::Unchanged) => Err(reason),
        };
        (job, result)
    }
}

/// Where the job goes from an attempt that was interrupted for `reason`.
pub open spec fn reported(
    lost: bool,
    reason: StateError,
    intent: Result<FencedIntent, StateError>,
) -> Result<Transition, StateError> {
    if lost {
        Ok(Transition::Stop)
    } else {
        match intent {
            Err(refusal) => Err(refusal),
            Ok(FencedIntent::Leave(stop)) => Ok(stop),
            Ok(FencedIntent::Superseded) => if reason matches StateError::FatalError {
                provenance: FatalProvenance::Configuration,
                ..
            } {
                Ok(Transition::Advance(NextState::Scheduling(Scheduling {  })))
            } else {
                Err(reason)
            },
            Ok(FencedIntent::Unchanged) => Err(reason),
        }
    }
}

/// A controller that another one superseded stops. It never reports the job as failed, and never
/// tries again.
pub proof fn a_superseded_controller_stops(
    reason: StateError,
    intent: Result<FencedIntent, StateError>,
)
    ensures
        reported(true, reason, intent) == Ok::<_, StateError>(Transition::Stop),
{
}

/// An effect that the job's row decides goes ahead exactly where the row was written. A controller
/// that finds another one's authority there gives up for good and remembers whose it is; a write
/// that came to nothing is tried again. Nothing else about the attempt changes, and adopting the
/// authority and publishing a generation end alike.
pub proof fn a_conditional_write_that_is_refused_stands_down(
    adopting: &mut PhaseContext,
    publishing: &mut PhaseContext,
    authority: Result<AuthorityOutcome, String>,
    publication: Result<StatusPublication, String>,
    adopted: Result<(), StateError>,
    published: Result<(), StateError>,
)
    requires
        call_ensures(PhaseContext::adopt_lifecycle_authority, (adopting, authority), adopted),
        call_ensures(PhaseContext::persist_generation, (publishing, publication), published),
    ensures
        adopted is Ok <==> authority == Ok::<_, String>(AuthorityOutcome::Applied),
        published is Ok <==> publication == Ok::<_, String>(StatusPublication::Published),
        adopted is Err ==> (adopted->Err_0 is FatalError <==> authority is Ok),
        published is Err ==> (published->Err_0 is FatalError <==> publication is Ok),
        adopted is Err && authority is Err ==> adopted->Err_0->RetryableError_source@
            == authority->Err_0@ && adopted->Err_0->retries == 10,
        published is Err && publication is Err ==> published->Err_0->RetryableError_source@
            == publication->Err_0@ && published->Err_0->retries == 10,
        authority is Ok && authority->Ok_0 is Stale ==> final(adopting).superseded is Some && final(adopting).superseded->0@ == authority->Ok_0->Stale_0@,
        publication is Ok && publication->Ok_0 is Superseded ==> final(publishing).superseded
            is Some && final(publishing).superseded->0@ == publication->Ok_0->Superseded_0@,
        !(authority is Ok && authority->Ok_0 is Stale) ==> final(adopting).superseded == old(adopting).superseded,
        !(publication is Ok && publication->Ok_0 is Superseded) ==> final(publishing).superseded
            == old(publishing).superseded,
        *final(adopting) == (PhaseContext {
            superseded: final(adopting).superseded,
            ..*old(adopting)
        }),
        *final(publishing) == (PhaseContext {
            superseded: final(publishing).superseded,
            ..*old(publishing)
        }),
{
}

/// What preparing the recovery came to is what the attempt knows of it from then on; where the
/// leader keeps the checkpoints, nothing is left for the controller to commit. A failure changes
/// nothing, and is for good exactly where the leader names the state backend, or as it was given.
pub proof fn a_recovery_is_kept_as_it_was_prepared(
    context: &mut PhaseContext,
    outcome: RecoveryPreparation,
    r: Result<(), StateError>,
)
    requires
        call_ensures(PhaseContext::prepare_recovery_checkpoint, (context, outcome), r),
    ensures
        r is Ok <==> match outcome {
            RecoveryPreparation::Leader(result) => result is Ok,
            RecoveryPreparation::Controller(result) => result is Ok,
        },
        r is Ok ==> final(context).checkpoint_info == (match outcome {
            RecoveryPreparation::Leader(result) => result->Ok_0,
            RecoveryPreparation::Controller(result) => (result->Ok_0).0,
        }),
        r is Ok ==> final(context).committing_state == (match outcome {
            RecoveryPreparation::Leader(_) => None,
            RecoveryPreparation::Controller(result) => (result->Ok_0).1,
        }),
        r is Err ==> *final(context) == *old(context),
        *final(context) == (PhaseContext {
            checkpoint_info: final(context).checkpoint_info,
            committing_state: final(context).committing_state,
            ..*old(context)
        }),
        r is Err && outcome is Leader ==> (r->Err_0 is FatalError
            <==> outcome->Leader_0->Err_0 is StateBackend),
        r is Err && outcome is Controller ==> r->Err_0 == outcome->Controller_0->Err_0,
{
}

/// A program that replaces the job's needs the slots of its own widest node, and the job runs it
/// from then on.
pub proof fn a_replacement_runs_the_program_it_was_given(
    context: &mut PhaseContext,
    program: LogicalProgram,
    slots: usize,
    needed: usize,
)
    requires
        call_ensures(PhaseContext::start_replacement_workers, (context, program), slots),
        call_ensures(slots_for_job, (&program,), needed),
    ensures
        slots == needed,
        final(context).slots_needed == slots,
        final(context).job.program == program,
        final(context).job.status == old(context).job.status,
        final(context).job.config == old(context).job.config,
        final(context).workers == old(context).workers,
{
}

/// A worker leads only where the job is led, and then the one with the smallest id; it is the
/// workers' own leader.
pub proof fn a_worker_leads_only_a_led_job(
    context: &PhaseContext,
    endpoint: Option<(WorkerId, String)>,
    leader: Option<(WorkerId, String)>,
)
    requires
        call_ensures(PhaseContext::leader_endpoint, (context,), endpoint),
        call_ensures(Workers::leader, (&context.workers,), leader),
    ensures
        endpoint is Some <==> context.leader_mode && leader is Some,
        endpoint is Some ==> (endpoint->0).0 == (leader->0).0 && (endpoint->0).1@ == (leader->0).1@,
{
}

/// What is recorded of the workers is taken back once, all of it, in the order it was recorded.
pub proof fn what_was_observed_is_taken_once(
    recording: &mut PhaseContext,
    taking: &mut PhaseContext,
    again: &mut PhaseContext,
    acknowledgements: Vec<FenceAcknowledgement>,
    first: Vec<FenceAcknowledgement>,
    second: Vec<FenceAcknowledgement>,
)
    requires
        call_ensures(
            PhaseContext::record_observed_acknowledgements,
            (recording, acknowledgements),
            (),
        ),
        *old(taking) == *final(recording),
        call_ensures(PhaseContext::observed_fence_acknowledgements, (taking,), first),
        *old(again) == *final(taking),
        call_ensures(PhaseContext::observed_fence_acknowledgements, (again,), second),
    ensures
        first@ == old(recording).observed_acknowledgements@ + acknowledgements@,
        second@.len() == 0,
        final(again).observed_terminations == old(recording).observed_terminations,
        final(again).workers == old(recording).workers,
        final(again).job == old(recording).job,
{
}

/// The terminations a teardown observes are taken back once, behind those recorded before; a
/// scheduler that cannot say adds none, and none is lost for it.
pub proof fn an_unknown_termination_is_no_termination(
    observing: &mut PhaseContext,
    taking: &mut PhaseContext,
    again: &mut PhaseContext,
    observed: Result<Vec<ObservedTermination>, String>,
    first: Vec<ObservedTermination>,
    second: Vec<ObservedTermination>,
)
    requires
        call_ensures(PhaseContext::observe_generation_teardown, (observing, observed), ()),
        *old(taking) == *final(observing),
        call_ensures(PhaseContext::observed_generation_terminations, (taking,), first),
        *old(again) == *final(taking),
        call_ensures(PhaseContext::observed_generation_terminations, (again,), second),
    ensures
        first@ == (match observed {
            Ok(terminations) => old(observing).observed_terminations@ + terminations@,
            Err(_) => old(observing).observed_terminations@,
        }),
        second@.len() == 0,
        final(again).observed_acknowledgements == old(observing).observed_acknowledgements,
        final(again).workers == old(observing).workers,
{
}

/// Exactly the workers that started are initializing afterwards, or were before; nothing else about
/// any worker changes, and none comes or goes.
proof fn those_that_started_are_initializing(
    workers: Map<u64, Worker>,
    started: Seq<WorkerId>,
    id: u64,
)
    ensures
        marked_initializing(workers, started).contains_key(id) <==> workers.contains_key(id),
        workers.contains_key(id) ==> marked_initializing(workers, started)[id] == (Worker {
            state: if started.contains(WorkerId(id)) {
                WorkerState::Initializing
            } else {
                workers[id].state
            },
            ..workers[id]
        }),
    decreases started.len(),
{
    if started.len() > 0 {
        let earlier = started.drop_last();
        those_that_started_are_initializing(workers, earlier, id);
        those_that_started_are_initializing(workers, earlier, started.last().0);
        if started.contains(WorkerId(id)) && started.last() != WorkerId(id) {
            let i = choose|i: int| 0 <= i < started.len() && started[i] == WorkerId(id);
            assert(earlier[i] == WorkerId(id));
        }
        if earlier.contains(WorkerId(id)) {
            let i = choose|i: int| 0 <= i < earlier.len() && earlier[i] == WorkerId(id);
            assert(started[i] == WorkerId(id));
        }
        assert(started[started.len() - 1] == started.last());
    }
}

/// The workers that accepted their start are the ones that are initializing: every one of them that
/// is known, and no other that was not before. They are what the attempt counts as started.
pub proof fn accepted_starts_are_what_is_initializing(
    context: &mut PhaseContext,
    started: Vec<WorkerId>,
    asked: WorkerId,
    before: Option<&WorkerStatus>,
    after: Option<&WorkerStatus>,
)
    requires
        call_ensures(PhaseContext::record_started_connects, (context, started), ()),
        call_ensures(Workers::get, (&old(context).workers, asked), before),
        call_ensures(Workers::get, (&final(context).workers, asked), after),
    ensures
        final(context).started_workers == started,
        after is Some <==> before is Some,
        before is Some ==> after->0.state == (if started@.contains(asked) {
            WorkerState::Initializing
        } else {
            before->0.state
        }) && after->0.slots == before->0.slots && after->0.rpc_address@ == before->0.rpc_address@
            && after->0.data_address@ == before->0.data_address@,
        *final(context) == (PhaseContext {
            workers: final(context).workers,
            started_workers: started,
            ..*old(context)
        }),
{
    those_that_started_are_initializing(old(context).workers@, started@, asked.0);
    assert(asked == WorkerId(asked.0));
}

/// Every worker the attempt knows is a target of its teardown and of its fence, and no other; each
/// is reached at its own address.
pub proof fn every_known_worker_is_a_target(
    context: PhaseContext,
    reason: StateError,
    outstanding: IssuedAttempts,
    addressed_fence: u64,
    released: Option<Released>,
    interrupted: Interrupted,
    torn_down: Vec<u64>,
    addresses: Vec<(u64, String)>,
    asked: WorkerId,
    found: Option<&WorkerStatus>,
)
    requires
        call_ensures(
            PhaseContext::into_fencing,
            (context, reason, outstanding, addressed_fence, released),
            interrupted,
        ),
        call_ensures(PhaseContext::teardown_targets, (&context,), torn_down),
        call_ensures(PhaseContext::target_addresses, (&context,), addresses),
        call_ensures(Workers::get, (&context.workers, asked), found),
    ensures
        interrupted.fencing.targets@ == torn_down@,
        torn_down@.contains(asked.0) <==> found is Some,
        addresses@.len() == torn_down@.len(),
        forall|i: int|
            0 <= i < addresses@.len() ==> (#[trigger] addresses@[i]).0 == torn_down@[i],
        forall|i: int|
            0 <= i < addresses@.len() && (#[trigger] addresses@[i]).0 == asked.0
                ==> addresses@[i].1@ == found->0.rpc_address@,
{
    crate::collections::one_order(
        interrupted.fencing.targets@,
        torn_down@,
        context.workers@.dom(),
    );
    let addressed = Seq::new(addresses@.len(), |i: int| addresses@[i].0);
    crate::collections::one_order(addressed, torn_down@, context.workers@.dom());
    assert(addressed.len() == addresses@.len());
    assert(torn_down@.contains(asked.0) <==> context.workers@.dom().contains(asked.0));
    assert forall|i: int| 0 <= i < addresses@.len() implies (#[trigger] addresses@[i]).0
        == torn_down@[i] by {
        assert(addressed[i] == torn_down@[i]);
    }
    assert forall|i: int|
        0 <= i < addresses@.len() && (#[trigger] addresses@[i]).0 == asked.0 implies addresses@[i].1@
        == found->0.rpc_address@ by {
        assert(addressed[i] == asked.0);
        assert(torn_down@.contains(asked.0));
        assert(context.workers@.contains_key(asked.0));
    }
}

/// An interrupted attempt keeps what interrupted it, what it is answerable for and what it found
/// out; its job is untouched.
pub proof fn an_interrupted_attempt_keeps_what_it_owes(
    context: PhaseContext,
    reason: StateError,
    outstanding: IssuedAttempts,
    addressed_fence: u64,
    released: Option<Released>,
    interrupted: Interrupted,
)
    requires
        call_ensures(
            PhaseContext::into_fencing,
            (context, reason, outstanding, addressed_fence, released),
            interrupted,
        ),
    ensures
        interrupted.reason == reason,
        interrupted.released == released,
        interrupted.fencing.outstanding == outstanding,
        interrupted.fencing.addressed_fence == addressed_fence,
        interrupted.fencing.superseded == context.superseded,
        interrupted.fencing.unrooted_candidate == context.unrooted_candidate,
        interrupted.fencing.transferred == 0,
        interrupted.fencing.abandoned == 0,
        interrupted.fencing.context.job == context.job,
        interrupted.fencing.context.workers == context.workers,
        interrupted.fencing.context.observed_acknowledgements == context.observed_acknowledgements,
        interrupted.fencing.context.observed_terminations == context.observed_terminations,
{
}

/// Whether a report sends the job to this state.
pub open spec fn reports(r: Result<Transition, StateError>, to: Transition) -> bool {
    r == Ok::<_, StateError>(to)
}

/// A controller stops exactly where it lost the job, whatever else is the case; otherwise a refusal
/// is reported as it is, a stop is gone to, and the attempt is scheduled anew exactly where a new
/// decision answers an error that the configuration was to blame for. In every other case what
/// interrupted the attempt is reported. The job is handed back as it was.
pub proof fn an_interruption_is_reported_for_what_it_was(
    interrupted: Interrupted,
    intent: Result<FencedIntent, StateError>,
    r: (JobContext, Result<Transition, StateError>),
)
    requires
        call_ensures(Interrupted::reconcile_and_report, (interrupted, intent), r),
        !(intent is Ok && intent->Ok_0 is Leave && (intent->Ok_0->Leave_0 is Stop || intent->Ok_0
            == FencedIntent::Leave(
            Transition::Advance(NextState::Scheduling(Scheduling {  })),
        ))),
    ensures
        r.0 == interrupted.fencing.context.job,
        reports(r.1, Transition::Stop) <==> interrupted.fencing.superseded is Some,
        interrupted.fencing.superseded is None && intent is Err ==> r.1 == Err::<Transition, _>(
            intent->Err_0,
        ),
        interrupted.fencing.superseded is None && intent is Ok && intent->Ok_0 is Leave ==> r.1
            == Ok::<_, StateError>(intent->Ok_0->Leave_0),
        reports(r.1, Transition::Advance(NextState::Scheduling(Scheduling {  })))
            <==> interrupted.fencing.superseded is None && intent is Ok && intent->Ok_0
            is Superseded && interrupted.reason is FatalError && interrupted.reason->provenance
            == FatalProvenance::Configuration,
        interrupted.fencing.superseded is None && intent is Ok && !(intent->Ok_0 is Leave) && !(
        intent->Ok_0 is Superseded && interrupted.reason is FatalError
            && interrupted.reason->provenance == FatalProvenance::Configuration) ==> r.1 == Err::<
            Transition,
            _,
        >(interrupted.reason),
{
}

/// A new attempt is one higher than the last, and is otherwise the same attempt.
pub proof fn a_generation_is_raised_by_one(context: &mut PhaseContext, addressed: u64, now: u64)
    requires
        old(context).job.status.generation < u64::MAX,
        call_ensures(PhaseContext::addressed_generation, (&*old(context),), addressed),
        call_ensures(PhaseContext::raise_generation, (context,), ()),
        call_ensures(PhaseContext::addressed_generation, (&*final(context),), now),
    ensures
        now == addressed + 1,
        final(context).job.status.restarts == old(context).job.status.restarts,
        final(context).job.status.leader == old(context).job.status.leader,
        final(context).job.config == old(context).job.config,
        final(context).job.program == old(context).job.program,
        final(context).workers == old(context).workers,
{
}

/// A new attempt has its job and its topology, and has done, found and noted nothing yet.
pub proof fn a_new_attempt_has_done_nothing(
    job: JobContext,
    leader_mode: bool,
    context: PhaseContext,
    ids: Vec<u64>,
    tasks: usize,
)
    requires
        call_ensures(PhaseContext::new, (job, leader_mode), context),
        call_ensures(Workers::ids, (&context.workers,), ids),
        call_ensures(StartedTasks::len, (&context.started_tasks,), tasks),
    ensures
        context.job == job,
        context.leader_mode == leader_mode,
        ids@.len() == 0,
        tasks == 0,
        context.dialling == 0,
        context.slots_needed == 0,
        context.started_workers@.len() == 0,
        context.checkpoint_info is None,
        context.committing_state is None,
        context.superseded is None,
        context.unrooted_candidate is None,
        context.deferred_current_generation is None,
        context.observed_acknowledgements@.len() == 0,
        context.observed_terminations@.len() == 0,
        !context.controller_built,
        !context.restored_commits_pending,
{
}

/// An attempt that stands down fails for good with whoever holds the job, notes them, and changes
/// nothing else.
pub proof fn standing_down_notes_who_holds_the_job(
    context: &mut PhaseContext,
    stale: String,
    e: StateError,
)
    requires
        call_ensures(PhaseContext::stand_down_from, (context, stale), e),
    ensures
        e is FatalError,
        e->FatalError_source@ == stale@,
        e->provenance == FatalProvenance::Unrelated,
        final(context).superseded is Some,
        final(context).superseded->0@ == stale@,
        *final(context) == (PhaseContext { superseded: final(context).superseded, ..*old(context) }),
{
}

/// What became of issued attempts is noted as it was told, transferred and lost apart.
pub proof fn transferred_and_lost_attempts_are_noted_apart(
    transferring: &mut Fencing,
    losing: &mut Fencing,
    transferred: usize,
    lost: usize,
)
    requires
        call_ensures(Fencing::note_transferred, (transferring, transferred), ()),
        *old(losing) == *final(transferring),
        call_ensures(Fencing::note_abandoned, (losing, lost), ()),
    ensures
        final(losing).transferred == transferred,
        final(losing).abandoned == lost,
        final(losing).outstanding == old(transferring).outstanding,
        final(losing).targets == old(transferring).targets,
        final(losing).context == old(transferring).context,
        final(losing).addressed_fence == old(transferring).addressed_fence,
        final(losing).superseded == old(transferring).superseded,
        final(losing).unrooted_candidate == old(transferring).unrooted_candidate,
{
}

} // verus!
