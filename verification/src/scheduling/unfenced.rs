//! One whole scheduling attempt of a job without a fence, from its first look at the configuration
//! to the state that runs the execution.
//!
//! An attempt alternates between two kinds of stage. An irreversible stage changes something that
//! cannot be taken back and holds the job's authority while it does; an interruptible one only
//! waits, and holds none. The attempt itself performs nothing: each method is told what came of
//! the stage it is in, and answers with the stage that follows.

use crate::admission::{Admission, Released};
use crate::job::JobContext;
use crate::running::Running;
use crate::lifecycle::fence::FenceProtocol;
use crate::lifecycle::intent::ObservedIntent;
use crate::messages::{JobMessage, TaskFailure};
use crate::scheduling::context::{PhaseContext, RecoveryPreparation, StatusPublication};
use crate::scheduling::execution::{JobFailure, JobState, LeaderStatus, WaitStep};
use crate::scheduling::fanout::Inventory;
use crate::scheduling::handover::ControllerPlan;
use crate::scheduling::observation::PhaseWait;
use crate::scheduling::start_execution;
use crate::scheduling::start_execution::{
    Collection, ExecutionPlan, SettledView, StartAttempt, StartAttemptView, StartExecutionOutcome,
    StartReply, TransportSettlement,
};
use crate::scheduling::workers::{WorkerStatus, Workers};
use crate::states::{retryable, NextState, StateError, StateName, StopBehavior, Transition};
use crate::types::{LogicalProgram, StopMode, WorkerId};
use vstd::prelude::*;

verus! {

/// Where an attempt stands.
#[derive(Clone, Copy, Debug, PartialEq, Eq, Structural)]
pub enum Stage {
    /// The authority for the first irreversible stages is being waited for.
    Entering,
    /// The raised generation is being written to the job's row.
    PersistingGeneration,
    /// The job's existing cluster is being torn down.
    TearingDown,
    /// Replacement workers are being started.
    StartingWorkers,
    /// The generation's recovery checkpoint is being prepared.
    PreparingRecovery,
    /// Workers are being waited for.
    AwaitingWorkers,
    /// The addresses of the workers that registered are being dialled.
    OpeningChannels,
    /// The authority for the fan-out is being waited for.
    ReadyToIssue,
    /// The workers are about to be asked to start.
    Issuing,
    /// The workers have been asked to start, and their replies are being read.
    Fanning,
    /// Tasks are being waited for.
    AwaitingTasks,
    /// Everything runs; the execution is to be handed over.
    HandingOver,
    /// The authority for publishing restored commits is being waited for.
    CommitsPending,
    /// Restored commits are being published.
    PublishingCommits,
    /// Nothing is left but to leave.
    Leaving,
}

impl Stage {
    /// Whether what the stage does cannot be taken back.
    pub open spec fn irreversible(self) -> bool {
        match self {
            Stage::PersistingGeneration
            | Stage::TearingDown
            | Stage::StartingWorkers
            | Stage::PreparingRecovery
            | Stage::Issuing
            | Stage::Fanning
            | Stage::PublishingCommits => true,
            _ => false,
        }
    }

    /// Whether the stage waits for the job's authority, and for nothing else.
    pub open spec fn awaits_authority(self) -> bool {
        match self {
            Stage::Entering | Stage::ReadyToIssue | Stage::CommitsPending => true,
            _ => false,
        }
    }

    /// The stage that follows once the authority was granted.
    pub open spec fn granted(self) -> Stage {
        match self {
            Stage::Entering => Stage::PersistingGeneration,
            Stage::ReadyToIssue => Stage::Issuing,
            Stage::CommitsPending => Stage::PublishingCommits,
            other => other,
        }
    }

    /// Whether the slots the program needs are known, and may still be compared against.
    pub open spec fn sized(self) -> bool {
        match self {
            Stage::StartingWorkers
            | Stage::PreparingRecovery
            | Stage::AwaitingWorkers
            | Stage::OpeningChannels
            | Stage::ReadyToIssue
            | Stage::Issuing => true,
            _ => false,
        }
    }

    /// Whether the attempt's workers have the slots its program needs.
    pub open spec fn workers_sufficed(self) -> bool {
        match self {
            Stage::OpeningChannels | Stage::ReadyToIssue | Stage::Issuing => true,
            _ => false,
        }
    }
}

/// An attempt under way.
pub struct UnfencedScheduling {
    stage: Stage,
    context: PhaseContext,
    admission: Option<Admission>,
    /// The fan-out, while its requests are out.
    collection: Option<Collection>,
    /// The release of the authority the attempt held last, if it has released one.
    released: Option<Released>,
}

/// What follows a stage.
pub enum Step {
    /// The attempt goes on.
    Go(UnfencedScheduling),
    /// The attempt is over, and this is where the job goes. The authority it held last, if any, is
    /// released.
    End { job: JobContext, result: Result<Transition, StateError>, released: Option<Released> },
}

/// What a message leaves to be done outside the attempt.
#[derive(Debug, PartialEq, Eq)]
pub enum Outgoing {
    Nothing,
    /// The worker's address is to be dialled.
    Dial { worker_id: WorkerId, rpc_address: String },
    /// The message is the job's to handle.
    HandOn(JobMessage),
    /// The failed task decides where the job goes.
    TaskFailed(TaskFailure),
}

/// Whether the workers have the slots the program needs.
pub open spec fn suffice(context: PhaseContext) -> bool {
    crate::scheduling::workers::total_slots(context.workers@) >= context.slots_needed
}

/// Whether the program's tasks have all started.
pub open spec fn all_started(context: PhaseContext) -> bool {
    context.started_tasks@.len() >= context.job.program.task_count
}

/// Where a wait stands after a turn of it.
pub open spec fn after_turn(stage: Stage, context: PhaseContext) -> Stage {
    if stage == Stage::AwaitingWorkers && suffice(context) {
        Stage::OpeningChannels
    } else if stage == Stage::AwaitingTasks && all_started(context) {
        Stage::HandingOver
    } else {
        stage
    }
}

impl Step {
    /// Whether the attempt goes on in `stage` with `context`.
    pub open spec fn goes_on(self, stage: Stage, context: PhaseContext) -> bool {
        self matches Step::Go(next) && next.stage() == stage && next.context() == context
    }

    /// Whether the attempt ends in `transition`, leaving the job as it was.
    pub open spec fn leaves_for(self, job: JobContext, transition: Transition) -> bool {
        self matches Step::End { job: left, result, .. } && left == job && result == Ok::<
            _,
            StateError,
        >(transition)
    }

    /// Whether the attempt fails with `e`, leaving the job as it was.
    pub open spec fn fails_with(self, job: JobContext, e: StateError) -> bool {
        self matches Step::End { job: left, result, .. } && left == job && result == Err::<
            Transition,
            _,
        >(e)
    }

    /// Whether the attempt is to be made again, for this reason.
    pub open spec fn retried(
        self,
        job: JobContext,
        message: Seq<char>,
        source: Seq<char>,
        retries: nat,
    ) -> bool {
        self matches Step::End { job: left, result: Err(e), .. } && left == job && e.retryable_with(
            StateName::Scheduling,
            message,
            source,
            retries,
        )
    }
}

/// Whose authority a release let go.
pub open spec fn job_of(released: Option<Released>) -> Option<Seq<char>> {
    match released {
        Some(released) => Some(released@),
        None => None,
    }
}

impl UnfencedScheduling {
    /// The authority the attempt holds, if it holds one.
    pub closed spec fn holds(self) -> Option<Admission> {
        self.admission
    }

    /// What its fan-out issued, and what has accounted for each identifier, while the requests are
    /// out.
    pub closed spec fn inventory(self) -> Inventory {
        match self.collection {
            Some(collection) => collection.inventory(),
            None => Inventory::nothing_issued(0, 0),
        }
    }

    /// The outcomes that have come in, in that order.
    pub closed spec fn outcomes(self) -> Seq<SettledView> {
        match self.collection {
            Some(collection) => collection.outcomes(),
            None => Seq::empty(),
        }
    }

    /// Whether every request of the fan-out has an outcome.
    pub open spec fn every_request_has_an_outcome(self) -> bool {
        start_execution::settles_every_attempt(self.inventory(), self.outcomes())
    }

    /// Whose authority the attempt released last, if it has released one.
    pub closed spec fn gave_up(self) -> Option<Seq<char>> {
        job_of(self.released)
    }

    /// Whose authority is released once the attempt goes on without it.
    pub open spec fn gives_up(self) -> Option<Seq<char>> {
        match self.holds() {
            Some(admission) => Some(admission@),
            None => self.gave_up(),
        }
    }

    /// Whether the guard of the authority the attempt holds, if it holds one, was dropped.
    pub open spec fn unlocks(self) -> bool {
        self.holds() matches Some(admission) ==> crate::admission::unlocked(admission.holds())
    }

    /// Whether the authority is handed on to what follows: kept where that is irreversible too,
    /// and otherwise released, its guard dropped.
    pub open spec fn hands_on(self, r: Step) -> bool {
        match r {
            Step::Go(next) => self.hands_on_to(next),
            Step::End { released, .. } => job_of(released) == self.gives_up() && self.unlocks(),
        }
    }

    /// The same, where the attempt goes on as `next`.
    pub open spec fn hands_on_to(self, next: UnfencedScheduling) -> bool {
        if next.stage().irreversible() {
            next.holds() == self.holds() && next.gave_up() == self.gave_up()
        } else {
            next.holds() is None && next.gave_up() == self.gives_up() && self.unlocks()
        }
    }

    pub closed spec fn stage(self) -> Stage {
        self.stage
    }

    pub closed spec fn context(self) -> PhaseContext {
        self.context
    }

    /// The authority is held in the irreversible stages and in no other; and a fan-out is never
    /// reached with fewer slots than the program needs.
    #[verifier::type_invariant]
    closed spec fn holds_what_its_stage_needs(self) -> bool {
        &&& self.admission is Some <==> self.stage.irreversible()
        &&& self.collection is Some <==> self.stage == Stage::Fanning
        &&& self.collection matches Some(collection) ==> collection.inventory().attempts.dom()
            == self.context.workers@.dom()
        &&& self.stage.sized() ==> self.context.slots_needed
            == crate::scheduling::workers::slots_of(self.context.job.program.nodes@)
        &&& self.stage.workers_sufficed() ==> suffice(self.context)
    }

    pub fn standing(&self) -> (r: Stage)
        ensures
            r == self.stage(),
    {
        self.stage
    }

    /// What the attempt knows.
    pub fn knows(&self) -> (r: &PhaseContext)
        ensures
            *r == self.context(),
    {
        &self.context
    }

    /// The authority the attempt holds, which it does in the irreversible stages and in no other.
    pub fn authority(&self) -> (r: Option<&Admission>)
        ensures
            r is Some <==> self.stage().irreversible(),
            self.holds() == (match r {
                Some(admission) => Some(*admission),
                None => None,
            }),
    {
        proof {
            use_type_invariant(self);
        }
        self.admission.as_ref()
    }

    /// Begins an attempt. A job that is asked to stop leaves before anything is done.
    pub fn begin(context: PhaseContext) -> (r: Step)
        ensures
            match crate::states::stop_of_not_running(context.job.config.stop_mode) {
                Some(stop) => r.leaves_for(context.job, stop),
                None => r.goes_on(Stage::Entering, context),
            },
            match r {
                Step::Go(next) => next.holds() is None && next.gave_up() is None,
                Step::End { released, .. } => released is None,
            },
    {
        match context.stop_if_desired() {
            Some(stop) => Step::End { job: context.job, result: Ok(stop), released: None },
            None => Step::Go(
                UnfencedScheduling {
                    stage: Stage::Entering,
                    context,
                    admission: None,
                    collection: None,
                    released: None,
                },
            ),
        }
    }

    /// The job's authority was granted. The first grant raises the job's generation.
    pub fn admitted(self, admission: Admission) -> (r: Self)
        requires
            self.stage().awaits_authority(),
            self.stage() == Stage::Entering ==> self.context().job.status.generation < u64::MAX,
        ensures
            r.stage() == self.stage().granted(),
            r.holds() == Some(admission),
            r.gave_up() == self.gave_up(),
            if self.stage() == Stage::Entering {
                &&& r.context().job.status.generation == self.context().job.status.generation + 1
                &&& r.context() == (PhaseContext {
                    job: JobContext {
                        status: crate::job::JobStatus {
                            generation: r.context().job.status.generation,
                            ..self.context().job.status
                        },
                        ..self.context().job
                    },
                    ..self.context()
                })
            } else {
                r.context() == self.context()
            },
    {
        proof {
            use_type_invariant(&self);
        }
        let UnfencedScheduling { stage, context, admission: _, collection: _, released } = self;
        let mut context = context;
        let stage = match stage {
            Stage::Entering => {
                context.raise_generation();
                Stage::PersistingGeneration
            },
            Stage::ReadyToIssue => Stage::Issuing,
            _ => Stage::PublishingCommits,
        };
        UnfencedScheduling { stage, context, admission: Some(admission), collection: None, released }
    }

    /// Releases the authority held, if one is; otherwise what was released before stands.
    fn let_go(admission: Option<Admission>, released: Option<Released>) -> (r: Option<Released>)
        ensures
            job_of(r) == (match admission {
                Some(admission) => Some(admission@),
                None => job_of(released),
            }),
            admission matches Some(admission) ==> crate::admission::unlocked(admission.holds()),
    {
        match admission {
            Some(admission) => Some(admission.release()),
            None => released,
        }
    }

    /// What writing the raised generation came to. A controller that lost the job stops.
    pub fn generation_persisted(self, outcome: Result<StatusPublication, String>) -> (r: Step)
        requires
            self.stage() == Stage::PersistingGeneration,
        ensures
            self.hands_on(r),
            match outcome {
                Ok(StatusPublication::Published) => r.goes_on(Stage::TearingDown, self.context()),
                Ok(StatusPublication::Superseded(_)) => r.leaves_for(
                    self.context().job,
                    Transition::Stop,
                ),
                Err(source) => r.retried(
                    self.context().job,
                    "failed to advance generation for scheduling retry"@,
                    source@,
                    10,
                ),
            },
    {
        proof {
            use_type_invariant(&self);
        }
        let UnfencedScheduling { stage: _, context, admission, collection: _, released } = self;
        match outcome {
            Ok(StatusPublication::Published) => Step::Go(
                UnfencedScheduling {
                    stage: Stage::TearingDown,
                    context,
                    admission,
                    collection: None,
                    released,
                },
            ),
            Ok(StatusPublication::Superseded(_)) => Step::End {
                job: context.job,
                result: Ok(Transition::Stop),
                released: Self::let_go(admission, released),
            },
            Err(source) => Step::End {
                job: context.job,
                result: Err(
                    retryable(
                        StateName::Scheduling,
                        "failed to advance generation for scheduling retry",
                        source,
                        10,
                    ),
                ),
                released: Self::let_go(admission, released),
            },
        }
    }

    /// The existing cluster was torn down, or could not be, which stops nothing: the workers of
    /// the raised generation are told apart from it. `program` has the job's parallelism applied.
    pub fn cluster_torn_down(self, program: LogicalProgram) -> (r: Self)
        requires
            self.stage() == Stage::TearingDown,
        ensures
            self.hands_on_to(r),
            r.stage() == Stage::StartingWorkers,
            r.context() == (PhaseContext {
                job: JobContext { program, ..self.context().job },
                slots_needed: r.context().slots_needed,
                ..self.context()
            }),
            r.context().slots_needed == crate::scheduling::workers::slots_of(program.nodes@),
    {
        proof {
            use_type_invariant(&self);
        }
        let UnfencedScheduling { stage: _, context, admission, collection: _, released } = self;
        let mut context = context;
        let _needed: usize = context.start_replacement_workers(program);
        UnfencedScheduling {
            stage: Stage::StartingWorkers,
            context,
            admission,
            collection: None,
            released,
        }
    }

    /// What starting the replacement workers came to.
    pub fn workers_started(self, outcome: Result<(), StateError>) -> (r: Step)
        requires
            self.stage() == Stage::StartingWorkers,
        ensures
            self.hands_on(r),
            match outcome {
                Ok(()) => r.goes_on(Stage::PreparingRecovery, self.context()),
                Err(e) => r.fails_with(self.context().job, e),
            },
    {
        proof {
            use_type_invariant(&self);
        }
        let UnfencedScheduling { stage: _, context, admission, collection: _, released } = self;
        match outcome {
            Ok(()) => Step::Go(
                UnfencedScheduling {
                    stage: Stage::PreparingRecovery,
                    context,
                    admission,
                    collection: None,
                    released,
                },
            ),
            Err(e) => Step::End {
                job: context.job,
                result: Err(e),
                released: Self::let_go(admission, released),
            },
        }
    }

    /// What preparing the recovery checkpoint came to. The authority is released before anything
    /// is waited for.
    pub fn recovery_prepared(self, outcome: RecoveryPreparation) -> (r: Step)
        requires
            self.stage() == Stage::PreparingRecovery,
        ensures
            self.hands_on(r),
            match outcome {
                RecoveryPreparation::Leader(Ok(info)) => r.goes_on(
                    Stage::AwaitingWorkers,
                    PhaseContext {
                        checkpoint_info: info,
                        committing_state: None,
                        ..self.context()
                    },
                ),
                RecoveryPreparation::Controller(Ok((info, committing))) => r.goes_on(
                    Stage::AwaitingWorkers,
                    PhaseContext {
                        checkpoint_info: info,
                        committing_state: committing,
                        ..self.context()
                    },
                ),
                RecoveryPreparation::Leader(
                    Err(crate::scheduling::checkpoint::LeaderRecoveryFailure::StateBackend(source)),
                ) => r matches Step::End { job, result: Err(e), .. } && job == self.context().job
                    && e.fatal_with(
                    "cannot restore a checkpoint written with a different state backend"@,
                    source@,
                ),
                RecoveryPreparation::Leader(
                    Err(crate::scheduling::checkpoint::LeaderRecoveryFailure::Other(source)),
                ) => r.retried(
                    self.context().job,
                    "failed to load checkpoint metadata"@,
                    source@,
                    20,
                ),
                RecoveryPreparation::Controller(Err(e)) => r.fails_with(self.context().job, e),
            },
    {
        proof {
            use_type_invariant(&self);
        }
        let UnfencedScheduling { stage: _, context, admission, collection: _, released } = self;
        let released = Self::let_go(admission, released);
        let mut context = context;
        match context.prepare_recovery_checkpoint(outcome) {
            Ok(()) => Step::Go(
                UnfencedScheduling {
                    stage: Stage::AwaitingWorkers,
                    context,
                    admission: None,
                    collection: None,
                    released,
                },
            ),
            Err(e) => Step::End { job: context.job, result: Err(e), released },
        }
    }

    /// What reading the job's writer means on a turn of either wait.
    pub fn observed(self, observed: Result<ObservedIntent, StateError>) -> (r: Step)
        requires
            self.stage() == Stage::AwaitingWorkers || self.stage() == Stage::AwaitingTasks,
        ensures
            self.hands_on(r),
            match observed {
                Err(refusal) => r.fails_with(self.context().job, refusal),
                Ok(ObservedIntent::Stop) => match crate::states::stop_of_not_running(
                    self.context().job.config.stop_mode,
                ) {
                    Some(stop) => r.leaves_for(self.context().job, stop),
                    None => r.goes_on(self.stage(), self.context()),
                },
                Ok(_) => r.goes_on(self.stage(), self.context()),
            },
    {
        proof {
            use_type_invariant(&self);
        }
        match observed {
            Err(refusal) => Step::End {
                job: self.context.job,
                result: Err(refusal),
                released: Self::let_go(self.admission, self.released),
            },
            Ok(ObservedIntent::Stop) => match self.context.stop_if_desired() {
                Some(stop) => Step::End {
                    job: self.context.job,
                    result: Ok(stop),
                    released: Self::let_go(self.admission, self.released),
                },
                None => Step::Go(self),
            },
            Ok(_) => Step::Go(self),
        }
    }

    /// What the job's own handling of a message came to.
    pub fn handled(self, outcome: Result<(), StateError>) -> (r: Step)
        requires
            !self.stage().irreversible(),
        ensures
            self.hands_on(r),
            match outcome {
                Ok(()) => r.goes_on(self.stage(), self.context()),
                Err(e) => r.fails_with(self.context().job, e),
            },
    {
        proof {
            use_type_invariant(&self);
        }
        match outcome {
            Ok(()) => Step::Go(self),
            Err(e) => Step::End {
                job: self.context.job,
                result: Err(e),
                released: Self::let_go(self.admission, self.released),
            },
        }
    }

    /// A message arrived while workers were waited for. The wait is over as soon as the workers
    /// have enough slots between them, whatever message it was.
    pub fn worker_message(self, msg: JobMessage, checked: Result<(), StateError>) -> (r: (
        Step,
        Outgoing,
    ))
        requires
            self.stage() == Stage::AwaitingWorkers,
            self.context().dialling < usize::MAX,
        ensures
            self.hands_on(r.0),
            match msg {
                JobMessage::ConfigUpdate(c) => {
                    &&& r.1 == Outgoing::Nothing
                    &&& match crate::scheduling::execution::update_in_wait(c.stop_mode, checked) {
                        Ok(PhaseWait::Leave(stop)) => r.0.leaves_for(self.context().job, stop),
                        Ok(PhaseWait::Continue) => r.0.goes_on(
                            after_turn(self.stage(), self.context()),
                            self.context(),
                        ),
                        Err(e) => r.0.fails_with(self.context().job, e),
                    }
                },
                JobMessage::WorkerConnect { worker_id, generation, rpc_address, .. } => {
                    &&& r.0 matches Step::Go(next) && {
                        &&& next.stage() == after_turn(self.stage(), next.context())
                        &&& crate::scheduling::connect::registered(
                            msg,
                            self.context().job.status.generation,
                            self.context().workers@,
                            next.context().workers@,
                        )
                        &&& next.context() == (PhaseContext {
                            workers: next.context().workers,
                            dialling: next.context().dialling,
                            ..self.context()
                        })
                        &&& next.context().dialling == self.context().dialling + (if generation
                            == self.context().job.status.generation {
                            1int
                        } else {
                            0
                        })
                    }
                    &&& if generation == self.context().job.status.generation {
                        r.1 matches Outgoing::Dial { worker_id: dialled, rpc_address: address }
                            && dialled == worker_id && address@ == rpc_address@
                    } else {
                        r.1 == Outgoing::Nothing
                    }
                },
                other => {
                    &&& r.1 == Outgoing::HandOn(other)
                    &&& r.0 matches Step::Go(next) && {
                        &&& next.stage() == after_turn(self.stage(), next.context())
                        &&& next.context().workers@ == self.context().workers@
                        &&& next.context() == (PhaseContext {
                            workers: next.context().workers,
                            ..self.context()
                        })
                    }
                },
            },
    {
        proof {
            use_type_invariant(&self);
        }
        let UnfencedScheduling { stage: _, context, admission, collection: _, released } = self;
        let released = Self::let_go(admission, released);
        let mut context = context;
        match context.handle_worker_wait_message(msg, checked) {
            Err(e) => (Step::End { job: context.job, result: Err(e), released }, Outgoing::Nothing),
            Ok(WaitStep::Wait(PhaseWait::Leave(stop))) => (
                Step::End { job: context.job, result: Ok(stop), released },
                Outgoing::Nothing,
            ),
            Ok(step) => {
                let outgoing = match step {
                    WaitStep::Wait(_) => Outgoing::Nothing,
                    WaitStep::Dial { worker_id, rpc_address } => Outgoing::Dial {
                        worker_id,
                        rpc_address,
                    },
                    WaitStep::HandOn(msg) => Outgoing::HandOn(msg),
                    WaitStep::TaskFailed(event) => Outgoing::TaskFailed(event),
                };
                let stage = if context.workers_are_sufficient() {
                    Stage::OpeningChannels
                } else {
                    Stage::AwaitingWorkers
                };
                let next = UnfencedScheduling {
                    stage,
                    context,
                    admission: None,
                    collection: None,
                    released,
                };
                (Step::Go(next), outgoing)
            },
        }
    }

    /// The wait for workers ran out of time. The budget is given as it prints.
    pub fn workers_timed_out(self, budget: &str) -> (r: Step)
        requires
            self.stage() == Stage::AwaitingWorkers,
        ensures
            self.hands_on(r),
            r.retried(
                self.context().job,
                "timed out while waiting for workers to start"@,
                crate::scheduling::execution::startup_timeout(budget@),
                3,
            ),
    {
        proof {
            use_type_invariant(&self);
        }
        let reason = self.context.worker_startup_timeout(budget);
        Step::End {
            job: self.context.job,
            result: Err(reason),
            released: Self::let_go(self.admission, self.released),
        }
    }

    /// One worker was reached, or could not be.
    pub fn channel_opened(self, joined: Result<(), String>) -> (r: Step)
        requires
            self.stage() == Stage::OpeningChannels,
            self.context().dialling > 0,
        ensures
            self.hands_on(r),
            match joined {
                Ok(()) => r.goes_on(
                    Stage::OpeningChannels,
                    PhaseContext {
                        dialling: (self.context().dialling - 1) as usize,
                        ..self.context()
                    },
                ),
                Err(source) => r matches Step::End { job, result: Err(e), .. } && job
                    == self.context().job && e.retryable_with(
                    StateName::Scheduling,
                    "Failed to start cluster for pipeline"@,
                    source@,
                    10,
                ),
            },
    {
        proof {
            use_type_invariant(&self);
        }
        let UnfencedScheduling { stage: _, context, admission, collection: _, released } = self;
        let released = Self::let_go(admission, released);
        let mut context = context;
        match context.await_worker_channels(Some(joined)) {
            Ok(_) => Step::Go(
                UnfencedScheduling {
                    stage: Stage::OpeningChannels,
                    context,
                    admission: None,
                    collection: None,
                    released,
                },
            ),
            Err(e) => Step::End { job: context.job, result: Err(e), released },
        }
    }

    /// Every worker was reached. Nothing may be issued to workers that cannot reconcile a repeated
    /// request, nor by this attempt under a fence.
    pub fn channels_open(self, protocol: Result<FenceProtocol, String>) -> (r: Step)
        requires
            self.stage() == Stage::OpeningChannels,
            self.context().dialling == 0,
            self.context().leader_mode ==> !(self.context().workers@.dom() =~= Set::<
                u64,
            >::empty()),
        ensures
            self.hands_on(r),
            ({
                let unreconciled = crate::scheduling::workers::unreconciled_of(
                    self.context().workers@,
                );
                if !(unreconciled =~= Set::<u64>::empty()) {
                    exists|ids: Seq<u64>| #[trigger]
                        crate::collections::in_order(ids, unreconciled) && r.retried(
                            self.context().job,
                            "workers predating the StartExecution reconciliation contract"@,
                            crate::scheduling::workers::unreconciled_report(ids),
                            10,
                        )
                } else {
                    match protocol {
                        Err(source) => r.retried(
                            self.context().job,
                            "the job's lifecycle fence cannot address its worker generations"@,
                            source@,
                            10,
                        ),
                        Ok(FenceProtocol::Fenced { .. }) => r.retried(
                            self.context().job,
                            "a fenced job reached the pre-fence scheduling body"@,
                            "the landed scheduling body cannot advance a lifecycle fence, so a job running the fenced protocol belongs to the phase graph"@,
                            10,
                        ),
                        Ok(FenceProtocol::Legacy) => r.goes_on(
                            Stage::ReadyToIssue,
                            self.context(),
                        ),
                    }
                }
            }),
    {
        proof {
            use_type_invariant(&self);
        }
        let UnfencedScheduling { stage: _, context, admission, collection: _, released } = self;
        let released = Self::let_go(admission, released);
        match context.require_reconciling_workers() {
            Err(e) => Step::End { job: context.job, result: Err(e), released },
            Ok(()) => match context.fence_protocol(protocol) {
                Err(e) => Step::End { job: context.job, result: Err(e), released },
                Ok(FenceProtocol::Fenced { .. }) => Step::End {
                    job: context.job,
                    result: Err(
                        retryable(
                            StateName::Scheduling,
                            "a fenced job reached the pre-fence scheduling body",
                            "the landed scheduling body cannot advance a lifecycle fence, so a job running the fenced protocol belongs to the phase graph".to_owned(),
                            10,
                        ),
                    ),
                    released,
                },
                Ok(FenceProtocol::Legacy) => Step::Go(
                    UnfencedScheduling {
                        stage: Stage::ReadyToIssue,
                        context,
                        admission: None,
                        collection: None,
                        released,
                    },
                ),
            },
        }
    }

    /// Asks every worker to start, one attempt each. The fan-out has no settlement owner and carries
    /// no fence.
    pub fn issue(self) -> (r: (Self, ExecutionPlan, Vec<StartAttempt>))
        requires
            self.stage() == Stage::Issuing,
        ensures
            self.hands_on_to(r.0),
            r.0.stage() == Stage::Fanning,
            r.0.context() == self.context(),
            r.0.outcomes().len() == 0,
            r.0.inventory().attempts.dom() == self.context().workers@.dom(),
            r.0.inventory() == start_execution::issued_all(
                Inventory::nothing_issued(self.context().job.status.generation, 0),
                Seq::new(r.2@.len(), |i: int| r.2@[i]@),
            ),
            crate::scheduling::plan::plans(self.context(), r.1),
            crate::scheduling::plan::asks_every_worker(self.context().workers@, r.2@),
    {
        proof {
            use_type_invariant(&self);
            self.context.workers.is_finite();
            crate::scheduling::plan::sufficient_workers_seat_the_program(
                self.context.workers@,
                self.context.job.program.nodes@,
            );
        }
        let UnfencedScheduling { stage: _, context, admission, collection: _, released } = self;
        let plan = context.execution_plan();
        let (attempts, ledger) = context.issue_to_every_worker(0, false);
        let collection = Some(Collection::begin(ledger));
        (
            UnfencedScheduling { stage: Stage::Fanning, context, admission, collection, released },
            plan,
            attempts,
        )
    }

    /// Reads one reply: an answer accounts for the attempt's identifier, and an attempt that is over
    /// has its outcome. Otherwise the attempt is handed back, to be offered again.
    pub fn read(self, attempt: StartAttempt, reply: StartReply) -> (r: (Self, Option<StartAttempt>))
        requires
            self.stage() == Stage::Fanning,
        ensures
            self.hands_on_to(r.0),
            r.0.stage() == Stage::Fanning,
            r.0.context() == self.context(),
            r.0.inventory() == (if reply.is_answer() {
                self.inventory().after(self.inventory().answer(attempt@.worker, attempt@.id))
            } else {
                self.inventory()
            }),
            match start_execution::concluded(attempt@, reply) {
                Some(outcome) => r.1 is None && r.0.outcomes() == self.outcomes().push(outcome),
                None => {
                    &&& r.1 matches Some(again) && again@ == (StartAttemptView {
                        unsettled: attempt@.unsettled + 1,
                        ..attempt@
                    })
                    &&& r.0.outcomes() == self.outcomes()
                },
            },
    {
        proof {
            use_type_invariant(&self);
        }
        let UnfencedScheduling { stage, context, admission, collection, released } = self;
        match collection {
            Some(collection) => {
                let mut collection = collection;
                let again = collection.read(attempt, reply);
                proof {
                    let before = self.inventory();
                    let seen = seq![before.answer(attempt@.worker, attempt@.id)];
                    crate::scheduling::fanout::observed::observing_changes_only_what_is_accounted(
                        before,
                        seen,
                    );
                    assert(seen.drop_last() =~= Seq::empty());
                    assert(before.after_all(seen.drop_last()) == before);
                    assert(before.after_all(seen) == before.after(seen.last()));
                }
                let collection = Some(collection);
                (UnfencedScheduling { stage, context, admission, collection, released }, again)
            },
            None => (
                UnfencedScheduling { stage, context, admission, collection: None, released },
                Some(attempt),
            ),
        }
    }

    /// Whether every request of the fan-out has an outcome.
    pub fn is_settled(&self) -> (r: bool)
        requires
            self.stage() == Stage::Fanning,
        ensures
            r == self.every_request_has_an_outcome(),
    {
        proof {
            use_type_invariant(self);
        }
        match &self.collection {
            Some(collection) => collection.is_complete(),
            None => false,
        }
    }

    /// What the fan-out came to. It is told only once every request has an outcome, and only then is
    /// the authority released.
    pub fn fan_out_settled(self) -> (r: Step)
        requires
            self.stage() == Stage::Fanning,
            self.every_request_has_an_outcome(),
        ensures
            self.hands_on(r),
            match start_execution::fan_out_of(self.outcomes()) {
                Err(source) => r.retried(
                    self.context().job,
                    "failed to initialize workers"@,
                    source,
                    10,
                ),
                Ok(workers) => r matches Step::Go(next) && {
                    let started = next.context().started_workers@;
                    &&& next.stage() == after_turn(Stage::AwaitingTasks, self.context())
                    &&& started.map_values(|w: WorkerId| w.0) == workers
                    &&& workers.to_set() == self.context().workers@.dom()
                    &&& next.context().workers@
                        == crate::scheduling::context::marked_initializing(
                        self.context().workers@,
                        started,
                    )
                    &&& next.context() == (PhaseContext {
                        workers: next.context().workers,
                        started_workers: next.context().started_workers,
                        ..self.context()
                    })
                },
            },
    {
        proof {
            use_type_invariant(&self);
        }
        let UnfencedScheduling { stage: _, context, admission, collection, released } = self;
        let released = Self::let_go(admission, released);
        let mut context = context;
        match collection {
            Some(collection) => {
                proof {
                    context.workers.is_finite();
                    if start_execution::fan_out_of(collection.outcomes()) is Ok {
                        start_execution::a_fan_out_that_started_started_every_target(
                            collection.inventory(),
                            collection.outcomes(),
                        );
                    }
                }
                match context.record_fan_out(&collection) {
                    Err(e) => Step::End { job: context.job, result: Err(e), released },
                    Ok(()) => Step::Go(Self::waiting_for_tasks(context, released)),
                }
            },
            None => Step::Go(Self::waiting_for_tasks(context, released)),
        }
    }

    /// The wait for tasks, or what follows it where every task has started.
    fn waiting_for_tasks(context: PhaseContext, released: Option<Released>) -> (r: Self)
        ensures
            r.stage() == after_turn(Stage::AwaitingTasks, context),
            r.context() == context,
            r.holds() is None,
            r.gave_up() == job_of(released),
    {
        let stage = if context.tasks_are_all_started() {
            Stage::HandingOver
        } else {
            Stage::AwaitingTasks
        };
        UnfencedScheduling { stage, context, admission: None, collection: None, released }
    }

    /// A message arrived while tasks were waited for.
    pub fn task_message(self, msg: JobMessage, checked: Result<(), StateError>) -> (r: (
        Step,
        Outgoing,
    ))
        requires
            self.stage() == Stage::AwaitingTasks,
        ensures
            self.hands_on(r.0),
            ({
                let turned = |after: PhaseContext| after_turn(Stage::AwaitingTasks, after);
                exists|after: PhaseContext, step: Result<WaitStep, StateError>|
                    #![trigger crate::scheduling::execution::task_turn(
                        self.context(),
                        after,
                        msg,
                        checked,
                        step,
                    )]
                    {
                        &&& crate::scheduling::execution::task_turn(
                            self.context(),
                            after,
                            msg,
                            checked,
                            step,
                        )
                        &&& match step {
                            Err(e) => r.0.fails_with(after.job, e) && r.1 == Outgoing::Nothing,
                            Ok(WaitStep::Wait(PhaseWait::Leave(stop))) => r.0.leaves_for(
                                after.job,
                                stop,
                            ) && r.1 == Outgoing::Nothing,
                            Ok(WaitStep::Wait(PhaseWait::Continue)) => r.0.goes_on(
                                turned(after),
                                after,
                            ) && r.1 == Outgoing::Nothing,
                            Ok(WaitStep::Dial { worker_id, rpc_address }) => r.0.goes_on(
                                turned(after),
                                after,
                            ) && r.1 == (Outgoing::Dial { worker_id, rpc_address }),
                            Ok(WaitStep::HandOn(other)) => r.0.goes_on(turned(after), after) && r.1
                                == Outgoing::HandOn(other),
                            Ok(WaitStep::TaskFailed(event)) => r.0.goes_on(turned(after), after)
                                && r.1 == Outgoing::TaskFailed(event),
                        }
                    }
            }),
    {
        proof {
            use_type_invariant(&self);
        }
        let UnfencedScheduling { stage: _, context, admission, collection: _, released } = self;
        let released = Self::let_go(admission, released);
        let mut context = context;
        match context.handle_task_wait_message(msg, checked) {
            Err(e) => (Step::End { job: context.job, result: Err(e), released }, Outgoing::Nothing),
            Ok(WaitStep::Wait(PhaseWait::Leave(stop))) => (
                Step::End { job: context.job, result: Ok(stop), released },
                Outgoing::Nothing,
            ),
            Ok(step) => {
                let outgoing = match step {
                    WaitStep::Wait(_) => Outgoing::Nothing,
                    WaitStep::Dial { worker_id, rpc_address } => Outgoing::Dial {
                        worker_id,
                        rpc_address,
                    },
                    WaitStep::HandOn(msg) => Outgoing::HandOn(msg),
                    WaitStep::TaskFailed(event) => Outgoing::TaskFailed(event),
                };
                (Step::Go(Self::waiting_for_tasks(context, released)), outgoing)
            },
        }
    }

    /// The wait for tasks ran out of time. Where the leader says why the job failed, that failure
    /// decides where the job goes; otherwise the attempt is made again.
    pub fn tasks_timed_out(self, status: Option<LeaderStatus>, budget: &str) -> (r: (
        JobContext,
        Result<JobFailure, StateError>,
    ))
        requires
            self.stage() == Stage::AwaitingTasks,
        ensures
            r.0 == self.context().job,
            crate::scheduling::execution::timed_out(status, budget@, r.1),
    {
        let result = self.context.task_startup_timeout(status, budget);
        (self.context.job, result)
    }

    /// Every task runs. Where no worker leads, the job's controller is built, and restored commits
    /// are published before the job leaves.
    pub fn hand_over(self) -> (r: (Self, Option<ControllerPlan>))
        requires
            self.stage() == Stage::HandingOver,
        ensures
            self.hands_on_to(r.0),
            if self.context().leader_mode {
                &&& r.1 is None
                &&& r.0.stage() == Stage::Leaving
                &&& r.0.context() == crate::scheduling::handover::noted(self.context())
            } else {
                &&& r.1 matches Some(plan) && {
                    &&& plan.generation == self.context().job.status.generation
                    &&& (plan.start_epoch, plan.min_epoch)
                        == crate::scheduling::context::epochs_of(self.context())
                    &&& plan.workers == self.context().started_workers
                    &&& plan.committing_state == self.context().committing_state
                    &&& plan.protocol == FenceProtocol::Legacy
                }
                &&& r.0.stage() == (if self.context().committing_state is Some {
                    Stage::CommitsPending
                } else {
                    Stage::Leaving
                })
                &&& r.0.context().started_workers@.len() == 0
                &&& r.0.context() == (PhaseContext {
                    started_workers: r.0.context().started_workers,
                    committing_state: None,
                    controller_built: true,
                    ..crate::scheduling::handover::noted(self.context())
                })
            },
    {
        proof {
            use_type_invariant(&self);
        }
        let UnfencedScheduling { stage: _, context, admission, collection: _, released } = self;
        let released = Self::let_go(admission, released);
        let mut context = context;
        let plan = match context.prepare_handover(Ok(FenceProtocol::Legacy)) {
            Ok(plan) => plan,
            Err(_) => None,
        };
        let stage = if plan.is_some() && context.needs_restored_commits() {
            Stage::CommitsPending
        } else {
            Stage::Leaving
        };
        (UnfencedScheduling { stage, context, admission: None, collection: None, released }, plan)
    }

    /// The restored commits were published. The authority is released.
    pub fn commits_published(self) -> (r: Self)
        requires
            self.stage() == Stage::PublishingCommits,
        ensures
            self.hands_on_to(r),
            r.stage() == Stage::Leaving,
            r.context() == self.context(),
    {
        proof {
            use_type_invariant(&self);
        }
        let UnfencedScheduling { stage: _, context, admission, collection: _, released } = self;
        let released = Self::let_go(admission, released);
        UnfencedScheduling { stage: Stage::Leaving, context, admission: None, collection: None, released }
    }

    /// Leaves for the state that runs the execution.
    pub fn leave(self, connected: Result<(), String>) -> (r: (
        JobContext,
        Result<Transition, StateError>,
    ))
        requires
            self.stage() == Stage::Leaving,
        ensures
            exists|left: Result<(JobContext, Transition), (PhaseContext, StateError)>|
                #![trigger crate::scheduling::handover::left_for(self.context(), connected, left)]
                crate::scheduling::handover::left_for(self.context(), connected, left)
                    && match left {
                    Ok((job, transition)) => r == (job, Ok::<_, StateError>(transition)),
                    Err((context, e)) => r == (context.job, Err::<Transition, _>(e)),
                },
    {
        match self.context.into_transition(connected) {
            Ok((job, transition)) => (job, Ok(transition)),
            Err((context, e)) => (context.job, Err(e)),
        }
    }

    /// The job, for whatever decides where it goes instead. Nothing that cannot be taken back is
    /// left in the middle.
    pub fn into_job(self) -> (r: JobContext)
        requires
            !self.stage().irreversible(),
        ensures
            r == self.context().job,
    {
        self.context.job
    }
}

/// Whether the attempt goes on in this stage.
pub open spec fn moves_to(r: Step, stage: Stage) -> bool {
    r is Go && r->Go_0.stage() == stage
}

/// Whether the attempt is over with this result, whatever became of its authority.
pub open spec fn ends_with(r: Step, job: JobContext, result: Result<Transition, StateError>) -> bool {
    r is End && r->job == job && r->result == result
}

/// Whether an attempt that held `admission` has let it go.
pub open spec fn lets_go(r: Step, admission: Admission) -> bool {
    match r {
        Step::Go(next) => next.holds() is None && next.gave_up() == Some(admission@),
        Step::End { released, .. } => released is Some && released->0@ == admission@,
    }
}

/// Whether an attempt that held `admission` holds it still.
pub open spec fn still_holds(r: Step, admission: Admission) -> bool {
    r is Go && r->Go_0.holds() == Some(admission)
}

/// The authority is held exactly from the raised generation to the prepared recovery, from the issue
/// of the requests to their last outcome, and while restored commits are published.
pub proof fn an_authority_is_held_only_where_nothing_can_be_taken_back(
    attempt: &UnfencedScheduling,
    stage: Stage,
    authority: Option<&Admission>,
)
    requires
        call_ensures(UnfencedScheduling::standing, (attempt,), stage),
        call_ensures(UnfencedScheduling::authority, (attempt,), authority),
    ensures
        authority is Some <==> stage == Stage::PersistingGeneration || stage == Stage::TearingDown
            || stage == Stage::StartingWorkers || stage == Stage::PreparingRecovery || stage
            == Stage::Issuing || stage == Stage::Fanning || stage == Stage::PublishingCommits,
        authority is Some ==> attempt.holds() == Some(*authority->0),
{
}

/// An attempt begins exactly where the job is not asked to stop, with what it was given and without
/// any authority; otherwise the job leaves as it is.
pub proof fn an_attempt_begins_only_without_a_stop(context: PhaseContext, r: Step)
    requires
        call_ensures(UnfencedScheduling::begin, (context,), r),
    ensures
        moves_to(r, Stage::Entering) <==> context.job.config.stop_mode == StopMode::none,
        r is Go <==> moves_to(r, Stage::Entering),
        r matches Step::Go(next) ==> next.context() == context && next.holds() is None,
        r is End ==> ends_with(
            r,
            context.job,
            Ok(
                Transition::Advance(
                    NextState::Stopping {
                        stop_mode: if context.job.config.stop_mode == StopMode::force {
                            StopBehavior::StopWorkers
                        } else {
                            StopBehavior::StopJobImmediate
                        },
                    },
                ),
            ),
        ) && r->released is None,
{
}

/// Each stage that waits for the authority is followed by the one that needs it, under the authority
/// that was granted; the first grant, and only that one, raises the job's generation, by one.
pub proof fn a_granted_authority_is_used_where_it_was_waited_for(
    attempt: UnfencedScheduling,
    admission: Admission,
    r: UnfencedScheduling,
)
    requires
        attempt.stage() == Stage::Entering || attempt.stage() == Stage::ReadyToIssue
            || attempt.stage() == Stage::CommitsPending,
        attempt.stage() == Stage::Entering ==> attempt.context().job.status.generation < u64::MAX,
        call_ensures(UnfencedScheduling::admitted, (attempt, admission), r),
    ensures
        r.holds() == Some(admission),
        r.stage() == Stage::PersistingGeneration <==> attempt.stage() == Stage::Entering,
        r.stage() == Stage::Issuing <==> attempt.stage() == Stage::ReadyToIssue,
        r.stage() == Stage::PublishingCommits <==> attempt.stage() == Stage::CommitsPending,
        r.context().job.status.generation == attempt.context().job.status.generation + (
        if attempt.stage() == Stage::Entering {
            1int
        } else {
            0
        }),
        r.context().job.config == attempt.context().job.config,
        r.context().job.program == attempt.context().job.program,
        r.context().workers == attempt.context().workers,
        r.context().checkpoint_info == attempt.context().checkpoint_info,
        r.context().committing_state == attempt.context().committing_state,
{
}

/// The cluster is torn down exactly once the raised generation is on the job's row, still under the
/// authority; a controller that lost the job stops; a row that could not be written is written again
/// in another attempt. Whichever way the attempt ends, it has let its authority go.
pub proof fn nothing_is_torn_down_before_the_generation_is_published(
    attempt: UnfencedScheduling,
    admission: Admission,
    outcome: Result<StatusPublication, String>,
    r: Step,
)
    requires
        attempt.stage() == Stage::PersistingGeneration,
        attempt.holds() == Some(admission),
        call_ensures(UnfencedScheduling::generation_persisted, (attempt, outcome), r),
    ensures
        moves_to(r, Stage::TearingDown) <==> outcome is Ok && outcome->Ok_0 is Published,
        r is Go <==> moves_to(r, Stage::TearingDown),
        r matches Step::Go(next) ==> next.context() == attempt.context(),
        r is Go ==> still_holds(r, admission),
        r is End ==> lets_go(r, admission) && r->job == attempt.context().job,
        r is End ==> (r->result == Ok::<_, StateError>(Transition::Stop) <==> outcome is Ok
            && outcome->Ok_0 is Superseded),
        outcome is Err ==> r->result is Err && r->result->Err_0 is RetryableError
            && r->result->Err_0->retries == 10 && r->result->Err_0->RetryableError_source@
            == outcome->Err_0@,
{
}

/// Replacement workers are asked for with the slots of the new program's widest node, under the
/// authority that was held, and the job runs that program from then on.
pub proof fn replacement_workers_are_sized_by_the_new_program(
    attempt: UnfencedScheduling,
    admission: Admission,
    program: LogicalProgram,
    r: UnfencedScheduling,
    needed: usize,
)
    requires
        attempt.stage() == Stage::TearingDown,
        attempt.holds() == Some(admission),
        call_ensures(UnfencedScheduling::cluster_torn_down, (attempt, program), r),
        call_ensures(crate::scheduling::workers::slots_for_job, (&program,), needed),
    ensures
        r.stage() == Stage::StartingWorkers,
        r.holds() == Some(admission),
        r.context().slots_needed == needed,
        r.context().job.program == program,
        r.context().job.status == attempt.context().job.status,
        r.context().job.config == attempt.context().job.config,
        r.context().workers == attempt.context().workers,
{
}

/// A recovery is prepared exactly where workers were started, and workers are waited for exactly
/// where it was prepared; the checkpoint and the commits are those that were prepared, and a led job
/// leaves none to the controller. The authority is kept until the recovery is prepared and is let go
/// then, before anything is waited for; a failure is reported as it was given.
pub proof fn a_recovery_is_prepared_before_workers_are_waited_for(
    starting: UnfencedScheduling,
    admission: Admission,
    started: Result<(), StateError>,
    after_start: Step,
    preparing: UnfencedScheduling,
    outcome: RecoveryPreparation,
    r: Step,
)
    requires
        starting.stage() == Stage::StartingWorkers,
        starting.holds() == Some(admission),
        call_ensures(UnfencedScheduling::workers_started, (starting, started), after_start),
        preparing.stage() == Stage::PreparingRecovery,
        preparing.holds() == Some(admission),
        call_ensures(UnfencedScheduling::recovery_prepared, (preparing, outcome), r),
    ensures
        after_start is Go <==> started is Ok,
        after_start is Go ==> moves_to(after_start, Stage::PreparingRecovery)
            && after_start->Go_0.context() == starting.context() && still_holds(
            after_start,
            admission,
        ),
        started is Err ==> ends_with(after_start, starting.context().job, Err(started->Err_0))
            && lets_go(after_start, admission),
        r is Go <==> match outcome {
            RecoveryPreparation::Leader(result) => result is Ok,
            RecoveryPreparation::Controller(result) => result is Ok,
        },
        lets_go(r, admission),
        r is Go ==> moves_to(r, Stage::AwaitingWorkers),
        r is Go ==> r->Go_0.context().checkpoint_info == (match outcome {
            RecoveryPreparation::Leader(result) => result->Ok_0,
            RecoveryPreparation::Controller(result) => (result->Ok_0).0,
        }),
        r is Go ==> r->Go_0.context().committing_state == (match outcome {
            RecoveryPreparation::Leader(_) => None,
            RecoveryPreparation::Controller(result) => (result->Ok_0).1,
        }),
        r is Go ==> r->Go_0.context().job == preparing.context().job && r->Go_0.context().workers
            == preparing.context().workers && r->Go_0.context().slots_needed
            == preparing.context().slots_needed,
        r is End ==> r->job == preparing.context().job && r->result is Err,
        r is End && outcome is Controller ==> r->result->Err_0 == outcome->Controller_0->Err_0,
        r is End && outcome is Leader ==> (r->result->Err_0 is FatalError
            <==> outcome->Leader_0->Err_0 is StateBackend),
{
}

/// A wait goes on unless the job's writer refuses, or a stop it reports is still asked for; whatever
/// else it reports changes nothing. A message the job handled lets the attempt go on where the job
/// did handle it.
pub proof fn a_wait_is_left_for_a_refusal_or_a_standing_stop(
    attempt: UnfencedScheduling,
    observed: Result<ObservedIntent, StateError>,
    r: Step,
    handled: Result<(), StateError>,
    after: Step,
)
    requires
        attempt.stage() == Stage::AwaitingWorkers || attempt.stage() == Stage::AwaitingTasks,
        call_ensures(UnfencedScheduling::observed, (attempt, observed), r),
        call_ensures(UnfencedScheduling::handled, (attempt, handled), after),
    ensures
        r is Go <==> observed is Ok && (observed->Ok_0 != ObservedIntent::Stop
            || attempt.context().job.config.stop_mode == StopMode::none),
        r matches Step::Go(next) ==> next.stage() == attempt.stage() && next.context()
            == attempt.context(),
        observed is Err ==> ends_with(r, attempt.context().job, Err(observed->Err_0)),
        r is End && observed is Ok ==> ends_with(
            r,
            attempt.context().job,
            Ok(
                Transition::Advance(
                    NextState::Stopping {
                        stop_mode: if attempt.context().job.config.stop_mode == StopMode::force {
                            StopBehavior::StopWorkers
                        } else {
                            StopBehavior::StopJobImmediate
                        },
                    },
                ),
            ),
        ),
        after is Go <==> handled is Ok,
        after matches Step::Go(next) ==> next.stage() == attempt.stage() && next.context()
            == attempt.context(),
        handled is Err ==> ends_with(after, attempt.context().job, Err(handled->Err_0)),
{
}

/// The wait for workers is over exactly once those that registered have the slots the program needs,
/// whatever message it was; a stop or a refused change ends the attempt instead. A worker is dialled
/// exactly where it registers with the attempt's generation, and what is neither a registration nor
/// a configuration is handed on as it is.
pub proof fn workers_are_waited_for_until_they_suffice(
    attempt: UnfencedScheduling,
    msg: JobMessage,
    checked: Result<(), StateError>,
    r: (Step, Outgoing),
    enough: bool,
)
    requires
        attempt.stage() == Stage::AwaitingWorkers,
        attempt.context().dialling < usize::MAX,
        call_ensures(UnfencedScheduling::worker_message, (attempt, msg, checked), r),
        r.0 matches Step::Go(next) ==> call_ensures(
            Workers::have_slots,
            (&next.context().workers, next.context().slots_needed),
            enough,
        ),
    ensures
        r.0 is End <==> msg is ConfigUpdate && (msg->ConfigUpdate_0.stop_mode != StopMode::none
            || checked is Err),
        r.0 is End && msg->ConfigUpdate_0.stop_mode == StopMode::none ==> ends_with(
            r.0,
            attempt.context().job,
            Err(checked->Err_0),
        ),
        r.0 is End && msg->ConfigUpdate_0.stop_mode != StopMode::none ==> ends_with(
            r.0,
            attempt.context().job,
            Ok(
                Transition::Advance(
                    NextState::Stopping {
                        stop_mode: if msg->ConfigUpdate_0.stop_mode == StopMode::force {
                            StopBehavior::StopWorkers
                        } else {
                            StopBehavior::StopJobImmediate
                        },
                    },
                ),
            ),
        ),
        r.0 is Go ==> (moves_to(r.0, Stage::OpeningChannels) <==> enough),
        r.0 is Go && !enough ==> moves_to(r.0, Stage::AwaitingWorkers),
        r.1 is Dial <==> msg is WorkerConnect && msg->generation
            == attempt.context().job.status.generation,
        r.1 is Dial ==> r.1->worker_id == msg->WorkerConnect_worker_id && r.1->rpc_address@
            == msg->rpc_address@ && r.0->Go_0.context().dialling == attempt.context().dialling + 1,
        r.0 is Go && !(r.1 is Dial) ==> r.0->Go_0.context().dialling == attempt.context().dialling
            && r.0->Go_0.context().workers@ == attempt.context().workers@,
        r.1 is HandOn <==> !(msg is WorkerConnect) && !(msg is ConfigUpdate),
        r.1 is HandOn ==> r.1->HandOn_0 == msg,
        !(r.1 is TaskFailed),
        r.0 is Go ==> r.0->Go_0.context().job == attempt.context().job
            && r.0->Go_0.context().slots_needed == attempt.context().slots_needed,
{
}

/// Requests are got ready exactly where every worker reconciles a repeated one and the job runs
/// without a fence; any other way the attempt is made again. Dialling goes on, one address fewer,
/// exactly where the address was reached.
pub proof fn nothing_is_issued_to_workers_that_cannot_reconcile(
    opening: UnfencedScheduling,
    joined: Result<(), String>,
    dialled: Step,
    attempt: UnfencedScheduling,
    protocol: Result<FenceProtocol, String>,
    r: Step,
    reconcile: Result<(), StateError>,
)
    requires
        opening.stage() == Stage::OpeningChannels,
        opening.context().dialling > 0,
        call_ensures(UnfencedScheduling::channel_opened, (opening, joined), dialled),
        attempt.stage() == Stage::OpeningChannels,
        attempt.context().dialling == 0,
        call_ensures(UnfencedScheduling::channels_open, (attempt, protocol), r),
        call_ensures(Workers::require_reconciling, (&attempt.context().workers,), reconcile),
    ensures
        dialled is Go <==> joined is Ok,
        dialled is Go ==> moves_to(dialled, Stage::OpeningChannels)
            && dialled->Go_0.context().dialling + 1 == opening.context().dialling
            && dialled->Go_0.context().workers == opening.context().workers
            && dialled->Go_0.context().job == opening.context().job,
        dialled is End ==> dialled->job == opening.context().job && dialled->result is Err
            && dialled->result->Err_0 is RetryableError && dialled->result->Err_0->retries == 10
            && dialled->result->Err_0->RetryableError_source@ == joined->Err_0@,
        r is Go <==> reconcile is Ok && protocol is Ok && protocol->Ok_0 is Legacy,
        r is Go ==> moves_to(r, Stage::ReadyToIssue) && r->Go_0.context() == attempt.context(),
        r is End ==> r->job == attempt.context().job && r->result is Err && r->result->Err_0
            is RetryableError && r->result->Err_0->retries == 10 && r->result->Err_0->state
            == StateName::Scheduling,
{
}

/// Every worker that is known is asked to start, for the attempt's own generation and without a
/// fence, under the authority that was granted; what each is asked comes from the attempt's plan.
pub proof fn every_known_worker_is_asked_to_start(
    attempt: UnfencedScheduling,
    admission: Admission,
    r: (UnfencedScheduling, ExecutionPlan, Vec<StartAttempt>),
    ids: Vec<u64>,
    i: int,
    worker: WorkerId,
    unsettled: usize,
)
    requires
        attempt.stage() == Stage::Issuing,
        attempt.holds() == Some(admission),
        call_ensures(UnfencedScheduling::issue, (attempt,), r),
        call_ensures(Workers::ids, (&attempt.context().workers,), ids),
        0 <= i < r.2@.len(),
        call_ensures(StartAttempt::worker, (&r.2@[i],), worker),
        call_ensures(StartAttempt::unsettled, (&r.2@[i],), unsettled),
    ensures
        r.0.stage() == Stage::Fanning,
        r.0.holds() == Some(admission),
        r.0.context() == attempt.context(),
        r.2@.len() == ids@.len(),
        worker.0 == ids@[i],
        unsettled == 0,
        r.0.inventory().attempts.dom() == attempt.context().workers@.dom(),
        r.1.program.nodes@ == attempt.context().job.program.nodes@,
        r.1.state_backend == attempt.context().job.execution_selector,
        r.1.restore_epoch is Some <==> attempt.context().checkpoint_info is Some,
        r.1.restore_epoch is Some ==> r.1.restore_epoch->0
            == attempt.context().checkpoint_info->0.epoch,
{
    let workers = Seq::new(r.2@.len(), |k: int| r.2@[k]@.worker);
    crate::collections::one_order(workers, ids@, attempt.context().workers@.dom());
    assert(workers.len() == r.2@.len());
    assert(workers[i] == worker.0);
}

/// While replies are read the authority is held and nothing else about the attempt changes. A request
/// is handed back exactly where its reply settled nothing and the budget allows another; any other
/// reply is one outcome more.
pub proof fn replies_are_read_under_the_authority(
    attempt: UnfencedScheduling,
    admission: Admission,
    request: StartAttempt,
    unsettled: usize,
    reply: StartReply,
    r: (UnfencedScheduling, Option<StartAttempt>),
)
    requires
        attempt.stage() == Stage::Fanning,
        attempt.holds() == Some(admission),
        call_ensures(StartAttempt::unsettled, (&request,), unsettled),
        call_ensures(UnfencedScheduling::read, (attempt, request, reply), r),
    ensures
        r.0.stage() == Stage::Fanning,
        r.0.holds() == Some(admission),
        r.0.context() == attempt.context(),
        r.1 is Some <==> reply is Failure && reply->settlement == TransportSettlement::Ambiguous
            && unsettled < 8,
        r.0.outcomes().len() == attempt.outcomes().len() + (if r.1 is None {
            1int
        } else {
            0
        }),
        r.1 is None ==> r.0.outcomes().last().worker == request@.worker && (
        r.0.outcomes().last().failure is None <==> reply is Response && reply->Response_0 is Ok
            && reply->Response_0->Ok_0.outcome == StartExecutionOutcome::Applied),
        r.0.outcomes().take(attempt.outcomes().len() as int) == attempt.outcomes(),
{
    assert(r.0.outcomes().take(attempt.outcomes().len() as int) =~= attempt.outcomes());
}

/// Once every request has an outcome, the authority is let go and tasks are waited for exactly where
/// none of them failed, or the execution is handed over where they all started already; otherwise
/// the attempt is made again. Every worker that is known then counts as started.
pub proof fn tasks_are_waited_for_where_every_worker_started(
    attempt: UnfencedScheduling,
    admission: Admission,
    settled: bool,
    r: Step,
    asked: WorkerId,
    found: Option<&WorkerStatus>,
    started: usize,
)
    requires
        attempt.stage() == Stage::Fanning,
        attempt.holds() == Some(admission),
        call_ensures(UnfencedScheduling::is_settled, (&attempt,), settled),
        settled,
        call_ensures(UnfencedScheduling::fan_out_settled, (attempt,), r),
        call_ensures(Workers::get, (&attempt.context().workers, asked), found),
        call_ensures(
            crate::scheduling::tasks::StartedTasks::len,
            (&attempt.context().started_tasks,),
            started,
        ),
    ensures
        lets_go(r, admission),
        r is Go <==> forall|i: int|
            0 <= i < attempt.outcomes().len() ==> (#[trigger] attempt.outcomes()[i]).failure
                is None,
        r is Go ==> (moves_to(r, Stage::HandingOver) <==> started
            >= attempt.context().job.program.task_count),
        r is Go && !moves_to(r, Stage::HandingOver) ==> moves_to(r, Stage::AwaitingTasks),
        r is Go ==> (r->Go_0.context().started_workers@.contains(asked) <==> found is Some),
        r is Go ==> r->Go_0.context().job == attempt.context().job,
        r is End ==> r->job == attempt.context().job && r->result is Err && r->result->Err_0
            is RetryableError && r->result->Err_0->retries == 10,
{
    start_execution::a_fan_out_starts_where_every_attempt_does(attempt.outcomes());
    if r is Go {
        let ids = |w: WorkerId| w.0;
        let all = r->Go_0.context().started_workers@;
        let workers = all.map_values(ids);
        assert(forall|i: int| 0 <= i < all.len() ==> #[trigger] workers[i] == all[i].0);
        if all.contains(asked) {
            let i = choose|i: int| 0 <= i < all.len() && all[i] == asked;
            assert(workers[i] == asked.0);
            assert(workers.to_set().contains(asked.0));
        }
        if found is Some {
            assert(workers.to_set().contains(asked.0));
            let i = choose|i: int| 0 <= i < workers.len() && workers[i] == asked.0;
            assert(all[i] == asked);
        }
    }
}

/// The wait for tasks is over exactly once as many subtasks started as the program has tasks. It is
/// left for a stop that is asked for, for a change that was refused, and for a known worker that
/// failed to initialize; a task's failure is the job's to decide about, and what is nothing of all
/// this is handed on as it is.
pub proof fn tasks_are_waited_for_until_they_all_started(
    attempt: UnfencedScheduling,
    msg: JobMessage,
    checked: Result<(), StateError>,
    r: (Step, Outgoing),
    started: usize,
    reported: WorkerId,
    of_reported: Option<&WorkerStatus>,
)
    requires
        attempt.stage() == Stage::AwaitingTasks,
        call_ensures(UnfencedScheduling::task_message, (attempt, msg, checked), r),
        r.0 matches Step::Go(next) ==> call_ensures(
            crate::scheduling::tasks::StartedTasks::len,
            (&next.context().started_tasks,),
            started,
        ),
        msg is WorkerInitializationComplete ==> reported
            == msg->WorkerInitializationComplete_worker_id,
        call_ensures(Workers::get, (&attempt.context().workers, reported), of_reported),
    ensures
        r.0 is End <==> msg is ConfigUpdate && (msg->ConfigUpdate_0.stop_mode != StopMode::none
            || checked is Err) || msg is WorkerInitializationComplete && !msg->success
            && of_reported is Some,
        r.0 is End && msg is ConfigUpdate && msg->ConfigUpdate_0.stop_mode == StopMode::none
            ==> ends_with(r.0, attempt.context().job, Err(checked->Err_0)),
        r.0 is End && msg is ConfigUpdate && msg->ConfigUpdate_0.stop_mode != StopMode::none
            ==> ends_with(
            r.0,
            attempt.context().job,
            Ok(
                Transition::Advance(
                    NextState::Stopping {
                        stop_mode: if msg->ConfigUpdate_0.stop_mode == StopMode::force {
                            StopBehavior::StopWorkers
                        } else {
                            StopBehavior::StopJobImmediate
                        },
                    },
                ),
            ),
        ),
        r.0 is End && msg is WorkerInitializationComplete ==> r.0->job == attempt.context().job
            && r.0->result is Err && r.0->result->Err_0 is RetryableError
            && r.0->result->Err_0->retries == 5,
        r.0 is Go ==> (moves_to(r.0, Stage::HandingOver) <==> started
            >= attempt.context().job.program.task_count),
        r.0 is Go && !moves_to(r.0, Stage::HandingOver) ==> moves_to(r.0, Stage::AwaitingTasks),
        r.0 is Go ==> r.0->Go_0.context().job == attempt.context().job && forall|t: (u32, u32)|
            #[trigger] r.0->Go_0.context().started_tasks@.contains(t)
                <==> attempt.context().started_tasks@.contains(t) || msg is TaskStarted && t.0
                == msg->task_id && t.1 == msg->subtask_idx,
        r.1 is TaskFailed <==> msg is RunningMessage && msg->RunningMessage_0 is TaskFailed,
        r.1 is TaskFailed ==> r.1->TaskFailed_0 == msg->RunningMessage_0->TaskFailed_0,
        r.1 is HandOn <==> msg is Other || msg is WorkerConnect || (msg is RunningMessage
            && msg->RunningMessage_0 is Other),
        r.1 is HandOn ==> r.1->HandOn_0 == msg,
        !(r.1 is Dial),
{
}

/// Neither wait that runs out of time goes on: a wait for workers is tried again, and one for tasks
/// as well unless the leader says why the job failed. The job is as it was.
pub proof fn a_wait_that_runs_out_of_time_is_over(
    for_workers: UnfencedScheduling,
    for_tasks: UnfencedScheduling,
    status: Option<LeaderStatus>,
    budget: &str,
    workers: Step,
    tasks: (JobContext, Result<JobFailure, StateError>),
)
    requires
        for_workers.stage() == Stage::AwaitingWorkers,
        for_tasks.stage() == Stage::AwaitingTasks,
        call_ensures(UnfencedScheduling::workers_timed_out, (for_workers, budget), workers),
        call_ensures(UnfencedScheduling::tasks_timed_out, (for_tasks, status, budget), tasks),
    ensures
        workers is End && workers->job == for_workers.context().job && workers->result is Err
            && workers->result->Err_0 is RetryableError && workers->result->Err_0->retries == 3,
        tasks.0 == for_tasks.context().job,
        tasks.1 is Ok <==> status is Some && (status->0.job_state == Some(JobState::JobFailing)
            || status->0.job_state == Some(JobState::JobFailed)) && status->0.job_failure is Some,
        tasks.1 matches Ok(failure) ==> Some(failure) == status->0.job_failure,
        tasks.1 matches Err(e) ==> e is RetryableError,
{
}

/// A controller is built exactly where no worker leads, from the workers that started, the epochs the
/// job starts from and the commits that were restored. Those commits are published, under the
/// authority again, exactly where there are any; otherwise the job leaves at once.
pub proof fn a_controller_is_built_where_no_worker_leads(
    attempt: UnfencedScheduling,
    r: (UnfencedScheduling, Option<ControllerPlan>),
    epochs: (u64, u64),
    publishing: UnfencedScheduling,
    admission: Admission,
    published: UnfencedScheduling,
)
    requires
        attempt.stage() == Stage::HandingOver,
        call_ensures(UnfencedScheduling::hand_over, (attempt,), r),
        call_ensures(PhaseContext::epochs, (&attempt.context(),), epochs),
        publishing.stage() == Stage::PublishingCommits,
        publishing.holds() == Some(admission),
        call_ensures(UnfencedScheduling::commits_published, (publishing,), published),
    ensures
        r.1 is Some <==> !attempt.context().leader_mode,
        r.1 is Some ==> r.1->0.generation == attempt.context().job.status.generation
            && r.1->0.start_epoch == epochs.0 && r.1->0.min_epoch == epochs.1 && r.1->0.workers
            == attempt.context().started_workers && r.1->0.committing_state
            == attempt.context().committing_state && r.1->0.protocol == FenceProtocol::Legacy,
        r.0.stage() == Stage::CommitsPending <==> !attempt.context().leader_mode
            && attempt.context().committing_state is Some,
        r.0.stage() != Stage::CommitsPending ==> r.0.stage() == Stage::Leaving,
        r.0.holds() is None,
        r.0.context().job.config == attempt.context().job.config,
        published.stage() == Stage::Leaving,
        published.holds() is None,
        published.gave_up() == Some(admission@),
        published.context() == publishing.context(),
{
}

/// The job leaves to run under the worker that leads exactly where one does and was reached, and
/// remembers it for its generation; without one it leaves to run under the controller. A leader that
/// could not be reached has the attempt made again, with the job as it was.
pub proof fn a_job_leaves_for_whoever_runs_it(
    attempt: UnfencedScheduling,
    connected: Result<(), String>,
    r: (JobContext, Result<Transition, StateError>),
    leader: Option<(WorkerId, String)>,
    kept: JobContext,
)
    requires
        attempt.stage() == Stage::Leaving,
        call_ensures(UnfencedScheduling::leave, (attempt, connected), r),
        call_ensures(PhaseContext::leader_endpoint, (&attempt.context(),), leader),
        call_ensures(UnfencedScheduling::into_job, (attempt,), kept),
    ensures
        kept == attempt.context().job,
        r.1 is Err <==> leader is Some && connected is Err,
        r.1 matches Err(e) ==> e is RetryableError && e->retries == 10
            && e->RetryableError_source@ == connected->Err_0@ && r.0 == kept,
        r.1 matches Ok(to) ==> (to == Transition::Advance(NextState::LeaderRunning) <==> leader
            is Some),
        r.1 matches Ok(to) ==> (to == Transition::Advance(NextState::Running(Running {  }))
            <==> leader is None),
        leader is None ==> r.0 == kept,
        r.1 is Ok && leader is Some ==> r.0.status.leader is Some
            && r.0.status.leader->0.worker_id == (leader->0).0
            && r.0.status.leader->0.rpc_address@ == (leader->0).1@
            && r.0.status.leader->0.generation == kept.status.generation && r.0.status.generation
            == kept.status.generation && r.0.config == kept.config && r.0.program == kept.program,
{
}

} // verus!
