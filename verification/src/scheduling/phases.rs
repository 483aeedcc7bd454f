//! The phases of a fenced scheduling attempt, as values.
//!
//! A phase that holds the job's authority performs irreversible effects and cannot wait on the
//! job's channel; a phase that waits holds no authority and has no irreversible effect. Each
//! effect consumes the phase that performs it, so two effects are never performed under one
//! grant without threading the first one's outcome into the second. An interrupted phase has one
//! way out: it gives its authority up and leaves what is to be fenced.

use crate::admission::{Admission, Released};
use crate::job::JobContext;
use crate::lifecycle::fence::{FenceProtocol, LifecycleAuthority};
use crate::lifecycle::intent::ObservedIntent;
use crate::lifecycle::root::candidate::RootCandidate;
use crate::lifecycle::witness::FenceAcknowledgement;
use crate::messages::JobMessage;
use crate::scheduling::context::{
    AuthorityOutcome, Interrupted, PhaseContext, RecoveryPreparation, StatusPublication,
};
use crate::scheduling::discharge::Discharge;
use crate::scheduling::execution::{JobFailure, LeaderStatus, WaitStep};
use crate::scheduling::fanout::settlement::{
    hand_over, Obligation, SettlementBundle, SettlementOutcome, SettlementOwner,
};
use crate::scheduling::fanout::{Inventory, IssuedAttempts};
use crate::scheduling::handover::ControllerPlan;
use crate::scheduling::observation::PhaseWait;
use crate::scheduling::plan::{FanOut, FanOutStep};
use crate::scheduling::rooting::RootInstallation;
use crate::scheduling::start_execution::{
    ExecutionPlan, SettledView, StartAttempt, StartAttemptView, StartExecutionOutcome, StartReply,
    TransportSettlement,
};
use crate::scheduling::workers::{Worker, Workers};
use crate::states::{NextState, StateError, Transition};
use crate::types::{LogicalProgram, WorkerId};
use vstd::prelude::*;

verus! {

/// The effects of a fenced preamble.
#[derive(Clone, Copy, Debug, PartialEq, Eq, Structural)]
pub enum PreambleEffect {
    AdoptAuthority,
    DischargeFencing,
    RaiseGeneration,
    PersistGeneration,
    TearDownCluster,
    SizeCluster,
    StartWorkers,
    PrepareRecovery,
    PublishRoot,
    /// The pointer that waited for the root is written, where one did.
    NameGeneration,
}

impl PreambleEffect {
    /// How many effects precede this one.
    pub open spec fn position(self) -> nat {
        match self {
            PreambleEffect::AdoptAuthority => 0,
            PreambleEffect::DischargeFencing => 1,
            PreambleEffect::RaiseGeneration => 2,
            PreambleEffect::PersistGeneration => 3,
            PreambleEffect::TearDownCluster => 4,
            PreambleEffect::SizeCluster => 5,
            PreambleEffect::StartWorkers => 6,
            PreambleEffect::PrepareRecovery => 7,
            PreambleEffect::PublishRoot => 8,
            PreambleEffect::NameGeneration => 9,
        }
    }

    /// The effect that comes next.
    pub open spec fn next(self) -> Option<PreambleEffect> {
        match self {
            PreambleEffect::AdoptAuthority => Some(PreambleEffect::DischargeFencing),
            PreambleEffect::DischargeFencing => Some(PreambleEffect::RaiseGeneration),
            PreambleEffect::RaiseGeneration => Some(PreambleEffect::PersistGeneration),
            PreambleEffect::PersistGeneration => Some(PreambleEffect::TearDownCluster),
            PreambleEffect::TearDownCluster => Some(PreambleEffect::SizeCluster),
            PreambleEffect::SizeCluster => Some(PreambleEffect::StartWorkers),
            PreambleEffect::StartWorkers => Some(PreambleEffect::PrepareRecovery),
            PreambleEffect::PrepareRecovery => Some(PreambleEffect::PublishRoot),
            PreambleEffect::PublishRoot => Some(PreambleEffect::NameGeneration),
            PreambleEffect::NameGeneration => None,
        }
    }

    /// The effect a preamble begins with.
    pub fn first() -> (r: Self)
        ensures
            r == PreambleEffect::AdoptAuthority,
    {
        PreambleEffect::AdoptAuthority
    }

    /// The effect that follows this one, if any does.
    pub fn following(self) -> (r: Option<Self>)
        ensures
            r == self.next(),
    {
        match self {
            PreambleEffect::AdoptAuthority => Some(PreambleEffect::DischargeFencing),
            PreambleEffect::DischargeFencing => Some(PreambleEffect::RaiseGeneration),
            PreambleEffect::RaiseGeneration => Some(PreambleEffect::PersistGeneration),
            PreambleEffect::PersistGeneration => Some(PreambleEffect::TearDownCluster),
            PreambleEffect::TearDownCluster => Some(PreambleEffect::SizeCluster),
            PreambleEffect::SizeCluster => Some(PreambleEffect::StartWorkers),
            PreambleEffect::StartWorkers => Some(PreambleEffect::PrepareRecovery),
            PreambleEffect::PrepareRecovery => Some(PreambleEffect::PublishRoot),
            PreambleEffect::PublishRoot => Some(PreambleEffect::NameGeneration),
            PreambleEffect::NameGeneration => None,
        }
    }
}

/// Each effect comes right after the one before it. Nothing precedes the adoption of the job's
/// authority; whatever an earlier attempt left is discharged after it and before a replacement
/// generation is persisted; the root, which states what was recovered, is published after that; and
/// the current generation is named last.
pub proof fn the_preamble_is_ordered(effect: PreambleEffect)
    ensures
        match effect.next() {
            Some(next) => next.position() == effect.position() + 1,
            None => effect == PreambleEffect::NameGeneration,
        },
        effect != PreambleEffect::AdoptAuthority ==> PreambleEffect::AdoptAuthority.position()
            < effect.position(),
        PreambleEffect::AdoptAuthority.position() < PreambleEffect::DischargeFencing.position()
            < PreambleEffect::PersistGeneration.position(),
        PreambleEffect::PrepareRecovery.position() < PreambleEffect::PublishRoot.position()
            < PreambleEffect::NameGeneration.position(),
{
}

/// The irreversible preparation of a generation. Holds the job's authority, and knows which of its
/// effects is due: no other can be performed.
pub struct Preamble {
    context: PhaseContext,
    admission: Admission,
    due: Option<PreambleEffect>,
}

/// The wait for workers. Holds no authority.
#[derive(Debug)]
pub struct AwaitingWorkers {
    context: PhaseContext,
    /// The release of the authority the preamble held.
    released: Released,
}

/// The fan-out that is about to start the program. Holds the job's authority.
pub struct StartFanOut {
    context: PhaseContext,
    admission: Admission,
}

/// A fan-out whose requests are out. Holds the job's authority, and gives it up only once each of
/// them has an outcome.
pub struct Fanning {
    context: PhaseContext,
    fan_out: FanOut,
}

/// The wait for tasks. Holds no authority.
#[derive(Debug)]
pub struct AwaitingTasks {
    context: PhaseContext,
    issued: IssuedAttempts,
    /// The release of the authority the fan-out held.
    released: Released,
}

/// The publication of restored commits. Holds the job's authority.
pub struct CommitPublish {
    context: PhaseContext,
    admission: Admission,
    issued: IssuedAttempts,
}

/// What comes between the handover and the state that runs the execution.
#[derive(Debug)]
pub enum HandedOver {
    /// Restored commits are to be published first.
    CommitsPending(PendingCommits),
    Ready(Leaving),
}

/// An execution that is up, and whose restored commits are to be published before the job leaves.
/// Holds no authority.
#[derive(Debug)]
pub struct PendingCommits {
    leaving: Leaving,
}

/// An execution that is up. Holds no authority.
#[derive(Debug)]
pub struct Leaving {
    context: PhaseContext,
    issued: IssuedAttempts,
    /// The release of the authority the attempt held last.
    released: Released,
}

/// Whether a phase that stood at `context` was interrupted for `reason`, answerable for `issued`,
/// with the authority over `job` released.
pub open spec fn interrupted(
    context: PhaseContext,
    job: Seq<char>,
    issued: Inventory,
    addressed_fence: u64,
    reason: StateError,
    r: Interrupted,
) -> bool {
    &&& r.reason == reason
    &&& r.released matches Some(released) && released@ == job
    &&& r.fencing.outstanding@ == issued
    &&& r.fencing.transferred == 0
    &&& r.fencing.abandoned == 0
    &&& crate::scheduling::context::fences(context, addressed_fence, r.fencing)
}

/// Whether a phase that stood at `context` and held `authority` was interrupted for `reason`: the
/// authority's guard was dropped, and the rest is as for any phase.
pub open spec fn gave_up(
    context: PhaseContext,
    authority: Admission,
    issued: Inventory,
    addressed_fence: u64,
    reason: StateError,
    r: Interrupted,
) -> bool {
    &&& crate::admission::unlocked(authority.holds())
    &&& interrupted(context, authority@, issued, addressed_fence, reason, r)
}

/// Whether an effect of a preamble that came to `result`, and left the attempt at `after`, had `r`
/// for its outcome: the phase goes on under the same authority, or is interrupted.
pub open spec fn concludes(
    before: Preamble,
    after: PhaseContext,
    result: Result<(), StateError>,
    addressed_fence: u64,
    r: Result<Preamble, Interrupted>,
) -> bool {
    match result {
        Ok(()) => r matches Ok(next) && next.context() == after && next.authority()
            == before.authority() && next.due() == before.due_next(),
        Err(reason) => r matches Err(left) && gave_up(
            after,
            before.authority(),
            Inventory::nothing_issued(0, 0),
            addressed_fence,
            reason,
            left,
        ),
    }
}

/// Whether an obligation that was not declined came to `outcome`: transferred exactly where the flag
/// that dropping it raises is not raised.
pub open spec fn taken_over(obligation: Obligation, outcome: SettlementOutcome) -> bool {
    exists|bundle: SettlementBundle, raised: bool| #[trigger]
        bundle.flag_reads(raised) && bundle@ == obligation && (outcome is Transferred <==> !raised)
}

impl Preamble {
    pub closed spec fn context(self) -> PhaseContext {
        self.context
    }

    /// The authority the phase holds.
    pub closed spec fn authority(self) -> Admission {
        self.admission
    }

    /// The effect that is to be performed next, if one is left.
    pub closed spec fn due(self) -> Option<PreambleEffect> {
        self.due
    }

    /// The effect that is due once this one was performed.
    pub open spec fn due_next(self) -> Option<PreambleEffect> {
        match self.due() {
            Some(effect) => effect.next(),
            None => None,
        }
    }

    /// The preamble of an attempt, under the authority it was granted.
    pub fn enter(context: PhaseContext, admission: Admission) -> (r: Self)
        ensures
            r.context() == context,
            r.authority() == admission,
            r.due() == Some(PreambleEffect::AdoptAuthority),
    {
        Preamble { context, admission, due: Some(PreambleEffect::first()) }
    }

    pub fn knows(&self) -> (r: &PhaseContext)
        ensures
            *r == self.context(),
    {
        &self.context
    }

    /// The effect that is to be performed next, if one is left.
    pub fn next_effect(&self) -> (r: Option<PreambleEffect>)
        ensures
            r == self.due(),
    {
        self.due
    }

    /// The effect that was due has been performed.
    fn advanced(self) -> (r: Self)
        ensures
            r.context() == self.context(),
            r.authority() == self.authority(),
            r.due() == self.due_next(),
    {
        let due = match self.due {
            Some(effect) => effect.following(),
            None => None,
        };
        Preamble { context: self.context, admission: self.admission, due }
    }

    /// Gives the authority up and leaves what is to be fenced.
    fn fence(self, reason: StateError, addressed_fence: u64) -> (r: Interrupted)
        ensures
            gave_up(
                self.context(),
                self.authority(),
                Inventory::nothing_issued(0, 0),
                addressed_fence,
                reason,
                r,
            ),
    {
        let Preamble { context, admission, due: _ } = self;
        let released = admission.release();
        context.into_fencing(reason, IssuedAttempts::default(), addressed_fence, Some(released))
    }

    /// Goes on, or gives the authority up and leaves what is to be fenced.
    fn conclude(self, result: Result<(), StateError>, addressed_fence: u64) -> (r: Result<
        Self,
        Interrupted,
    >)
        ensures
            concludes(self, self.context(), result, addressed_fence, r),
    {
        match result {
            Ok(()) => Ok(self.advanced()),
            Err(reason) => Err(self.fence(reason, addressed_fence)),
        }
    }

    /// What adopting the job's durable authority came to.
    pub fn adopt_lifecycle_authority(
        self,
        outcome: Result<AuthorityOutcome, String>,
        addressed_fence: u64,
    ) -> (r: Result<Self, Interrupted>)
        requires
            self.due() == Some(PreambleEffect::AdoptAuthority),
        ensures
            exists|after: PhaseContext, result: Result<(), StateError>| #[trigger]
                crate::scheduling::context::adopted(self.context(), after, outcome, result)
                    && concludes(self, after, result, addressed_fence, r),
    {
        let mut this = self;
        let result = this.context.adopt_lifecycle_authority(outcome);
        assert(crate::scheduling::context::adopted(
            self.context(),
            this.context(),
            outcome,
            result,
        ));
        this.conclude(result, addressed_fence)
    }

    /// What discharging the obligation of an earlier attempt came to.
    pub fn discharge_recovered_fencing(self, discharge: Discharge, addressed_fence: u64) -> (r:
        Result<Self, Interrupted>)
        requires
            self.due() == Some(PreambleEffect::DischargeFencing),
        ensures
            exists|after: PhaseContext, result: Result<(), StateError>| #[trigger]
                crate::scheduling::discharge::discharged(self.context(), after, discharge, result)
                    && concludes(self, after, result, addressed_fence, r),
    {
        let mut this = self;
        let result = this.context.discharge_recovered_fencing(discharge);
        assert(crate::scheduling::discharge::discharged(
            self.context(),
            this.context(),
            discharge,
            result,
        ));
        this.conclude(result, addressed_fence)
    }

    /// Raises the job's generation, which is what is persisted next.
    pub fn raise_generation(self) -> (r: Self)
        requires
            self.due() == Some(PreambleEffect::RaiseGeneration),
            self.context().job.status.generation < u64::MAX,
        ensures
            r.due() == Some(PreambleEffect::PersistGeneration),
            r.authority() == self.authority(),
            r.context().job.status.generation == self.context().job.status.generation + 1,
            r.context() == (PhaseContext {
                job: JobContext {
                    status: crate::job::JobStatus {
                        generation: r.context().job.status.generation,
                        ..self.context().job.status
                    },
                    ..self.context().job
                },
                ..self.context()
            }),
    {
        let mut this = self;
        this.context.raise_generation();
        this.advanced()
    }

    /// What persisting the raised generation came to.
    pub fn persist_generation(
        self,
        outcome: Result<StatusPublication, String>,
        addressed_fence: u64,
    ) -> (r: Result<Self, Interrupted>)
        requires
            self.due() == Some(PreambleEffect::PersistGeneration),
        ensures
            exists|after: PhaseContext, result: Result<(), StateError>| #[trigger]
                crate::scheduling::context::persisted(self.context(), after, outcome, result)
                    && concludes(self, after, result, addressed_fence, r),
    {
        let mut this = self;
        let result = this.context.persist_generation(outcome);
        assert(crate::scheduling::context::persisted(
            self.context(),
            this.context(),
            outcome,
            result,
        ));
        this.conclude(result, addressed_fence)
    }

    /// The existing cluster was torn down, or could not be, which interrupts nothing: the workers
    /// of the raised generation are told apart from it.
    pub fn tear_down_existing_cluster(self, outcome: Result<(), String>) -> (r: Result<
        Self,
        Interrupted,
    >)
        requires
            self.due() == Some(PreambleEffect::TearDownCluster),
        ensures
            r matches Ok(next) && next.context() == self.context() && next.authority()
                == self.authority() && next.due() == Some(PreambleEffect::SizeCluster),
    {
        match outcome {
            Ok(()) | Err(_) => Ok(self.advanced()),
        }
    }

    /// Takes the program with the job's parallelism applied, and says how many slots it needs.
    pub fn size_cluster(self, program: LogicalProgram) -> (r: (Self, usize))
        requires
            self.due() == Some(PreambleEffect::SizeCluster),
        ensures
            r.1 == crate::scheduling::workers::slots_of(program.nodes@),
            r.0.authority() == self.authority(),
            r.0.due() == Some(PreambleEffect::StartWorkers),
            r.0.context() == (PhaseContext {
                job: JobContext { program, ..self.context().job },
                slots_needed: r.1,
                ..self.context()
            }),
    {
        let mut this = self;
        let needed: usize = this.context.start_replacement_workers(program);
        (this.advanced(), needed)
    }

    /// What starting the replacement workers came to.
    pub fn start_replacement_workers(
        self,
        outcome: Result<(), StateError>,
        addressed_fence: u64,
    ) -> (r: Result<Self, Interrupted>)
        requires
            self.due() == Some(PreambleEffect::StartWorkers),
        ensures
            concludes(self, self.context(), outcome, addressed_fence, r),
    {
        self.conclude(outcome, addressed_fence)
    }

    /// What preparing the recovery checkpoint came to.
    pub fn prepare_recovery_checkpoint(
        self,
        outcome: RecoveryPreparation,
        addressed_fence: u64,
    ) -> (r: Result<Self, Interrupted>)
        requires
            self.due() == Some(PreambleEffect::PrepareRecovery),
        ensures
            exists|after: PhaseContext, result: Result<(), StateError>| #[trigger]
                crate::scheduling::context::recovered(self.context(), after, outcome, result)
                    && concludes(self, after, result, addressed_fence, r),
    {
        let mut this = self;
        let result = this.context.prepare_recovery_checkpoint(outcome);
        assert(crate::scheduling::context::recovered(
            self.context(),
            this.context(),
            outcome,
            result,
        ));
        this.conclude(result, addressed_fence)
    }

    /// The candidate the generation's metadata is to be published at. `carried` is what the durable
    /// record says of carrying its identifiers.
    pub fn root_candidate(
        self,
        authority: &LifecycleAuthority,
        carried: Result<(), String>,
        addressed_fence: u64,
    ) -> (r: Result<(Self, RootCandidate), Interrupted>)
        requires
            self.due() == Some(PreambleEffect::PublishRoot),
        ensures
            exists|named: Result<RootCandidate, StateError>| #[trigger]
                crate::scheduling::rooting::names_candidate(self.context(), authority, carried, named)
                    && match named {
                    Ok(candidate) => r matches Ok((next, minted)) && minted == candidate
                        && next == self,
                    Err(reason) => r matches Err(left) && gave_up(
                        self.context(),
                        self.authority(),
                        Inventory::nothing_issued(0, 0),
                        addressed_fence,
                        reason,
                        left,
                    ),
                },
    {
        match self.context.root_candidate(authority, carried) {
            Ok(candidate) => Ok((self, candidate)),
            Err(reason) => Err(self.fence(reason, addressed_fence)),
        }
    }

    /// What publishing and installing this attempt's own candidate came to. Where it was installed, the pointer
    /// that waited for it, if one did, is to be written next.
    pub fn publish_metadata_root(self, installed: RootInstallation, addressed_fence: u64) -> (r:
        Result<(Self, Option<String>), Interrupted>)
        requires
            self.due() == Some(PreambleEffect::PublishRoot),
            crate::scheduling::rooting::attempts_own(self.context(), installed),
        ensures
            r is Ok ==> installed is Attempted,
            exists|after: PhaseContext, result: Result<Option<String>, StateError>| #[trigger]
                crate::scheduling::rooting::rooted(self.context(), after, installed, result)
                    && match result {
                    Ok(pointer) => r matches Ok((next, handed_out)) && handed_out == pointer
                        && next.context() == after && next.authority() == self.authority()
                        && next.due() == (if pointer is Some {
                        Some(PreambleEffect::NameGeneration)
                    } else {
                        None
                    }),
                    Err(reason) => r matches Err(left) && gave_up(
                        after,
                        self.authority(),
                        Inventory::nothing_issued(0, 0),
                        addressed_fence,
                        reason,
                        left,
                    ),
                },
    {
        let mut this = self;
        let result = this.context.publish_metadata_root(installed);
        assert(crate::scheduling::rooting::rooted(
            self.context(),
            this.context(),
            installed,
            result,
        ));
        match result {
            Ok(pointer) => {
                let mut next = this.advanced();
                if pointer.is_none() {
                    next.due = None;
                }
                Ok((next, pointer))
            },
            Err(reason) => Err(this.fence(reason, addressed_fence)),
        }
    }

    /// What writing the pointer that names the current generation came to. The root stays installed
    /// either way.
    pub fn name_current_generation(self, written: Result<(), String>, addressed_fence: u64) -> (r:
        Result<Self, Interrupted>)
        requires
            self.due() == Some(PreambleEffect::NameGeneration),
        ensures
            exists|result: Result<(), StateError>| #[trigger]
                crate::scheduling::rooting::generation_named(written, result) && concludes(
                    self,
                    self.context(),
                    result,
                    addressed_fence,
                    r,
                ),
    {
        let result = self.context.current_generation_published(written);
        assert(crate::scheduling::rooting::generation_named(written, result));
        self.conclude(result, addressed_fence)
    }

    /// Releases the authority and waits for workers, once no effect is due.
    pub fn release(self) -> (r: AwaitingWorkers)
        requires
            self.due() is None,
        ensures
            r.context() == self.context(),
            r.released() == self.authority()@,
            crate::admission::unlocked(self.authority().holds()),
    {
        let Preamble { context, admission, due: _ } = self;
        let released = admission.release();
        AwaitingWorkers { context, released }
    }
}

impl AwaitingWorkers {
    pub closed spec fn context(self) -> PhaseContext {
        self.context
    }

    /// Whose authority was released before the wait began.
    pub closed spec fn released(self) -> Seq<char> {
        self.released@
    }

    pub fn knows(&self) -> (r: &PhaseContext)
        ensures
            *r == self.context(),
    {
        &self.context
    }

    /// The job, for publishing into its configuration what its writer decided.
    pub fn job_mut(&mut self) -> (r: &mut JobContext)
        ensures
            *r == old(self).context().job,
            final(self).context() == (PhaseContext { job: *final(r), ..old(self).context() }),
            final(self).released() == old(self).released(),
    {
        &mut self.context.job
    }

    /// Gives the attempt up: the job goes where a stop sends it.
    pub fn into_job(self) -> (r: JobContext)
        ensures
            r == self.context().job,
    {
        self.context.job
    }

    /// What reading the job's writer means on a turn of the wait.
    pub fn observe(&self, observed: Result<ObservedIntent, StateError>) -> (r: Result<
        PhaseWait,
        StateError,
    >)
        ensures
            r == crate::scheduling::observation::observes(self.context().job.config, observed),
    {
        self.context.observe_intent_in_wait(observed)
    }

    /// Reads a message that arrived on the job's channel.
    pub fn await_message(&mut self, msg: JobMessage, checked: Result<(), StateError>) -> (r: Result<
        WaitStep,
        StateError,
    >)
        requires
            old(self).context().dialling < usize::MAX,
        ensures
            final(self).released() == old(self).released(),
            crate::scheduling::execution::worker_turn(
                old(self).context(),
                final(self).context(),
                msg,
                checked,
                r,
            ),
    {
        self.context.handle_worker_wait_message(msg, checked)
    }

    /// Whether the workers that registered have the slots the job needs.
    pub fn workers_are_sufficient(&self) -> (r: bool)
        ensures
            r == (crate::scheduling::workers::total_slots(self.context().workers@)
                >= self.context().slots_needed),
    {
        self.context.workers_are_sufficient()
    }

    /// One worker was reached, or could not be, or the wait was woken before either.
    pub fn await_worker_channels(&mut self, joined: Option<Result<(), String>>) -> (r: Result<
        PhaseWait,
        StateError,
    >)
        requires
            joined is Some ==> old(self).context().dialling > 0,
        ensures
            final(self).released() == old(self).released(),
            crate::scheduling::execution::channel_turn(
                old(self).context(),
                final(self).context(),
                joined,
                r,
            ),
    {
        self.context.await_worker_channels(joined)
    }

    /// Leaves what is to be fenced.
    pub fn fence(self, reason: StateError, addressed_fence: u64) -> (r: Interrupted)
        ensures
            interrupted(
                self.context(),
                self.released(),
                Inventory::nothing_issued(0, 0),
                addressed_fence,
                reason,
                r,
            ),
    {
        let AwaitingWorkers { context, released } = self;
        context.into_fencing(reason, IssuedAttempts::default(), addressed_fence, Some(released))
    }

    /// Refuses workers that cannot reconcile a repeated request, before any authority is taken.
    pub fn require_reconciling_workers(self, addressed_fence: u64) -> (r: Result<Self, Interrupted>)
        ensures
            r is Ok <==> crate::scheduling::workers::unreconciled_of(self.context().workers@) =~= Set::<
                u64,
            >::empty(),
            r matches Ok(next) ==> next.context() == self.context() && next.released()
                == self.released(),
            r matches Err(left) ==> interrupted(
                self.context(),
                self.released(),
                Inventory::nothing_issued(0, 0),
                addressed_fence,
                left.reason,
                left,
            ) && exists|ids: Seq<u64>| #[trigger]
                crate::collections::in_order(
                    ids,
                    crate::scheduling::workers::unreconciled_of(self.context().workers@),
                ) && left.reason.retryable_with(
                    crate::states::StateName::Scheduling,
                    "workers predating the StartExecution reconciliation contract"@,
                    crate::scheduling::workers::unreconciled_report(ids),
                    10,
                ),
    {
        match self.context.require_reconciling_workers() {
            Ok(()) => Ok(self),
            Err(reason) => Err(self.fence(reason, addressed_fence)),
        }
    }

    /// The authority for the fan-out was granted. It is taken only for workers that have the slots
    /// the job needs, that were all reached, and that can reconcile a repeated request.
    pub fn admitted(self, admission: Admission) -> (r: StartFanOut)
        requires
            crate::scheduling::workers::total_slots(self.context().workers@)
                >= self.context().slots_needed,
            self.context().dialling == 0,
            crate::scheduling::workers::unreconciled_of(self.context().workers@) =~= Set::<
                u64,
            >::empty(),
        ensures
            r.context() == self.context(),
            r.authority() == admission,
    {
        StartFanOut { context: self.context, admission }
    }
}

/// What a fan-out that may be issued is made of.
pub struct IssuedFanOut {
    pub fanning: Fanning,
    pub plan: ExecutionPlan,
    pub attempts: Vec<StartAttempt>,
}

impl StartFanOut {
    pub closed spec fn context(self) -> PhaseContext {
        self.context
    }

    pub closed spec fn authority(self) -> Admission {
        self.admission
    }

    /// Issues one attempt per worker, once the workers have been addressed: under a fence, once each
    /// of them acknowledged it. Where they could not be, nothing was issued and the authority is
    /// given up.
    pub fn issue(
        self,
        addressed_fence: u64,
        addressed: Result<Vec<FenceAcknowledgement>, StateError>,
        owned: bool,
    ) -> (r: Result<IssuedFanOut, Interrupted>)
        requires
            crate::scheduling::plan::seats_program(
                self.context().workers@,
                self.context().job.program.nodes@,
            ),
            crate::scheduling::plan::may_start(self.context(), addressed_fence, addressed),
        ensures
            match addressed {
                Err(reason) => r matches Err(left) && gave_up(
                    self.context(),
                    self.authority(),
                    Inventory::nothing_issued(
                        self.context().job.status.generation,
                        addressed_fence,
                    ),
                    addressed_fence,
                    reason,
                    left,
                ),
                Ok(acknowledgements) => r matches Ok(issued) && {
                    let after = issued.fanning.context();
                    &&& issued.fanning.authority() == self.authority()
                    &&& issued.fanning.has_owner() == owned
                    &&& issued.fanning.outcomes().len() == 0
                    &&& after.observed_acknowledgements@
                        == self.context().observed_acknowledgements@ + acknowledgements@
                    &&& after == (PhaseContext {
                        observed_acknowledgements: after.observed_acknowledgements,
                        ..self.context()
                    })
                    &&& crate::scheduling::plan::plans(self.context(), issued.plan)
                    &&& crate::scheduling::plan::asks_every_worker(
                        self.context().workers@,
                        issued.attempts@,
                    )
                    &&& issued.fanning.inventory().attempts.dom() == self.context().workers@.dom()
                    &&& issued.fanning.inventory()
                        == crate::scheduling::start_execution::issued_all(
                        Inventory::nothing_issued(
                            self.context().job.status.generation,
                            addressed_fence,
                        ),
                        Seq::new(issued.attempts@.len(), |i: int| issued.attempts@[i]@),
                    )
                },
            },
    {
        let StartFanOut { context, admission } = self;
        let mut context = context;
        match context.fan_out_start_execution(admission, addressed_fence, addressed, owned) {
            FanOutStep::Refused { admission, issued, reason } => {
                let released = admission.release();
                Err(context.into_fencing(reason, issued, addressed_fence, Some(released)))
            },
            FanOutStep::Issued { fan_out, plan, attempts } => Ok(
                IssuedFanOut { fanning: Fanning { context, fan_out }, plan, attempts },
            ),
        }
    }
}

impl Fanning {
    pub closed spec fn context(self) -> PhaseContext {
        self.context
    }

    pub closed spec fn authority(self) -> Admission {
        self.fan_out.authority()
    }

    /// What the fan-out issued, and what has accounted for each identifier.
    pub closed spec fn inventory(self) -> Inventory {
        self.fan_out.inventory()
    }

    /// The outcomes that have come in, in that order.
    pub closed spec fn outcomes(self) -> Seq<SettledView> {
        self.fan_out.outcomes()
    }

    /// Whether every request of the fan-out has an outcome.
    pub open spec fn every_request_has_an_outcome(self) -> bool {
        crate::scheduling::start_execution::settles_every_attempt(self.inventory(), self.outcomes())
    }

    /// Whether the fan-out was issued for a job with a settlement owner.
    pub closed spec fn has_owner(self) -> bool {
        self.fan_out.has_owner()
    }

    /// The obligation the fan-out would leave if it ended now.
    pub open spec fn obligation(self) -> Obligation {
        Obligation {
            job: self.authority()@,
            guard: self.authority().holds(),
            inventory: self.inventory(),
        }
    }

    /// Reads one reply: an answer accounts for the attempt's identifier, and an attempt that is over
    /// has its outcome. Otherwise the attempt is handed back, to be offered again.
    pub fn read(&mut self, attempt: StartAttempt, reply: StartReply) -> (r: Option<StartAttempt>)
        ensures
            final(self).context() == old(self).context(),
            final(self).authority() == old(self).authority(),
            final(self).has_owner() == old(self).has_owner(),
            final(self).inventory() == (if reply.is_answer() {
                old(self).inventory().after(
                    old(self).inventory().answer(attempt@.worker, attempt@.id),
                )
            } else {
                old(self).inventory()
            }),
            match crate::scheduling::start_execution::concluded(attempt@, reply) {
                Some(outcome) => r is None && final(self).outcomes() == old(self).outcomes().push(
                    outcome,
                ),
                None => {
                    &&& r matches Some(again) && again@ == (StartAttemptView {
                        unsettled: attempt@.unsettled + 1,
                        ..attempt@
                    })
                    &&& final(self).outcomes() == old(self).outcomes()
                },
            },
    {
        self.fan_out.read(attempt, reply)
    }

    /// Whether every request of the fan-out has an outcome.
    pub fn is_settled(&self) -> (r: bool)
        ensures
            r == self.every_request_has_an_outcome(),
    {
        self.fan_out.is_complete()
    }

    /// What the fan-out came to, once every request has an outcome. Where every worker started, the
    /// authority is released. A fan-out that failed offers its identifiers and its authority,
    /// together, to the settlement owner it was issued for; what becomes of them is what is left to
    /// be fenced.
    pub fn settled(self, addressed_fence: u64, owner: Option<&mut dyn SettlementOwner>) -> (r:
        Result<AwaitingTasks, Interrupted>)
        requires
            self.every_request_has_an_outcome(),
            owner is Some <==> self.has_owner(),
        ensures
            exists|after: PhaseContext, result: Result<(), StateError>| #[trigger]
                crate::scheduling::plan::fan_out_recorded(
                    self.context(),
                    after,
                    self.outcomes(),
                    result,
                ) && match result {
                    Ok(()) => {
                        &&& r matches Ok(next) && next.context() == after && next.issued()
                            == self.inventory() && next.released() == self.authority()@
                        &&& crate::admission::unlocked(self.authority().holds())
                        &&& after.started_workers@.map_values(|w: WorkerId| w.0).to_set()
                            == self.inventory().attempts.dom()
                        &&& owner matches Some(idle) ==> final(idle).speaks_for()
                            == (*idle).speaks_for()
                    },
                    Err(reason) => r matches Err(left) && {
                        &&& left.reason == reason
                        &&& owner matches Some(asked) ==> final(asked).speaks_for() == (
                        *asked).speaks_for_after(self.obligation())
                        &&& crate::scheduling::context::fences(
                            after,
                            addressed_fence,
                            left.fencing,
                        )
                        &&& exists|outcome: SettlementOutcome| #[trigger]
                            crate::scheduling::fanout::settlement::disposed(
                                self.obligation(),
                                owner is Some,
                                outcome,
                            ) && (owner matches Some(asked) ==> (outcome is SettledInPlace <==> (
                            *asked).declines(self.obligation()))) && (owner matches Some(asked) ==> (
                            (*asked).declines(self.obligation()) || taken_over(
                                self.obligation(),
                                outcome,
                            ))) && (match outcome {
                                SettlementOutcome::SettledInPlace(admission, _) => {
                                    &&& admission == self.authority()
                                    &&& left.released matches Some(released) && released@
                                        == admission@
                                    &&& crate::admission::unlocked(admission.holds())
                                },
                                _ => left.released is None,
                            }) && crate::scheduling::fanout::settlement::recorded(
                                outcome,
                                left.fencing.outstanding@,
                                left.fencing.transferred as nat,
                                left.fencing.abandoned as nat,
                            )
                    },
                },
    {
        let Fanning { context, fan_out } = self;
        let mut context = context;
        let (admission, collection) = fan_out.settle();
        let result = context.record_fan_out(&collection);
        assert(crate::scheduling::plan::fan_out_recorded(
            self.context(),
            context,
            self.outcomes(),
            result,
        ));
        let issued = collection.issued();
        match result {
            Ok(()) => {
                proof {
                    issued.is_finite();
                    crate::scheduling::start_execution::a_fan_out_that_started_started_every_target(
                        issued@,
                        collection.outcomes(),
                    );
                }
                let released = admission.release();
                Ok(AwaitingTasks { context, issued, released })
            },
            Err(reason) => {
                let ghost has_owner = owner is Some;
                let bundle = SettlementBundle::new(admission, issued);
                assert(bundle@ == self.obligation());
                let outcome = hand_over(bundle, owner);
                assert(crate::scheduling::fanout::settlement::disposed(
                    self.obligation(),
                    has_owner,
                    outcome,
                ));
                let (outstanding, record, released) = outcome.into_fencing_record();
                let mut left = context.into_fencing(
                    reason,
                    outstanding,
                    addressed_fence,
                    released,
                );
                left.fencing_mut().note_transferred(record.transferred());
                left.fencing_mut().note_abandoned(record.abandoned());
                Err(left)
            },
        }
    }
}

impl AwaitingTasks {
    pub closed spec fn context(self) -> PhaseContext {
        self.context
    }

    /// Whose authority was released before the wait began.
    pub closed spec fn released(self) -> Seq<char> {
        self.released@
    }

    pub closed spec fn issued(self) -> Inventory {
        self.issued@
    }

    pub fn knows(&self) -> (r: &PhaseContext)
        ensures
            *r == self.context(),
    {
        &self.context
    }

    /// The job, for publishing into its configuration what its writer decided.
    pub fn job_mut(&mut self) -> (r: &mut JobContext)
        ensures
            *r == old(self).context().job,
            final(self).context() == (PhaseContext { job: *final(r), ..old(self).context() }),
            final(self).released() == old(self).released(),
            final(self).issued() == old(self).issued(),
    {
        &mut self.context.job
    }

    /// Gives the attempt up: the job goes where a stop sends it.
    pub fn into_job(self) -> (r: JobContext)
        ensures
            r == self.context().job,
    {
        self.context.job
    }

    /// What reading the job's writer means on a turn of the wait, and before the handover.
    pub fn observe(&self, observed: Result<ObservedIntent, StateError>) -> (r: Result<
        PhaseWait,
        StateError,
    >)
        ensures
            r == crate::scheduling::observation::observes(self.context().job.config, observed),
    {
        self.context.observe_before_phase(observed)
    }

    /// Reads a message that arrived on the job's channel.
    pub fn await_message(&mut self, msg: JobMessage, checked: Result<(), StateError>) -> (r: Result<
        WaitStep,
        StateError,
    >)
        ensures
            final(self).issued() == old(self).issued(),
            final(self).released() == old(self).released(),
            crate::scheduling::execution::task_turn(
                old(self).context(),
                final(self).context(),
                msg,
                checked,
                r,
            ),
    {
        self.context.handle_task_wait_message(msg, checked)
    }

    pub fn tasks_are_all_started(&self) -> (r: bool)
        ensures
            r == (self.context().started_tasks@.len() >= self.context().job.program.task_count),
    {
        self.context.tasks_are_all_started()
    }

    /// The wait ran out of time: what the leader's answer makes of it.
    pub fn timed_out(&self, status: Option<LeaderStatus>, budget: &str) -> (r: Result<
        JobFailure,
        StateError,
    >)
        ensures
            crate::scheduling::execution::timed_out(status, budget@, r),
    {
        self.context.task_startup_timeout(status, budget)
    }

    /// Leaves what is to be fenced: everything the fan-out issued with it.
    pub fn fence(self, reason: StateError, addressed_fence: u64) -> (r: Interrupted)
        ensures
            interrupted(self.context(), self.released(), self.issued(), addressed_fence, reason, r),
    {
        let AwaitingTasks { context, issued, released } = self;
        context.into_fencing(reason, issued, addressed_fence, Some(released))
    }

    /// Prepares the handover, once every task has started, and says whether restored commits are to
    /// be published before the job leaves.
    pub fn hand_over(self, protocol: Result<FenceProtocol, String>, addressed_fence: u64) -> (r:
        Result<(HandedOver, Option<ControllerPlan>), Interrupted>)
        requires
            self.context().started_tasks@.len() >= self.context().job.program.task_count,
        ensures
            exists|after: PhaseContext, result: Result<Option<ControllerPlan>, StateError>|
             #[trigger]
                crate::scheduling::handover::handed_over(self.context(), after, protocol, result)
                    && match result {
                    Err(reason) => r matches Err(left) && interrupted(
                        after,
                        self.released(),
                        self.issued(),
                        addressed_fence,
                        reason,
                        left,
                    ),
                    Ok(plan) => r matches Ok((next, built)) && built == plan
                        && next.leaving().context() == after && next.leaving().issued()
                        == self.issued() && next.leaving().released() == self.released() && (next is CommitsPending <==> plan is Some
                        && self.context().committing_state is Some),
                },
    {
        let mut this = self;
        let result = this.context.prepare_handover(protocol);
        assert(crate::scheduling::handover::handed_over(
            self.context(),
            this.context(),
            protocol,
            result,
        ));
        match result {
            Err(reason) => Err(this.fence(reason, addressed_fence)),
            Ok(plan) => {
                let AwaitingTasks { context, issued, released } = this;
                let commits = plan.is_some() && context.needs_restored_commits();
                let leaving = Leaving { context, issued, released };
                if commits {
                    Ok((HandedOver::CommitsPending(PendingCommits { leaving }), plan))
                } else {
                    Ok((HandedOver::Ready(leaving), plan))
                }
            },
        }
    }
}

impl HandedOver {
    pub open spec fn leaving(self) -> Leaving {
        match self {
            HandedOver::CommitsPending(pending) => pending.leaving(),
            HandedOver::Ready(leaving) => leaving,
        }
    }
}

impl PendingCommits {
    /// What leaves once the commits are published.
    pub closed spec fn leaving(self) -> Leaving {
        self.leaving
    }

    pub fn knows(&self) -> (r: &PhaseContext)
        ensures
            *r == self.leaving().context(),
    {
        &self.leaving.context
    }

    /// The job, for publishing into its configuration what its writer decided.
    pub fn job_mut(&mut self) -> (r: &mut JobContext)
        ensures
            *r == old(self).leaving().context().job,
            final(self).leaving().context() == (PhaseContext {
                job: *final(r),
                ..old(self).leaving().context()
            }),
            final(self).leaving().released() == old(self).leaving().released(),
            final(self).leaving().issued() == old(self).leaving().issued(),
    {
        &mut self.leaving.context.job
    }

    /// Gives the attempt up: the job goes where a stop sends it.
    pub fn into_job(self) -> (r: JobContext)
        ensures
            r == self.leaving().context().job,
    {
        self.leaving.context.job
    }

    /// The authority to publish the commits was granted.
    pub fn admit_commit_publish(self, admission: Admission) -> (r: CommitPublish)
        ensures
            r.context() == self.leaving().context(),
            r.issued() == self.leaving().issued(),
            r.authority() == admission,
    {
        let PendingCommits { leaving } = self;
        CommitPublish { context: leaving.context, admission, issued: leaving.issued }
    }
}

impl Leaving {
    pub closed spec fn context(self) -> PhaseContext {
        self.context
    }

    /// Whose authority was released before the wait began.
    pub closed spec fn released(self) -> Seq<char> {
        self.released@
    }

    pub closed spec fn issued(self) -> Inventory {
        self.issued@
    }

    pub fn knows(&self) -> (r: &PhaseContext)
        ensures
            *r == self.context(),
    {
        &self.context
    }

    /// Leaves for the state that runs the execution.
    pub fn into_transition(self, connected: Result<(), String>, addressed_fence: u64) -> (r: Result<
        (JobContext, Transition),
        Interrupted,
    >)
        ensures
            exists|left: Result<(JobContext, Transition), (PhaseContext, StateError)>| #[trigger]
                crate::scheduling::handover::left_for(self.context(), connected, left)
                    && match left {
                    Ok(gone) => r == Ok::<_, Interrupted>(gone),
                    Err((context, reason)) => r matches Err(fenced) && interrupted(
                        context,
                        self.released(),
                        self.issued(),
                        addressed_fence,
                        reason,
                        fenced,
                    ),
                },
    {
        let Leaving { context, issued, released } = self;
        match context.into_transition(connected) {
            Ok(gone) => Ok(gone),
            Err((context, reason)) => Err(
                context.into_fencing(reason, issued, addressed_fence, Some(released)),
            ),
        }
    }
}

impl CommitPublish {
    pub closed spec fn context(self) -> PhaseContext {
        self.context
    }

    pub closed spec fn issued(self) -> Inventory {
        self.issued@
    }

    pub closed spec fn authority(self) -> Admission {
        self.admission
    }

    /// The restored commits were published. The authority is released.
    pub fn publish_restored_commits(self) -> (r: Leaving)
        ensures
            r.context() == self.context(),
            r.issued() == self.issued(),
            r.released() == self.authority()@,
            crate::admission::unlocked(self.authority().holds()),
    {
        let CommitPublish { context, admission, issued } = self;
        let released = admission.release();
        Leaving { context, issued, released }
    }
}

/// Whether an effect was performed under the authority that was held and this one is due next.
pub open spec fn goes_on_to(
    before: Preamble,
    r: Result<Preamble, Interrupted>,
    due: Option<PreambleEffect>,
) -> bool {
    r is Ok && r->Ok_0.authority() == before.authority() && r->Ok_0.due() == due
}

/// Whether an attempt that held the authority over `job` was interrupted with nothing issued: that
/// authority was released, and every worker it knew is left to be fenced.
pub open spec fn is_left_to_be_fenced(
    left: Interrupted,
    before: PhaseContext,
    job: Seq<char>,
    addressed_fence: u64,
) -> bool {
    &&& left.released is Some
    &&& left.released->0@ == job
    &&& left.fencing.outstanding@.attempts.dom().len() == 0
    &&& left.fencing.transferred == 0
    &&& left.fencing.abandoned == 0
    &&& left.fencing.addressed_fence == addressed_fence
    &&& left.fencing.context.job == before.job
    &&& left.fencing.context.workers@ == before.workers@
    &&& forall|w: u64| left.fencing.targets@.contains(w) <==> #[trigger] before.workers@.contains_key(w)
}

proof fn targets_are_the_workers(targets: Seq<u64>, workers: Map<u64, Worker>)
    requires
        crate::collections::in_order(targets, workers.dom()),
    ensures
        forall|w: u64| targets.contains(w) <==> #[trigger] workers.contains_key(w),
{
    assert forall|w: u64| targets.contains(w) <==> #[trigger] workers.contains_key(w) by {
        assert(workers.dom().contains(w) <==> targets.contains(w));
    }
}

/// A preamble begins with the adoption of the job's authority, and goes on to discharge what an
/// earlier attempt left exactly where the authority was adopted. A row under another controller's
/// authority has the attempt give up, with that controller noted.
pub proof fn a_preamble_adopts_the_authority_first(
    context: PhaseContext,
    admission: Admission,
    entered: Preamble,
    preamble: Preamble,
    outcome: Result<AuthorityOutcome, String>,
    addressed_fence: u64,
    r: Result<Preamble, Interrupted>,
)
    requires
        call_ensures(Preamble::enter, (context, admission), entered),
        preamble.due() == Some(PreambleEffect::AdoptAuthority),
        call_ensures(
            Preamble::adopt_lifecycle_authority,
            (preamble, outcome, addressed_fence),
            r,
        ),
    ensures
        entered.due() == Some(PreambleEffect::AdoptAuthority),
        entered.context() == context,
        entered.authority() == admission,
        goes_on_to(preamble, r, Some(PreambleEffect::DischargeFencing)) <==> outcome is Ok
            && outcome->Ok_0 is Applied,
        r is Ok <==> goes_on_to(preamble, r, Some(PreambleEffect::DischargeFencing)),
        r matches Ok(next) ==> next.context() == preamble.context(),
        r matches Err(left) ==> is_left_to_be_fenced(
            left,
            preamble.context(),
            preamble.authority()@,
            addressed_fence,
        ),
        r matches Err(left) ==> (left.reason is FatalError <==> outcome is Ok),
        outcome is Err ==> r->Err_0.fencing.superseded == preamble.context().superseded,
        outcome is Ok && outcome->Ok_0 is Stale ==> r->Err_0.fencing.superseded is Some
            && r->Err_0.fencing.superseded->0@ == outcome->Ok_0->Stale_0@,
{
    if r is Err {
        targets_are_the_workers(r->Err_0.fencing.targets@, preamble.context().workers@);
    }
}

/// A replacement generation is raised exactly where nothing of an earlier attempt is owed. It is one
/// higher, and is what is published next.
pub proof fn a_generation_is_raised_only_where_nothing_is_owed(
    preamble: Preamble,
    discharge: Discharge,
    addressed_fence: u64,
    r: Result<Preamble, Interrupted>,
    raising: Preamble,
    raised: Preamble,
)
    requires
        preamble.due() == Some(PreambleEffect::DischargeFencing),
        call_ensures(
            Preamble::discharge_recovered_fencing,
            (preamble, discharge, addressed_fence),
            r,
        ),
        raising.due() == Some(PreambleEffect::RaiseGeneration),
        raising.context().job.status.generation < u64::MAX,
        call_ensures(Preamble::raise_generation, (raising,), raised),
    ensures
        goes_on_to(preamble, r, Some(PreambleEffect::RaiseGeneration)) <==> discharge is Inactive
            || discharge is NothingRecorded || discharge is Settled,
        r is Ok <==> goes_on_to(preamble, r, Some(PreambleEffect::RaiseGeneration)),
        r matches Ok(next) ==> next.context() == preamble.context(),
        r matches Err(left) ==> is_left_to_be_fenced(
            left,
            preamble.context(),
            preamble.authority()@,
            addressed_fence,
        ),
        r matches Err(left) ==> (left.reason is FatalError <==> discharge is Superseded),
        raised.due() == Some(PreambleEffect::PersistGeneration),
        raised.authority() == raising.authority(),
        raised.context().job.status.generation == raising.context().job.status.generation + 1,
        raised.context().job.config == raising.context().job.config,
        raised.context().job.program == raising.context().job.program,
        raised.context().workers == raising.context().workers,
{
    if r is Err {
        targets_are_the_workers(r->Err_0.fencing.targets@, preamble.context().workers@);
    }
}

/// The existing cluster is torn down exactly once the raised generation is on the job's row. Whether
/// it could be torn down interrupts nothing; the replacement is then sized by its own program.
pub proof fn a_cluster_is_torn_down_only_behind_the_new_generation(
    preamble: Preamble,
    outcome: Result<StatusPublication, String>,
    addressed_fence: u64,
    r: Result<Preamble, Interrupted>,
    tearing: Preamble,
    torn: Result<(), String>,
    after: Result<Preamble, Interrupted>,
    sizing: Preamble,
    program: LogicalProgram,
    sized: (Preamble, usize),
    needed: usize,
)
    requires
        preamble.due() == Some(PreambleEffect::PersistGeneration),
        call_ensures(Preamble::persist_generation, (preamble, outcome, addressed_fence), r),
        tearing.due() == Some(PreambleEffect::TearDownCluster),
        call_ensures(Preamble::tear_down_existing_cluster, (tearing, torn), after),
        sizing.due() == Some(PreambleEffect::SizeCluster),
        call_ensures(Preamble::size_cluster, (sizing, program), sized),
        call_ensures(crate::scheduling::workers::slots_for_job, (&program,), needed),
    ensures
        goes_on_to(preamble, r, Some(PreambleEffect::TearDownCluster)) <==> outcome is Ok
            && outcome->Ok_0 is Published,
        r is Ok <==> goes_on_to(preamble, r, Some(PreambleEffect::TearDownCluster)),
        r matches Ok(next) ==> next.context() == preamble.context(),
        r matches Err(left) ==> is_left_to_be_fenced(
            left,
            preamble.context(),
            preamble.authority()@,
            addressed_fence,
        ),
        r matches Err(left) ==> (left.reason is FatalError <==> outcome is Ok),
        outcome is Ok && outcome->Ok_0 is Superseded ==> r->Err_0.fencing.superseded is Some
            && r->Err_0.fencing.superseded->0@ == outcome->Ok_0->Superseded_0@,
        goes_on_to(tearing, after, Some(PreambleEffect::SizeCluster)),
        after->Ok_0.context() == tearing.context(),
        sized.1 == needed,
        sized.0.authority() == sizing.authority(),
        sized.0.due() == Some(PreambleEffect::StartWorkers),
        sized.0.context().slots_needed == needed,
        sized.0.context().job.program == program,
        sized.0.context().job.status == sizing.context().job.status,
{
    if r is Err {
        targets_are_the_workers(r->Err_0.fencing.targets@, preamble.context().workers@);
    }
}

/// A recovery is prepared exactly where the workers were started, and the root is published exactly
/// where it was prepared: it states what was recovered, so it comes after. A failure is what the
/// attempt is interrupted for, as it was given.
pub proof fn a_root_is_published_only_after_the_recovery(
    starting: Preamble,
    outcome: Result<(), StateError>,
    addressed_fence: u64,
    started: Result<Preamble, Interrupted>,
    preparing: Preamble,
    prepared: RecoveryPreparation,
    r: Result<Preamble, Interrupted>,
)
    requires
        starting.due() == Some(PreambleEffect::StartWorkers),
        call_ensures(
            Preamble::start_replacement_workers,
            (starting, outcome, addressed_fence),
            started,
        ),
        preparing.due() == Some(PreambleEffect::PrepareRecovery),
        call_ensures(
            Preamble::prepare_recovery_checkpoint,
            (preparing, prepared, addressed_fence),
            r,
        ),
    ensures
        goes_on_to(starting, started, Some(PreambleEffect::PrepareRecovery)) <==> outcome is Ok,
        started is Ok <==> outcome is Ok,
        started matches Ok(next) ==> next.context() == starting.context(),
        started matches Err(left) ==> left.reason == outcome->Err_0 && is_left_to_be_fenced(
            left,
            starting.context(),
            starting.authority()@,
            addressed_fence,
        ),
        r is Ok <==> match prepared {
            RecoveryPreparation::Leader(result) => result is Ok,
            RecoveryPreparation::Controller(result) => result is Ok,
        },
        r is Ok ==> goes_on_to(preparing, r, Some(PreambleEffect::PublishRoot)),
        r matches Ok(next) ==> next.context().checkpoint_info == (match prepared {
            RecoveryPreparation::Leader(result) => result->Ok_0,
            RecoveryPreparation::Controller(result) => (result->Ok_0).0,
        }),
        r matches Ok(next) ==> next.context().committing_state == (match prepared {
            RecoveryPreparation::Leader(_) => None,
            RecoveryPreparation::Controller(result) => (result->Ok_0).1,
        }),
        r matches Ok(next) ==> next.context().job == preparing.context().job
            && next.context().workers == preparing.context().workers,
        r matches Err(left) ==> is_left_to_be_fenced(
            left,
            preparing.context(),
            preparing.authority()@,
            addressed_fence,
        ),
        r is Err && prepared is Controller ==> r->Err_0.reason == prepared->Controller_0->Err_0,
        r is Err && prepared is Leader ==> (r->Err_0.reason is FatalError
            <==> prepared->Leader_0->Err_0 is StateBackend),
{
    if started is Err {
        targets_are_the_workers(started->Err_0.fencing.targets@, starting.context().workers@);
    }
    if r is Err {
        targets_are_the_workers(r->Err_0.fencing.targets@, preparing.context().workers@);
    }
}

/// The current generation is named exactly where the root was installed and a pointer waits for it;
/// with or without one, that is the last effect. Only then are workers waited for, and the authority
/// is released before.
pub proof fn the_current_generation_is_named_last(
    publishing: Preamble,
    installed: RootInstallation,
    addressed_fence: u64,
    r: Result<(Preamble, Option<String>), Interrupted>,
    naming: Preamble,
    written: Result<(), String>,
    named: Result<Preamble, Interrupted>,
    done: Preamble,
    waiting: AwaitingWorkers,
)
    requires
        publishing.due() == Some(PreambleEffect::PublishRoot),
        call_ensures(
            Preamble::publish_metadata_root,
            (publishing, installed, addressed_fence),
            r,
        ),
        naming.due() == Some(PreambleEffect::NameGeneration),
        call_ensures(Preamble::name_current_generation, (naming, written, addressed_fence), named),
        done.due() is None,
        call_ensures(Preamble::release, (done,), waiting),
    ensures
        r is Ok <==> installed is Attempted && installed->Attempted_1 is Ok
            && installed->Attempted_1->Ok_0 is Applied,
        r matches Ok((next, pointer)) ==> pointer
            == publishing.context().deferred_current_generation && next.authority()
            == publishing.authority() && (next.due() == Some(PreambleEffect::NameGeneration)
            <==> pointer is Some) && (next.due() is None <==> pointer is None)
            && next.context().deferred_current_generation is None && next.context().job
            == publishing.context().job,
        r matches Err(left) ==> is_left_to_be_fenced(
            left,
            publishing.context(),
            publishing.authority()@,
            addressed_fence,
        ),
        named is Ok <==> written is Ok,
        named is Ok ==> goes_on_to(naming, named, None) && named->Ok_0.context()
            == naming.context(),
        named matches Err(left) ==> is_left_to_be_fenced(
            left,
            naming.context(),
            naming.authority()@,
            addressed_fence,
        ),
        waiting.context() == done.context(),
        waiting.released() == done.authority()@,
{
    if r is Err {
        targets_are_the_workers(r->Err_0.fencing.targets@, publishing.context().workers@);
    }
    if named is Err {
        targets_are_the_workers(named->Err_0.fencing.targets@, naming.context().workers@);
    }
}

/// The fan-out begins only with workers that reconcile a repeated request; a worker that does not
/// has the attempt interrupted before any authority is taken. What is admitted is what was waited
/// for, under the authority that was granted.
pub proof fn a_fan_out_begins_with_workers_that_reconcile(
    waiting: AwaitingWorkers,
    addressed_fence: u64,
    r: Result<AwaitingWorkers, Interrupted>,
    reconcile: Result<(), StateError>,
    ready: AwaitingWorkers,
    admission: Admission,
    fan_out: StartFanOut,
    reason: StateError,
    fenced: Interrupted,
    enough: bool,
    slots: bool,
)
    requires
        call_ensures(
            AwaitingWorkers::require_reconciling_workers,
            (waiting, addressed_fence),
            r,
        ),
        call_ensures(Workers::require_reconciling, (&waiting.context().workers,), reconcile),
        call_ensures(AwaitingWorkers::admitted, (ready, admission), fan_out),
        call_ensures(AwaitingWorkers::fence, (waiting, reason, addressed_fence), fenced),
        call_ensures(AwaitingWorkers::workers_are_sufficient, (&waiting,), enough),
        call_ensures(
            Workers::have_slots,
            (&waiting.context().workers, waiting.context().slots_needed),
            slots,
        ),
    ensures
        r is Ok <==> reconcile is Ok,
        r matches Ok(next) ==> next.context() == waiting.context() && next.released()
            == waiting.released(),
        r matches Err(left) ==> is_left_to_be_fenced(
            left,
            waiting.context(),
            waiting.released(),
            addressed_fence,
        ) && left.reason is RetryableError && left.reason->retries == 10,
        fan_out.context() == ready.context(),
        fan_out.authority() == admission,
        fenced.reason == reason,
        is_left_to_be_fenced(fenced, waiting.context(), waiting.released(), addressed_fence),
        enough == slots,
{
    if r is Err {
        targets_are_the_workers(r->Err_0.fencing.targets@, waiting.context().workers@);
    }
    targets_are_the_workers(fenced.fencing.targets@, waiting.context().workers@);
}

/// Requests go out exactly where the workers were addressed, one to each that is known and under the
/// authority that was granted; otherwise nothing was issued, the authority is given up, and the
/// attempt is interrupted for the reason as it was.
pub proof fn requests_go_out_only_to_workers_that_were_addressed(
    fan_out: StartFanOut,
    addressed_fence: u64,
    addressed: Result<Vec<FenceAcknowledgement>, StateError>,
    owned: bool,
    r: Result<IssuedFanOut, Interrupted>,
    ids: Vec<u64>,
)
    requires
        call_ensures(StartFanOut::issue, (fan_out, addressed_fence, addressed, owned), r),
        call_ensures(Workers::ids, (&fan_out.context().workers,), ids),
    ensures
        r is Ok <==> addressed is Ok,
        r matches Ok(issued) ==> issued.fanning.authority() == fan_out.authority()
            && issued.fanning.has_owner() == owned && issued.fanning.outcomes().len() == 0
            && issued.attempts@.len() == ids@.len() && (forall|i: int|
            0 <= i < ids@.len() ==> (#[trigger] issued.attempts@[i])@.worker == ids@[i]
                && issued.attempts@[i]@.unsettled == 0) && issued.fanning.context().job
            == fan_out.context().job && issued.fanning.context().workers
            == fan_out.context().workers,
        r matches Ok(issued) ==> issued.fanning.context().observed_acknowledgements@
            == fan_out.context().observed_acknowledgements@ + addressed->Ok_0@,
        r matches Err(left) ==> left.reason == addressed->Err_0 && is_left_to_be_fenced(
            left,
            fan_out.context(),
            fan_out.authority()@,
            addressed_fence,
        ) && left.fencing.outstanding@.generation == fan_out.context().job.status.generation
            && left.fencing.outstanding@.fence == addressed_fence,
{
    if r is Err {
        targets_are_the_workers(r->Err_0.fencing.targets@, fan_out.context().workers@);
    } else {
        let issued = r->Ok_0;
        let workers = Seq::new(issued.attempts@.len(), |k: int| issued.attempts@[k]@.worker);
        crate::collections::one_order(workers, ids@, fan_out.context().workers@.dom());
        assert(workers.len() == issued.attempts@.len());
        assert forall|i: int| 0 <= i < ids@.len() implies (
        #[trigger] issued.attempts@[i])@.worker == ids@[i] && issued.attempts@[i]@.unsettled
            == 0 by {
            assert(workers[i] == ids@[i]);
        }
    }
}

/// Replies are read under the authority, and change nothing about the attempt but its outcomes: one
/// more, unless the request is handed back to be offered again.
pub proof fn a_fan_out_reads_replies_under_its_authority(
    fanning: &mut Fanning,
    attempt: StartAttempt,
    unsettled: usize,
    reply: StartReply,
    r: Option<StartAttempt>,
)
    requires
        call_ensures(StartAttempt::unsettled, (&attempt,), unsettled),
        call_ensures(Fanning::read, (fanning, attempt, reply), r),
    ensures
        final(fanning).authority() == old(fanning).authority(),
        final(fanning).context() == old(fanning).context(),
        final(fanning).has_owner() == old(fanning).has_owner(),
        r is Some <==> reply is Failure && reply->settlement == TransportSettlement::Ambiguous
            && unsettled < 8,
        final(fanning).outcomes().len() == old(fanning).outcomes().len() + (if r is None {
            1int
        } else {
            0
        }),
        r is None ==> final(fanning).outcomes().last().worker == attempt@.worker && (final(
            fanning).outcomes().last().failure is None <==> reply is Response && reply->Response_0
            is Ok && reply->Response_0->Ok_0.outcome == StartExecutionOutcome::Applied),
        final(fanning).outcomes().take(old(fanning).outcomes().len() as int) == old(
            fanning).outcomes(),
{
    assert(final(fanning).outcomes().take(old(fanning).outcomes().len() as int) =~= old(
        fanning).outcomes());
}

/// A settled fan-out waits for tasks exactly where none of its requests failed: every worker it asked
/// then counts as started, what it issued is kept, and its authority is released. One that failed is
/// interrupted, and every identifier it still owed is owed by what is left, or was transferred, or
/// was lost: without an owner, nothing leaves.
pub proof fn a_failed_fan_out_loses_no_identifier(
    fanning: Fanning,
    settled: bool,
    addressed_fence: u64,
    owner: Option<&mut dyn SettlementOwner>,
    r: Result<AwaitingTasks, Interrupted>,
    still_owed: usize,
)
    requires
        call_ensures(Fanning::is_settled, (&fanning,), settled),
        settled,
        call_ensures(Fanning::settled, (fanning, addressed_fence, owner), r),
        r matches Err(left) ==> call_ensures(
            IssuedAttempts::outstanding_count,
            (&left.fencing.outstanding,),
            still_owed,
        ),
    ensures
        r is Ok <==> forall|i: int|
            0 <= i < fanning.outcomes().len() ==> (#[trigger] fanning.outcomes()[i]).failure
                is None,
        r matches Ok(next) ==> next.issued() == fanning.inventory() && next.released()
            == fanning.authority()@ && next.context().job == fanning.context().job,
        r matches Ok(next) ==> forall|w: u64|
            next.context().started_workers@.contains(WorkerId(w))
                <==> #[trigger] fanning.inventory().attempts.contains_key(w),
        r matches Err(left) ==> still_owed + left.fencing.transferred + left.fencing.abandoned
            == fanning.inventory().outstanding().len(),
        r matches Err(left) ==> left.fencing.transferred == 0 || left.fencing.abandoned == 0,
        r is Err && owner is None ==> r->Err_0.fencing.transferred == 0
            && r->Err_0.fencing.abandoned == 0,
        r matches Err(left) ==> left.fencing.addressed_fence == addressed_fence
            && left.fencing.context.job == fanning.context().job && left.reason is RetryableError
            && left.reason->retries == 10,
        r matches Err(left) ==> (left.fencing.transferred > 0 || left.fencing.abandoned > 0
            ==> left.released is None),
{
    crate::scheduling::start_execution::a_fan_out_starts_where_every_attempt_does(
        fanning.outcomes(),
    );
    assert(Inventory::nothing_issued(0, 0).outstanding() =~= Set::empty());
    if r is Ok {
        let started = r->Ok_0.context().started_workers@;
        let ids = |w: WorkerId| w.0;
        let workers = started.map_values(ids);
        let issued = fanning.inventory().attempts;
        assert(workers.to_set() == issued.dom());
        assert(forall|i: int| 0 <= i < started.len() ==> #[trigger] workers[i] == started[i].0);
        assert forall|w: u64| started.contains(WorkerId(w)) <==> #[trigger] issued.contains_key(
            w,
        ) by {
            if started.contains(WorkerId(w)) {
                let i = choose|i: int| 0 <= i < started.len() && started[i] == WorkerId(w);
                assert(workers[i] == w);
                assert(workers.to_set().contains(w));
            }
            if issued.contains_key(w) {
                assert(workers.to_set().contains(w));
                let i = choose|i: int| 0 <= i < workers.len() && workers[i] == w;
                assert(started[i] == WorkerId(w));
            }
        }
    }
}

/// The two waits read messages, dials and the job's writer as an attempt without phases does, and
/// neither touches what was released or issued.
pub proof fn a_phase_waits_as_its_attempt_does(
    workers: &mut AwaitingWorkers,
    tasks: &mut AwaitingTasks,
    for_workers: &mut PhaseContext,
    for_tasks: &mut PhaseContext,
    msg: JobMessage,
    checked: Result<(), StateError>,
    worker_step: Result<WaitStep, StateError>,
    task_step: Result<WaitStep, StateError>,
    plain_worker_step: Result<WaitStep, StateError>,
    plain_task_step: Result<WaitStep, StateError>,
)
    requires
        old(workers).context().dialling < usize::MAX,
        *old(for_workers) == old(workers).context(),
        *old(for_tasks) == old(tasks).context(),
        call_ensures(AwaitingWorkers::await_message, (workers, msg, checked), worker_step),
        call_ensures(AwaitingTasks::await_message, (tasks, msg, checked), task_step),
        call_ensures(
            PhaseContext::handle_worker_wait_message,
            (for_workers, msg, checked),
            plain_worker_step,
        ),
        call_ensures(
            PhaseContext::handle_task_wait_message,
            (for_tasks, msg, checked),
            plain_task_step,
        ),
    ensures
        worker_step is Ok <==> plain_worker_step is Ok,
        task_step is Ok <==> plain_task_step is Ok,
        worker_step is Ok && worker_step->Ok_0 is HandOn ==> worker_step == plain_worker_step,
        worker_step is Ok && worker_step->Ok_0 is Wait ==> worker_step == plain_worker_step,
        worker_step is Ok && worker_step->Ok_0 is Dial ==> plain_worker_step->Ok_0 is Dial,
        task_step is Ok ==> task_step == plain_task_step,
        final(workers).context().workers@ == final(for_workers).workers@,
        final(workers).context().dialling == final(for_workers).dialling,
        final(workers).context().job == final(for_workers).job,
        final(workers).released() == old(workers).released(),
        final(tasks).context().workers@ == final(for_tasks).workers@,
        final(tasks).context().started_tasks@ == final(for_tasks).started_tasks@,
        final(tasks).context().job == final(for_tasks).job,
        final(tasks).released() == old(tasks).released(),
        final(tasks).issued() == old(tasks).issued(),
{
}

/// An execution is handed over exactly where a worker leads or the workers can be addressed; a
/// controller is then built exactly where no worker leads, and its restored commits wait for the
/// authority exactly where there are any. What was issued stays answered for either way.
pub proof fn a_handover_waits_for_restored_commits(
    tasks: AwaitingTasks,
    protocol: Result<FenceProtocol, String>,
    addressed_fence: u64,
    r: Result<(HandedOver, Option<ControllerPlan>), Interrupted>,
    pending: PendingCommits,
    admission: Admission,
    publishing: CommitPublish,
    published: Leaving,
)
    requires
        tasks.context().started_tasks@.len() >= tasks.context().job.program.task_count,
        call_ensures(AwaitingTasks::hand_over, (tasks, protocol, addressed_fence), r),
        call_ensures(PendingCommits::admit_commit_publish, (pending, admission), publishing),
        call_ensures(CommitPublish::publish_restored_commits, (publishing,), published),
    ensures
        r is Ok <==> tasks.context().leader_mode || protocol is Ok,
        r matches Ok((next, plan)) ==> (plan is Some <==> !tasks.context().leader_mode) && (next
            is CommitsPending <==> !tasks.context().leader_mode
            && tasks.context().committing_state is Some) && next.leaving().issued()
            == tasks.issued() && next.leaving().released() == tasks.released(),
        r matches Ok((_, plan)) ==> (plan is Some ==> plan->0.generation
            == tasks.context().job.status.generation && plan->0.workers
            == tasks.context().started_workers && plan->0.committing_state
            == tasks.context().committing_state && plan->0.protocol == protocol->Ok_0),
        r matches Err(left) ==> left.fencing.outstanding@ == tasks.issued()
            && left.fencing.addressed_fence == addressed_fence && left.released is Some
            && left.released->0@ == tasks.released() && left.reason is RetryableError,
        publishing.authority() == admission,
        publishing.issued() == pending.leaving().issued(),
        publishing.context() == pending.leaving().context(),
        published.issued() == publishing.issued(),
        published.context() == publishing.context(),
        published.released() == admission@,
{
}

/// A job leaves its attempt for the worker that leads exactly where one does and was reached, and for
/// the controller where none does; a leader that was not reached interrupts the attempt, answerable
/// for everything it issued. An interrupted wait for tasks is answerable for as much.
pub proof fn an_attempt_that_cannot_leave_is_answerable_for_what_it_issued(
    leaving: Leaving,
    connected: Result<(), String>,
    addressed_fence: u64,
    r: Result<(JobContext, Transition), Interrupted>,
    leader: Option<(WorkerId, String)>,
    tasks: AwaitingTasks,
    reason: StateError,
    fenced: Interrupted,
)
    requires
        call_ensures(Leaving::into_transition, (leaving, connected, addressed_fence), r),
        call_ensures(PhaseContext::leader_endpoint, (&leaving.context(),), leader),
        call_ensures(AwaitingTasks::fence, (tasks, reason, addressed_fence), fenced),
    ensures
        r is Err <==> leader is Some && connected is Err,
        r matches Ok((_, to)) ==> (to == Transition::Advance(NextState::LeaderRunning) <==> leader
            is Some),
        r matches Ok((job, _)) ==> job.status.generation == leaving.context().job.status.generation
            && job.config == leaving.context().job.config,
        r matches Ok((job, _)) ==> (leader is Some ==> job.status.leader is Some
            && job.status.leader->0.worker_id == (leader->0).0),
        r matches Err(left) ==> left.fencing.outstanding@ == leaving.issued()
            && left.fencing.addressed_fence == addressed_fence && left.released is Some
            && left.released->0@ == leaving.released() && left.fencing.context.job
            == leaving.context().job,
        fenced.reason == reason,
        fenced.fencing.outstanding@ == tasks.issued(),
        fenced.released is Some && fenced.released->0@ == tasks.released(),
        fenced.fencing.context.job == tasks.context().job,
        fenced.fencing.addressed_fence == addressed_fence,
{
}

/// A preamble names a candidate exactly where its attempt can, and is still to publish it; otherwise
/// the attempt is interrupted for good.
pub proof fn a_preamble_names_the_candidate_its_attempt_does(
    preamble: Preamble,
    authority: &LifecycleAuthority,
    carried: Result<(), String>,
    addressed_fence: u64,
    r: Result<(Preamble, RootCandidate), Interrupted>,
    named: Result<RootCandidate, StateError>,
)
    requires
        preamble.due() == Some(PreambleEffect::PublishRoot),
        call_ensures(
            Preamble::root_candidate,
            (preamble, authority, carried, addressed_fence),
            r,
        ),
        call_ensures(
            PhaseContext::root_candidate,
            (&preamble.context(), authority, carried),
            named,
        ),
    ensures
        r is Ok <==> named is Ok,
        r matches Ok((next, candidate)) ==> next == preamble && candidate.identity()
            == named->Ok_0.identity() && candidate.text() == named->Ok_0.text(),
        r matches Err(left) ==> left.reason is FatalError && is_left_to_be_fenced(
            left,
            preamble.context(),
            preamble.authority()@,
            addressed_fence,
        ),
{
    if r is Err {
        targets_are_the_workers(r->Err_0.fencing.targets@, preamble.context().workers@);
    }
}

/// The effects of a preamble follow one another in one order, from the adoption of the job's
/// authority to the naming of the current generation.
pub proof fn effects_follow_one_another_in_one_order(
    first: PreambleEffect,
    effect: PreambleEffect,
    r: Option<PreambleEffect>,
)
    requires
        call_ensures(PreambleEffect::first, (), first),
        call_ensures(PreambleEffect::following, (effect,), r),
    ensures
        first == PreambleEffect::AdoptAuthority,
        r == Some(PreambleEffect::DischargeFencing) <==> effect == PreambleEffect::AdoptAuthority,
        r == Some(PreambleEffect::RaiseGeneration) <==> effect == PreambleEffect::DischargeFencing,
        r == Some(PreambleEffect::PersistGeneration) <==> effect == PreambleEffect::RaiseGeneration,
        r == Some(PreambleEffect::TearDownCluster) <==> effect == PreambleEffect::PersistGeneration,
        r == Some(PreambleEffect::SizeCluster) <==> effect == PreambleEffect::TearDownCluster,
        r == Some(PreambleEffect::StartWorkers) <==> effect == PreambleEffect::SizeCluster,
        r == Some(PreambleEffect::PrepareRecovery) <==> effect == PreambleEffect::StartWorkers,
        r == Some(PreambleEffect::PublishRoot) <==> effect == PreambleEffect::PrepareRecovery,
        r == Some(PreambleEffect::NameGeneration) <==> effect == PreambleEffect::PublishRoot,
        r is None <==> effect == PreambleEffect::NameGeneration,
{
}

/// A wait that is read, left, dialled for or timed out of is read, left, dialled for or timed out of
/// as its attempt is: the job is the attempt's own, and nothing else is touched.
pub proof fn a_waiting_phase_is_its_attempt(
    workers: AwaitingWorkers,
    tasks: AwaitingTasks,
    observed: Result<ObservedIntent, StateError>,
    of_workers: Result<PhaseWait, StateError>,
    of_tasks: Result<PhaseWait, StateError>,
    plain_workers: Result<PhaseWait, StateError>,
    plain_tasks: Result<PhaseWait, StateError>,
    all: bool,
    plain_all: bool,
    status: Option<LeaderStatus>,
    budget: &str,
    timed_out: Result<JobFailure, StateError>,
    plain_timed_out: Result<JobFailure, StateError>,
    left_workers: JobContext,
    left_tasks: JobContext,
    dialling: &mut AwaitingWorkers,
    joined: Option<Result<(), String>>,
    dialled: Result<PhaseWait, StateError>,
)
    requires
        call_ensures(AwaitingWorkers::observe, (&workers, observed), of_workers),
        call_ensures(AwaitingTasks::observe, (&tasks, observed), of_tasks),
        call_ensures(
            PhaseContext::observe_intent_in_wait,
            (&workers.context(), observed),
            plain_workers,
        ),
        call_ensures(PhaseContext::observe_before_phase, (&tasks.context(), observed), plain_tasks),
        call_ensures(AwaitingTasks::tasks_are_all_started, (&tasks,), all),
        call_ensures(PhaseContext::tasks_are_all_started, (&tasks.context(),), plain_all),
        call_ensures(AwaitingTasks::timed_out, (&tasks, status, budget), timed_out),
        call_ensures(
            PhaseContext::task_startup_timeout,
            (&tasks.context(), status, budget),
            plain_timed_out,
        ),
        call_ensures(AwaitingWorkers::into_job, (workers,), left_workers),
        call_ensures(AwaitingTasks::into_job, (tasks,), left_tasks),
        joined is Some ==> old(dialling).context().dialling > 0,
        call_ensures(AwaitingWorkers::await_worker_channels, (dialling, joined), dialled),
    ensures
        of_workers == plain_workers,
        of_tasks == plain_tasks,
        all == plain_all,
        timed_out is Ok <==> plain_timed_out is Ok,
        timed_out is Ok ==> timed_out == plain_timed_out,
        left_workers == workers.context().job,
        left_tasks == tasks.context().job,
        dialled is Err <==> joined is Some && joined->0 is Err,
        final(dialling).context().dialling + (if joined is Some {
            1int
        } else {
            0
        }) == old(dialling).context().dialling,
        final(dialling).context().job == old(dialling).context().job,
        final(dialling).context().workers == old(dialling).context().workers,
        final(dialling).released() == old(dialling).released(),
{
}

} // verus!
