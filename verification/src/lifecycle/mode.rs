//! Which of the two lifecycle mechanisms a job runs.

use crate::lifecycle::intent::{LifecycleActor, Writer};
use crate::lifecycle::settlement::JobSettlementOwner;
use crate::types::StateBackendSelector;
use vstd::prelude::*;

verus! {

/// How a job's lifecycle is decided.
#[derive(Clone, Copy, Debug, PartialEq, Eq, Structural)]
pub enum LifecycleMode {
    /// The configuration poll decides, through the job's channel. What a peer that predates the
    /// fenced mechanism runs.
    LegacyT08,
    /// One writer decides, under a durable fence, and a settlement owner answers for interrupted
    /// fan-outs.
    FencedV2,
}

impl LifecycleMode {
    /// Every mode.
    pub const ALL: [LifecycleMode; 2] = [LifecycleMode::LegacyT08, LifecycleMode::FencedV2];

    /// The mode a controller runs.
    pub const SELECTED: LifecycleMode = LifecycleMode::FencedV2;

    /// Whether a durable fencing obligation is recovered under this mode.
    pub fn recovers_a_durable_fencing_obligation(self) -> (r: bool)
        ensures
            r == (self == LifecycleMode::FencedV2),
    {
        match self {
            LifecycleMode::LegacyT08 => false,
            LifecycleMode::FencedV2 => true,
        }
    }
}

/// Every mode is one of the modes there are.
pub proof fn every_mode_is_listed(mode: LifecycleMode)
    ensures
        LifecycleMode::ALL@.contains(mode),
{
    let all = LifecycleMode::ALL;
    match mode {
        LifecycleMode::LegacyT08 => assert(all@[0] == mode),
        LifecycleMode::FencedV2 => assert(all@[1] == mode),
    }
}

/// The mechanism one job runs, fixed when the job's state machine is made.
pub enum JobLifecycle {
    LegacyT08,
    /// The job has one writer, and an owner for what its interrupted fan-outs leave.
    FencedV2 { settlement: JobSettlementOwner },
}

impl JobLifecycle {
    pub open spec fn mode(self) -> LifecycleMode {
        match self {
            JobLifecycle::LegacyT08 => LifecycleMode::LegacyT08,
            JobLifecycle::FencedV2 { .. } => LifecycleMode::FencedV2,
        }
    }

    /// The mechanism `job_id` runs under `mode`. Its settlement owner holds nothing yet.
    pub fn for_mode(mode: LifecycleMode, job_id: String) -> (r: Self)
        ensures
            r.mode() == mode,
            r matches JobLifecycle::FencedV2 { settlement } ==> settlement@ is None
                && settlement.job() == job_id@,
    {
        match mode {
            LifecycleMode::LegacyT08 => JobLifecycle::LegacyT08,
            LifecycleMode::FencedV2 => JobLifecycle::FencedV2 {
                settlement: JobSettlementOwner::for_job(job_id),
            },
        }
    }

    /// A writer for `job_id`, whose execution runs with `running`, where the mechanism has one. It has
    /// decided nothing yet.
    pub fn actor(&self, job_id: String, running: StateBackendSelector) -> (r: Option<
        LifecycleActor,
    >)
        ensures
            r is Some <==> self.mode() == LifecycleMode::FencedV2,
            r matches Some(actor) ==> actor@ == (Writer { job: job_id@, running, decided: 0 }),
    {
        match self {
            JobLifecycle::LegacyT08 => None,
            JobLifecycle::FencedV2 { .. } => Some(LifecycleActor::new(job_id, running)),
        }
    }

    /// The job's settlement owner, where the mechanism has one.
    pub fn settlement(&mut self) -> (r: Option<&mut JobSettlementOwner>)
        ensures
            match *old(self) {
                JobLifecycle::LegacyT08 => r is None && *final(self) == *old(self),
                JobLifecycle::FencedV2 { settlement } => r matches Some(owner) && *owner
                    == settlement && *final(self) == (JobLifecycle::FencedV2 {
                    settlement: *final(owner),
                }),
            },
    {
        match self {
            JobLifecycle::LegacyT08 => None,
            JobLifecycle::FencedV2 { settlement } => Some(settlement),
        }
    }
}

/// A writer, a settlement owner and the recovery of a durable obligation come with the fenced
/// mechanism and with no other. A new owner holds nothing, and a new writer is the job's and has
/// decided nothing.
pub proof fn only_the_fenced_mechanism_has_a_writer_and_an_owner(
    mode: LifecycleMode,
    job_id: String,
    lifecycle: JobLifecycle,
    recovers: bool,
    running: StateBackendSelector,
    writer: Option<LifecycleActor>,
    asked: &mut JobLifecycle,
    owner: Option<&mut JobSettlementOwner>,
    outstanding: Option<usize>,
)
    requires
        call_ensures(JobLifecycle::for_mode, (mode, job_id), lifecycle),
        call_ensures(LifecycleMode::recovers_a_durable_fencing_obligation, (mode,), recovers),
        call_ensures(JobLifecycle::actor, (&lifecycle, job_id, running), writer),
        *old(asked) == lifecycle,
        call_ensures(JobLifecycle::settlement, (asked,), owner),
        owner is Some ==> call_ensures(
            JobSettlementOwner::outstanding,
            (&*old(owner->0),),
            outstanding,
        ),
    ensures
        recovers <==> mode == LifecycleMode::FencedV2,
        writer is Some <==> mode == LifecycleMode::FencedV2,
        owner is Some <==> mode == LifecycleMode::FencedV2,
        owner is Some ==> outstanding is None,
        writer matches Some(actor) ==> actor@.job == job_id@ && actor@.running == running
            && actor@.decided == 0,
        lifecycle is FencedV2 <==> mode == LifecycleMode::FencedV2,
{
}

} // verus!
