//! What a scheduling attempt does about what has been decided of its job meanwhile.

use crate::admission::Admission;
use crate::lifecycle::intent::ObservedIntent;
use crate::lifecycle::settlement::JobSettlementOwner;
use crate::scheduling::context::PhaseContext;
use crate::scheduling::fanout::settlement::Obligation;
use crate::scheduling::fanout::IssuedAttempts;
use crate::states::{
    stop_if_desired_non_running, NextState, StateError, StopBehavior, Transition,
};
use crate::types::{JobConfig, StopMode};
use vstd::prelude::*;

verus! {

/// Whether a wait goes on.
#[derive(Debug, PartialEq, Eq)]
pub enum PhaseWait {
    Continue,
    Leave(Transition),
}

/// Whether an irreversible phase may begin.
pub enum Admitted {
    /// It may, under this authority.
    Region(Admission),
    /// The job leaves instead.
    Leave(Transition),
}

/// What is left to do before an irreversible phase may begin.
pub enum AdmissionStep {
    /// The job leaves, or the phase may begin. Where it may, its authority was given back by the
    /// job's settlement owner, together with the attempts that authority stands behind: whoever
    /// holds the one is answerable for the other.
    Decided { admitted: Admitted, reclaimed: Option<IssuedAttempts> },
    /// The job's publication lock is to be waited for.
    AwaitLock,
}

/// The obligation a job's settlement owner holds, if the job has one that holds any.
pub open spec fn held_by(owner: Option<&mut JobSettlementOwner>) -> Option<Obligation> {
    match owner {
        Some(asked) => (*asked)@,
        None => None,
    }
}

/// What a decision means to an attempt that is being fenced.
#[derive(Debug, PartialEq, Eq)]
pub enum FencedIntent {
    Unchanged,
    Superseded,
    Leave(Transition),
}

/// Where a configuration sends a job that is being scheduled, if it asks it to stop.
pub fn stop_transition(config: &JobConfig) -> (r: Option<Transition>)
    ensures
        r == crate::states::stop_of_not_running(config.stop_mode),
{
    stop_if_desired_non_running(config)
}

/// What a read of the job's writer means to an attempt: a refusal fails it, a stop that now
/// stands makes it leave, and anything else lets it go on.
pub open spec fn observes(
    config: JobConfig,
    observed: Result<ObservedIntent, StateError>,
) -> Result<PhaseWait, StateError> {
    match observed {
        Err(refusal) => Err(refusal),
        Ok(_) => match crate::states::stop_of_not_running(config.stop_mode) {
            Some(stop) => Ok(PhaseWait::Leave(stop)),
            None => Ok(PhaseWait::Continue),
        },
    }
}

impl PhaseContext {
    pub fn stop_if_desired(&self) -> (r: Option<Transition>)
        ensures
            r == crate::states::stop_of_not_running(self.job.config.stop_mode),
    {
        stop_transition(&self.job.config)
    }

    fn observe(&self, observed: Result<ObservedIntent, StateError>) -> (r: Result<
        PhaseWait,
        StateError,
    >)
        ensures
            r == observes(self.job.config, observed),
    {
        match observed {
            Err(refusal) => Err(refusal),
            Ok(_) => match self.stop_if_desired() {
                Some(stop) => Ok(PhaseWait::Leave(stop)),
                None => Ok(PhaseWait::Continue),
            },
        }
    }

    /// What a read of the job's writer means on a turn of a wait.
    pub fn observe_intent_in_wait(&self, observed: Result<ObservedIntent, StateError>) -> (r:
        Result<PhaseWait, StateError>)
        ensures
            r == observes(self.job.config, observed),
    {
        self.observe(observed)
    }

    /// What a read of the job's writer means before an irreversible phase.
    pub fn observe_before_phase(&self, observed: Result<ObservedIntent, StateError>) -> (r: Result<
        PhaseWait,
        StateError,
    >)
        ensures
            r == observes(self.job.config, observed),
    {
        self.observe(observed)
    }

    /// Whether an irreversible phase may begin. A stop is answered before any authority is taken.
    /// Where the job's settlement owner holds what an earlier attempt transferred, that comes back
    /// whole, because its authority is the one that would be waited for; an attempt that leaves asks
    /// for nothing back.
    pub fn take_admission(
        &self,
        observed: Result<ObservedIntent, StateError>,
        owner: Option<&mut JobSettlementOwner>,
    ) -> (r: Result<AdmissionStep, StateError>)
        ensures
            match observes(self.job.config, observed) {
                Err(refusal) => {
                    &&& r == Err::<AdmissionStep, _>(refusal)
                    &&& owner matches Some(asked) ==> *final(asked) == *asked
                },
                Ok(PhaseWait::Leave(stop)) => {
                    &&& r == Ok::<_, StateError>(
                        AdmissionStep::Decided {
                            admitted: Admitted::Leave(stop),
                            reclaimed: None,
                        },
                    )
                    &&& owner matches Some(asked) ==> *final(asked) == *asked
                },
                Ok(PhaseWait::Continue) => {
                    &&& owner matches Some(asked) ==> final(asked)@ is None && final(asked).job()
                        == (*asked).job()
                    &&& match held_by(owner) {
                        Some(held) => r matches Ok(
                            AdmissionStep::Decided {
                                admitted: Admitted::Region(admission),
                                reclaimed: Some(issued),
                            },
                        ) && admission@ == held.job && admission.holds() == held.guard && issued@
                            == held.inventory,
                        None => r == Ok::<_, StateError>(AdmissionStep::AwaitLock),
                    }
                },
            },
    {
        match self.observe_before_phase(observed) {
            Err(refusal) => Err(refusal),
            Ok(PhaseWait::Leave(stop)) => Ok(
                AdmissionStep::Decided { admitted: Admitted::Leave(stop), reclaimed: None },
            ),
            Ok(PhaseWait::Continue) => match owner {
                None => Ok(AdmissionStep::AwaitLock),
                Some(owner) => match owner.give_back() {
                    Some((admission, issued)) => Ok(
                        AdmissionStep::Decided {
                            admitted: Admitted::Region(admission),
                            reclaimed: Some(issued),
                        },
                    ),
                    None => Ok(AdmissionStep::AwaitLock),
                },
            },
        }
    }

    /// What a read of the job's writer means while the attempt is being fenced. A stop is answered
    /// whether or not anything was decided; any decision supersedes the one the attempt stands on.
    pub fn observe_intent_in_fencing(
        &self,
        decided: Result<Option<ObservedIntent>, StateError>,
    ) -> (r: Result<FencedIntent, StateError>)
        ensures
            match decided {
                Err(refusal) => r == Err::<FencedIntent, _>(refusal),
                Ok(decided) => match crate::states::stop_of_not_running(self.job.config.stop_mode) {
                    Some(stop) => r == Ok::<_, StateError>(FencedIntent::Leave(stop)),
                    None => r == Ok::<_, StateError>(
                        if decided is Some {
                            FencedIntent::Superseded
                        } else {
                            FencedIntent::Unchanged
                        },
                    ),
                },
            },
    {
        match decided {
            Err(refusal) => Err(refusal),
            Ok(decided) => {
                if let Some(stop) = self.stop_if_desired() {
                    return Ok(FencedIntent::Leave(stop));
                }
                match decided {
                    Some(_) => Ok(FencedIntent::Superseded),
                    None => Ok(FencedIntent::Unchanged),
                }
            },
        }
    }
}

/// A stop is never overlooked at a point where the job's writer is read: unless the read is a
/// refusal, an attempt whose configuration asks for a stop leaves.
pub proof fn a_standing_stop_is_always_answered(
    config: JobConfig,
    observed: Result<ObservedIntent, StateError>,
)
    requires
        config.stop_mode != crate::types::StopMode::none,
        observed is Ok,
    ensures
        observes(config, observed) matches Ok(PhaseWait::Leave(_)),
{
}

/// Wherever the job's writer is read, a refusal fails the attempt as it is; otherwise the attempt
/// leaves exactly where its configuration asks for a stop, at once unless the stop is forced, and
/// then through the workers. All three reads answer a stop alike.
pub proof fn a_stop_is_answered_wherever_the_writer_is_read(
    context: &PhaseContext,
    observed: Result<ObservedIntent, StateError>,
    in_wait: Result<PhaseWait, StateError>,
    before_phase: Result<PhaseWait, StateError>,
    decided: Result<Option<ObservedIntent>, StateError>,
    fencing: Result<FencedIntent, StateError>,
)
    requires
        call_ensures(PhaseContext::observe_intent_in_wait, (context, observed), in_wait),
        call_ensures(PhaseContext::observe_before_phase, (context, observed), before_phase),
        call_ensures(PhaseContext::observe_intent_in_fencing, (context, decided), fencing),
    ensures
        in_wait == before_phase,
        in_wait is Err <==> observed is Err,
        observed is Err ==> in_wait->Err_0 == observed->Err_0,
        in_wait is Ok && in_wait->Ok_0 is Leave <==> observed is Ok && context.job.config.stop_mode
            != StopMode::none,
        in_wait is Ok && in_wait->Ok_0 is Leave ==> in_wait->Ok_0->Leave_0 == Transition::Advance(
            NextState::Stopping {
                stop_mode: if context.job.config.stop_mode == StopMode::force {
                    StopBehavior::StopWorkers
                } else {
                    StopBehavior::StopJobImmediate
                },
            },
        ),
        fencing is Err <==> decided is Err,
        decided is Err ==> fencing->Err_0 == decided->Err_0,
        decided is Ok && observed is Ok ==> (fencing->Ok_0 is Leave <==> in_wait->Ok_0 is Leave),
        decided is Ok && observed is Ok && fencing->Ok_0 is Leave ==> fencing->Ok_0->Leave_0
            == in_wait->Ok_0->Leave_0,
        fencing is Ok && fencing->Ok_0 is Superseded <==> decided is Ok && decided->Ok_0 is Some
            && context.job.config.stop_mode == StopMode::none,
{
}

/// No phase begins against a refusal or a stop: authority is taken, or waited for, exactly where
/// neither stands. What the job's owner held comes back whole in that case, and in no other is the
/// owner touched.
pub proof fn no_authority_is_taken_against_a_stop(
    context: &PhaseContext,
    observed: Result<ObservedIntent, StateError>,
    owner: &mut JobSettlementOwner,
    r: Result<AdmissionStep, StateError>,
)
    requires
        call_ensures(PhaseContext::take_admission, (context, observed, Some(owner)), r),
    ensures
        r is Err <==> observed is Err,
        r matches Err(e) ==> e == observed->Err_0,
        r is Ok && (r->Ok_0 is AwaitLock || r->Ok_0->admitted is Region) <==> observed is Ok
            && context.job.config.stop_mode == StopMode::none,
        r is Ok && r->Ok_0 is AwaitLock <==> observed is Ok && context.job.config.stop_mode
            == StopMode::none && old(owner)@ is None,
        observed is Err || context.job.config.stop_mode != StopMode::none ==> *final(owner) == *old(owner),
        r matches Ok(AdmissionStep::Decided { admitted: Admitted::Region(admission), reclaimed })
            ==> reclaimed is Some && reclaimed->0@ == old(owner)@->0.inventory && admission@
            == old(owner)@->0.job && admission.holds() == old(owner)@->0.guard && final(owner)@
            is None,
        r matches Ok(AdmissionStep::Decided { admitted: Admitted::Leave(stop), reclaimed })
            ==> reclaimed is None && stop == Transition::Advance(
            NextState::Stopping {
                stop_mode: if context.job.config.stop_mode == StopMode::force {
                    StopBehavior::StopWorkers
                } else {
                    StopBehavior::StopJobImmediate
                },
            },
        ),
{
}

} // verus!
