//! What an obligation that an earlier attempt left in the job's row does to this one.

use crate::scheduling::context::PhaseContext;
use crate::states::{retryable, StateError, StateName};
use crate::text;
use vstd::prelude::*;
use vstd::string::*;

verus! {

/// What discharging a recorded obligation came to.
#[derive(Debug, PartialEq, Eq)]
pub enum Discharge {
    /// The job's mechanism records none.
    Inactive,
    NothingRecorded,
    /// Every target has answered or is gone.
    Settled,
    /// Another controller holds the job, as its authority prints.
    Superseded(String),
    /// Targets or identifiers are still owed an answer.
    StillPending { pending: usize, outstanding_attempts: usize },
    /// The record could not be acted on.
    Unusable(String),
}

/// What is reported of an obligation that is still owed.
pub open spec fn still_owed(pending: nat, outstanding_attempts: nat) -> Seq<char> {
    text::decimal_digits(pending) + " target worker generation(s) and "@ + text::decimal_digits(
        outstanding_attempts,
    )
        + " issued StartExecution identifier(s) of an earlier scheduling attempt have neither acknowledged a superseding lifecycle fence nor been observed terminated; this job stays in token-free fencing and admits no replacement generation until one of those is observed"@
}

/// What discharging a recorded obligation does to an attempt.
pub open spec fn discharged(
    before: PhaseContext,
    after: PhaseContext,
    discharge: Discharge,
    r: Result<(), StateError>,
) -> bool {
    match discharge {
        Discharge::Inactive | Discharge::NothingRecorded | Discharge::Settled => r is Ok
            && after == before,
        Discharge::Superseded(stale) => {
            &&& r matches Err(e) && crate::scheduling::context::stands_down(e, stale@)
            &&& after.superseded matches Some(holder) && holder@ == stale@
            &&& after == (PhaseContext {
                superseded: after.superseded,
                ..before
            })
        },
        Discharge::StillPending { pending, outstanding_attempts } => {
            &&& after == before
            &&& r matches Err(e) && e.retryable_with(
                StateName::Scheduling,
                "this job still owes a worker generation an acknowledged fence"@,
                still_owed(pending as nat, outstanding_attempts as nat),
                10,
            )
        },
        Discharge::Unusable(failure) => {
            &&& after == before
            &&& r matches Err(e) && e.retryable_with(
                StateName::Scheduling,
                "this job's recovered fencing obligation could not be discharged"@,
                failure@,
                10,
            )
        },
    }
}

impl PhaseContext {
    /// Whether the attempt may go on to a replacement generation. It may only where nothing of an
    /// earlier attempt is owed; an unsettled obligation is retried, never failed.
    pub fn discharge_recovered_fencing(&mut self, discharge: Discharge) -> (r: Result<
        (),
        StateError,
    >)
        ensures
            discharged(*old(self), *final(self), discharge, r),
    {
        match discharge {
            Discharge::Inactive | Discharge::NothingRecorded | Discharge::Settled => Ok(()),
            Discharge::Superseded(stale) => Err(self.stand_down_from(stale)),
            Discharge::StillPending { pending, outstanding_attempts } => {
                let mut source = text::decimal(pending as u64);
                source.append(" target worker generation(s) and ");
                let outstanding = text::decimal(outstanding_attempts as u64);
                source.append(outstanding.as_str());
                source.append(
                    " issued StartExecution identifier(s) of an earlier scheduling attempt have neither acknowledged a superseding lifecycle fence nor been observed terminated; this job stays in token-free fencing and admits no replacement generation until one of those is observed",
                );
                Err(
                    retryable(
                        StateName::Scheduling,
                        "this job still owes a worker generation an acknowledged fence",
                        source,
                        10,
                    ),
                )
            },
            Discharge::Unusable(failure) => Err(
                retryable(
                    StateName::Scheduling,
                    "this job's recovered fencing obligation could not be discharged",
                    failure,
                    10,
                ),
            ),
        }
    }
}

/// A replacement generation is admitted exactly where nothing of an earlier attempt is owed. What is
/// still owed is waited out and never fails the job, and neither does a record that cannot be acted
/// on; only a job that another controller holds is given up, and then that controller is noted.
pub proof fn nothing_is_replaced_while_something_is_owed(
    context: &mut PhaseContext,
    discharge: Discharge,
    r: Result<(), StateError>,
)
    requires
        call_ensures(PhaseContext::discharge_recovered_fencing, (context, discharge), r),
    ensures
        r is Ok <==> discharge is Inactive || discharge is NothingRecorded || discharge is Settled,
        r matches Err(e) ==> (e is FatalError <==> discharge is Superseded),
        discharge matches Discharge::Superseded(holder) ==> r->Err_0->FatalError_source@ == holder@
            && final(context).superseded is Some && final(context).superseded->0@ == holder@,
        discharge matches Discharge::Unusable(told) ==> r->Err_0->RetryableError_source@ == told@
            && r->Err_0->retries == 10 && r->Err_0->state == StateName::Scheduling,
        discharge is StillPending ==> r->Err_0->retries == 10 && r->Err_0->state
            == StateName::Scheduling,
        !(discharge is Superseded) ==> final(context).superseded == old(context).superseded,
        final(context).job == old(context).job,
        final(context).workers@ == old(context).workers@,
        final(context).checkpoint_info == old(context).checkpoint_info,
        final(context).unrooted_candidate == old(context).unrooted_candidate,
{
}

} // verus!
