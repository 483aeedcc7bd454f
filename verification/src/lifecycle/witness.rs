//! What has been observed of a worker generation, as values.

use crate::types::WorkerId;
use vstd::prelude::*;

verus! {

/// A worker generation's own report of the lifecycle fence it has taken.
#[derive(Clone, Copy, Debug, PartialEq, Eq, Structural)]
pub struct FenceAcknowledgement {
    worker: WorkerId,
    generation: u64,
    observed_fence: u64,
}

impl FenceAcknowledgement {
    pub closed spec fn of_worker(self) -> WorkerId {
        self.worker
    }

    pub closed spec fn of_generation(self) -> u64 {
        self.generation
    }

    pub closed spec fn of_fence(self) -> u64 {
        self.observed_fence
    }

    /// The acknowledgement `worker` of `generation` reported.
    pub fn reported(worker: WorkerId, generation: u64, observed_fence: u64) -> (r: Self)
        ensures
            r.of_worker() == worker,
            r.of_generation() == generation,
            r.of_fence() == observed_fence,
    {
        FenceAcknowledgement { worker, generation, observed_fence }
    }

    pub fn worker(&self) -> (r: WorkerId)
        ensures
            r == self.of_worker(),
    {
        self.worker
    }

    pub fn generation(&self) -> (r: u64)
        ensures
            r == self.of_generation(),
    {
        self.generation
    }

    pub fn observed_fence(&self) -> (r: u64)
        ensures
            r == self.of_fence(),
    {
        self.observed_fence
    }
}

/// An authoritative observation that one worker of one generation is gone.
#[derive(Clone, Copy, Debug, PartialEq, Eq, Structural)]
pub struct ObservedTermination {
    worker: WorkerId,
    generation: u64,
}

impl ObservedTermination {
    pub closed spec fn of_worker(self) -> WorkerId {
        self.worker
    }

    pub closed spec fn of_generation(self) -> u64 {
        self.generation
    }

    /// The termination of `worker` in `generation`.
    pub fn observed(worker: WorkerId, generation: u64) -> (r: Self)
        ensures
            r.of_worker() == worker,
            r.of_generation() == generation,
    {
        ObservedTermination { worker, generation }
    }

    pub fn worker(&self) -> (r: WorkerId)
        ensures
            r == self.of_worker(),
    {
        self.worker
    }

    pub fn generation(&self) -> (r: u64)
        ensures
            r == self.of_generation(),
    {
        self.generation
    }
}

/// An observation says what it was made of.
pub proof fn an_observation_says_what_it_was_made_of(
    worker: WorkerId,
    generation: u64,
    fence: u64,
    acknowledgement: FenceAcknowledgement,
    termination: ObservedTermination,
    of_acknowledgement: (WorkerId, u64, u64),
    of_termination: (WorkerId, u64),
)
    requires
        call_ensures(FenceAcknowledgement::reported, (worker, generation, fence), acknowledgement),
        call_ensures(FenceAcknowledgement::worker, (&acknowledgement,), of_acknowledgement.0),
        call_ensures(FenceAcknowledgement::generation, (&acknowledgement,), of_acknowledgement.1),
        call_ensures(
            FenceAcknowledgement::observed_fence,
            (&acknowledgement,),
            of_acknowledgement.2,
        ),
        call_ensures(ObservedTermination::observed, (worker, generation), termination),
        call_ensures(ObservedTermination::worker, (&termination,), of_termination.0),
        call_ensures(ObservedTermination::generation, (&termination,), of_termination.1),
    ensures
        of_acknowledgement == (worker, generation, fence),
        of_termination == (worker, generation),
{
}

} // verus!
