//! What an observation accounts for, and what it has to agree with before it does.

use crate::lifecycle::witness::{FenceAcknowledgement, ObservedTermination};
use crate::scheduling::fanout::{Accounting, AttemptRecord, Inventory, IssuedAttempts};
use crate::types::WorkerId;
use vstd::prelude::*;

verus! {

#[derive(Clone, Debug, PartialEq, Eq)]
enum Fact {
    AuthoritativeResponse { attempt_id: String },
    AcknowledgedFence { observed_fence: u64 },
    TerminatedGeneration,
}

/// One observed fact about one worker of one generation.
#[derive(Clone, Debug, PartialEq, Eq)]
pub struct Observed {
    worker: WorkerId,
    generation: u64,
    fact: Fact,
}

/// The fact of an observation, as a value of the model.
pub enum ObservedFact {
    AuthoritativeResponse { attempt_id: Seq<char> },
    AcknowledgedFence { observed_fence: u64 },
    TerminatedGeneration,
}

/// An observation as a value of the model.
pub struct Observation {
    pub worker: u64,
    pub generation: u64,
    pub fact: ObservedFact,
}

impl Observation {
    /// The fact under the name it accounts by.
    pub open spec fn accounting(self) -> Accounting {
        match self.fact {
            ObservedFact::AuthoritativeResponse { .. } => Accounting::AuthoritativeResponse,
            ObservedFact::AcknowledgedFence { .. } => Accounting::AcknowledgedFence,
            ObservedFact::TerminatedGeneration => Accounting::TerminatedGeneration,
        }
    }
}

impl View for Observed {
    type V = Observation;

    closed spec fn view(&self) -> Observation {
        Observation {
            worker: self.worker.0,
            generation: self.generation,
            fact: match self.fact {
                Fact::AuthoritativeResponse { attempt_id } => ObservedFact::AuthoritativeResponse {
                    attempt_id: attempt_id@,
                },
                Fact::AcknowledgedFence { observed_fence } => ObservedFact::AcknowledgedFence {
                    observed_fence,
                },
                Fact::TerminatedGeneration => ObservedFact::TerminatedGeneration,
            },
        }
    }
}

impl Observed {
    /// `worker` of `generation` answered the request that carried `attempt_id`.
    pub fn authoritative_response(worker: WorkerId, generation: u64, attempt_id: &str) -> (r: Self)
        ensures
            r@ == (Observation {
                worker: worker.0,
                generation,
                fact: ObservedFact::AuthoritativeResponse { attempt_id: attempt_id@ },
            }),
    {
        Observed {
            worker,
            generation,
            fact: Fact::AuthoritativeResponse { attempt_id: attempt_id.to_owned() },
        }
    }

    /// A worker's generation acknowledged a fence.
    pub fn acknowledged_fence(acknowledgement: &FenceAcknowledgement) -> (r: Self)
        ensures
            r@ == (Observation {
                worker: acknowledgement.of_worker().0,
                generation: acknowledgement.of_generation(),
                fact: ObservedFact::AcknowledgedFence { observed_fence: acknowledgement.of_fence() },
            }),
    {
        Observed {
            worker: acknowledgement.worker(),
            generation: acknowledgement.generation(),
            fact: Fact::AcknowledgedFence { observed_fence: acknowledgement.observed_fence() },
        }
    }

    /// A worker's generation was observed to be gone.
    pub fn terminated_generation(termination: &ObservedTermination) -> (r: Self)
        ensures
            r@ == (Observation {
                worker: termination.of_worker().0,
                generation: termination.of_generation(),
                fact: ObservedFact::TerminatedGeneration,
            }),
    {
        Observed {
            worker: termination.worker(),
            generation: termination.generation(),
            fact: Fact::TerminatedGeneration,
        }
    }

    pub fn worker(&self) -> (r: WorkerId)
        ensures
            r.0 == self@.worker,
    {
        self.worker
    }

    pub fn generation(&self) -> (r: u64)
        ensures
            r == self@.generation,
    {
        self.generation
    }

    /// The fact under the name it accounts by.
    pub fn accounting(&self) -> (r: Accounting)
        ensures
            r == self@.accounting(),
    {
        match &self.fact {
            Fact::AuthoritativeResponse { .. } => Accounting::AuthoritativeResponse,
            Fact::AcknowledgedFence { .. } => Accounting::AcknowledgedFence,
            Fact::TerminatedGeneration => Accounting::TerminatedGeneration,
        }
    }
}

/// Which part of an observation is not about the obligation it was offered to.
#[allow(inconsistent_fields)]
#[derive(Clone, Debug, PartialEq, Eq)]
pub enum Disagreement {
    /// It is about another generation than the one the obligation addressed.
    Generation { observed: u64, addressed: u64 },
    /// The obligation issued nothing to that worker.
    NotIssuedTo { worker: u64 },
    /// The worker answered another request than the one the obligation issued to it.
    Identifier { worker: u64, observed: String, issued: String },
    /// The acknowledged fence does not supersede the one the obligation issued under.
    Fence { worker: u64, observed: u64, issued_under: u64 },
}

/// A disagreement as a value of the model.
#[allow(inconsistent_fields)]
pub enum DisagreementView {
    Generation { observed: u64, addressed: u64 },
    NotIssuedTo { worker: u64 },
    Identifier { worker: u64, observed: Seq<char>, issued: Seq<char> },
    Fence { worker: u64, observed: u64, issued_under: u64 },
}

impl View for Disagreement {
    type V = DisagreementView;

    open spec fn view(&self) -> DisagreementView {
        match *self {
            Disagreement::Generation { observed, addressed } => DisagreementView::Generation {
                observed,
                addressed,
            },
            Disagreement::NotIssuedTo { worker } => DisagreementView::NotIssuedTo { worker },
            Disagreement::Identifier { worker, observed, issued } => DisagreementView::Identifier {
                worker,
                observed: observed@,
                issued: issued@,
            },
            Disagreement::Fence { worker, observed, issued_under } => DisagreementView::Fence {
                worker,
                observed,
                issued_under,
            },
        }
    }
}

/// What an observation did to an obligation.
#[must_use]
#[derive(Clone, Debug, PartialEq, Eq)]
pub enum Accounted {
    /// The identifier was outstanding, and this fact accounted for it.
    Settled(Accounting),
    /// The identifier was accounted for already, by this fact.
    Already(Accounting),
    /// The observation is not about this obligation, and accounts for nothing in it.
    NotThisObligation(Disagreement),
}

/// An observation's effect as a value of the model.
pub enum AccountedView {
    Settled(Accounting),
    Already(Accounting),
    NotThisObligation(DisagreementView),
}

impl View for Accounted {
    type V = AccountedView;

    open spec fn view(&self) -> AccountedView {
        match *self {
            Accounted::Settled(by) => AccountedView::Settled(by),
            Accounted::Already(by) => AccountedView::Already(by),
            Accounted::NotThisObligation(disagreement) => AccountedView::NotThisObligation(
                disagreement@,
            ),
        }
    }
}

impl Inventory {
    /// Why `seen` is not about this inventory, if it is not: the generation is compared first,
    /// then the worker, then whatever the fact itself names.
    pub open spec fn disagreement(self, seen: Observation) -> Option<DisagreementView> {
        if seen.generation != self.generation {
            Some(
                DisagreementView::Generation {
                    observed: seen.generation,
                    addressed: self.generation,
                },
            )
        } else if !self.attempts.contains_key(seen.worker) {
            Some(DisagreementView::NotIssuedTo { worker: seen.worker })
        } else {
            match seen.fact {
                ObservedFact::AuthoritativeResponse { attempt_id } => {
                    if attempt_id != self.attempts[seen.worker].id {
                        Some(
                            DisagreementView::Identifier {
                                worker: seen.worker,
                                observed: attempt_id,
                                issued: self.attempts[seen.worker].id,
                            },
                        )
                    } else {
                        None
                    }
                },
                ObservedFact::AcknowledgedFence { observed_fence } => {
                    if observed_fence <= self.fence {
                        Some(
                            DisagreementView::Fence {
                                worker: seen.worker,
                                observed: observed_fence,
                                issued_under: self.fence,
                            },
                        )
                    } else {
                        None
                    }
                },
                ObservedFact::TerminatedGeneration => None,
            }
        }
    }

    /// What `seen` does to this inventory.
    pub open spec fn accounted(self, seen: Observation) -> AccountedView {
        match self.disagreement(seen) {
            Some(disagreement) => AccountedView::NotThisObligation(disagreement),
            None => match self.attempts[seen.worker].accounted {
                Some(by) => AccountedView::Already(by),
                None => AccountedView::Settled(seen.accounting()),
            },
        }
    }

    /// The inventory once `seen` has been observed.
    pub open spec fn after(self, seen: Observation) -> Inventory {
        if self.accounted(seen) is Settled {
            self.with_accounted(seen.worker, seen.accounting())
        } else {
            self
        }
    }

    /// The inventory once every observation of `seen` has been observed, in order.
    pub open spec fn after_all(self, seen: Seq<Observation>) -> Inventory
        decreases seen.len(),
    {
        if seen.len() == 0 {
            self
        } else {
            self.after_all(seen.drop_last()).after(seen.last())
        }
    }
}

impl IssuedAttempts {
    /// Offers one observation to this inventory.
    pub fn observe(&mut self, observed: &Observed) -> (r: Accounted)
        ensures
            r@ == old(self)@.accounted(observed@),
            final(self)@ == old(self)@.after(observed@),
    {
        let addressed: u64 = self.generation();
        if observed.generation != addressed {
            return Accounted::NotThisObligation(
                Disagreement::Generation { observed: observed.generation, addressed },
            );
        }
        let (issued_id, already) = match self.record(observed.worker) {
            Some(record) => (record.attempt_id.clone(), record.accounted),
            None => {
                return Accounted::NotThisObligation(
                    Disagreement::NotIssuedTo { worker: observed.worker.0 },
                );
            },
        };
        if let Fact::AuthoritativeResponse { attempt_id } = &observed.fact {
            if *attempt_id != issued_id {
                return Accounted::NotThisObligation(
                    Disagreement::Identifier {
                        worker: observed.worker.0,
                        observed: attempt_id.clone(),
                        issued: issued_id,
                    },
                );
            }
        }
        if let Fact::AcknowledgedFence { observed_fence } = &observed.fact {
            if *observed_fence <= self.fence() {
                return Accounted::NotThisObligation(
                    Disagreement::Fence {
                        worker: observed.worker.0,
                        observed: *observed_fence,
                        issued_under: self.fence(),
                    },
                );
            }
        }
        if let Some(by) = already {
            return Accounted::Already(by);
        }
        let accounting = observed.accounting();
        self.account(observed.worker, accounting);
        Accounted::Settled(accounting)
    }
}

/// Observing the same fact a second time changes nothing, and reports the fact that stands.
pub proof fn observing_twice_is_observing_once(inventory: Inventory, seen: Observation)
    ensures
        inventory.after(seen).after(seen) == inventory.after(seen),
        inventory.accounted(seen) is NotThisObligation ==> inventory.after(seen).accounted(seen)
            == inventory.accounted(seen),
        inventory.accounted(seen) matches AccountedView::Settled(by)
            ==> inventory.after(seen).accounted(seen) == AccountedView::Already(by),
        inventory.accounted(seen) matches AccountedView::Already(by)
            ==> inventory.after(seen).accounted(seen) == AccountedView::Already(by),
{
}

/// The first fact to account for an identifier stands, whatever is observed afterwards.
pub proof fn the_first_fact_stands(inventory: Inventory, seen: Seq<Observation>, worker: u64)
    requires
        inventory.attempts.contains_key(worker),
        inventory.attempts[worker].accounted is Some,
    ensures
        inventory.after_all(seen).attempts.contains_key(worker),
        inventory.after_all(seen).attempts[worker] == inventory.attempts[worker],
    decreases seen.len(),
{
    if seen.len() > 0 {
        the_first_fact_stands(inventory, seen.drop_last(), worker);
    }
}

/// Observations never change what was issued, to whom, for which generation or under which
/// fence.
pub proof fn observing_changes_only_what_is_accounted(inventory: Inventory, seen: Seq<Observation>)
    ensures
        inventory.after_all(seen).generation == inventory.generation,
        inventory.after_all(seen).fence == inventory.fence,
        inventory.after_all(seen).attempts.dom() == inventory.attempts.dom(),
        forall|w: u64| #[trigger]
            inventory.attempts.contains_key(w) ==> inventory.after_all(seen).attempts[w].id
                == inventory.attempts[w].id,
    decreases seen.len(),
{
    if seen.len() > 0 {
        observing_changes_only_what_is_accounted(inventory, seen.drop_last());
        assert(inventory.after_all(seen).attempts.dom() =~= inventory.attempts.dom());
    }
}

/// One observation accounts for at most one identifier, the observed worker's own, and none
/// becomes outstanding again.
pub proof fn an_observation_accounts_for_its_own_worker_alone(
    inventory: Inventory,
    seen: Observation,
)
    ensures
        inventory.after(seen).outstanding() == (if inventory.accounted(seen) is Settled {
            inventory.outstanding().remove(seen.worker)
        } else {
            inventory.outstanding()
        }),
{
    assert(inventory.after(seen).outstanding() =~= (if inventory.accounted(seen) is Settled {
        inventory.outstanding().remove(seen.worker)
    } else {
        inventory.outstanding()
    }));
}

/// An observation of another generation, of a worker that was issued nothing, of another
/// request, or of a fence that does not supersede the issuing one, accounts for nothing.
pub proof fn a_disagreeing_observation_accounts_for_nothing(
    inventory: Inventory,
    seen: Observation,
)
    requires
        ({
            ||| seen.generation != inventory.generation
            ||| !inventory.attempts.contains_key(seen.worker)
            ||| (seen.fact matches ObservedFact::AuthoritativeResponse { attempt_id }
                && attempt_id != inventory.attempts[seen.worker].id)
            ||| (seen.fact matches ObservedFact::AcknowledgedFence { observed_fence }
                && observed_fence <= inventory.fence)
        }),
    ensures
        inventory.accounted(seen) is NotThisObligation,
        inventory.after(seen) == inventory,
{
}

/// Which of two observations of different workers comes first makes no difference.
pub proof fn observations_of_different_workers_commute(
    inventory: Inventory,
    first: Observation,
    second: Observation,
)
    requires
        first.worker != second.worker,
    ensures
        inventory.after(first).after(second) == inventory.after(second).after(first),
{
    assert(inventory.after(first).after(second).attempts =~= inventory.after(second).after(
        first,
    ).attempts);
}

/// An obligation that starts with nothing accounted for is settled exactly when, for every
/// worker it issued an identifier to, some observation was about that identifier.
pub proof fn settled_exactly_when_every_identifier_was_observed(
    inventory: Inventory,
    seen: Seq<Observation>,
)
    requires
        forall|w: u64|
            inventory.attempts.contains_key(w) ==> (
            #[trigger] inventory.attempts[w]).accounted is None,
    ensures
        inventory.after_all(seen).settled() <==> (forall|w: u64|
            inventory.attempts.contains_key(w) ==> #[trigger] was_observed(inventory, seen, w)),
{
    observing_changes_only_what_is_accounted(inventory, seen);
    let after = inventory.after_all(seen);
    assert forall|w: u64| inventory.attempts.contains_key(w) implies (
    #[trigger] after.attempts[w].accounted is Some <==> was_observed(inventory, seen, w)) by {
        accounted_exactly_when_observed(inventory, seen, w);
    }
    if after.settled() {
        assert forall|w: u64| inventory.attempts.contains_key(w) implies #[trigger] was_observed(
            inventory,
            seen,
            w,
        ) by {
            assert(after.attempts.dom().contains(w));
            assert(after.attempts[w].accounted is Some);
        }
    }
    if forall|w: u64|
        inventory.attempts.contains_key(w) ==> #[trigger] was_observed(inventory, seen, w) {
        assert forall|w: u64| after.attempts.contains_key(w) implies (
        #[trigger] after.attempts[w]).accounted is Some by {
            assert(inventory.attempts.dom().contains(w));
            assert(was_observed(inventory, seen, w));
        }
    }
}

/// Whether some observation of `seen` is about the identifier `worker` was issued.
pub open spec fn was_observed(inventory: Inventory, seen: Seq<Observation>, worker: u64) -> bool {
    exists|i: int|
        0 <= i < seen.len() && (#[trigger] seen[i]).worker == worker && inventory.disagreement(
            seen[i],
        ) is None
}

proof fn accounted_exactly_when_observed(
    inventory: Inventory,
    seen: Seq<Observation>,
    worker: u64,
)
    requires
        inventory.attempts.contains_key(worker),
        inventory.attempts[worker].accounted is None,
    ensures
        inventory.after_all(seen).attempts[worker].accounted is Some <==> was_observed(
            inventory,
            seen,
            worker,
        ),
    decreases seen.len(),
{
    if seen.len() > 0 {
        let earlier = seen.drop_last();
        let last = seen.last();
        accounted_exactly_when_observed(inventory, earlier, worker);
        observing_changes_only_what_is_accounted(inventory, earlier);
        let before = inventory.after_all(earlier);
        assert(inventory.after_all(seen) == before.after(last));
        assert(before.attempts.dom().contains(worker));
        if last.worker == worker {
            assert(before.disagreement(last) is None <==> inventory.disagreement(last) is None);
        }
        if was_observed(inventory, seen, worker) {
            let i = choose|i: int|
                0 <= i < seen.len() && (#[trigger] seen[i]).worker == worker
                    && inventory.disagreement(seen[i]) is None;
            if i < earlier.len() {
                assert(earlier[i] == seen[i]);
            } else {
                assert(seen[i] == last);
            }
        }
        if was_observed(inventory, earlier, worker) {
            let i = choose|i: int|
                0 <= i < earlier.len() && (#[trigger] earlier[i]).worker == worker
                    && inventory.disagreement(earlier[i]) is None;
            assert(seen[i] == earlier[i]);
        }
        if last.worker == worker && inventory.disagreement(last) is None {
            assert(seen[seen.len() - 1] == last);
        }
    }
}

/// An answer accounts for an identifier exactly where it is the answer to it: from the generation
/// that was addressed, from a worker that was issued something, to the request it was issued, and
/// while nothing accounts for it yet. Where something does, that stands; otherwise the first of the
/// three that does not agree is named. No other worker's attempt changes, and no identifier does.
pub proof fn an_answer_accounts_for_the_request_it_answers(
    attempts: &mut IssuedAttempts,
    worker: WorkerId,
    generation: u64,
    attempt_id: &str,
    seen: Observed,
    r: Accounted,
    issued: Option<&AttemptRecord>,
    asked: WorkerId,
    before: Option<&AttemptRecord>,
    after: Option<&AttemptRecord>,
    addressed: u64,
)
    requires
        call_ensures(Observed::authoritative_response, (worker, generation, attempt_id), seen),
        call_ensures(IssuedAttempts::observe, (attempts, &seen), r),
        call_ensures(IssuedAttempts::generation, (&*old(attempts),), addressed),
        call_ensures(IssuedAttempts::record, (&*old(attempts), worker), issued),
        call_ensures(IssuedAttempts::record, (&*old(attempts), asked), before),
        call_ensures(IssuedAttempts::record, (&*final(attempts), asked), after),
    ensures
        r is Settled <==> generation == addressed && issued is Some && issued->0.attempt_id@
            == attempt_id@ && issued->0.accounted is None,
        r matches Accounted::Settled(by) ==> by == Accounting::AuthoritativeResponse,
        r is Already <==> generation == addressed && issued is Some && issued->0.attempt_id@
            == attempt_id@ && issued->0.accounted is Some,
        r matches Accounted::Already(by) ==> Some(by) == issued->0.accounted,
        r matches Accounted::NotThisObligation(Disagreement::Generation { observed, addressed: own })
            ==> generation != addressed && observed == generation && own == addressed,
        r matches Accounted::NotThisObligation(Disagreement::NotIssuedTo { worker: named })
            ==> generation == addressed && issued is None && named == worker.0,
        r matches Accounted::NotThisObligation(
            Disagreement::Identifier { worker: named, observed, issued: own },
        ) ==> issued is Some && named == worker.0 && observed@ == attempt_id@ && own@
            == issued->0.attempt_id@ && observed@ != own@,
        !(r is NotThisObligation && r->NotThisObligation_0 is Fence),
        after is Some <==> before is Some,
        before is Some ==> after->0.attempt_id@ == before->0.attempt_id@ && after->0.accounted == (
        if r is Settled && asked == worker {
            Some(Accounting::AuthoritativeResponse)
        } else {
            before->0.accounted
        }),
        final(attempts)@.generation == old(attempts)@.generation,
        final(attempts)@.fence == old(attempts)@.fence,
{
}

/// An acknowledged fence accounts for a worker's identifier exactly where it is of the generation
/// that was addressed, supersedes the fence the identifier was issued under, and nothing accounts
/// for it yet. A fence no newer than that one revokes nothing.
pub proof fn only_a_newer_fence_accounts_for_an_attempt(
    attempts: &mut IssuedAttempts,
    acknowledgement: &FenceAcknowledgement,
    worker: WorkerId,
    generation: u64,
    fence: u64,
    seen: Observed,
    r: Accounted,
    issued: Option<&AttemptRecord>,
    asked: WorkerId,
    before: Option<&AttemptRecord>,
    after: Option<&AttemptRecord>,
    addressed: u64,
    issued_under: u64,
)
    requires
        call_ensures(FenceAcknowledgement::worker, (acknowledgement,), worker),
        call_ensures(FenceAcknowledgement::generation, (acknowledgement,), generation),
        call_ensures(FenceAcknowledgement::observed_fence, (acknowledgement,), fence),
        call_ensures(Observed::acknowledged_fence, (acknowledgement,), seen),
        call_ensures(IssuedAttempts::observe, (attempts, &seen), r),
        call_ensures(IssuedAttempts::generation, (&*old(attempts),), addressed),
        call_ensures(IssuedAttempts::fence, (&*old(attempts),), issued_under),
        call_ensures(IssuedAttempts::record, (&*old(attempts), worker), issued),
        call_ensures(IssuedAttempts::record, (&*old(attempts), asked), before),
        call_ensures(IssuedAttempts::record, (&*final(attempts), asked), after),
    ensures
        r is Settled <==> generation == addressed && issued is Some && fence > issued_under
            && issued->0.accounted is None,
        r matches Accounted::Settled(by) ==> by == Accounting::AcknowledgedFence,
        r is Already <==> generation == addressed && issued is Some && fence > issued_under
            && issued->0.accounted is Some,
        r matches Accounted::Already(by) ==> Some(by) == issued->0.accounted,
        r matches Accounted::NotThisObligation(
            Disagreement::Fence { worker: named, observed, issued_under: own },
        ) ==> named == worker.0 && observed == fence && own == issued_under && fence
            <= issued_under,
        r matches Accounted::NotThisObligation(Disagreement::Generation { observed, addressed: own })
            ==> generation != addressed && observed == generation && own == addressed,
        r matches Accounted::NotThisObligation(Disagreement::NotIssuedTo { worker: named })
            ==> issued is None && named == worker.0,
        !(r is NotThisObligation && r->NotThisObligation_0 is Identifier),
        after is Some <==> before is Some,
        before is Some ==> after->0.attempt_id@ == before->0.attempt_id@ && after->0.accounted == (
        if r is Settled && asked == worker {
            Some(Accounting::AcknowledgedFence)
        } else {
            before->0.accounted
        }),
{
}

/// A generation that is gone accounts for a worker's identifier exactly where it is the generation
/// that was addressed and nothing accounts for the identifier yet, whatever fence it was issued
/// under.
pub proof fn a_generation_that_is_gone_accounts_for_an_attempt(
    attempts: &mut IssuedAttempts,
    termination: &ObservedTermination,
    worker: WorkerId,
    generation: u64,
    seen: Observed,
    r: Accounted,
    issued: Option<&AttemptRecord>,
    asked: WorkerId,
    before: Option<&AttemptRecord>,
    after: Option<&AttemptRecord>,
    addressed: u64,
)
    requires
        call_ensures(ObservedTermination::worker, (termination,), worker),
        call_ensures(ObservedTermination::generation, (termination,), generation),
        call_ensures(Observed::terminated_generation, (termination,), seen),
        call_ensures(IssuedAttempts::observe, (attempts, &seen), r),
        call_ensures(IssuedAttempts::generation, (&*old(attempts),), addressed),
        call_ensures(IssuedAttempts::record, (&*old(attempts), worker), issued),
        call_ensures(IssuedAttempts::record, (&*old(attempts), asked), before),
        call_ensures(IssuedAttempts::record, (&*final(attempts), asked), after),
    ensures
        r is Settled <==> generation == addressed && issued is Some && issued->0.accounted is None,
        r matches Accounted::Settled(by) ==> by == Accounting::TerminatedGeneration,
        r is Already <==> generation == addressed && issued is Some && issued->0.accounted is Some,
        r matches Accounted::Already(by) ==> Some(by) == issued->0.accounted,
        r is NotThisObligation ==> r->NotThisObligation_0 is Generation
            || r->NotThisObligation_0 is NotIssuedTo,
        after is Some <==> before is Some,
        before is Some ==> after->0.attempt_id@ == before->0.attempt_id@ && after->0.accounted == (
        if r is Settled && asked == worker {
            Some(Accounting::TerminatedGeneration)
        } else {
            before->0.accounted
        }),
{
}

/// An observation is of the worker and the generation it was made of, and accounts by its own fact.
pub proof fn an_observation_accounts_by_its_own_fact(
    worker: WorkerId,
    generation: u64,
    attempt_id: &str,
    answer: Observed,
    acknowledgement: &FenceAcknowledgement,
    fenced: Observed,
    termination: &ObservedTermination,
    gone: Observed,
    answered: (WorkerId, u64, Accounting),
    by_fence: Accounting,
    by_termination: Accounting,
)
    requires
        call_ensures(Observed::authoritative_response, (worker, generation, attempt_id), answer),
        call_ensures(Observed::acknowledged_fence, (acknowledgement,), fenced),
        call_ensures(Observed::terminated_generation, (termination,), gone),
        call_ensures(Observed::worker, (&answer,), answered.0),
        call_ensures(Observed::generation, (&answer,), answered.1),
        call_ensures(Observed::accounting, (&answer,), answered.2),
        call_ensures(Observed::accounting, (&fenced,), by_fence),
        call_ensures(Observed::accounting, (&gone,), by_termination),
    ensures
        answered == (worker, generation, Accounting::AuthoritativeResponse),
        by_fence == Accounting::AcknowledgedFence,
        by_termination == Accounting::TerminatedGeneration,
{
}

} // verus!
