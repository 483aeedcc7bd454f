//! The fan-out that starts a job's program on its workers.

use crate::admission::Admission;
use crate::lifecycle::fence::FenceProtocol;
use crate::lifecycle::witness::FenceAcknowledgement;
use crate::scheduling::assignments::{compute_assignments, TaskAssignment};
use crate::scheduling::context::PhaseContext;
use crate::scheduling::fanout::{AttemptLedger, AttemptRecord, Inventory, IssuedAttempts};
use crate::scheduling::start_execution::{
    issue_all, Collection, ExecutionPlan, SettledView, StartAttempt, StartAttemptView, StartReply,
    TransportSettlement,
};
use crate::scheduling::workers::{Worker, WorkerStatus, Workers};
use crate::states::{retryable, StateError, StateName};
use crate::types::{ProgramNode, WorkerId};
use vstd::prelude::*;

verus! {

/// How an attempt's workers are to be addressed.
#[derive(Clone, Copy, Debug, PartialEq, Eq, Structural)]
pub enum AddressStep {
    /// Their requests carry no fence, and go out as they are.
    WithoutAHandshake,
    /// Each worker has to acknowledge the fence first.
    AdvanceFence { generation: u64, fence: u64 },
}

/// A fan-out under way: the authority it runs under, and the outcomes that have come in. The
/// authority comes out again only once every request has an outcome.
pub struct FanOut {
    admission: Admission,
    collection: Collection,
}

impl FanOut {
    /// The authority the fan-out runs under.
    pub closed spec fn authority(self) -> Admission {
        self.admission
    }

    /// What the fan-out issued, and what has accounted for each identifier.
    pub closed spec fn inventory(self) -> Inventory {
        self.collection.inventory()
    }

    /// The outcomes that have come in, in that order.
    pub closed spec fn outcomes(self) -> Seq<SettledView> {
        self.collection.outcomes()
    }

    /// Whether the fan-out was issued for a job with a settlement owner.
    pub closed spec fn has_owner(self) -> bool {
        self.collection.has_owner()
    }

    /// Whether every request has an outcome.
    pub open spec fn complete(self) -> bool {
        crate::scheduling::start_execution::settles_every_attempt(self.inventory(), self.outcomes())
    }

    /// Reads one reply: an answer accounts for the attempt's identifier, and an attempt that is over
    /// has its outcome. Otherwise the attempt is handed back, to be offered again.
    pub fn read(&mut self, attempt: StartAttempt, reply: StartReply) -> (r: Option<StartAttempt>)
        ensures
            final(self).authority() == old(self).authority(),
            final(self).has_owner() == old(self).has_owner(),
            final(self).inventory() == (if reply.is_answer() {
                old(self).inventory().after(
                    old(self).inventory().answer(attempt@.worker, attempt@.id),
                )
            } else {
                old(self).inventory()
            }),
            match crate::scheduling::start_execution::concluded(attempt@, reply) {
                Some(outcome) => r is None && final(self).outcomes() == old(self).outcomes().push(
                    outcome,
                ),
                None => {
                    &&& r matches Some(again) && again@ == (StartAttemptView {
                        unsettled: attempt@.unsettled + 1,
                        ..attempt@
                    })
                    &&& final(self).outcomes() == old(self).outcomes()
                },
            },
    {
        self.collection.read(attempt, reply)
    }

    /// Whether every request has an outcome.
    pub fn is_complete(&self) -> (r: bool)
        ensures
            r == self.complete(),
    {
        self.collection.is_complete()
    }

    /// Gives the authority back, with what the fan-out came to.
    pub fn settle(self) -> (r: (Admission, Collection))
        requires
            self.complete(),
        ensures
            r.0 == self.authority(),
            r.1.complete(),
            r.1.inventory() == self.inventory(),
            r.1.outcomes() == self.outcomes(),
            r.1.has_owner() == self.has_owner(),
    {
        (self.admission, self.collection)
    }
}

/// Whether a fan-out may send anything.
pub enum FanOutStep {
    /// What every request shares, and one attempt per worker.
    Issued { fan_out: FanOut, plan: ExecutionPlan, attempts: Vec<StartAttempt> },
    /// The workers could not be addressed, and nothing was issued.
    Refused { admission: Admission, issued: IssuedAttempts, reason: StateError },
}

/// Whether every node of a program finds a worker for each of its subtasks, however the workers
/// are listed by id.
pub open spec fn seats_program(workers: Map<u64, Worker>, nodes: Seq<ProgramNode>) -> bool {
    forall|listing: Seq<Worker>, n: int|
        #![trigger crate::scheduling::workers::by_ascending_id(workers, listing), nodes[n]]
        crate::scheduling::workers::by_ascending_id(workers, listing) && 0 <= n < nodes.len()
            ==> crate::scheduling::assignments::seats_all(listing, nodes[n].parallelism as nat)
}

/// Whether `plan` is the one an attempt's workers are started from.
pub open spec fn plans(context: PhaseContext, plan: ExecutionPlan) -> bool {
    &&& exists|listing: Seq<Worker>| #[trigger]
        crate::scheduling::workers::by_ascending_id(context.workers@, listing) && Seq::new(
            plan.assignments@.len(),
            |i: int| plan.assignments@[i]@,
        ) == crate::scheduling::assignments::placements(listing, context.job.program.nodes@)
    &&& context.job.program.same_as(plan.program)
    &&& plan.restore_epoch == (match context.checkpoint_info {
        Some(info) => Some(info.epoch),
        None => None,
    })
    &&& (plan.start_epoch, plan.min_epoch) == crate::scheduling::context::epochs_of(context)
    &&& crate::scheduling::context::leads_at(context, plan.leader)
    &&& match (plan.leader, context.checkpoint_info) {
        (Some(_), Some(info)) => plan.checkpoint_manifest_ref matches Some(manifest) && manifest@
            == info.id@,
        _ => plan.checkpoint_manifest_ref is None,
    }
    &&& plan.checkpoint_interval_micros == context.job.config.checkpoint_interval
    &&& plan.state_backend == context.job.execution_selector
}

impl PhaseContext {
    /// Refuses workers that cannot reconcile a repeated `StartExecution`.
    pub fn require_reconciling_workers(&self) -> (r: Result<(), StateError>)
        ensures
            r is Ok <==> crate::scheduling::workers::unreconciled_of(self.workers@) =~= Set::<
                u64,
            >::empty(),
            r matches Err(e) ==> exists|ids: Seq<u64>| #[trigger]
                crate::collections::in_order(
                    ids,
                    crate::scheduling::workers::unreconciled_of(self.workers@),
                ) && e.retryable_with(
                    StateName::Scheduling,
                    "workers predating the StartExecution reconciliation contract"@,
                    crate::scheduling::workers::unreconciled_report(ids),
                    10,
                ),
    {
        self.workers.require_reconciling()
    }

    /// The plan every worker of this attempt is started from.
    pub fn execution_plan(&self) -> (r: ExecutionPlan)
        requires
            seats_program(self.workers@, self.job.program.nodes@),
        ensures
            plans(*self, r),
    {
        let (start_epoch, min_epoch) = self.epochs();
        let leader = self.leader_endpoint();
        let checkpoint_manifest_ref = match (&leader, &self.checkpoint_info) {
            (Some(_), Some(info)) => Some(info.id.clone()),
            _ => None,
        };
        let restore_epoch = match &self.checkpoint_info {
            Some(info) => Some(info.epoch),
            None => None,
        };
        let workers = self.workers.statuses();
        let ghost listing = Seq::new(workers@.len(), |i: int| workers@[i]@);
        assert(crate::scheduling::workers::by_ascending_id(self.workers@, listing));
        let assignments = compute_assignments(&workers, &self.job.program);
        ExecutionPlan {
            program: self.job.program.copied(),
            assignments,
            restore_epoch,
            start_epoch,
            min_epoch,
            leader,
            checkpoint_manifest_ref,
            checkpoint_interval_micros: self.job.config.checkpoint_interval,
            state_backend: self.job.execution_selector,
        }
    }

    /// The protocol this attempt's directives go out under. A job whose fence cannot address its
    /// workers is tried again.
    pub fn fence_protocol(&self, protocol: Result<FenceProtocol, String>) -> (r: Result<
        FenceProtocol,
        StateError,
    >)
        ensures
            match protocol {
                Ok(protocol) => r == Ok::<_, StateError>(protocol),
                Err(source) => r matches Err(e) && unaddressable(e, source@),
            },
    {
        match protocol {
            Ok(protocol) => Ok(protocol),
            Err(source) => Err(
                retryable(
                    StateName::Scheduling,
                    "the job's lifecycle fence cannot address its worker generations",
                    source,
                    10,
                ),
            ),
        }
    }

    /// How this attempt's workers are to be addressed: under the fenced protocol only after each
    /// of them acknowledged the fence.
    pub fn address_every_worker(&self, protocol: Result<FenceProtocol, String>) -> (r: Result<
        AddressStep,
        StateError,
    >)
        ensures
            match protocol {
                Ok(FenceProtocol::Legacy) => r == Ok::<_, StateError>(
                    AddressStep::WithoutAHandshake,
                ),
                Ok(FenceProtocol::Fenced { generation, fence }) => r == Ok::<_, StateError>(
                    AddressStep::AdvanceFence { generation, fence },
                ),
                Err(source) => r matches Err(e) && unaddressable(e, source@),
            },
    {
        match self.fence_protocol(protocol) {
            Ok(FenceProtocol::Legacy) => Ok(AddressStep::WithoutAHandshake),
            Ok(FenceProtocol::Fenced { generation, fence }) => Ok(
                AddressStep::AdvanceFence { generation, fence },
            ),
            Err(e) => Err(e),
        }
    }

    /// What the handshake with every worker came to: the acknowledgements it collected, or why
    /// one of them did not acknowledge.
    pub fn fence_advanced(&self, handshake: Result<Vec<FenceAcknowledgement>, String>) -> (r:
        Result<Vec<FenceAcknowledgement>, StateError>)
        ensures
            match handshake {
                Ok(acknowledgements) => r == Ok::<_, StateError>(acknowledgements),
                Err(source) => r matches Err(e) && e.retryable_with(
                    StateName::Scheduling,
                    "worker generations did not acknowledge the job's lifecycle fence"@,
                    source@,
                    10,
                ),
            },
    {
        match handshake {
            Ok(acknowledgements) => Ok(acknowledgements),
            Err(source) => Err(
                retryable(
                    StateName::Scheduling,
                    "worker generations did not acknowledge the job's lifecycle fence",
                    source,
                    10,
                ),
            ),
        }
    }

    /// One attempt per worker, and the ledger that lists them.
    pub fn issue_to_every_worker(&self, fence: u64, owned: bool) -> (r: (
        Vec<StartAttempt>,
        AttemptLedger,
    ))
        ensures
            asks_every_worker(self.workers@, r.0@),
            r.1.has_owner() == owned,
            r.1@.attempts.dom() == self.workers@.dom(),
            r.1@ == crate::scheduling::start_execution::issued_all(
                Inventory::nothing_issued(self.job.status.generation, fence),
                Seq::new(r.0@.len(), |i: int| r.0@[i]@),
            ),
    {
        let ids = self.workers.ids();
        let mut workers: Vec<WorkerId> = Vec::new();
        let mut i: usize = 0;
        while i < ids.len()
            invariant
                i <= ids@.len(),
                workers@.len() == i,
                forall|j: int| 0 <= j < i ==> (#[trigger] workers@[j]).0 == ids@[j],
            decreases ids@.len() - i,
        {
            workers.push(WorkerId(ids[i]));
            i = i + 1;
        }
        let mut ledger = AttemptLedger::owned_by(owned, self.addressed_generation(), fence);
        let attempts = issue_all(&workers, &mut ledger);
        assert(Seq::new(attempts@.len(), |i: int| attempts@[i]@.worker) =~= ids@);
        proof {
            let views = Seq::new(attempts@.len(), |i: int| attempts@[i]@);
            let workers = asked(views);
            assert(workers =~= ids@);
            issued_to_exactly(Inventory::nothing_issued(self.job.status.generation, fence), views);
            assert(ledger@.attempts.dom() =~= self.workers@.dom()) by {
                assert forall|w: u64| ledger@.attempts.dom().contains(w)
                    == self.workers@.dom().contains(w) by {
                    assert(ids@.contains(w) == self.workers@.dom().contains(w));
                }
            }
        }
        (attempts, ledger)
    }

    /// Begins the fan-out, once its workers have been addressed or could not be. Every identifier
    /// is in the ledger before anything is sent under it.
    pub fn fan_out_start_execution(
        &mut self,
        admission: Admission,
        fence: u64,
        addressed: Result<Vec<FenceAcknowledgement>, StateError>,
        owned: bool,
    ) -> (r: FanOutStep)
        requires
            seats_program(old(self).workers@, old(self).job.program.nodes@),
            may_start(*old(self), fence, addressed),
        ensures
            match addressed {
                Err(reason) => {
                    &&& *final(self) == *old(self)
                    &&& r matches FanOutStep::Refused { admission: kept, issued, reason: told }
                        && kept == admission && told == reason && issued@
                        == Inventory::nothing_issued(old(self).job.status.generation, fence)
                },
                Ok(acknowledgements) => {
                    &&& final(self).observed_acknowledgements@
                        == old(self).observed_acknowledgements@ + acknowledgements@
                    &&& *final(self) == (PhaseContext {
                        observed_acknowledgements: final(self).observed_acknowledgements,
                        ..*old(self)
                    })
                    &&& r matches FanOutStep::Issued { fan_out, plan, attempts } && {
                        &&& fan_out.authority() == admission
                        &&& fan_out.outcomes().len() == 0
                        &&& fan_out.has_owner() == owned
                        &&& plans(*old(self), plan)
                        &&& asks_every_worker(old(self).workers@, attempts@)
                        &&& fan_out.inventory().attempts.dom() == old(self).workers@.dom()
                        &&& fan_out.inventory() == crate::scheduling::start_execution::issued_all(
                            Inventory::nothing_issued(old(self).job.status.generation, fence),
                            Seq::new(attempts@.len(), |i: int| attempts@[i]@),
                        )
                    }
                },
            },
    {
        let plan = self.execution_plan();
        let generation: u64 = self.addressed_generation();
        match addressed {
            Err(reason) => FanOutStep::Refused {
                admission,
                issued: IssuedAttempts::issued_under(generation, fence),
                reason,
            },
            Ok(acknowledgements) => {
                self.record_observed_acknowledgements(acknowledgements);
                let (attempts, ledger) = self.issue_to_every_worker(fence, owned);
                let fan_out = FanOut { admission, collection: Collection::begin(ledger) };
                FanOutStep::Issued { fan_out, plan, attempts }
            },
        }
    }

    /// Whether each of this attempt's workers has acknowledged `fence`.
    pub fn every_worker_acknowledged(
        &self,
        fence: u64,
        acknowledgements: &Vec<FenceAcknowledgement>,
    ) -> (r: bool)
        ensures
            r == acknowledged_by_all(
                self.workers@.dom(),
                self.job.status.generation,
                fence,
                acknowledgements@,
            ),
    {
        let ids = self.workers.ids();
        let generation: u64 = self.addressed_generation();
        let mut i: usize = 0;
        while i < ids.len()
            invariant
                i <= ids@.len(),
                crate::collections::in_order(ids@, self.workers@.dom()),
                generation == self.job.status.generation,
                forall|k: int|
                    0 <= k < i ==> acknowledged_by(
                        #[trigger] ids@[k],
                        generation,
                        fence,
                        acknowledgements@,
                    ),
            decreases ids@.len() - i,
        {
            let mut found = false;
            let mut j: usize = 0;
            while j < acknowledgements.len()
                invariant
                    i < ids@.len(),
                    j <= acknowledgements@.len(),
                    found ==> acknowledged_by(
                        ids@[i as int],
                        generation,
                        fence,
                        acknowledgements@,
                    ),
                    !found ==> forall|k: int|
                        0 <= k < j ==> !acknowledges(
                            #[trigger] acknowledgements@[k],
                            ids@[i as int],
                            generation,
                            fence,
                        ),
                decreases acknowledgements@.len() - j,
            {
                let seen = &acknowledgements[j];
                if seen.worker().0 == ids[i] && seen.generation() == generation
                    && seen.observed_fence() == fence {
                    assert(acknowledges(
                        acknowledgements@[j as int],
                        ids@[i as int],
                        generation,
                        fence,
                    ));
                    found = true;
                }
                j = j + 1;
            }
            if !found {
                proof {
                    assert(ids@.contains(ids@[i as int]));
                    assert(self.workers@.dom().contains(ids@[i as int]));
                }
                return false;
            }
            i = i + 1;
        }
        proof {
            assert forall|w: u64| #[trigger] self.workers@.dom().contains(w) implies acknowledged_by(
                w,
                generation,
                fence,
                acknowledgements@,
            ) by {
                assert(ids@.contains(w));
                let k = choose|k: int| 0 <= k < ids@.len() && ids@[k] == w;
                assert(acknowledged_by(ids@[k], generation, fence, acknowledgements@));
            }
        }
        true
    }

    /// What a fan-out came to. It is read only once every one of its requests has an outcome.
    pub(crate) fn record_fan_out(&mut self, fan_out: &Collection) -> (r: Result<(), StateError>)
        requires
            fan_out.complete(),
        ensures
            fan_out_recorded(*old(self), *final(self), fan_out.outcomes(), r),
    {
        match fan_out.came_to() {
            Ok(started) => {
                self.record_started_connects(started);
                Ok(())
            },
            Err(source) => Err(
                retryable(StateName::Scheduling, "failed to initialize workers", source, 10),
            ),
        }
    }
}

/// What the outcomes of a fan-out do to an attempt: the workers that started are marked, or the
/// first failure is reported.
pub open spec fn fan_out_recorded(
    before: PhaseContext,
    after: PhaseContext,
    outcomes: Seq<SettledView>,
    r: Result<(), StateError>,
) -> bool {
    match crate::scheduling::start_execution::fan_out_of(outcomes) {
        Ok(workers) => {
            &&& r is Ok
            &&& after.started_workers@.map_values(|w: WorkerId| w.0) == workers
            &&& after.workers@ == crate::scheduling::context::marked_initializing(
                before.workers@,
                after.started_workers@,
            )
            &&& after == (PhaseContext {
                workers: after.workers,
                started_workers: after.started_workers,
                ..before
            })
        },
        Err(source) => {
            &&& after == before
            &&& r matches Err(e) && e.retryable_with(
                StateName::Scheduling,
                "failed to initialize workers"@,
                source,
                10,
            )
        },
    }
}

/// Whether an acknowledgement is `worker`'s, as one of `generation`, of `fence`.
pub open spec fn acknowledges(
    seen: FenceAcknowledgement,
    worker: u64,
    generation: u64,
    fence: u64,
) -> bool {
    seen.of_worker().0 == worker && seen.of_generation() == generation && seen.of_fence() == fence
}

/// Whether `worker` is among those that acknowledged `fence`.
pub open spec fn acknowledged_by(
    worker: u64,
    generation: u64,
    fence: u64,
    seen: Seq<FenceAcknowledgement>,
) -> bool {
    exists|i: int|
        0 <= i < seen.len() && acknowledges(#[trigger] seen[i], worker, generation, fence)
}

/// Whether every one of `workers` acknowledged `fence`.
pub open spec fn acknowledged_by_all(
    workers: Set<u64>,
    generation: u64,
    fence: u64,
    seen: Seq<FenceAcknowledgement>,
) -> bool {
    forall|w: u64| #[trigger]
        workers.contains(w) ==> acknowledged_by(w, generation, fence, seen)
}

/// Whether an attempt that addressed its workers this way may go on: nothing is started under a
/// fence before every worker generation acknowledged it. Fence zero says that requests carry none.
pub open spec fn may_start(
    context: PhaseContext,
    fence: u64,
    addressed: Result<Vec<FenceAcknowledgement>, StateError>,
) -> bool {
    fence > 0 ==> (addressed matches Ok(seen) ==> acknowledged_by_all(
        context.workers@.dom(),
        context.job.status.generation,
        fence,
        seen@,
    ))
}

/// Whether `e` says that a job's fence cannot address its workers.
pub open spec fn unaddressable(e: StateError, source: Seq<char>) -> bool {
    e.retryable_with(
        StateName::Scheduling,
        "the job's lifecycle fence cannot address its worker generations"@,
        source,
        10,
    )
}

/// Whether there is one attempt for each worker, by ascending id, each under an identifier that two
/// numbers drawn by chance make, and none has had a reply.
pub open spec fn asks_every_worker(workers: Map<u64, Worker>, attempts: Seq<StartAttempt>) -> bool {
    &&& crate::collections::in_order(
        Seq::new(attempts.len(), |i: int| attempts[i]@.worker),
        workers.dom(),
    )
    &&& forall|i: int|
        0 <= i < attempts.len() ==> {
            &&& (#[trigger] attempts[i])@.unsettled == 0
            &&& crate::scheduling::start_execution::minted_by_chance(attempts[i]@.id)
        }
}

/// The workers a fan-out's attempts are for.
spec fn asked(attempts: Seq<StartAttemptView>) -> Seq<u64> {
    attempts.map_values(|a: StartAttemptView| a.worker)
}

/// A ledger that began with nothing lists exactly the workers it issued an attempt to.
proof fn issued_to_exactly(nothing: Inventory, attempts: Seq<StartAttemptView>)
    requires
        nothing.attempts == Map::<u64, crate::scheduling::fanout::Attempt>::empty(),
    ensures
        forall|w: u64|
            crate::scheduling::start_execution::issued_all(nothing, attempts).attempts.dom().contains(
                w,
            ) <==> #[trigger] asked(attempts).contains(w),
    decreases attempts.len(),
{
    let workers = asked(attempts);
    if attempts.len() > 0 {
        let earlier = attempts.drop_last();
        let before = asked(earlier);
        issued_to_exactly(nothing, earlier);
        assert forall|w: u64| #[trigger] workers.contains(w) <==> before.contains(w) || w
            == attempts.last().worker by {
            if before.contains(w) {
                let i = choose|i: int| 0 <= i < before.len() && before[i] == w;
                assert(workers[i] == w);
            }
            if w == attempts.last().worker {
                assert(workers[workers.len() - 1] == w);
            }
            if workers.contains(w) {
                let i = choose|i: int| 0 <= i < workers.len() && workers[i] == w;
                if i < before.len() {
                    assert(before[i] == w);
                }
            }
        }
        assert forall|w: u64|
            crate::scheduling::start_execution::issued_all(nothing, attempts).attempts.dom().contains(
                w,
            ) <==> #[trigger] workers.contains(w) by {
            assert(before.contains(w) <==> crate::scheduling::start_execution::issued_all(
                nothing,
                earlier,
            ).attempts.dom().contains(w));
        }
    }
}

/// Workers with the slots a program needs seat every subtask of it, so a fan-out that follows a
/// completed wait for workers can always be planned.
pub proof fn sufficient_workers_seat_the_program(
    workers: Map<u64, Worker>,
    nodes: Seq<ProgramNode>,
)
    requires
        workers.dom().finite(),
        crate::scheduling::workers::total_slots(workers)
            >= crate::scheduling::workers::slots_of(nodes),
    ensures
        seats_program(workers, nodes),
{
    assert forall|listing: Seq<Worker>, n: int|
        #![trigger crate::scheduling::workers::by_ascending_id(workers, listing), nodes[n]]
        crate::scheduling::workers::by_ascending_id(workers, listing) && 0 <= n
            < nodes.len() implies crate::scheduling::assignments::seats_all(
        listing,
        nodes[n].parallelism as nat,
    ) by {
        let ids = choose|ids: Seq<u64>| #[trigger]
            crate::collections::in_order(ids, workers.dom()) && listing == Seq::new(
                ids.len(),
                |i: int| workers[ids[i]],
            );
        listed_slots_are_the_total(workers, ids, ids.len());
        assert(ids.take(ids.len() as int) =~= ids);
        assert(workers.restrict(ids.to_set()) =~= workers) by {
            assert(ids.to_set() =~= workers.dom()) by {
                assert forall|w: u64| workers.dom().contains(w) == ids.to_set().contains(w) by {
                    assert(ids.contains(w) == workers.dom().contains(w));
                }
            }
        }
        assert(listing =~= Seq::new(ids.len(), |i: int| workers[ids[i]]));
        crate::scheduling::workers::slots_are_the_widest_nodes(nodes);
        crate::scheduling::assignments::enough_slots_seat_every_subtask(
            listing,
            nodes[n].parallelism as nat,
        );
    }
}

/// The slots of the first `n` workers of a listing are those of the workers listed.
proof fn listed_slots_are_the_total(workers: Map<u64, Worker>, ids: Seq<u64>, n: nat)
    requires
        workers.dom().finite(),
        n <= ids.len(),
        crate::collections::in_order(ids, workers.dom()),
    ensures
        crate::scheduling::assignments::slots_before(
            Seq::new(ids.len(), |i: int| workers[ids[i]]),
            n,
        ) == crate::scheduling::workers::total_slots(
            workers.restrict(ids.take(n as int).to_set()),
        ),
    decreases n,
{
    let listing = Seq::new(ids.len(), |i: int| workers[ids[i]]);
    let now = workers.restrict(ids.take(n as int).to_set());
    assert(now.dom().subset_of(workers.dom()));
    vstd::set_lib::lemma_len_subset(now.dom(), workers.dom());
    if n == 0 {
        assert(now.dom() =~= Set::empty()) by {
            assert(ids.take(0) =~= Seq::empty());
        }
    } else {
        listed_slots_are_the_total(workers, ids, (n - 1) as nat);
        let before = workers.restrict(ids.take(n - 1).to_set());
        let id = ids[n - 1];
        assert(ids.contains(id));
        assert(ids.take(n as int)[n - 1] == id);
        assert(ids.take(n as int).contains(id));
        assert(now.contains_key(id));
        crate::scheduling::workers::total_slots_by_any_worker(now, id);
        assert(now.remove(id) =~= before) by {
            assert forall|w: u64| now.remove(id).dom().contains(w) == before.dom().contains(w) by {
                if before.dom().contains(w) {
                    let listed = ids.take(n - 1);
                    assert(listed.contains(w));
                    let j = choose|j: int| 0 <= j < listed.len() && listed[j] == w;
                    assert(ids.take(n as int)[j] == w);
                    assert(ids[j] < ids[n - 1]);
                }
                if now.remove(id).dom().contains(w) {
                    let listed = ids.take(n as int);
                    assert(listed.contains(w));
                    let j = choose|j: int| 0 <= j < listed.len() && listed[j] == w;
                    assert(j != n - 1);
                    assert(ids.take(n - 1)[j] == w);
                }
            }
        }
        assert(listing[n - 1] == workers[id]);
    }
}

/// The plan places the program where its workers, listed by ascending id, have it placed, and starts
/// it where the attempt's checkpoint says: it restores exactly the checkpoint the attempt has, tells
/// of its manifest exactly where somebody leads, and runs with the backend the execution runs with.
pub proof fn a_plan_is_what_the_attempt_knows(
    context: &PhaseContext,
    plan: ExecutionPlan,
    workers: Vec<&WorkerStatus>,
    placed: Vec<TaskAssignment>,
    epochs: (u64, u64),
    leader: Option<(WorkerId, String)>,
)
    requires
        call_ensures(PhaseContext::execution_plan, (context,), plan),
        call_ensures(Workers::statuses, (&context.workers,), workers),
        call_ensures(compute_assignments, (&workers, &context.job.program), placed),
        call_ensures(PhaseContext::epochs, (context,), epochs),
        call_ensures(PhaseContext::leader_endpoint, (context,), leader),
    ensures
        plan.assignments@.len() == placed@.len(),
        forall|i: int|
            0 <= i < placed@.len() ==> (#[trigger] plan.assignments@[i]).task_id
                == placed@[i].task_id && plan.assignments@[i].subtask_idx == placed@[i].subtask_idx
                && plan.assignments@[i].worker_id == placed@[i].worker_id
                && plan.assignments@[i].worker_addr@ == placed@[i].worker_addr@
                && plan.assignments@[i].worker_rpc@ == placed@[i].worker_rpc@,
        plan.program.nodes@ == context.job.program.nodes@,
        plan.program.task_count == context.job.program.task_count,
        plan.program.hash@ == context.job.program.hash@,
        plan.restore_epoch is Some <==> context.checkpoint_info is Some,
        plan.restore_epoch is Some ==> plan.restore_epoch->0 == context.checkpoint_info->0.epoch,
        context.checkpoint_info is Some ==> plan.start_epoch == context.checkpoint_info->0.epoch
            && plan.min_epoch == context.checkpoint_info->0.min_epoch,
        plan.start_epoch == epochs.0,
        plan.min_epoch == epochs.1,
        plan.leader is Some <==> leader is Some,
        plan.leader is Some ==> context.leader_mode && (plan.leader->0).0 == (leader->0).0
            && (plan.leader->0).1@ == (leader->0).1@,
        plan.checkpoint_manifest_ref is Some <==> plan.leader is Some && context.checkpoint_info
            is Some,
        plan.checkpoint_manifest_ref is Some ==> plan.checkpoint_manifest_ref->0@
            == context.checkpoint_info->0.id@,
        plan.checkpoint_interval_micros == context.job.config.checkpoint_interval,
        plan.state_backend == context.job.execution_selector,
{
    let known = context.workers@;
    let theirs = Seq::new(workers@.len(), |i: int| workers@[i]@);
    let ours = choose|listing: Seq<Worker>| #[trigger]
        crate::scheduling::workers::by_ascending_id(known, listing) && Seq::new(
            plan.assignments@.len(),
            |i: int| plan.assignments@[i]@,
        ) == crate::scheduling::assignments::placements(listing, context.job.program.nodes@);
    let left = choose|ids: Seq<u64>| #[trigger]
        crate::collections::in_order(ids, known.dom()) && theirs == Seq::new(
            ids.len(),
            |i: int| known[ids[i]],
        );
    let right = choose|ids: Seq<u64>| #[trigger]
        crate::collections::in_order(ids, known.dom()) && ours == Seq::new(
            ids.len(),
            |i: int| known[ids[i]],
        );
    crate::collections::one_order(left, right, known.dom());
    assert(ours =~= theirs);
    let assigned = Seq::new(plan.assignments@.len(), |i: int| plan.assignments@[i]@);
    let seated = Seq::new(placed@.len(), |i: int| placed@[i]@);
    assert(assigned == seated);
    assert(assigned.len() == plan.assignments@.len() && seated.len() == placed@.len());
    assert forall|i: int| 0 <= i < placed@.len() implies {
        &&& (#[trigger] plan.assignments@[i]).task_id == placed@[i].task_id
        &&& plan.assignments@[i].subtask_idx == placed@[i].subtask_idx
        &&& plan.assignments@[i].worker_id == placed@[i].worker_id
        &&& plan.assignments@[i].worker_addr@ == placed@[i].worker_addr@
        &&& plan.assignments@[i].worker_rpc@ == placed@[i].worker_rpc@
    } by {
        assert(assigned[i] == plan.assignments@[i]@);
        assert(seated[i] == placed@[i]@);
    }
}

/// Workers are addressed with a handshake exactly under the fenced protocol, for its generation and
/// with its fence. A job whose fence cannot address them, or whose workers do not acknowledge it, is
/// tried again for that reason; what was acknowledged is kept as it came in.
pub proof fn a_fence_is_advanced_only_under_its_protocol(
    context: &PhaseContext,
    protocol: Result<FenceProtocol, String>,
    r: Result<AddressStep, StateError>,
    handshake: Result<Vec<FenceAcknowledgement>, String>,
    advanced: Result<Vec<FenceAcknowledgement>, StateError>,
    fence: u64,
)
    requires
        call_ensures(PhaseContext::address_every_worker, (context, protocol), r),
        call_ensures(PhaseContext::fence_advanced, (context, handshake), advanced),
        call_ensures(PhaseContext::addressed_fence, (context, &protocol), fence),
    ensures
        r is Ok <==> protocol is Ok,
        r matches Ok(step) ==> (step is AdvanceFence <==> protocol->Ok_0 is Fenced),
        r matches Ok(AddressStep::AdvanceFence { generation: told, fence: raised })
            ==> protocol->Ok_0 == (FenceProtocol::Fenced { generation: told, fence: raised })
            && raised == fence,
        r matches Ok(AddressStep::WithoutAHandshake) ==> fence == 0,
        r matches Err(e) ==> e is RetryableError && e->retries == 10 && e->RetryableError_source@
            == protocol->Err_0@ && fence == 0,
        advanced is Ok <==> handshake is Ok,
        advanced matches Ok(seen) ==> seen == handshake->Ok_0,
        advanced matches Err(e) ==> e is RetryableError && e->retries == 10
            && e->RetryableError_source@ == handshake->Err_0@,
{
}

/// Every worker acknowledged a fence exactly where, for each that is known, some acknowledgement is
/// that worker's, of the attempt's own generation, and of that very fence.
pub proof fn a_fence_is_acknowledged_worker_by_worker(
    context: &PhaseContext,
    fence: u64,
    acknowledgements: &Vec<FenceAcknowledgement>,
    all: bool,
)
    requires
        call_ensures(
            PhaseContext::every_worker_acknowledged,
            (context, fence, acknowledgements),
            all,
        ),
    ensures
        all ==> forall|w: u64| #[trigger]
            context.workers@.contains_key(w) ==> exists|i: int|
                0 <= i < acknowledgements@.len() && (#[trigger] acknowledgements@[i]).of_worker().0
                    == w && acknowledgements@[i].of_generation() == context.job.status.generation
                    && acknowledgements@[i].of_fence() == fence,
        !all ==> exists|w: u64| #[trigger]
            context.workers@.contains_key(w) && forall|i: int|
                0 <= i < acknowledgements@.len() ==> !((
                #[trigger] acknowledgements@[i]).of_worker().0 == w
                    && acknowledgements@[i].of_generation() == context.job.status.generation
                    && acknowledgements@[i].of_fence() == fence),
{
    let generation = context.job.status.generation;
    let seen = acknowledgements@;
    if all {
        assert forall|w: u64| #[trigger] context.workers@.contains_key(w) implies exists|i: int|
            0 <= i < seen.len() && (#[trigger] seen[i]).of_worker().0 == w
                && seen[i].of_generation() == generation && seen[i].of_fence() == fence by {
            assert(context.workers@.dom().contains(w));
            let i = choose|i: int|
                0 <= i < seen.len() && acknowledges(#[trigger] seen[i], w, generation, fence);
            assert(seen[i].of_worker().0 == w);
        }
    } else {
        let w = choose|w: u64| #[trigger]
            context.workers@.dom().contains(w) && !acknowledged_by(w, generation, fence, seen);
        assert(context.workers@.contains_key(w));
        assert forall|i: int| 0 <= i < seen.len() implies !((#[trigger] seen[i]).of_worker().0 == w
            && seen[i].of_generation() == generation && seen[i].of_fence() == fence) by {
            assert(!acknowledges(seen[i], w, generation, fence));
        }
    }
}

/// An attempt is issued to each worker that is known and to no other, for the attempt's own
/// generation and under the fence given, and nothing accounts for any of them yet.
pub proof fn every_known_worker_is_issued_one_attempt(
    context: &PhaseContext,
    fence: u64,
    owned: bool,
    r: (Vec<StartAttempt>, AttemptLedger),
    ids: Vec<u64>,
    kept: &IssuedAttempts,
    generation: u64,
    under: u64,
    has_owner: bool,
    i: int,
    worker: WorkerId,
    asked: WorkerId,
    record: Option<&AttemptRecord>,
    found: Option<&WorkerStatus>,
)
    requires
        call_ensures(PhaseContext::issue_to_every_worker, (context, fence, owned), r),
        call_ensures(Workers::ids, (&context.workers,), ids),
        call_ensures(AttemptLedger::attempts, (&r.1,), kept),
        call_ensures(AttemptLedger::owned, (&r.1,), has_owner),
        call_ensures(IssuedAttempts::generation, (kept,), generation),
        call_ensures(IssuedAttempts::fence, (kept,), under),
        call_ensures(IssuedAttempts::record, (kept, asked), record),
        call_ensures(Workers::get, (&context.workers, asked), found),
        0 <= i < r.0@.len(),
        call_ensures(StartAttempt::worker, (&r.0@[i],), worker),
    ensures
        r.0@.len() == ids@.len(),
        worker.0 == ids@[i],
        generation == context.job.status.generation,
        under == fence,
        has_owner == owned,
        record is Some <==> found is Some,
        record is Some ==> record->0.accounted is None,
        asked == worker ==> record is Some && record->0.attempt_id@ == r.0@[i]@.id,
{
    let views = Seq::new(r.0@.len(), |k: int| r.0@[k]@);
    let workers = Seq::new(r.0@.len(), |k: int| r.0@[k]@.worker);
    crate::collections::one_order(workers, ids@, context.workers@.dom());
    assert(workers.len() == r.0@.len());
    assert(workers[i] == worker.0);
    issuing_keeps_generation_and_fence(
        Inventory::nothing_issued(context.job.status.generation, fence),
        views,
    );
    assert forall|j: int, k: int| 0 <= j < k < views.len() implies (#[trigger] views[j]).worker != (
    #[trigger] views[k]).worker by {
        assert(workers[j] < workers[k]);
        assert(workers[j] == views[j].worker && workers[k] == views[k].worker);
    }
    assert(views[i].worker == worker.0);
    crate::scheduling::start_execution::every_issued_attempt_is_outstanding(
        Inventory::nothing_issued(context.job.status.generation, fence),
        views,
        i,
    );
    if record is Some {
        assert(context.workers@.dom().contains(asked.0));
        assert(workers.contains(asked.0));
        let k = choose|k: int| 0 <= k < workers.len() && workers[k] == asked.0;
        assert(views[k].worker == asked.0);
        crate::scheduling::start_execution::every_issued_attempt_is_outstanding(
            Inventory::nothing_issued(context.job.status.generation, fence),
            views,
            k,
        );
    }
}

proof fn issuing_keeps_generation_and_fence(inventory: Inventory, attempts: Seq<StartAttemptView>)
    ensures
        crate::scheduling::start_execution::issued_all(inventory, attempts).generation
            == inventory.generation,
        crate::scheduling::start_execution::issued_all(inventory, attempts).fence
            == inventory.fence,
    decreases attempts.len(),
{
    if attempts.len() > 0 {
        issuing_keeps_generation_and_fence(inventory, attempts.drop_last());
    }
}

/// A fan-out is issued exactly where its workers were addressed, under the authority it was given,
/// and what they acknowledged is kept behind what was before. One that is refused hands that
/// authority back with the reason as it was, has issued nothing and changes nothing.
pub proof fn a_fan_out_is_issued_only_to_workers_that_were_addressed(
    context: &mut PhaseContext,
    admission: Admission,
    fence: u64,
    addressed: Result<Vec<FenceAcknowledgement>, StateError>,
    owned: bool,
    r: FanOutStep,
)
    requires
        call_ensures(
            PhaseContext::fan_out_start_execution,
            (context, admission, fence, addressed, owned),
            r,
        ),
    ensures
        r is Issued <==> addressed is Ok,
        r matches FanOutStep::Issued { fan_out, plan: _, attempts: _ } ==> fan_out.authority()
            == admission && fan_out.has_owner() == owned && fan_out.outcomes().len() == 0
            && fan_out.inventory().attempts.dom() == old(context).workers@.dom(),
        r matches FanOutStep::Refused { admission: kept, issued, reason } ==> kept == admission
            && reason == addressed->Err_0 && issued@.attempts.dom().len() == 0
            && issued@.generation == old(context).job.status.generation && issued@.fence == fence,
        addressed is Err ==> *final(context) == *old(context),
        addressed is Ok ==> final(context).observed_acknowledgements@ == old(
            context).observed_acknowledgements@ + addressed->Ok_0@,
        final(context).job == old(context).job,
        final(context).workers == old(context).workers,
{
}

/// A fan-out reads a reply as its outcomes alone would, and keeps the authority it runs under until
/// it is settled; settling gives back that authority and those outcomes.
pub proof fn a_fan_out_keeps_its_authority_until_it_is_settled(
    fan_out: &mut FanOut,
    attempt: StartAttempt,
    reply: StartReply,
    r: Option<StartAttempt>,
    unsettled: usize,
    settled: FanOut,
    parts: (Admission, Collection),
    over: bool,
    complete: bool,
)
    requires
        call_ensures(FanOut::read, (fan_out, attempt, reply), r),
        call_ensures(StartAttempt::unsettled, (&attempt,), unsettled),
        call_ensures(FanOut::settle, (settled,), parts),
        call_ensures(FanOut::is_complete, (&settled,), over),
        call_ensures(Collection::is_complete, (&parts.1,), complete),
    ensures
        final(fan_out).authority() == old(fan_out).authority(),
        r is Some <==> reply is Failure && reply->settlement == TransportSettlement::Ambiguous
            && unsettled < 8,
        final(fan_out).outcomes().len() == old(fan_out).outcomes().len() + (if r is None {
            1int
        } else {
            0
        }),
        parts.0 == settled.authority(),
        parts.1.outcomes() == settled.outcomes(),
        complete == over,
{
}

/// A fan-out that came to a start has its workers initializing; one that did not is tried again for
/// the first failure that came in, and changes nothing.
pub(crate) proof fn a_fan_out_is_recorded_for_what_it_came_to(
    context: &mut PhaseContext,
    fan_out: &Collection,
    r: Result<(), StateError>,
    came_to: Result<Vec<WorkerId>, String>,
)
    requires
        call_ensures(PhaseContext::record_fan_out, (context, fan_out), r),
        call_ensures(Collection::came_to, (fan_out,), came_to),
    ensures
        r is Ok <==> came_to is Ok,
        came_to is Ok ==> final(context).started_workers@ == came_to->Ok_0@,
        came_to is Err ==> *final(context) == *old(context) && r->Err_0 is RetryableError
            && r->Err_0->RetryableError_source@ == came_to->Err_0@ && r->Err_0->retries == 10,
{
    if came_to is Ok {
        let ids = |w: WorkerId| w.0;
        let ours = final(context).started_workers@;
        let theirs = came_to->Ok_0@;
        assert(ours.map_values(ids) == theirs.map_values(ids));
        assert(ours.len() == ours.map_values(ids).len());
        assert(theirs.len() == theirs.map_values(ids).len());
        assert forall|i: int| 0 <= i < ours.len() implies ours[i] == theirs[i] by {
            assert(ours.map_values(ids)[i] == ours[i].0);
            assert(theirs.map_values(ids)[i] == theirs[i].0);
        }
        assert(ours =~= theirs);
    }
}

} // verus!
