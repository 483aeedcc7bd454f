//! The workers a scheduling attempt has heard from, and where its tasks go on them.

use crate::collections::keys_in_order;
use crate::states::{retryable, StateError, StateName};
use crate::text;
use crate::types::{LogicalProgram, ProgramNode, WorkerId};
use std::collections::BTreeMap;
use vstd::prelude::*;
use vstd::string::*;

verus! {

/// How far a worker has come.
#[derive(Clone, Copy, Debug, PartialEq, Eq, Structural)]
pub enum WorkerState {
    Connected,
    Initializing,
    Ready,
    Failed,
}

/// What is known of one worker.
#[derive(Clone, Debug, PartialEq, Eq)]
pub struct WorkerStatus {
    pub id: WorkerId,
    pub machine_id: String,
    pub rpc_address: String,
    pub data_address: String,
    pub slots: usize,
    pub state: WorkerState,
    /// Whether the worker advertised that it reconciles a repeated `StartExecution`.
    pub reconciles_start_execution: bool,
}

/// What is known of one worker, as a value of the model.
pub struct Worker {
    pub id: u64,
    pub machine_id: Seq<char>,
    pub rpc_address: Seq<char>,
    pub data_address: Seq<char>,
    pub slots: usize,
    pub state: WorkerState,
    pub reconciles_start_execution: bool,
}

impl View for WorkerStatus {
    type V = Worker;

    open spec fn view(&self) -> Worker {
        Worker {
            id: self.id.0,
            machine_id: self.machine_id@,
            rpc_address: self.rpc_address@,
            data_address: self.data_address@,
            slots: self.slots,
            state: self.state,
            reconciles_start_execution: self.reconciles_start_execution,
        }
    }
}

/// The workers of one scheduling attempt, by id.
#[derive(Debug)]
pub struct Workers {
    by_id: BTreeMap<u64, WorkerStatus>,
}

impl View for Workers {
    type V = Map<u64, Worker>;

    closed spec fn view(&self) -> Map<u64, Worker> {
        self.by_id@.map_values(|w: WorkerStatus| w@)
    }
}

/// The slots of all workers together.
pub open spec fn total_slots(workers: Map<u64, Worker>) -> nat
    decreases workers.dom().len(),
    when workers.dom().finite()
{
    if workers.dom().len() == 0 {
        0
    } else {
        let id = workers.dom().choose();
        workers[id].slots as nat + total_slots(workers.remove(id))
    }
}

/// The total does not depend on which worker is counted first.
pub proof fn total_slots_by_any_worker(workers: Map<u64, Worker>, id: u64)
    requires
        workers.dom().finite(),
        workers.contains_key(id),
    ensures
        total_slots(workers) == workers[id].slots + total_slots(workers.remove(id)),
    decreases workers.dom().len(),
{
    let first = workers.dom().choose();
    assert(workers.dom().len() > 0) by {
        if workers.dom().len() == 0 {
            assert(workers.dom() =~= Set::empty());
        }
    }
    assert(workers.dom().contains(first));
    if first != id {
        let without_first = workers.remove(first);
        total_slots_by_any_worker(without_first, id);
        let without_id = workers.remove(id);
        assert(without_id.contains_key(first));
        total_slots_by_any_worker(without_id, first);
        assert(without_first.remove(id) =~= without_id.remove(first));
    }
}

impl Workers {
    pub fn new() -> (r: Self)
        ensures
            r@ == Map::<u64, Worker>::empty(),
    {
        let r = Workers { by_id: BTreeMap::new() };
        assert(r@ =~= Map::empty());
        r
    }

    /// There are finitely many workers.
    pub proof fn is_finite(&self)
        ensures
            self@.dom().finite(),
    {
        assert(self@.dom() =~= self.by_id@.dom());
    }

    /// Records a worker, in place of anything known of it before.
    pub fn insert(&mut self, status: WorkerStatus)
        ensures
            final(self)@ == old(self)@.insert(status.id.0, status@),
    {
        proof {
            crate::collections::numbers_are_keys();
        }
        self.by_id.insert(status.id.0, status);
        assert(self@ =~= old(self)@.insert(status.id.0, status@));
    }

    pub fn get(&self, id: WorkerId) -> (r: Option<&WorkerStatus>)
        ensures
            r is Some <==> self@.contains_key(id.0),
            r matches Some(status) ==> status@ == self@[id.0],
    {
        proof {
            crate::collections::numbers_are_keys();
        }
        self.by_id.get(&id.0)
    }

    /// Records how far a worker has come. One that is not known is left out. Says whether it was
    /// known.
    pub fn mark(&mut self, id: WorkerId, state: WorkerState) -> (r: bool)
        ensures
            r == old(self)@.contains_key(id.0),
            final(self)@ == (if old(self)@.contains_key(id.0) {
                old(self)@.insert(id.0, Worker { state, ..old(self)@[id.0] })
            } else {
                old(self)@
            }),
    {
        proof {
            crate::collections::numbers_are_keys();
        }
        match self.by_id.remove(&id.0) {
            None => {
                assert(self@ =~= old(self)@);
                false
            },
            Some(status) => {
                let mut status = status;
                status.state = state;
                self.by_id.insert(id.0, status);
                assert(self@ =~= old(self)@.insert(id.0, Worker { state, ..old(self)@[id.0] }));
                true
            },
        }
    }

    /// The ids of all workers, smallest first.
    pub fn ids(&self) -> (r: Vec<u64>)
        ensures
            crate::collections::in_order(r@, self@.dom()),
            r@.len() == self@.dom().len(),
    {
        assert(self@.dom() =~= self.by_id@.dom());
        keys_in_order(&self.by_id)
    }

    /// All workers, by ascending id.
    pub fn statuses(&self) -> (r: Vec<&WorkerStatus>)
        ensures
            by_ascending_id(self@, Seq::new(r@.len(), |i: int| r@[i]@)),
    {
        let ids = self.ids();
        let mut r: Vec<&WorkerStatus> = Vec::new();
        let mut i: usize = 0;
        while i < ids.len()
            invariant
                i <= ids@.len(),
                r@.len() == i,
                crate::collections::in_order(ids@, self@.dom()),
                forall|j: int| 0 <= j < i ==> (#[trigger] r@[j])@ == self@[ids@[j]],
            decreases ids@.len() - i,
        {
            assert(ids@.contains(ids@[i as int]));
            assert(self@.dom().contains(ids@[i as int]));
            if let Some(status) = self.get(WorkerId(ids[i])) {
                r.push(status);
            }
            i = i + 1;
        }
        assert(Seq::new(r@.len(), |i: int| r@[i]@) =~= Seq::new(
            ids@.len(),
            |i: int| self@[ids@[i]],
        ));
        r
    }

    /// Whether the workers have at least `needed` slots between them.
    pub fn have_slots(&self, needed: usize) -> (r: bool)
        ensures
            r == (total_slots(self@) >= needed),
    {
        proof {
            self.is_finite();
        }
        let ids = self.ids();
        let mut missing: usize = needed;
        let mut i: usize = 0;
        let ghost mut rest = self@;
        while i < ids.len()
            invariant
                i <= ids@.len(),
                crate::collections::in_order(ids@, self@.dom()),
                rest.dom().finite(),
                forall|w: u64| #[trigger]
                    rest.contains_key(w) ==> self@.contains_key(w) && rest[w] == self@[w],
                forall|j: int| i <= j < ids@.len() ==> rest.contains_key(#[trigger] ids@[j]),
                forall|j: int| 0 <= j < i ==> !rest.contains_key(#[trigger] ids@[j]),
                missing <= needed,
                needed - missing + total_slots(rest) == total_slots(self@),
            decreases ids@.len() - i,
        {
            let ghost id = ids@[i as int];
            assert(ids@.contains(id));
            assert(self@.dom().contains(id));
            assert(rest.contains_key(id));
            if let Some(status) = self.get(WorkerId(ids[i])) {
                proof {
                    total_slots_by_any_worker(rest, id);
                    rest = rest.remove(id);
                }
                if status.slots >= missing {
                    return true;
                }
                missing = missing - status.slots;
            }
            i = i + 1;
        }
        proof {
            assert(rest.dom() =~= Set::empty()) by {
                assert forall|w: u64| !rest.dom().contains(w) by {
                    if rest.contains_key(w) {
                        assert(self@.dom().contains(w));
                        assert(ids@.contains(w));
                        let j = choose|j: int| 0 <= j < ids@.len() && ids@[j] == w;
                        assert(!rest.contains_key(ids@[j]));
                    }
                }
            }
        }
        missing == 0
    }

    /// The workers that did not advertise the reconciliation of a repeated `StartExecution`,
    /// smallest id first.
    pub fn unreconciled(&self) -> (r: Vec<u64>)
        ensures
            crate::collections::in_order(r@, unreconciled_of(self@)),
    {
        let ids = self.ids();
        let mut r: Vec<u64> = Vec::new();
        let mut i: usize = 0;
        while i < ids.len()
            invariant
                i <= ids@.len(),
                crate::collections::in_order(ids@, self@.dom()),
                forall|j: int, k: int| 0 <= j < k < r@.len() ==> r@[j] < r@[k],
                forall|j: int|
                    0 <= j < r@.len() ==> unreconciled_of(self@).contains(#[trigger] r@[j]),
                forall|j: int, k: int|
                    0 <= j < r@.len() && i <= k < ids@.len() ==> (#[trigger] r@[j]) < (
                    #[trigger] ids@[k]),
                forall|j: int|
                    0 <= j < i && unreconciled_of(self@).contains(#[trigger] ids@[j])
                        ==> r@.contains(ids@[j]),
            decreases ids@.len() - i,
        {
            let ghost before = r@;
            assert(ids@.contains(ids@[i as int]));
            assert(self@.dom().contains(ids@[i as int]));
            if let Some(status) = self.get(WorkerId(ids[i])) {
                if !status.reconciles_start_execution {
                    r.push(ids[i]);
                    assert(r@[before.len() as int] == ids@[i as int]);
                }
            }
            assert forall|j: int|
                0 <= j < i + 1 && unreconciled_of(self@).contains(
                    #[trigger] ids@[j],
                ) implies r@.contains(ids@[j]) by {
                if j < i {
                    assert(before.contains(ids@[j]));
                    let k = choose|k: int| 0 <= k < before.len() && before[k] == ids@[j];
                    assert(r@[k] == ids@[j]);
                }
            }
            i = i + 1;
        }
        assert forall|w: u64| #[trigger] unreconciled_of(self@).contains(w) implies r@.contains(
            w,
        ) by {
            assert(self@.dom().contains(w));
            assert(ids@.contains(w));
            let j = choose|j: int| 0 <= j < ids@.len() && ids@[j] == w;
            assert(ids@[j] == w);
        }
        r
    }

    /// Refuses workers that cannot reconcile a repeated `StartExecution`: nothing may be issued
    /// to one.
    pub fn require_reconciling(&self) -> (r: Result<(), StateError>)
        ensures
            r is Ok <==> unreconciled_of(self@) =~= Set::<u64>::empty(),
            r matches Err(e) ==> exists|ids: Seq<u64>| #[trigger]
                crate::collections::in_order(ids, unreconciled_of(self@)) && e.retryable_with(
                    StateName::Scheduling,
                    "workers predating the StartExecution reconciliation contract"@,
                    unreconciled_report(ids),
                    10,
                ),
    {
        let ids = self.unreconciled();
        if ids.len() == 0 {
            assert forall|w: u64| !unreconciled_of(self@).contains(w) by {
                if unreconciled_of(self@).contains(w) {
                    assert(ids@.contains(w));
                }
            }
            return Ok(());
        }
        assert(ids@.contains(ids@[0]));
        assert(unreconciled_of(self@).contains(ids@[0]));
        let mut source = "workers ".to_owned();
        let listed = text::listed(&ids);
        source.append(listed.as_str());
        source.append(
            " did not advertise `reconciles_start_execution`; upgrade the worker image to at least this controller's version before scheduling this job",
        );
        assert(source@ =~= unreconciled_report(ids@));
        Err(
            retryable(
                StateName::Scheduling,
                "workers predating the StartExecution reconciliation contract",
                source,
                10,
            ),
        )
    }

    /// The worker that leads, and its address: the one with the smallest id.
    pub fn leader(&self) -> (r: Option<(WorkerId, String)>)
        ensures
            self@.dom() =~= Set::<u64>::empty() ==> r is None,
            !(self@.dom() =~= Set::<u64>::empty()) ==> (r matches Some((id, address))
                && leads(self@, id.0) && address@ == self@[id.0].rpc_address),
    {
        let ids = self.ids();
        if ids.len() == 0 {
            assert forall|w: u64| !self@.dom().contains(w) by {
                if self@.dom().contains(w) {
                    assert(ids@.contains(w));
                }
            }
            return None;
        }
        let first: u64 = ids[0];
        assert(ids@.contains(first));
        assert(self@.dom().contains(first));
        assert forall|w: u64| self@.contains_key(w) implies first <= w by {
            assert(self@.dom().contains(w));
            assert(ids@.contains(w));
            let j = choose|j: int| 0 <= j < ids@.len() && ids@[j] == w;
        }
        match self.get(WorkerId(first)) {
            Some(status) => Some((WorkerId(first), status.rpc_address.clone())),
            None => None,
        }
    }
}

/// Whether `listing` is the workers of `workers`, by ascending id.
pub open spec fn by_ascending_id(workers: Map<u64, Worker>, listing: Seq<Worker>) -> bool {
    exists|ids: Seq<u64>| #[trigger]
        crate::collections::in_order(ids, workers.dom()) && listing == Seq::new(
            ids.len(),
            |i: int| workers[ids[i]],
        )
}

/// The workers that did not advertise the reconciliation of a repeated `StartExecution`.
pub open spec fn unreconciled_of(workers: Map<u64, Worker>) -> Set<u64> {
    workers.dom().filter(|w: u64| !workers[w].reconciles_start_execution)
}

/// What an operator is told about such workers.
pub open spec fn unreconciled_report(ids: Seq<u64>) -> Seq<char> {
    "workers "@ + ("["@ + text::separated(ids) + "]"@)
        + " did not advertise `reconciles_start_execution`; upgrade the worker image to at least this controller's version before scheduling this job"@
}

/// Whether `id` is the worker with the smallest id.
pub open spec fn leads(workers: Map<u64, Worker>, id: u64) -> bool {
    &&& workers.contains_key(id)
    &&& forall|w: u64| workers.contains_key(w) ==> id <= w
}

/// How many slots a program needs: its widest node's parallelism.
pub open spec fn slots_of(nodes: Seq<ProgramNode>) -> nat
    decreases nodes.len(),
{
    if nodes.len() == 0 {
        0
    } else {
        let before = slots_of(nodes.drop_last());
        if nodes.last().parallelism > before {
            nodes.last().parallelism as nat
        } else {
            before
        }
    }
}

/// No node needs more than the program's slots, and some node needs all of them.
pub proof fn slots_are_the_widest_nodes(nodes: Seq<ProgramNode>)
    ensures
        forall|i: int|
            0 <= i < nodes.len() ==> (#[trigger] nodes[i]).parallelism <= slots_of(nodes),
        nodes.len() > 0 ==> exists|i: int|
            0 <= i < nodes.len() && (#[trigger] nodes[i]).parallelism == slots_of(nodes),
        nodes.len() == 0 ==> slots_of(nodes) == 0,
    decreases nodes.len(),
{
    if nodes.len() > 0 {
        let before = nodes.drop_last();
        slots_are_the_widest_nodes(before);
        assert forall|i: int| 0 <= i < nodes.len() implies (#[trigger] nodes[i]).parallelism
            <= slots_of(nodes) by {
            if i < before.len() {
                assert(nodes[i] == before[i]);
            }
        }
        if nodes.last().parallelism > slots_of(before) || before.len() == 0 {
            assert(nodes[nodes.len() - 1].parallelism == slots_of(nodes));
        } else {
            let i = choose|i: int|
                0 <= i < before.len() && (#[trigger] before[i]).parallelism == slots_of(before);
            assert(nodes[i].parallelism == slots_of(nodes));
        }
    }
}

/// How many slots a program needs.
pub fn slots_for_job(job: &LogicalProgram) -> (r: usize)
    ensures
        r == slots_of(job.nodes@),
{
    let mut r: usize = 0;
    let mut i: usize = 0;
    while i < job.nodes.len()
        invariant
            i <= job.nodes@.len(),
            r == slots_of(job.nodes@.take(i as int)),
        decreases job.nodes@.len() - i,
    {
        assert(job.nodes@.take(i + 1).drop_last() =~= job.nodes@.take(i as int));
        if job.nodes[i].parallelism > r {
            r = job.nodes[i].parallelism;
        }
        i = i + 1;
    }
    assert(job.nodes@.take(job.nodes@.len() as int) =~= job.nodes@);
    r
}

/// A worker that is recorded is found again as it was recorded, in place of anything known of it
/// before, and no other worker changes.
pub proof fn a_recorded_worker_is_found_again(
    workers: &mut Workers,
    status: WorkerStatus,
    asked: WorkerId,
    before: Option<&WorkerStatus>,
    after: Option<&WorkerStatus>,
    empty: Workers,
    nobody: Option<&WorkerStatus>,
)
    requires
        call_ensures(Workers::insert, (workers, status), ()),
        call_ensures(Workers::get, (&*old(workers), asked), before),
        call_ensures(Workers::get, (&*final(workers), asked), after),
        call_ensures(Workers::new, (), empty),
        call_ensures(Workers::get, (&empty, asked), nobody),
    ensures
        nobody is None,
        after is Some <==> asked == status.id || before is Some,
        after is Some ==> {
            let found = *after->0;
            let expected = if asked == status.id {
                status
            } else {
                *before->0
            };
            &&& found.id == expected.id
            &&& found.machine_id@ == expected.machine_id@
            &&& found.rpc_address@ == expected.rpc_address@
            &&& found.data_address@ == expected.data_address@
            &&& found.slots == expected.slots
            &&& found.state == expected.state
            &&& found.reconciles_start_execution == expected.reconciles_start_execution
        },
{
}

/// Marking a worker changes how far it has come and nothing else, of that worker and no other; one
/// that is not known stays unknown.
pub proof fn marking_a_worker_changes_only_how_far_it_has_come(
    workers: &mut Workers,
    id: WorkerId,
    state: WorkerState,
    known: bool,
    asked: WorkerId,
    before: Option<&WorkerStatus>,
    after: Option<&WorkerStatus>,
)
    requires
        call_ensures(Workers::mark, (workers, id, state), known),
        call_ensures(Workers::get, (&*old(workers), asked), before),
        call_ensures(Workers::get, (&*final(workers), asked), after),
    ensures
        after is Some <==> before is Some,
        asked == id ==> (known <==> before is Some),
        after is Some ==> {
            &&& after->0.id == before->0.id
            &&& after->0.machine_id@ == before->0.machine_id@
            &&& after->0.rpc_address@ == before->0.rpc_address@
            &&& after->0.data_address@ == before->0.data_address@
            &&& after->0.slots == before->0.slots
            &&& after->0.reconciles_start_execution == before->0.reconciles_start_execution
            &&& after->0.state == (if asked == id {
                state
            } else {
                before->0.state
            })
        },
{
}

/// The listings of the workers are of all of them, each once and smallest id first: the ids, the
/// statuses and, of those, the ones that cannot reconcile a repeated request.
pub proof fn every_worker_is_listed_once(
    workers: &Workers,
    ids: Vec<u64>,
    statuses: Vec<&WorkerStatus>,
    unreconciled: Vec<u64>,
    asked: WorkerId,
    found: Option<&WorkerStatus>,
)
    requires
        call_ensures(Workers::ids, (workers,), ids),
        call_ensures(Workers::statuses, (workers,), statuses),
        call_ensures(Workers::unreconciled, (workers,), unreconciled),
        call_ensures(Workers::get, (workers, asked), found),
    ensures
        ids@.contains(asked.0) <==> found is Some,
        forall|i: int, j: int| 0 <= i < j < ids@.len() ==> ids@[i] < ids@[j],
        unreconciled@.contains(asked.0) <==> found is Some && !found->0.reconciles_start_execution,
        forall|i: int, j: int|
            0 <= i < j < unreconciled@.len() ==> unreconciled@[i] < unreconciled@[j],
        statuses@.len() == ids@.len(),
        found is Some ==> exists|i: int|
            0 <= i < statuses@.len() && ids@[i] == asked.0 && (#[trigger] statuses@[i]).id
                == found->0.id && statuses@[i].slots == found->0.slots
                && statuses@[i].rpc_address@ == found->0.rpc_address@
                && statuses@[i].data_address@ == found->0.data_address@,
{
    let listing = Seq::new(statuses@.len(), |i: int| statuses@[i]@);
    let listed = choose|listed: Seq<u64>| #[trigger]
        crate::collections::in_order(listed, workers@.dom()) && listing == Seq::new(
            listed.len(),
            |i: int| workers@[listed[i]],
        );
    assert(listing.len() == listed.len());
    crate::collections::one_order(listed, ids@, workers@.dom());
    assert(ids@.contains(asked.0) <==> workers@.dom().contains(asked.0));
    assert(unreconciled@.contains(asked.0) <==> unreconciled_of(workers@).contains(asked.0));
    if found is Some {
        let i = choose|i: int| 0 <= i < ids@.len() && ids@[i] == asked.0;
        assert(listing[i] == workers@[ids@[i]]);
        assert(listing[i] == statuses@[i]@);
    }
}

/// Workers are refused exactly where one of them cannot reconcile a repeated request, and the
/// attempt is then retried.
pub proof fn one_worker_that_cannot_reconcile_refuses_them_all(
    workers: &Workers,
    r: Result<(), StateError>,
)
    requires
        call_ensures(Workers::require_reconciling, (workers,), r),
    ensures
        r is Err <==> exists|w: u64| #[trigger]
            workers@.contains_key(w) && !workers@[w].reconciles_start_execution,
        r matches Err(e) ==> e is RetryableError && e->retries == 10 && e->state
            == StateName::Scheduling,
{
    let unreconciled = unreconciled_of(workers@);
    if exists|w: u64| #[trigger]
        workers@.contains_key(w) && !workers@[w].reconciles_start_execution {
        let w = choose|w: u64| #[trigger]
            workers@.contains_key(w) && !workers@[w].reconciles_start_execution;
        assert(unreconciled.contains(w));
    }
    if r is Err {
        assert(exists|w: u64| unreconciled.contains(w)) by {
            if forall|w: u64| !unreconciled.contains(w) {
                assert(unreconciled =~= Set::empty());
            }
        }
        let w = choose|w: u64| unreconciled.contains(w);
        assert(workers@.contains_key(w) && !workers@[w].reconciles_start_execution);
    }
}

/// The worker that leads is the one with the smallest id, at its own address; there is one exactly
/// where there are workers.
pub proof fn the_smallest_worker_leads(
    workers: &Workers,
    leader: Option<(WorkerId, String)>,
    ids: Vec<u64>,
    asked: WorkerId,
    found: Option<&WorkerStatus>,
)
    requires
        call_ensures(Workers::leader, (workers,), leader),
        call_ensures(Workers::ids, (workers,), ids),
        call_ensures(Workers::get, (workers, asked), found),
    ensures
        leader is Some <==> ids@.len() > 0,
        leader matches Some((id, address)) ==> id.0 == ids@[0] && (found is Some ==> id.0 <= asked.0)
            && (asked == id ==> found is Some && address@ == found->0.rpc_address@),
{
    if ids@.len() > 0 {
        assert(ids@.contains(ids@[0]));
        assert(workers@.dom().contains(ids@[0]));
        let leads = (leader->0).0.0;
        assert(workers@.dom().contains(leads));
        assert(ids@.contains(leads));
        let i = choose|i: int| 0 <= i < ids@.len() && ids@[i] == leads;
        assert(leads <= ids@[0]);
    } else if leader is Some {
        let leads = (leader->0).0.0;
        assert(workers@.dom().contains(leads));
        assert(ids@.contains(leads));
    }
}

/// A program needs as many slots as its widest node, and workers have enough exactly where their
/// slots together come to that: one worker more never makes them too few.
pub proof fn a_program_needs_the_slots_of_its_widest_node(
    program: &LogicalProgram,
    needed: usize,
    workers: &mut Workers,
    status: WorkerStatus,
    before: bool,
    after: bool,
    nobody: Workers,
    alone: bool,
)
    requires
        call_ensures(slots_for_job, (program,), needed),
        call_ensures(Workers::have_slots, (&*old(workers), needed), before),
        !old(workers)@.contains_key(status.id.0),
        call_ensures(Workers::insert, (workers, status), ()),
        call_ensures(Workers::have_slots, (&*final(workers), needed), after),
        call_ensures(Workers::new, (), nobody),
        call_ensures(Workers::have_slots, (&nobody, needed), alone),
    ensures
        forall|n: int|
            0 <= n < program.nodes@.len() ==> (#[trigger] program.nodes@[n]).parallelism <= needed,
        needed > 0 ==> exists|n: int|
            0 <= n < program.nodes@.len() && (#[trigger] program.nodes@[n]).parallelism == needed,
        before ==> after,
        status.slots >= needed ==> after,
        status.slots == 0 ==> after == before,
        alone <==> needed == 0,
{
    slots_are_the_widest_nodes(program.nodes@);
    old(workers).is_finite();
    final(workers).is_finite();
    nobody.is_finite();
    let one_more = final(workers)@;
    total_slots_by_any_worker(one_more, status.id.0);
    assert(one_more.remove(status.id.0) =~= old(workers)@);
    assert(nobody@.dom().len() == 0);
}

/// The slots of workers add up: one worker more has them suffice for exactly as many slots more as
/// it has itself.
pub proof fn slots_add_up(
    workers: &mut Workers,
    status: WorkerStatus,
    needed: usize,
    more: usize,
    before: bool,
    after: bool,
    fewer: usize,
    suffices: bool,
)
    requires
        !old(workers)@.contains_key(status.id.0),
        more == needed + status.slots,
        fewer <= status.slots,
        call_ensures(Workers::have_slots, (&*old(workers), needed), before),
        call_ensures(Workers::insert, (workers, status), ()),
        call_ensures(Workers::have_slots, (&*final(workers), more), after),
        call_ensures(Workers::have_slots, (&*final(workers), fewer), suffices),
    ensures
        after == before,
        suffices,
{
    old(workers).is_finite();
    final(workers).is_finite();
    let one_more = final(workers)@;
    total_slots_by_any_worker(one_more, status.id.0);
    assert(one_more.remove(status.id.0) =~= old(workers)@);
}

} // verus!
