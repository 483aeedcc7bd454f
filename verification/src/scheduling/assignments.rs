//! Which worker each subtask of a program runs on.

use crate::scheduling::workers::{Worker, WorkerStatus};
use crate::types::{LogicalProgram, ProgramNode};
use vstd::prelude::*;

verus! {

/// Where one subtask runs.
#[derive(Clone, Debug, PartialEq, Eq)]
pub struct TaskAssignment {
    pub task_id: u32,
    pub subtask_idx: u32,
    pub worker_id: u64,
    pub worker_addr: String,
    pub worker_rpc: String,
}

/// Where one subtask runs, as a value of the model.
pub struct Assignment {
    pub task_id: u32,
    pub subtask_idx: u32,
    pub worker_id: u64,
    pub worker_addr: Seq<char>,
    pub worker_rpc: Seq<char>,
}

impl View for TaskAssignment {
    type V = Assignment;

    open spec fn view(&self) -> Assignment {
        Assignment {
            task_id: self.task_id,
            subtask_idx: self.subtask_idx,
            worker_id: self.worker_id,
            worker_addr: self.worker_addr@,
            worker_rpc: self.worker_rpc@,
        }
    }
}

/// The position of the worker that gets the `i`-th subtask, counting from worker `from`: each
/// worker is filled up to its slots before the next one is used, and one without slots is never
/// full.
pub open spec fn seat(workers: Seq<Worker>, i: nat, from: nat) -> nat
    decreases workers.len() - from,
{
    if from >= workers.len() || workers[from as int].slots == 0 || i < workers[from as int].slots {
        from
    } else {
        seat(workers, (i - workers[from as int].slots) as nat, from + 1)
    }
}

/// Whether every subtask of a node of this parallelism finds a worker.
pub open spec fn seats_all(workers: Seq<Worker>, parallelism: nat) -> bool {
    forall|i: nat| i < parallelism ==> #[trigger] seat(workers, i, 0) < workers.len()
}

/// Where the `i`-th subtask of `node` runs.
pub open spec fn placed(workers: Seq<Worker>, node: ProgramNode, i: int) -> Assignment {
    let worker = workers[seat(workers, i as nat, 0) as int];
    Assignment {
        task_id: node.node_id,
        subtask_idx: i as u32,
        worker_id: worker.id,
        worker_addr: worker.data_address,
        worker_rpc: worker.rpc_address,
    }
}

/// Where every subtask runs: node by node, subtask by subtask.
pub open spec fn placements(workers: Seq<Worker>, nodes: Seq<ProgramNode>) -> Seq<Assignment>
    decreases nodes.len(),
{
    if nodes.len() == 0 {
        Seq::empty()
    } else {
        placements(workers, nodes.drop_last()) + Seq::new(
            nodes.last().parallelism as nat,
            |i: int| placed(workers, nodes.last(), i),
        )
    }
}

/// Where the fill stands after `i` subtasks: `filled` on worker `at`, with everything before it
/// full. Advancing by one subtask keeps to the same description.
spec fn stands(workers: Seq<Worker>, i: nat, at: nat, filled: nat) -> bool {
    &&& at <= workers.len()
    &&& filled <= i
    &&& forall|j: nat| #[trigger] seat(workers, (i + j) as nat, 0) == seat(workers, filled + j, at)
    &&& at < workers.len() ==> (workers[at as int].slots == 0 || filled < workers[at as int].slots)
}

proof fn filling_advances(workers: Seq<Worker>, i: nat, at: nat, filled: nat)
    requires
        stands(workers, i, at, filled),
        at < workers.len(),
    ensures
        seat(workers, i, 0) == at,
        filled + 1 == workers[at as int].slots ==> stands(workers, i + 1, at + 1, 0),
        filled + 1 != workers[at as int].slots ==> stands(workers, i + 1, at, filled + 1),
{
    assert(seat(workers, (i + 0nat) as nat, 0) == seat(workers, filled + 0nat, at));
    if filled + 1 == workers[at as int].slots {
        assert forall|j: nat| #[trigger] seat(workers, (i + 1 + j) as nat, 0) == seat(
            workers,
            0nat + j,
            at + 1,
        ) by {
            assert(seat(workers, (i + (j + 1)) as nat, 0) == seat(workers, filled + (j + 1), at));
            assert(i + (j + 1) == i + 1 + j);
        }
    } else {
        assert forall|j: nat| #[trigger] seat(workers, (i + 1 + j) as nat, 0) == seat(
            workers,
            (filled + 1) + j,
            at,
        ) by {
            assert(seat(workers, (i + (j + 1)) as nat, 0) == seat(workers, filled + (j + 1), at));
            assert(i + (j + 1) == i + 1 + j);
            assert(filled + (j + 1) == (filled + 1) + j);
        }
    }
}

/// Places every subtask of a program on the given workers, in the given order.
pub fn compute_assignments(
    workers: &Vec<&WorkerStatus>,
    program: &LogicalProgram,
) -> (r: Vec<TaskAssignment>)
    requires
        forall|n: int|
            0 <= n < program.nodes@.len() ==> seats_all(
                Seq::new(workers@.len(), |i: int| workers@[i]@),
                (#[trigger] program.nodes@[n]).parallelism as nat,
            ),
    ensures
        Seq::new(r@.len(), |i: int| r@[i]@) == placements(
            Seq::new(workers@.len(), |i: int| workers@[i]@),
            program.nodes@,
        ),
{
    let ghost model = Seq::new(workers@.len(), |i: int| workers@[i]@);
    let available: usize = workers.len();
    let mut assignments: Vec<TaskAssignment> = Vec::new();
    let mut n: usize = 0;
    while n < program.nodes.len()
        invariant
            n <= program.nodes@.len(),
            available == workers@.len(),
            model == Seq::new(workers@.len(), |i: int| workers@[i]@),
            forall|n: int|
                0 <= n < program.nodes@.len() ==> seats_all(
                    model,
                    (#[trigger] program.nodes@[n]).parallelism as nat,
                ),
            Seq::new(assignments@.len(), |i: int| assignments@[i]@) == placements(
                model,
                program.nodes@.take(n as int),
            ),
        decreases program.nodes@.len() - n,
    {
        let node = program.nodes[n];
        let ghost earlier = assignments@;
        let ghost earlier_model = Seq::new(earlier.len(), |i: int| earlier[i]@);
        let mut worker_idx: usize = 0;
        let mut current_count: usize = 0;
        let mut i: usize = 0;
        assert(stands(model, 0, 0, 0)) by {
            assert forall|j: nat| #[trigger] seat(model, (0 + j) as nat, 0) == seat(
                model,
                0nat + j,
                0,
            ) by {}
        }
        while i < node.parallelism
            invariant
                i <= node.parallelism,
                available == workers@.len(),
                model == Seq::new(workers@.len(), |i: int| workers@[i]@),
                seats_all(model, node.parallelism as nat),
                stands(model, i as nat, worker_idx as nat, current_count as nat),
                earlier.len() + i == assignments@.len(),
                forall|j: int| 0 <= j < earlier.len() ==> assignments@[j] == earlier[j],
                forall|j: int|
                    0 <= j < i ==> (#[trigger] assignments@[earlier.len() + j])@ == placed(
                        model,
                        node,
                        j,
                    ),
            decreases node.parallelism - i,
        {
            proof {
                assert(seat(model, (i as nat + 0nat) as nat, 0) == seat(
                    model,
                    current_count as nat + 0nat,
                    worker_idx as nat,
                ));
                assert(seat(model, i as nat, 0) < model.len());
                filling_advances(model, i as nat, worker_idx as nat, current_count as nat);
            }
            let worker = workers[worker_idx];
            assert(model[worker_idx as int] == worker@);
            let ghost before = assignments@;
            assignments.push(
                TaskAssignment {
                    task_id: node.node_id,
                    subtask_idx: #[verifier::truncate] (i as u32),
                    worker_id: worker.id.0,
                    worker_addr: worker.data_address.clone(),
                    worker_rpc: worker.rpc_address.clone(),
                },
            );
            current_count = current_count + 1;
            if current_count == worker.slots {
                worker_idx = worker_idx + 1;
                current_count = 0;
            }
            assert forall|j: int| 0 <= j < i + 1 implies (
            #[trigger] assignments@[earlier.len() + j])@ == placed(model, node, j) by {
                if j < i {
                    assert(assignments@[earlier.len() + j] == before[earlier.len() + j]);
                }
            }
            i = i + 1;
        }
        proof {
            let taken = program.nodes@.take(n + 1);
            assert(taken.drop_last() =~= program.nodes@.take(n as int));
            assert(taken.last() == node);
            assert(Seq::new(assignments@.len(), |i: int| assignments@[i]@) =~= earlier_model
                + Seq::new(node.parallelism as nat, |i: int| placed(model, node, i))) by {
                assert forall|k: int| earlier.len() <= k < assignments@.len() implies (
                #[trigger] assignments@[k])@ == placed(model, node, k - earlier.len()) by {
                    assert(assignments@[earlier.len() + (k - earlier.len())]@ == placed(
                        model,
                        node,
                        k - earlier.len(),
                    ));
                }
            }
        }
        n = n + 1;
    }
    assert(program.nodes@.take(program.nodes@.len() as int) =~= program.nodes@);
    assignments
}

/// The slots of the first `n` workers of a list together.
pub open spec fn slots_before(workers: Seq<Worker>, n: nat) -> nat
    decreases n,
{
    if n == 0 || n > workers.len() {
        0
    } else {
        slots_before(workers, (n - 1) as nat) + workers[n - 1].slots as nat
    }
}

/// Where every worker has a slot, the workers take the subtasks in consecutive runs: worker `w`
/// takes exactly those between the slots before it and the slots up to it.
pub proof fn workers_take_consecutive_subtasks(workers: Seq<Worker>, i: nat, w: nat)
    requires
        forall|k: int| 0 <= k < workers.len() ==> (#[trigger] workers[k]).slots > 0,
        w < workers.len(),
    ensures
        seat(workers, i, 0) == w <==> slots_before(workers, w) <= i < slots_before(workers, w + 1),
{
    seat_from(workers, i, 0, w);
}

proof fn seat_from(workers: Seq<Worker>, i: nat, from: nat, w: nat)
    requires
        forall|k: int| 0 <= k < workers.len() ==> (#[trigger] workers[k]).slots > 0,
        from <= w < workers.len(),
    ensures
        seat(workers, i, from) == w <==> slots_before(workers, w) <= slots_before(workers, from) + i
            < slots_before(workers, w + 1),
    decreases workers.len() - from,
{
    slots_accumulate(workers, from, w);
    slots_accumulate(workers, from, w + 1);
    slots_accumulate(workers, from + 1, w + 1);
    if from < w {
        slots_accumulate(workers, from + 1, w);
    }
    if i >= workers[from as int].slots {
        if from < w {
            seat_from(workers, (i - workers[from as int].slots) as nat, from + 1, w);
        } else {
            seat_is_not_before(workers, (i - workers[from as int].slots) as nat, from + 1);
        }
    }
}

proof fn seat_is_not_before(workers: Seq<Worker>, i: nat, from: nat)
    ensures
        seat(workers, i, from) >= from,
    decreases workers.len() - from,
{
    if !(from >= workers.len() || workers[from as int].slots == 0 || i
        < workers[from as int].slots) {
        seat_is_not_before(workers, (i - workers[from as int].slots) as nat, from + 1);
    }
}

proof fn slots_accumulate(workers: Seq<Worker>, from: nat, to: nat)
    requires
        from <= to <= workers.len(),
    ensures
        slots_before(workers, from) <= slots_before(workers, to),
        from < workers.len() ==> slots_before(workers, from + 1) == slots_before(workers, from)
            + workers[from as int].slots,
    decreases to - from,
{
    if from < to {
        slots_accumulate(workers, from, (to - 1) as nat);
    }
}

/// Workers with at least as many slots between them as a node has subtasks seat them all.
pub proof fn enough_slots_seat_every_subtask(workers: Seq<Worker>, parallelism: nat)
    requires
        slots_before(workers, workers.len()) >= parallelism,
    ensures
        seats_all(workers, parallelism),
{
    assert forall|i: nat| i < parallelism implies #[trigger] seat(workers, i, 0)
        < workers.len() by {
        seat_is_found(workers, i, 0);
    }
}

proof fn seat_is_found(workers: Seq<Worker>, i: nat, from: nat)
    requires
        from <= workers.len(),
        slots_before(workers, from) + i < slots_before(workers, workers.len()),
    ensures
        seat(workers, i, from) < workers.len(),
    decreases workers.len() - from,
{
    slots_accumulate(workers, from, workers.len());
    if from < workers.len() && workers[from as int].slots > 0 && i >= workers[from as int].slots {
        seat_is_found(workers, (i - workers[from as int].slots) as nat, from + 1);
    }
}

/// How many subtasks the first `n` nodes of a program have together.
pub open spec fn subtasks_before(nodes: Seq<ProgramNode>, n: int) -> int
    decreases n,
{
    if n <= 0 {
        0
    } else {
        subtasks_before(nodes, n - 1) + nodes[n - 1].parallelism
    }
}

proof fn subtasks_of_a_prefix(nodes: Seq<ProgramNode>, n: int)
    requires
        n < nodes.len(),
    ensures
        subtasks_before(nodes.drop_last(), n) == subtasks_before(nodes, n),
    decreases n,
{
    if n > 0 {
        subtasks_of_a_prefix(nodes, n - 1);
    }
}

proof fn subtasks_accumulate(nodes: Seq<ProgramNode>, n: int, m: int)
    requires
        0 <= n <= m <= nodes.len(),
    ensures
        0 <= subtasks_before(nodes, n) <= subtasks_before(nodes, m),
    decreases m,
{
    if n < m {
        subtasks_accumulate(nodes, n, m - 1);
    } else if n > 0 {
        subtasks_accumulate(nodes, n - 1, m - 1);
    }
}

proof fn placements_go_node_by_node(workers: Seq<Worker>, nodes: Seq<ProgramNode>, n: int, i: int)
    requires
        0 <= n < nodes.len(),
        0 <= i < nodes[n].parallelism,
    ensures
        placements(workers, nodes).len() == subtasks_before(nodes, nodes.len() as int),
        0 <= subtasks_before(nodes, n) + i < placements(workers, nodes).len(),
        placements(workers, nodes)[subtasks_before(nodes, n) + i] == placed(workers, nodes[n], i),
    decreases nodes.len(),
{
    let earlier = nodes.drop_last();
    placements_are_counted(workers, nodes);
    placements_are_counted(workers, earlier);
    subtasks_of_a_prefix(nodes, n);
    subtasks_accumulate(nodes, n, nodes.len() as int);
    subtasks_accumulate(nodes, n + 1, nodes.len() as int);
    subtasks_of_a_prefix(nodes, earlier.len() as int);
    if n < earlier.len() {
        placements_go_node_by_node(workers, earlier, n, i);
        assert(earlier[n] == nodes[n]);
    }
}

proof fn placements_are_counted(workers: Seq<Worker>, nodes: Seq<ProgramNode>)
    ensures
        placements(workers, nodes).len() == subtasks_before(nodes, nodes.len() as int),
    decreases nodes.len(),
{
    if nodes.len() > 0 {
        placements_are_counted(workers, nodes.drop_last());
        subtasks_of_a_prefix(nodes, nodes.len() - 1);
    }
}

/// Every subtask of every node is placed exactly once, node by node and subtask by subtask: there
/// are as many places as subtasks, and each is where its node and its index put it.
pub proof fn every_subtask_is_placed_once(
    workers: &Vec<&WorkerStatus>,
    program: &LogicalProgram,
    r: Vec<TaskAssignment>,
    n: int,
    i: int,
)
    requires
        call_ensures(compute_assignments, (workers, program), r),
        0 <= n < program.nodes@.len(),
        0 <= i < program.nodes@[n].parallelism,
    ensures
        r@.len() == subtasks_before(program.nodes@, program.nodes@.len() as int),
        0 <= subtasks_before(program.nodes@, n) + i < r@.len(),
        r@[subtasks_before(program.nodes@, n) + i].task_id == program.nodes@[n].node_id,
        i <= u32::MAX ==> r@[subtasks_before(program.nodes@, n) + i].subtask_idx == i,
{
    let model = Seq::new(workers@.len(), |i: int| workers@[i]@);
    let results = Seq::new(r@.len(), |i: int| r@[i]@);
    placements_go_node_by_node(model, program.nodes@, n, i);
    assert(results.len() == r@.len());
    assert(results[subtasks_before(program.nodes@, n) + i] == r@[subtasks_before(program.nodes@, n)
        + i]@);
}

/// A subtask runs on the worker whose run of slots it falls into, wherever every worker has a slot:
/// the workers before it have no more slots together than there are subtasks before it, and with
/// its own they have more. It is known by that worker's id and reached at that worker's addresses.
pub proof fn a_subtask_runs_in_its_workers_slots(
    workers: &Vec<&WorkerStatus>,
    program: &LogicalProgram,
    r: Vec<TaskAssignment>,
    n: int,
    i: int,
    w: nat,
)
    requires
        call_ensures(compute_assignments, (workers, program), r),
        forall|k: int| 0 <= k < workers@.len() ==> (#[trigger] workers@[k]).slots > 0,
        0 <= n < program.nodes@.len(),
        0 <= i < program.nodes@[n].parallelism,
        w < workers@.len(),
        slots_before(Seq::new(workers@.len(), |k: int| workers@[k]@), w) <= i < slots_before(
            Seq::new(workers@.len(), |k: int| workers@[k]@),
            w,
        ) + workers@[w as int].slots,
    ensures
        ({
            let place = r@[subtasks_before(program.nodes@, n) + i];
            &&& place.worker_id == workers@[w as int].id.0
            &&& place.worker_addr@ == workers@[w as int].data_address@
            &&& place.worker_rpc@ == workers@[w as int].rpc_address@
        }),
{
    let model = Seq::new(workers@.len(), |k: int| workers@[k]@);
    let results = Seq::new(r@.len(), |i: int| r@[i]@);
    placements_go_node_by_node(model, program.nodes@, n, i);
    assert(results.len() == r@.len());
    assert(results[subtasks_before(program.nodes@, n) + i] == r@[subtasks_before(program.nodes@, n)
        + i]@);
    assert forall|k: int| 0 <= k < model.len() implies (#[trigger] model[k]).slots > 0 by {
        assert(workers@[k].slots > 0);
    }
    assert(slots_before(model, w + 1) == slots_before(model, w) + model[w as int].slots);
    workers_take_consecutive_subtasks(model, i as nat, w);
}

proof fn a_slotless_worker_is_never_full(workers: Seq<Worker>, i: nat, from: nat, w: nat)
    requires
        from <= w < workers.len(),
        forall|k: int| from <= k < w ==> (#[trigger] workers[k]).slots > 0,
        workers[w as int].slots == 0,
        slots_before(workers, w) <= slots_before(workers, from) + i,
    ensures
        seat(workers, i, from) == w,
    decreases w - from,
{
    if from < w {
        slots_accumulate(workers, from, w);
        slots_accumulate(workers, from + 1, w);
        assert(workers[from as int].slots > 0);
        assert(i >= workers[from as int].slots);
        a_slotless_worker_is_never_full(
            workers,
            (i - workers[from as int].slots) as nat,
            from + 1,
            w,
        );
    }
}

/// The first worker without slots is never full: every subtask that the workers before it have no
/// slots for runs there.
pub proof fn the_first_worker_without_slots_takes_the_rest(
    workers: &Vec<&WorkerStatus>,
    program: &LogicalProgram,
    r: Vec<TaskAssignment>,
    n: int,
    i: int,
    w: nat,
)
    requires
        call_ensures(compute_assignments, (workers, program), r),
        0 <= n < program.nodes@.len(),
        0 <= i < program.nodes@[n].parallelism,
        w < workers@.len(),
        forall|k: int| 0 <= k < w ==> (#[trigger] workers@[k]).slots > 0,
        workers@[w as int].slots == 0,
        slots_before(Seq::new(workers@.len(), |k: int| workers@[k]@), w) <= i,
    ensures
        ({
            let place = r@[subtasks_before(program.nodes@, n) + i];
            &&& place.worker_id == workers@[w as int].id.0
            &&& place.worker_addr@ == workers@[w as int].data_address@
            &&& place.worker_rpc@ == workers@[w as int].rpc_address@
        }),
{
    let model = Seq::new(workers@.len(), |k: int| workers@[k]@);
    let results = Seq::new(r@.len(), |i: int| r@[i]@);
    placements_go_node_by_node(model, program.nodes@, n, i);
    assert(results.len() == r@.len());
    assert(results[subtasks_before(program.nodes@, n) + i] == r@[subtasks_before(program.nodes@, n)
        + i]@);
    assert forall|k: int| 0 <= k < w implies (#[trigger] model[k]).slots > 0 by {
        assert(workers@[k].slots > 0);
    }
    a_slotless_worker_is_never_full(model, i as nat, 0, w);
}

} // verus!
