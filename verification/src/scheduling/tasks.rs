//! The tasks that have reported having started.

use std::collections::HashSet;
use vstd::prelude::*;

verus! {

/// The subtasks that have started, each counted once however often it reports.
#[derive(Debug)]
pub struct StartedTasks {
    /// One number for each subtask: its task's id in the upper half, its index in the lower.
    tasks: HashSet<u64>,
}

/// The subtask a number stands for.
spec fn subtask(number: u64) -> (u32, u32) {
    ((number / 0x1_0000_0000) as u32, (number % 0x1_0000_0000) as u32)
}

impl View for StartedTasks {
    type V = Set<(u32, u32)>;

    closed spec fn view(&self) -> Set<(u32, u32)> {
        self.tasks@.map(|number: u64| subtask(number))
    }
}

impl StartedTasks {
    #[verifier::type_invariant]
    closed spec fn finitely_many(self) -> bool {
        self.tasks@.finite()
    }

    pub fn new() -> (r: Self)
        ensures
            r@ == Set::<(u32, u32)>::empty(),
    {
        let r = StartedTasks { tasks: HashSet::new() };
        assert(r@ =~= Set::empty());
        r
    }

    /// Records that a subtask has started.
    pub fn insert(&mut self, task_id: u32, subtask_idx: u32)
        ensures
            final(self)@ == old(self)@.insert((task_id, subtask_idx)),
    {
        broadcast use vstd::std_specs::hash::group_hash_axioms;

        let number: u64 = task_id as u64 * 0x1_0000_0000 + subtask_idx as u64;
        proof {
            use_type_invariant(&*self);
        }
        let mut tasks: HashSet<u64> = HashSet::new();
        std::mem::swap(&mut tasks, &mut self.tasks);
        tasks.insert(number);
        self.tasks = tasks;
        proof {
            let before = old(self).tasks@;
            assert(subtask(number) == (task_id, subtask_idx));
            assert(self@ =~= old(self)@.insert((task_id, subtask_idx))) by {
                assert forall|t: (u32, u32)|
                    self@.contains(t) == old(self)@.insert((task_id, subtask_idx)).contains(t) by {
                    if self@.contains(t) {
                        let n = choose|n: u64| #[trigger] self.tasks@.contains(n) && subtask(n) == t;
                        assert(n == number || before.contains(n));
                    }
                    if t == (task_id, subtask_idx) {
                        assert(self.tasks@.contains(number));
                    }
                    if old(self)@.contains(t) {
                        let n = choose|n: u64| #[trigger] before.contains(n) && subtask(n) == t;
                        assert(self.tasks@.contains(n));
                    }
                }
            }
        }
    }

    /// How many subtasks have started.
    pub fn len(&self) -> (r: usize)
        ensures
            r == self@.len(),
    {
        broadcast use vstd::std_specs::hash::group_hash_axioms;

        proof {
            use_type_invariant(self);
            let f = |number: u64| subtask(number);
            assert forall|a: u64, b: u64| #[trigger] f(a) == #[trigger] f(b) implies a == b by {
                assert(a == (a / 0x1_0000_0000) * 0x1_0000_0000 + a % 0x1_0000_0000);
                assert(b == (b / 0x1_0000_0000) * 0x1_0000_0000 + b % 0x1_0000_0000);
                assert(a / 0x1_0000_0000 <= u32::MAX && b / 0x1_0000_0000 <= u32::MAX);
            }
            vstd::set_lib::lemma_map_size(self.tasks@, self@, f);
        }
        self.tasks.len()
    }
}

/// A subtask is counted once however often it reports: two reports count as two subtasks exactly
/// where they are not of the same one.
pub proof fn a_subtask_is_counted_once(
    first: &mut StartedTasks,
    second: &mut StartedTasks,
    task: u32,
    subtask: u32,
    other_task: u32,
    other_subtask: u32,
    none: usize,
    one: usize,
    both: usize,
)
    requires
        call_ensures(StartedTasks::new, (), *old(first)),
        call_ensures(StartedTasks::insert, (first, task, subtask), ()),
        *old(second) == *final(first),
        call_ensures(StartedTasks::insert, (second, other_task, other_subtask), ()),
        call_ensures(StartedTasks::len, (&*old(first),), none),
        call_ensures(StartedTasks::len, (&*final(first),), one),
        call_ensures(StartedTasks::len, (&*final(second),), both),
    ensures
        none == 0,
        one == 1,
        both == (if other_task == task && other_subtask == subtask {
            1int
        } else {
            2
        }),
{
}

} // verus!
