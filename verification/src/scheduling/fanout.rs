//! The inventory of a `StartExecution` fan-out: which identifier each worker was issued, and
//! what has accounted for it since.

use crate::collections::keys_in_order;
use crate::types::WorkerId;
use std::collections::BTreeMap;
use vstd::prelude::*;

pub mod observed;
pub mod settlement;

verus! {

/// The three facts that account for an issued identifier.
#[derive(Clone, Copy, Debug, PartialEq, Eq, Structural)]
pub enum Accounting {
    /// The worker answered the request that carried the identifier.
    AuthoritativeResponse,
    /// The worker's generation acknowledged a fence that revokes the identifier.
    AcknowledgedFence,
    /// The worker's generation was observed to be gone.
    TerminatedGeneration,
}

impl Accounting {
    /// The fact's name, as an operator reads it.
    pub open spec fn name(self) -> Seq<char> {
        match self {
            Accounting::AuthoritativeResponse => "an authoritative response"@,
            Accounting::AcknowledgedFence => "an acknowledged fence and its revokes"@,
            Accounting::TerminatedGeneration => "an observed generation termination"@,
        }
    }

    pub fn as_str(self) -> (r: &'static str)
        ensures
            r@ == self.name(),
    {
        match self {
            Accounting::AuthoritativeResponse => "an authoritative response",
            Accounting::AcknowledgedFence => "an acknowledged fence and its revokes",
            Accounting::TerminatedGeneration => "an observed generation termination",
        }
    }
}

/// No two facts share a name.
pub proof fn accounting_names_are_distinct(left: Accounting, right: Accounting)
    requires
        left != right,
    ensures
        left.name() != right.name(),
{
    reveal_strlit("an authoritative response");
    reveal_strlit("an acknowledged fence and its revokes");
    reveal_strlit("an observed generation termination");
    assert(Accounting::AuthoritativeResponse.name()[4] == 'u');
    assert(Accounting::AcknowledgedFence.name()[4] == 'c');
    assert(Accounting::TerminatedGeneration.name()[4] == 'b');
}

/// One issued identifier and what has accounted for it, as a value of the model.
pub struct Attempt {
    pub id: Seq<char>,
    pub accounted: Option<Accounting>,
}

/// One issued identifier and what has accounted for it.
#[derive(Clone, Debug, PartialEq, Eq)]
pub struct AttemptRecord {
    pub attempt_id: String,
    pub accounted: Option<Accounting>,
}

impl View for AttemptRecord {
    type V = Attempt;

    open spec fn view(&self) -> Attempt {
        Attempt { id: self.attempt_id@, accounted: self.accounted }
    }
}

/// A fan-out's inventory as a value of the model: the generation it addressed, the fence it
/// issued under, and one attempt per worker.
#[verifier::ext_equal]
pub struct Inventory {
    pub generation: u64,
    pub fence: u64,
    pub attempts: Map<u64, Attempt>,
}

impl Inventory {
    /// The inventory of a fan-out that has issued nothing.
    pub open spec fn nothing_issued(generation: u64, fence: u64) -> Inventory {
        Inventory { generation, fence, attempts: Map::empty() }
    }

    /// The workers whose identifier nothing has accounted for.
    pub open spec fn outstanding(self) -> Set<u64> {
        self.attempts.dom().filter(|w: u64| self.attempts[w].accounted is None)
    }

    /// Whether every identifier is accounted for.
    pub open spec fn settled(self) -> bool {
        forall|w: u64| self.attempts.contains_key(w) ==> (#[trigger] self.attempts[w]).accounted is Some
    }

    /// The inventory after `id` was issued to `worker`: a fresh, unaccounted attempt.
    pub open spec fn with_issued(self, worker: u64, id: Seq<char>) -> Inventory {
        Inventory {
            attempts: self.attempts.insert(worker, Attempt { id, accounted: None }),
            ..self
        }
    }

    /// The inventory after `by` accounted for `worker`'s identifier.
    pub open spec fn with_accounted(self, worker: u64, by: Accounting) -> Inventory {
        Inventory {
            attempts: self.attempts.insert(
                worker,
                Attempt { id: self.attempts[worker].id, accounted: Some(by) },
            ),
            ..self
        }
    }

    /// Whether `listing` is the inventory's attempts, each once, by ascending worker.
    pub open spec fn lists(self, listing: Seq<(u64, Attempt)>) -> bool {
        &&& crate::collections::in_order(listing.map_values(|e: (u64, Attempt)| e.0), self.attempts.dom())
        &&& forall|i: int| 0 <= i < listing.len() ==> (#[trigger] listing[i]).1
            == self.attempts[listing[i].0]
    }
}

/// Which identifier each worker of a fan-out was issued, under one generation and one fence.
#[derive(Debug, PartialEq, Eq)]
pub struct IssuedAttempts {
    generation: u64,
    fence: u64,
    attempts: BTreeMap<u64, AttemptRecord>,
}

impl View for IssuedAttempts {
    type V = Inventory;

    closed spec fn view(&self) -> Inventory {
        Inventory {
            generation: self.generation,
            fence: self.fence,
            attempts: self.attempts@.map_values(|r: AttemptRecord| r@),
        }
    }
}

impl Clone for IssuedAttempts {
    fn clone(&self) -> (r: Self)
        ensures
            r@ == self@,
    {
        IssuedAttempts {
            generation: self.generation,
            fence: self.fence,
            attempts: self.attempts.clone(),
        }
    }
}

impl Default for IssuedAttempts {
    fn default() -> (r: Self)
        ensures
            r@ == Inventory::nothing_issued(0, 0),
    {
        IssuedAttempts::issued_under(0, 0)
    }
}

impl IssuedAttempts {
    /// The inventory of a fan-out to `generation` under `fence` that has issued nothing yet.
    pub fn issued_under(generation: u64, fence: u64) -> (r: Self)
        ensures
            r@ == Inventory::nothing_issued(generation, fence),
    {
        let r = IssuedAttempts { generation, fence, attempts: BTreeMap::new() };
        assert(r@.attempts =~= Map::empty());
        r
    }

    pub fn generation(&self) -> (r: u64)
        ensures
            r == self@.generation,
    {
        self.generation
    }

    pub fn fence(&self) -> (r: u64)
        ensures
            r == self@.fence,
    {
        self.fence
    }

    /// Records that `worker` was issued `attempt_id`, which nothing has accounted for.
    pub fn issued(&mut self, worker: WorkerId, attempt_id: String)
        ensures
            final(self)@ == old(self)@.with_issued(worker.0, attempt_id@),
    {
        proof {
            crate::collections::numbers_are_keys();
        }
        let record = AttemptRecord { attempt_id, accounted: None };
        self.attempts.insert(worker.0, record);
        assert(self@.attempts =~= old(self)@.with_issued(worker.0, attempt_id@).attempts);
    }

    /// Records what accounted for `worker`'s identifier. The first fact stands: an identifier
    /// that is accounted for already, or was never issued, is left as it is.
    fn account(&mut self, worker: WorkerId, accounting: Accounting)
        ensures
            final(self)@ == (if old(self)@.outstanding().contains(worker.0) {
                old(self)@.with_accounted(worker.0, accounting)
            } else {
                old(self)@
            }),
    {
        proof {
            crate::collections::numbers_are_keys();
        }
        if let Some(record) = self.attempts.remove(&worker.0) {
            let accounted = match record.accounted {
                Some(by) => by,
                None => accounting,
            };
            self.attempts.insert(
                worker.0,
                AttemptRecord { attempt_id: record.attempt_id, accounted: Some(accounted) },
            );
        }
        assert(self@.attempts =~= (if old(self)@.outstanding().contains(worker.0) {
            old(self)@.with_accounted(worker.0, accounting)
        } else {
            old(self)@
        }).attempts);
    }

    /// What `worker` was issued, if it was issued anything.
    pub fn record(&self, worker: WorkerId) -> (r: Option<&AttemptRecord>)
        ensures
            r is Some <==> self@.attempts.contains_key(worker.0),
            r matches Some(record) ==> record@ == self@.attempts[worker.0],
    {
        proof {
            crate::collections::numbers_are_keys();
        }
        self.attempts.get(&worker.0)
    }

    /// Every attempt, by ascending worker.
    pub fn records(&self) -> (r: Vec<(WorkerId, &AttemptRecord)>)
        ensures
            self@.lists(Seq::new(r@.len(), |i: int| (r@[i].0.0, r@[i].1@))),
    {
        proof {
            crate::collections::numbers_are_keys();
        }
        let keys = keys_in_order(&self.attempts);
        let mut r: Vec<(WorkerId, &AttemptRecord)> = Vec::new();
        let mut i: usize = 0;
        while i < keys.len()
            invariant
                i <= keys.len(),
                r@.len() == i,
                crate::collections::in_order(keys@, self.attempts@.dom()),
                forall|j: int|
                    0 <= j < i ==> (#[trigger] r@[j]).0.0 == keys@[j] && r@[j].1
                        == self.attempts@[keys@[j]],
            decreases keys.len() - i,
        {
            assert(keys@.contains(keys@[i as int]));
            if let Some(record) = self.attempts.get(&keys[i]) {
                r.push((WorkerId(keys[i]), record));
            }
            i = i + 1;
        }
        proof {
            let listing = Seq::new(r@.len(), |i: int| (r@[i].0.0, r@[i].1@));
            assert(listing.map_values(|e: (u64, Attempt)| e.0) =~= keys@);
            assert(self@.attempts.dom() =~= self.attempts@.dom());
            assert forall|i: int| 0 <= i < listing.len() implies (#[trigger] listing[i]).1
                == self@.attempts[listing[i].0] by {
                assert(r@[i].0.0 == keys@[i]);
                assert(keys@.contains(keys@[i]));
            }
        }
        r
    }

    /// An inventory lists finitely many attempts.
    pub proof fn is_finite(&self)
        ensures
            self@.attempts.dom().finite(),
    {
        assert(self@.attempts.dom() =~= self.attempts@.dom());
    }

    /// Every attempt by value, by ascending worker.
    pub fn listed(&self) -> (r: Vec<(u64, String, Option<Accounting>)>)
        ensures
            self@.lists(
                Seq::new(
                    r@.len(),
                    |i: int| (r@[i].0, Attempt { id: r@[i].1@, accounted: r@[i].2 }),
                ),
            ),
    {
        let records = self.records();
        let ghost listing = Seq::new(records@.len(), |i: int| (records@[i].0.0, records@[i].1@));
        let mut r: Vec<(u64, String, Option<Accounting>)> = Vec::new();
        let mut i: usize = 0;
        while i < records.len()
            invariant
                i <= records@.len(),
                r@.len() == i,
                forall|j: int|
                    0 <= j < i ==> {
                        &&& (#[trigger] r@[j]).0 == records@[j].0.0
                        &&& r@[j].1@ == records@[j].1@.id
                        &&& r@[j].2 == records@[j].1@.accounted
                    },
            decreases records@.len() - i,
        {
            let (worker, record) = records[i];
            r.push((worker.0, record.attempt_id.clone(), record.accounted));
            i = i + 1;
        }
        assert(Seq::new(
            r@.len(),
            |i: int| (r@[i].0, Attempt { id: r@[i].1@, accounted: r@[i].2 }),
        ) =~= listing) by {
            assert forall|j: int| 0 <= j < listing.len() implies (
                r@[j].0,
                Attempt { id: r@[j].1@, accounted: r@[j].2 },
            ) == listing[j] by {
                assert(r@[j].0 == records@[j].0.0);
            }
        }
        r
    }

    /// The attempts nothing has accounted for, by ascending worker.
    pub fn outstanding(&self) -> (r: Vec<(WorkerId, &AttemptRecord)>)
        ensures
            crate::collections::in_order(
                Seq::new(r@.len(), |i: int| r@[i].0.0),
                self@.outstanding(),
            ),
            forall|i: int|
                0 <= i < r@.len() ==> (#[trigger] r@[i]).1@ == self@.attempts[r@[i].0.0],
            r@.len() == self@.outstanding().len(),
    {
        let records = self.records();
        let mut r: Vec<(WorkerId, &AttemptRecord)> = Vec::new();
        let ghost listing = Seq::new(records@.len(), |i: int| (records@[i].0.0, records@[i].1@));
        let ghost keys = listing.map_values(|e: (u64, Attempt)| e.0);
        let mut i: usize = 0;
        let ghost mut seen: Set<u64> = Set::empty();
        while i < records.len()
            invariant
                i <= records@.len(),
                listing.len() == records@.len(),
                keys.len() == records@.len(),
                forall|j: int|
                    0 <= j < records@.len() ==> (#[trigger] records@[j]).0.0 == keys[j]
                        && records@[j].1@ == self@.attempts[keys[j]],
                crate::collections::in_order(keys, self@.attempts.dom()),
                seen.finite(),
                seen.len() == r@.len(),
                forall|j: int| 0 <= j < r@.len() ==> seen.contains((#[trigger] r@[j]).0.0),
                forall|w: u64| #[trigger]
                    seen.contains(w) <==> exists|j: int|
                        0 <= j < i && (#[trigger] keys[j]) == w && self@.outstanding().contains(w),
                forall|w: u64| #[trigger]
                    seen.contains(w) ==> exists|j: int|
                        0 <= j < r@.len() && (#[trigger] r@[j]).0.0 == w,
                forall|j: int|
                    0 <= j < r@.len() ==> (#[trigger] r@[j]).1@ == self@.attempts[r@[j].0.0],
                forall|j: int, k: int|
                    0 <= j < k < r@.len() ==> (#[trigger] r@[j]).0.0 < (#[trigger] r@[k]).0.0,
            decreases records@.len() - i,
        {
            let entry = records[i];
            let ghost before = seen;
            let ghost listed = r@;
            let ghost worker = entry.0.0;
            assert(worker == keys[i as int]);
            assert(keys.contains(worker));
            assert(self@.attempts.contains_key(worker));
            if entry.1.accounted.is_none() {
                r.push((entry.0, entry.1));
                proof {
                    seen = seen.insert(worker);
                    assert(!before.contains(worker));
                    assert forall|j: int| 0 <= j < listed.len() implies (#[trigger] listed[j]).0.0
                        < worker by {
                        let k = choose|k: int|
                            0 <= k < i && (#[trigger] keys[k]) == listed[j].0.0
                                && self@.outstanding().contains(listed[j].0.0);
                        assert(before.contains(listed[j].0.0));
                    }
                    assert forall|w: u64| #[trigger] seen.contains(w) implies exists|j: int|
                        0 <= j < r@.len() && (#[trigger] r@[j]).0.0 == w by {
                        if w == worker {
                            assert(r@[listed.len() as int].0.0 == w);
                        } else {
                            assert(before.contains(w));
                            let j = choose|j: int|
                                0 <= j < listed.len() && (#[trigger] listed[j]).0.0 == w;
                            assert(r@[j].0.0 == w);
                        }
                    }
                }
            }
            i = i + 1;
        }
        proof {
            assert(seen =~= self@.outstanding()) by {
                assert forall|w: u64| self@.outstanding().contains(w) implies seen.contains(w) by {
                    assert(keys.contains(w));
                    let j = choose|j: int| 0 <= j < keys.len() && keys[j] == w;
                    assert(keys[j] == w);
                }
            }
            let workers = Seq::new(r@.len(), |i: int| r@[i].0.0);
            assert forall|w: u64| #[trigger] self@.outstanding().contains(w) <==> workers.contains(
                w,
            ) by {
                if seen.contains(w) {
                    let j = choose|j: int| 0 <= j < r@.len() && (#[trigger] r@[j]).0.0 == w;
                    assert(workers[j] == w);
                }
                if workers.contains(w) {
                    let j = choose|j: int| 0 <= j < workers.len() && workers[j] == w;
                    assert(r@[j].0.0 == w);
                }
            }
        }
        r
    }

    pub fn outstanding_count(&self) -> (r: usize)
        ensures
            r == self@.outstanding().len(),
    {
        self.outstanding().len()
    }

    pub fn issued_count(&self) -> (r: usize)
        ensures
            r == self@.attempts.dom().len(),
    {
        proof {
            crate::collections::numbers_are_keys();
        }
        assert(self@.attempts.dom() =~= self.attempts@.dom());
        self.attempts.len()
    }
}

/// The inventory of a fan-out while it runs: what it issues, and what is answered as the answers
/// come in.
#[derive(Debug)]
pub struct AttemptLedger {
    attempts: IssuedAttempts,
    owned: bool,
}

impl View for AttemptLedger {
    type V = Inventory;

    closed spec fn view(&self) -> Inventory {
        self.attempts@
    }
}

impl AttemptLedger {
    /// Whether a settlement owner stands behind this fan-out.
    pub closed spec fn has_owner(self) -> bool {
        self.owned
    }

    /// The ledger of a fan-out to `generation` under `fence`, with or without a settlement owner
    /// to hand its obligation to.
    pub fn owned_by(owned: bool, generation: u64, fence: u64) -> (r: Self)
        ensures
            r@ == Inventory::nothing_issued(generation, fence),
            r.has_owner() == owned,
    {
        AttemptLedger { attempts: IssuedAttempts::issued_under(generation, fence), owned }
    }

    pub fn owned(&self) -> (r: bool)
        ensures
            r == self.has_owner(),
    {
        self.owned
    }

    /// Records that `worker` is about to be sent `attempt_id`.
    pub fn issued(&mut self, worker: WorkerId, attempt_id: &str)
        ensures
            final(self)@ == old(self)@.with_issued(worker.0, attempt_id@),
            final(self).has_owner() == old(self).has_owner(),
    {
        self.attempts.issued(worker, attempt_id.to_owned());
    }

    /// Records that `worker` answered the request that carried `attempt_id`. An answer that does
    /// not name what the worker was issued accounts for nothing, and says so.
    pub fn answered(&mut self, worker: WorkerId, attempt_id: &str) -> (r: observed::Accounted)
        ensures
            r@ == old(self)@.accounted(old(self)@.answer(worker.0, attempt_id@)),
            final(self)@ == old(self)@.after(old(self)@.answer(worker.0, attempt_id@)),
            final(self).has_owner() == old(self).has_owner(),
    {
        let seen = observed::Observed::authoritative_response(
            worker,
            self.attempts.generation(),
            attempt_id,
        );
        self.attempts.observe(&seen)
    }

    /// What the ledger holds now.
    pub fn snapshot(&self) -> (r: IssuedAttempts)
        ensures
            r@ == self@,
    {
        self.attempts.clone()
    }

    pub fn attempts(&self) -> (r: &IssuedAttempts)
        ensures
            r@ == self@,
    {
        &self.attempts
    }
}

impl Inventory {
    /// The observation that `worker`, of the generation this inventory addresses, answered the
    /// request that carried `id`.
    pub open spec fn answer(self, worker: u64, id: Seq<char>) -> observed::Observation {
        observed::Observation {
            worker,
            generation: self.generation,
            fact: observed::ObservedFact::AuthoritativeResponse { attempt_id: id },
        }
    }
}

/// What is issued is found again as it was issued, with nothing accounting for it, in place of
/// anything the worker was issued before. No other worker's attempt changes, nor the generation or
/// the fence; a fan-out that has issued nothing has nothing on record.
pub proof fn an_issued_identifier_is_found_again(
    attempts: &mut IssuedAttempts,
    worker: WorkerId,
    attempt_id: String,
    asked: WorkerId,
    before: Option<&AttemptRecord>,
    after: Option<&AttemptRecord>,
    generation: u64,
    fence: u64,
    fresh: IssuedAttempts,
    nothing: Option<&AttemptRecord>,
    addressed: u64,
    issued_under: u64,
)
    requires
        call_ensures(IssuedAttempts::issued, (attempts, worker, attempt_id), ()),
        call_ensures(IssuedAttempts::record, (&*old(attempts), asked), before),
        call_ensures(IssuedAttempts::record, (&*final(attempts), asked), after),
        call_ensures(IssuedAttempts::issued_under, (generation, fence), fresh),
        call_ensures(IssuedAttempts::record, (&fresh, asked), nothing),
        call_ensures(IssuedAttempts::generation, (&fresh,), addressed),
        call_ensures(IssuedAttempts::fence, (&fresh,), issued_under),
    ensures
        nothing is None,
        addressed == generation,
        issued_under == fence,
        after is Some <==> asked == worker || before is Some,
        asked == worker ==> after->0.attempt_id@ == attempt_id@ && after->0.accounted is None,
        asked != worker && before is Some ==> after->0.attempt_id@ == before->0.attempt_id@
            && after->0.accounted == before->0.accounted,
        final(attempts)@.generation == old(attempts)@.generation,
        final(attempts)@.fence == old(attempts)@.fence,
{
}

/// What is outstanding is exactly what is on record with nothing accounting for it, each once and by
/// ascending worker, and it is counted as it is listed.
pub proof fn what_is_outstanding_is_what_nothing_accounts_for(
    attempts: &IssuedAttempts,
    outstanding: Vec<(WorkerId, &AttemptRecord)>,
    count: usize,
    asked: WorkerId,
    record: Option<&AttemptRecord>,
)
    requires
        call_ensures(IssuedAttempts::outstanding, (attempts,), outstanding),
        call_ensures(IssuedAttempts::outstanding_count, (attempts,), count),
        call_ensures(IssuedAttempts::record, (attempts, asked), record),
    ensures
        count == outstanding@.len(),
        (exists|i: int| 0 <= i < outstanding@.len() && (#[trigger] outstanding@[i]).0 == asked)
            <==> record is Some && record->0.accounted is None,
        forall|i: int|
            0 <= i < outstanding@.len() && (#[trigger] outstanding@[i]).0 == asked
                ==> outstanding@[i].1.attempt_id@ == record->0.attempt_id@,
        forall|i: int, j: int|
            0 <= i < j < outstanding@.len() ==> (#[trigger] outstanding@[i]).0.0 < (
            #[trigger] outstanding@[j]).0.0,
{
    let workers = Seq::new(outstanding@.len(), |i: int| outstanding@[i].0.0);
    assert(workers.len() == outstanding@.len());
    assert(forall|i: int|
        0 <= i < workers.len() ==> #[trigger] workers[i] == (#[trigger] outstanding@[i]).0.0);
    assert(attempts@.outstanding().contains(asked.0) <==> workers.contains(asked.0));
    if workers.contains(asked.0) {
        let i = choose|i: int| 0 <= i < workers.len() && workers[i] == asked.0;
        assert(outstanding@[i].0.0 == asked.0);
        assert(outstanding@[i].0 == asked);
    }
    if exists|i: int| 0 <= i < outstanding@.len() && (#[trigger] outstanding@[i]).0 == asked {
        let i = choose|i: int|
            0 <= i < outstanding@.len() && (#[trigger] outstanding@[i]).0 == asked;
        assert(workers[i] == asked.0);
        assert(workers.contains(asked.0));
    }
    assert forall|i: int, j: int| 0 <= i < j < outstanding@.len() implies (
    #[trigger] outstanding@[i]).0.0 < (#[trigger] outstanding@[j]).0.0 by {
        assert(workers[i] < workers[j]);
    }
}

/// Every attempt is listed once, by ascending worker, as it is on record; by value and by reference
/// alike.
pub proof fn every_attempt_is_listed_as_recorded(
    attempts: &IssuedAttempts,
    records: Vec<(WorkerId, &AttemptRecord)>,
    listed: Vec<(u64, String, Option<Accounting>)>,
    count: usize,
    asked: WorkerId,
    record: Option<&AttemptRecord>,
)
    requires
        call_ensures(IssuedAttempts::records, (attempts,), records),
        call_ensures(IssuedAttempts::listed, (attempts,), listed),
        call_ensures(IssuedAttempts::issued_count, (attempts,), count),
        call_ensures(IssuedAttempts::record, (attempts, asked), record),
    ensures
        records@.len() == listed@.len(),
        forall|i: int|
            0 <= i < listed@.len() ==> (#[trigger] listed@[i]).0 == records@[i].0.0
                && listed@[i].1@ == records@[i].1.attempt_id@ && listed@[i].2
                == records@[i].1.accounted,
        forall|i: int, j: int|
            0 <= i < j < listed@.len() ==> (#[trigger] listed@[i]).0 < (#[trigger] listed@[j]).0,
        record is Some <==> exists|i: int|
            0 <= i < listed@.len() && (#[trigger] listed@[i]).0 == asked.0,
        forall|i: int|
            0 <= i < listed@.len() && (#[trigger] listed@[i]).0 == asked.0 ==> listed@[i].1@
                == record->0.attempt_id@ && listed@[i].2 == record->0.accounted,
        count == listed@.len(),
{
    let by_reference = Seq::new(records@.len(), |i: int| (records@[i].0.0, records@[i].1@));
    let by_value = Seq::new(
        listed@.len(),
        |i: int| (listed@[i].0, Attempt { id: listed@[i].1@, accounted: listed@[i].2 }),
    );
    let left = by_reference.map_values(|e: (u64, Attempt)| e.0);
    let right = by_value.map_values(|e: (u64, Attempt)| e.0);
    let workers = attempts@.attempts.dom();
    crate::collections::one_order(left, right, workers);
    assert(left.len() == records@.len() && right.len() == listed@.len());
    assert forall|i: int| 0 <= i < listed@.len() implies (#[trigger] listed@[i]).0
        == records@[i].0.0 && listed@[i].1@ == records@[i].1.attempt_id@ && listed@[i].2
        == records@[i].1.accounted by {
        assert(right[i] == by_value[i].0);
        assert(left[i] == by_reference[i].0);
        assert(by_value[i].1 == attempts@.attempts[by_value[i].0]);
        assert(by_reference[i].1 == attempts@.attempts[by_reference[i].0]);
    }
    assert forall|i: int, j: int| 0 <= i < j < listed@.len() implies (#[trigger] listed@[i]).0 < (
    #[trigger] listed@[j]).0 by {
        assert(right[i] < right[j]);
    }
    assert(workers.contains(asked.0) <==> right.contains(asked.0));
    if right.contains(asked.0) {
        let i = choose|i: int| 0 <= i < right.len() && right[i] == asked.0;
        assert(listed@[i].0 == asked.0);
    }
    assert forall|i: int| 0 <= i < listed@.len() && (#[trigger] listed@[i]).0 == asked.0 implies {
        &&& record is Some
        &&& listed@[i].1@ == record->0.attempt_id@
        &&& listed@[i].2 == record->0.accounted
    } by {
        assert(right[i] == asked.0);
        assert(right.contains(asked.0));
        assert(by_value[i].1 == attempts@.attempts[by_value[i].0]);
    }
    assert(right.no_duplicates()) by {
        assert forall|i: int, j: int| 0 <= i < right.len() && 0 <= j < right.len() && i
            != j implies right[i] != right[j] by {
            if i < j {
                assert(right[i] < right[j]);
            } else {
                assert(right[j] < right[i]);
            }
        }
    }
    right.unique_seq_to_set();
    assert(right.to_set() =~= workers);
}

/// A ledger is the inventory it keeps: what it issues and what is answered to it, its inventory
/// has, and a snapshot of it is that inventory.
pub proof fn a_ledger_keeps_the_inventory_it_hands_out(
    ledger: &mut AttemptLedger,
    worker: WorkerId,
    attempt_id: &str,
    snapshot: IssuedAttempts,
    kept: &IssuedAttempts,
    asked: WorkerId,
    of_snapshot: Option<&AttemptRecord>,
    of_kept: Option<&AttemptRecord>,
    before: Option<&AttemptRecord>,
    earlier: &IssuedAttempts,
)
    requires
        call_ensures(AttemptLedger::attempts, (&*old(ledger),), earlier),
        call_ensures(AttemptLedger::issued, (ledger, worker, attempt_id), ()),
        call_ensures(AttemptLedger::snapshot, (&*final(ledger),), snapshot),
        call_ensures(AttemptLedger::attempts, (&*final(ledger),), kept),
        call_ensures(IssuedAttempts::record, (&snapshot, asked), of_snapshot),
        call_ensures(IssuedAttempts::record, (kept, asked), of_kept),
        call_ensures(IssuedAttempts::record, (earlier, asked), before),
    ensures
        of_snapshot is Some <==> of_kept is Some,
        of_snapshot is Some ==> of_snapshot->0.attempt_id@ == of_kept->0.attempt_id@
            && of_snapshot->0.accounted == of_kept->0.accounted,
        of_kept is Some <==> asked == worker || before is Some,
        asked == worker ==> of_kept->0.attempt_id@ == attempt_id@ && of_kept->0.accounted is None,
        asked != worker && before is Some ==> of_kept->0.attempt_id@ == before->0.attempt_id@
            && of_kept->0.accounted == before->0.accounted,
{
}

/// A fact is told under its own name.
pub proof fn facts_are_told_under_their_names(fact: Accounting, name: &'static str)
    requires
        call_ensures(Accounting::as_str, (fact,), name),
    ensures
        name@ == "an authoritative response"@ <==> fact == Accounting::AuthoritativeResponse,
        name@ == "an acknowledged fence and its revokes"@ <==> fact
            == Accounting::AcknowledgedFence,
        name@ == "an observed generation termination"@ <==> fact
            == Accounting::TerminatedGeneration,
{
    reveal_strlit("an authoritative response");
    reveal_strlit("an acknowledged fence and its revokes");
    reveal_strlit("an observed generation termination");
    assert("an authoritative response"@[4] == 'u');
    assert("an acknowledged fence and its revokes"@[4] == 'c');
    assert("an observed generation termination"@[4] == 'b');
}

/// A ledger is of the generation, the fence and the owner it was begun for, and nothing is on record
/// in it; an answer accounts there for what it accounts for in the ledger's inventory.
pub proof fn a_ledger_accounts_as_its_inventory_does(
    owned: bool,
    generation: u64,
    fence: u64,
    fresh: AttemptLedger,
    has_owner: bool,
    begun: &IssuedAttempts,
    of_generation: u64,
    under: u64,
    asked: WorkerId,
    nothing: Option<&AttemptRecord>,
    ledger: &mut AttemptLedger,
    worker: WorkerId,
    attempt_id: &str,
    r: observed::Accounted,
    attempts: &mut IssuedAttempts,
    addressed: u64,
    seen: observed::Observed,
    accounted: observed::Accounted,
)
    requires
        call_ensures(AttemptLedger::owned_by, (owned, generation, fence), fresh),
        call_ensures(AttemptLedger::owned, (&fresh,), has_owner),
        call_ensures(AttemptLedger::attempts, (&fresh,), begun),
        call_ensures(IssuedAttempts::generation, (begun,), of_generation),
        call_ensures(IssuedAttempts::fence, (begun,), under),
        call_ensures(IssuedAttempts::record, (begun, asked), nothing),
        old(attempts)@ == old(ledger)@,
        call_ensures(AttemptLedger::answered, (ledger, worker, attempt_id), r),
        call_ensures(IssuedAttempts::generation, (&*old(attempts),), addressed),
        call_ensures(
            observed::Observed::authoritative_response,
            (worker, addressed, attempt_id),
            seen,
        ),
        call_ensures(IssuedAttempts::observe, (attempts, &seen), accounted),
    ensures
        has_owner == owned,
        of_generation == generation,
        under == fence,
        nothing is None,
        r@ == accounted@,
        final(ledger)@ == final(attempts)@,
        final(ledger).has_owner() == old(ledger).has_owner(),
{
}

} // verus!
