//! An interrupted fan-out's obligation: the attempts it issued, and the authority standing
//! behind them, kept together until every attempt is accounted for.

use crate::admission::{Admission, Released, Retained};
use crate::scheduling::fanout::observed::{Accounted, Observed};
use crate::scheduling::fanout::{Accounting, Attempt, Inventory, IssuedAttempts};
use crate::types::WorkerId;
use std::sync::atomic::{AtomicBool, Ordering};
use std::sync::Arc;
use tokio::sync::OwnedMutexGuard;
use vstd::prelude::*;

verus! {

/// `AtomicBool::store` of `true`. It touches one atomic and cannot unwind.
#[verifier::external_body]
fn raise(flag: &Arc<AtomicBool>)
    opens_invariants none
    no_unwind
{
    flag.store(true, Ordering::SeqCst)
}

/// Raises a shared flag when it is dropped while armed, which is how a transfer learns that the
/// obligation it handed over was dropped rather than kept.
struct Tripwire {
    armed: bool,
    raised: Arc<AtomicBool>,
}

impl Drop for Tripwire {
    fn drop(&mut self)
        opens_invariants none
        no_unwind
    {
        if self.armed {
            raise(&self.raised);
        }
    }
}

impl Tripwire {
    /// A tripwire that raises a flag of its own when it is dropped, unless it is disarmed first.
    fn set() -> (r: Self)
        ensures
            r.armed,
            call_ensures(AtomicBool::new, (false,), *r.raised),
    {
        let flag = AtomicBool::new;
        Tripwire { armed: true, raised: Arc::new(flag(false)) }
    }

    /// Disarms the tripwire: dropping it from here on raises nothing.
    fn disarm(&mut self)
        ensures
            !final(self).armed,
            final(self).raised == old(self).raised,
    {
        self.armed = false;
    }
}

/// An obligation as a value of the model: whose authority it holds, the guard that stands for it,
/// and what it lists.
#[verifier::ext_equal]
pub struct Obligation {
    pub job: Seq<char>,
    pub guard: OwnedMutexGuard<()>,
    pub inventory: Inventory,
}

/// The attempts a fan-out issued together with the job's authority. The two are separated only
/// in this module, so whoever holds one holds the other.
pub struct SettlementBundle {
    admission: Admission,
    issued: IssuedAttempts,
    tripwire: Tripwire,
}

impl View for SettlementBundle {
    type V = Obligation;

    closed spec fn view(&self) -> Obligation {
        Obligation {
            job: self.admission@,
            guard: self.admission.holds(),
            inventory: self.issued@,
        }
    }
}

/// The record that an obligation was taken over, and of how many identifiers it still owed.
#[derive(Debug, PartialEq, Eq, Structural)]
pub struct SettlementReceipt {
    outstanding: usize,
}

impl SettlementReceipt {
    pub closed spec fn owed(self) -> nat {
        self.outstanding as nat
    }

    pub fn outstanding(&self) -> (r: usize)
        ensures
            r == self.owed(),
    {
        self.outstanding
    }
}

/// Why an obligation that was offered is not taken over.
pub enum SettlementRefusal {
    /// It came back, whole and unreleased.
    Declined(SettlementBundle),
    /// It was dropped, and the authority with it.
    Abandoned { outstanding: usize },
}

/// A party that can take an interrupted fan-out's obligation over.
pub trait SettlementOwner {
    /// Whether the owner, as it stands, gives back an obligation it is offered.
    spec fn declines(&self, offered: Obligation) -> bool;

    /// The obligation the owner speaks for, if any.
    spec fn speaks_for(&self) -> Option<Obligation>;

    /// The obligation the owner, as it stands, speaks for once it was offered another.
    spec fn speaks_for_after(&self, offered: Obligation) -> Option<Obligation>;

    /// Takes the obligation over, or gives it back. One that is given back is whole and
    /// unreleased: the very authority and inventory that were offered.
    fn take_over(&mut self, bundle: SettlementBundle) -> (r: Result<(), SettlementBundle>)
        ensures
            r is Err <==> old(self).declines(bundle@),
            r matches Err(returned) ==> returned@ == bundle@ && returned.halves()
                == bundle.halves(),
            final(self).speaks_for() == old(self).speaks_for_after(bundle@),
    ;
}

/// Where an obligation went.
#[must_use]
pub enum SettlementOutcome {
    /// A settlement owner holds it.
    Transferred(SettlementReceipt),
    /// It stays with whoever offered it.
    SettledInPlace(Admission, IssuedAttempts),
    /// The owner it was offered to dropped it.
    Abandoned { outstanding: usize },
}

/// How many attempts left the fencing record with a handover, and which way.
#[derive(Clone, Copy, Debug, PartialEq, Eq, Structural)]
pub struct HandoverRecord {
    transferred: usize,
    abandoned: usize,
}

impl Default for HandoverRecord {
    fn default() -> (r: Self)
        ensures
            r.counts() == (0nat, 0nat),
    {
        HandoverRecord { transferred: 0, abandoned: 0 }
    }
}

impl HandoverRecord {
    /// The attempts transferred and the attempts abandoned.
    pub closed spec fn counts(self) -> (nat, nat) {
        (self.transferred as nat, self.abandoned as nat)
    }

    pub fn transferred(&self) -> (r: usize)
        ensures
            r == self.counts().0,
    {
        self.transferred
    }

    pub fn abandoned(&self) -> (r: usize)
        ensures
            r == self.counts().1,
    {
        self.abandoned
    }
}

impl SettlementOutcome {
    /// What the fencing record starts from: the attempts it is answerable for, and what went
    /// elsewhere. An obligation that stayed releases its authority here; any other outcome holds
    /// none.
    pub fn into_fencing_record(self) -> (r: (IssuedAttempts, HandoverRecord, Option<Released>))
        ensures
            recorded(self, r.0@, r.1.counts().0, r.1.counts().1),
            match self {
                SettlementOutcome::SettledInPlace(admission, _) => r.2 matches Some(released)
                    && released@ == admission@ && crate::admission::unlocked(admission.holds()),
                _ => r.2 is None,
            },
    {
        match self {
            SettlementOutcome::SettledInPlace(admission, issued) => {
                let released = admission.release();
                (issued, HandoverRecord::default(), Some(released))
            },
            SettlementOutcome::Transferred(receipt) => (
                IssuedAttempts::default(),
                HandoverRecord { transferred: receipt.outstanding(), abandoned: 0 },
                None,
            ),
            SettlementOutcome::Abandoned { outstanding } => (
                IssuedAttempts::default(),
                HandoverRecord { transferred: 0, abandoned: outstanding },
                None,
            ),
        }
    }
}

/// Where an obligation can go. One that stays with whoever offered it stays whole, and without an
/// owner it does; otherwise a receipt, or the report of a loss, says how many identifiers it still
/// owed.
pub open spec fn disposed(
    obligation: Obligation,
    has_owner: bool,
    outcome: SettlementOutcome,
) -> bool {
    match outcome {
        SettlementOutcome::Transferred(receipt) => has_owner && receipt.owed()
            == obligation.inventory.outstanding().len(),
        SettlementOutcome::SettledInPlace(admission, issued) => admission@ == obligation.job
            && admission.holds() == obligation.guard && issued@ == obligation.inventory,
        SettlementOutcome::Abandoned { outstanding } => has_owner && outstanding
            == obligation.inventory.outstanding().len(),
    }
}

/// Whether a fencing record that is answerable for `outstanding`, and counts this many attempts as
/// transferred and as abandoned, is the one `outcome` starts.
pub open spec fn recorded(
    outcome: SettlementOutcome,
    outstanding: Inventory,
    transferred: nat,
    abandoned: nat,
) -> bool {
    match outcome {
        SettlementOutcome::SettledInPlace(_, issued) => outstanding == issued@ && transferred == 0
            && abandoned == 0,
        SettlementOutcome::Transferred(receipt) => outstanding == Inventory::nothing_issued(0, 0)
            && transferred == receipt.owed() && abandoned == 0,
        SettlementOutcome::Abandoned { outstanding: lost } => outstanding
            == Inventory::nothing_issued(0, 0) && transferred == 0 && abandoned == lost,
    }
}

/// The record that every identifier of an obligation was accounted for, and that the authority
/// behind them was released on that ground.
#[must_use]
#[derive(Clone, Debug, PartialEq, Eq)]
pub struct Discharged {
    accounted: Vec<(WorkerId, String, Accounting)>,
    released: Released,
}

impl Discharged {
    /// The discharged identifiers, with their workers and what accounted for each.
    pub closed spec fn listing(self) -> Seq<(u64, Attempt)> {
        Seq::new(
            self.accounted@.len(),
            |i: int|
                (
                    self.accounted@[i].0.0,
                    Attempt {
                        id: self.accounted@[i].1@,
                        accounted: Some(self.accounted@[i].2),
                    },
                ),
        )
    }

    /// Whose authority was released.
    pub closed spec fn job(self) -> Seq<char> {
        self.released@
    }

    /// Every identifier with its worker and the fact that accounted for it, by ascending worker.
    pub fn accounted(&self) -> (r: &[(WorkerId, String, Accounting)])
        ensures
            r@.len() == self.listing().len(),
            forall|i: int|
                0 <= i < r@.len() ==> self.listing()[i] == (
                    (#[trigger] r@[i]).0.0,
                    Attempt { id: r@[i].1@, accounted: Some(r@[i].2) },
                ),
    {
        self.accounted.as_slice()
    }

    pub fn count(&self) -> (r: usize)
        ensures
            r == self.listing().len(),
    {
        self.accounted.len()
    }
}

/// What became of a job's authority.
pub enum Disposal {
    Released(Released),
    Retained(Retained),
}

/// What an owner's answer, and whether the obligation was dropped meanwhile, come to.
pub fn concluded(
    outstanding: usize,
    answer: Result<(), SettlementBundle>,
    released_unsettled: bool,
) -> (r: Result<SettlementReceipt, SettlementRefusal>)
    ensures
        match answer {
            Err(returned) => r == Err::<SettlementReceipt, _>(
                SettlementRefusal::Declined(returned),
            ),
            Ok(()) => if released_unsettled {
                r == Err::<SettlementReceipt, _>(SettlementRefusal::Abandoned { outstanding })
            } else {
                r matches Ok(receipt) && receipt.owed() == outstanding
            },
        },
{
    match answer {
        Err(returned) => Err(SettlementRefusal::Declined(returned)),
        Ok(()) => if released_unsettled {
            Err(SettlementRefusal::Abandoned { outstanding })
        } else {
            Ok(SettlementReceipt { outstanding })
        },
    }
}

/// Where an obligation went, given how offering it ended. A declined one stays where it was.
pub fn outcome_of(
    offered: Result<SettlementReceipt, SettlementRefusal>,
) -> (r: SettlementOutcome)
    ensures
        match offered {
            Ok(receipt) => r == SettlementOutcome::Transferred(receipt),
            Err(SettlementRefusal::Declined(bundle)) => r matches SettlementOutcome::SettledInPlace(
                admission,
                issued,
            ) && (admission, issued) == bundle.halves() && admission@ == bundle@.job && issued@
                == bundle@.inventory,
            Err(SettlementRefusal::Abandoned { outstanding }) => r
                == SettlementOutcome::Abandoned { outstanding },
        },
{
    match offered {
        Ok(receipt) => SettlementOutcome::Transferred(receipt),
        Err(SettlementRefusal::Declined(bundle)) => {
            let (admission, issued) = bundle.keep();
            SettlementOutcome::SettledInPlace(admission, issued)
        },
        Err(SettlementRefusal::Abandoned { outstanding }) => SettlementOutcome::Abandoned {
            outstanding,
        },
    }
}

impl SettlementBundle {
    /// A bundle is never dropped in silence: until it is taken apart, its tripwire is armed.
    #[verifier::type_invariant]
    closed spec fn is_watched(self) -> bool {
        self.tripwire.armed
    }

    /// The two halves: the authority, and what it stands behind.
    pub closed spec fn halves(self) -> (Admission, IssuedAttempts) {
        (self.admission, self.issued)
    }

    /// Whether the flag that dropping the bundle raises can have read `raised`.
    pub closed spec fn flag_reads(self, raised: bool) -> bool {
        call_ensures(AtomicBool::load, (&*self.tripwire.raised, Ordering::SeqCst), raised)
    }

    /// Whether that flag was made for the bundle, and not raised.
    pub closed spec fn flag_begins_lowered(self) -> bool {
        call_ensures(AtomicBool::new, (false,), *self.tripwire.raised)
    }

    /// Whether taking the bundle apart gives `parts`.
    pub closed spec fn comes_apart_into(self, parts: (Admission, IssuedAttempts)) -> bool {
        exists|left: Tripwire| #[trigger]
            call_ensures(SettlementBundle::into_parts, (self,), (parts.0, parts.1, left))
    }

    pub fn new(admission: Admission, issued: IssuedAttempts) -> (r: Self)
        ensures
            r.halves() == (admission, issued),
            r@ == (Obligation {
                job: admission@,
                guard: admission.holds(),
                inventory: issued@,
            }),
            r.flag_begins_lowered(),
    {
        SettlementBundle { admission, issued, tripwire: Tripwire::set() }
    }

    pub fn issued(&self) -> (r: &IssuedAttempts)
        ensures
            r@ == self@.inventory,
    {
        &self.issued
    }

    /// Takes the obligation apart. Private, so that nobody else can keep one half of it.
    /// Neither half is released by it, and what is left is disarmed: dropping it raises no flag.
    fn into_parts(self) -> (r: (Admission, IssuedAttempts, Tripwire))
        ensures
            (r.0, r.1) == self.halves(),
            r.0@ == self@.job,
            r.1@ == self@.inventory,
            !r.2.armed,
            r.2.raised == self.tripwire.raised,
    {
        let SettlementBundle { admission, issued, tripwire } = self;
        let mut tripwire = tripwire;
        tripwire.disarm();
        (admission, issued, tripwire)
    }

    /// Keeps the obligation where it is.
    fn keep(self) -> (r: (Admission, IssuedAttempts))
        ensures
            r == self.halves(),
            r.0@ == self@.job,
            r.1@ == self@.inventory,
    {
        let (admission, issued, _disarmed) = self.into_parts();
        (admission, issued)
    }

    /// Gives the whole obligation back to the attempt that is to answer for it from here on. Its
    /// authority stays taken.
    pub(crate) fn give_back(self) -> (r: (Admission, IssuedAttempts))
        ensures
            r == self.halves(),
            r.0@ == self@.job,
            r.0.holds() == self@.guard,
            r.1@ == self@.inventory,
    {
        self.keep()
    }

    /// Offers the whole obligation to `owner`, whose answer decides: one it declines comes back as
    /// it was offered. One it accepts comes to a receipt exactly where the flag that dropping it
    /// raises is not raised.
    pub fn transfer_to<O: SettlementOwner + ?Sized>(
        self,
        owner: &mut O,
    ) -> (r: Result<SettlementReceipt, SettlementRefusal>)
        ensures
            (r is Err && r->Err_0 is Declined) <==> old(owner).declines(self@),
            final(owner).speaks_for() == old(owner).speaks_for_after(self@),
            r matches Err(SettlementRefusal::Declined(returned)) ==> returned@ == self@
                && returned.halves() == self.halves(),
            exists|raised: bool| #[trigger]
                self.flag_reads(raised) && (!old(owner).declines(self@) ==> (r is Ok <==> !raised)),
            r matches Ok(receipt) ==> receipt.owed() == self@.inventory.outstanding().len(),
            r matches Err(SettlementRefusal::Abandoned { outstanding }) ==> outstanding
                == self@.inventory.outstanding().len(),
    {
        let outstanding: usize = self.issued.outstanding_count();
        let released_unsettled = Arc::clone(&self.tripwire.raised);
        let answer = owner.take_over(self);
        let read = AtomicBool::load;
        let raised = read(&released_unsettled, Ordering::SeqCst);
        assert(self.flag_reads(raised));
        concluded(outstanding, answer, raised)
    }

    /// Offers one observation to the obligation. Whatever it accounts for, the authority is neither
    /// released nor replaced.
    pub fn observe(&mut self, observed: &Observed) -> (r: Accounted)
        ensures
            final(self).halves().0 == old(self).halves().0,
            r@ == old(self)@.inventory.accounted(observed@),
            final(self)@ == (Obligation {
                inventory: old(self)@.inventory.after(observed@),
                ..old(self)@
            }),
            forall|raised: bool| #[trigger]
                final(self).flag_reads(raised) == old(self).flag_reads(raised),
    {
        proof {
            use_type_invariant(&*self);
        }
        let mut issued = IssuedAttempts::default();
        std::mem::swap(&mut issued, &mut self.issued);
        let accounted = issued.observe(observed);
        self.issued = issued;
        accounted
    }

    /// Every identifier with what accounted for it, unless one is not accounted for.
    fn fully_accounted(&self) -> (r: Option<Vec<(WorkerId, String, Accounting)>>)
        ensures
            r is Some <==> self@.inventory.settled(),
            r matches Some(accounted) ==> self@.inventory.lists(
                Seq::new(
                    accounted@.len(),
                    |i: int|
                        (
                            accounted@[i].0.0,
                            Attempt { id: accounted@[i].1@, accounted: Some(accounted@[i].2) },
                        ),
                ),
            ),
    {
        let records = self.issued.records();
        let ghost listing = Seq::new(records@.len(), |i: int| (records@[i].0.0, records@[i].1@));
        let ghost keys = listing.map_values(|e: (u64, Attempt)| e.0);
        let mut accounted: Vec<(WorkerId, String, Accounting)> = Vec::new();
        let mut i: usize = 0;
        while i < records.len()
            invariant
                i <= records@.len(),
                accounted@.len() == i,
                listing == Seq::new(records@.len(), |i: int| (records@[i].0.0, records@[i].1@)),
                keys == listing.map_values(|e: (u64, Attempt)| e.0),
                self@.inventory.lists(listing),
                forall|j: int|
                    0 <= j < i ==> {
                        &&& (#[trigger] accounted@[j]).0.0 == listing[j].0
                        &&& accounted@[j].1@ == listing[j].1.id
                        &&& Some(accounted@[j].2) == listing[j].1.accounted
                    },
            decreases records@.len() - i,
        {
            let (worker, record) = records[i];
            assert(listing[i as int] == (worker.0, record@));
            match record.accounted {
                Some(by) => {
                    accounted.push((worker, record.attempt_id.clone(), by));
                },
                None => {
                    proof {
                        assert(keys[i as int] == worker.0);
                        assert(keys.contains(worker.0));
                        assert(self@.inventory.attempts.contains_key(worker.0));
                        assert(self@.inventory.attempts[worker.0].accounted is None);
                    }
                    return None;
                },
            }
            i = i + 1;
        }
        proof {
            assert(Seq::new(
                accounted@.len(),
                |i: int|
                    (
                        accounted@[i].0.0,
                        Attempt { id: accounted@[i].1@, accounted: Some(accounted@[i].2) },
                    ),
            ) =~= listing) by {
                assert forall|j: int| 0 <= j < listing.len() implies (
                    accounted@[j].0.0,
                    Attempt { id: accounted@[j].1@, accounted: Some(accounted@[j].2) },
                ) == listing[j] by {
                    assert(accounted@[j].0.0 == listing[j].0);
                }
            }
            assert forall|w: u64| self@.inventory.attempts.contains_key(w) implies (
            #[trigger] self@.inventory.attempts[w]).accounted is Some by {
                assert(self@.inventory.attempts.dom().contains(w));
                assert(keys.contains(w));
                let j = choose|j: int| 0 <= j < keys.len() && keys[j] == w;
                assert(listing[j].0 == w);
                assert(accounted@[j].0.0 == listing[j].0);
            }
        }
        Some(accounted)
    }

    /// Releases the authority, if every identifier is accounted for; otherwise the obligation
    /// comes back as it was.
    pub fn discharge(self) -> (r: Result<Discharged, Self>)
        ensures
            r is Ok <==> self@.inventory.settled(),
            r matches Ok(discharged) ==> discharged.job() == self@.job
                && self@.inventory.lists(discharged.listing()) && crate::admission::unlocked(
                self@.guard,
            ),
            r matches Err(bundle) ==> bundle == self,
    {
        match self.fully_accounted() {
            None => Err(self),
            Some(accounted) => {
                let (admission, _issued, _disarmed) = self.into_parts();
                let released = admission.release();
                Ok(Discharged { accounted, released })
            },
        }
    }

    /// Retains the authority for good, because identifiers it stands behind are unaccounted for
    /// and nobody is left to account for them.
    pub fn retain_unsettled(self) -> (r: Retained)
        ensures
            r@ == self@.job,
            r.keeps() == self@.guard,
            r.keeps() == self.halves().0.holds(),
    {
        let (admission, _issued, _disarmed) = self.into_parts();
        admission.retain()
    }
}

/// Offers an obligation to the job's settlement owner, if it has one. Without one, or where the
/// owner declines, the obligation stays with the caller.
pub fn hand_over(
    bundle: SettlementBundle,
    owner: Option<&mut dyn SettlementOwner>,
) -> (r: SettlementOutcome)
    ensures
        disposed(bundle@, owner is Some, r),
        r matches SettlementOutcome::SettledInPlace(admission, issued) ==> (admission, issued)
            == bundle.halves(),
        owner matches Some(asked) ==> (r is SettledInPlace <==> (*asked).declines(bundle@)),
        owner matches Some(asked) ==> final(asked).speaks_for() == (*asked).speaks_for_after(
            bundle@,
        ),
        owner matches Some(asked) ==> ((*asked).declines(bundle@) || exists|raised: bool| #[trigger]
            bundle.flag_reads(raised) && (r is Transferred <==> !raised)),
{
    match owner {
        None => {
            let (admission, issued) = bundle.keep();
            SettlementOutcome::SettledInPlace(admission, issued)
        },
        Some(owner) => outcome_of(bundle.transfer_to(owner)),
    }
}

/// Disposes of an obligation whose phase is gone and whose owner declined it: released where
/// nothing is owed, retained where an attempt is unaccounted for.
pub fn retain_without_a_phase(admission: Admission, issued: IssuedAttempts) -> (r: Disposal)
    ensures
        issued@.outstanding().len() == 0 ==> (r matches Disposal::Released(released) && released@
            == admission@ && crate::admission::unlocked(admission.holds())),
        issued@.outstanding().len() != 0 ==> (r matches Disposal::Retained(retained) && retained@
            == admission@ && retained.keeps() == admission.holds()),
{
    if issued.outstanding_count() == 0 {
        Disposal::Released(admission.release())
    } else {
        Disposal::Retained(admission.retain())
    }
}

/// Taking an obligation apart gives back the very authority and inventory it was made of.
pub proof fn an_obligation_comes_apart_into_what_it_was_made_of(
    admission: Admission,
    issued: IssuedAttempts,
    bundle: SettlementBundle,
    parts: (Admission, IssuedAttempts),
)
    requires
        call_ensures(SettlementBundle::new, (admission, issued), bundle),
        bundle.comes_apart_into(parts),
    ensures
        parts == (admission, issued),
{
}

/// An obligation that nobody takes over, because there is no owner or because the owner declines,
/// leaves the very authority and inventory it was made of, both with whoever offered it.
pub proof fn an_obligation_nobody_takes_stays_what_it_was_made_of(
    admission: Admission,
    issued: IssuedAttempts,
    bundle: SettlementBundle,
    outcome: SettlementOutcome,
)
    requires
        call_ensures(SettlementBundle::new, (admission, issued), bundle),
        call_ensures(hand_over, (bundle, None), outcome) || call_ensures(
            outcome_of,
            (Err(SettlementRefusal::Declined(bundle)),),
            outcome,
        ),
    ensures
        outcome == SettlementOutcome::SettledInPlace(admission, issued),
{
}

/// An owner that declines and no owner at all come to the same: the obligation stays with whoever
/// offered it, under the very authority and with the very inventory it was offered with.
pub proof fn a_declining_owner_is_like_none(
    bundle: SettlementBundle,
    declined: SettlementOutcome,
    unowned: SettlementOutcome,
)
    requires
        call_ensures(
            outcome_of,
            (Err(SettlementRefusal::Declined(bundle)),),
            declined,
        ),
        call_ensures(hand_over, (bundle, None), unowned),
    ensures
        declined == unowned,
        unowned == SettlementOutcome::SettledInPlace(bundle.halves().0, bundle.halves().1),
{
}

/// No attempt is lost on the way into the fencing record, and none is counted twice: each that was
/// owed is still owed there, or was transferred, or was abandoned, and all of them went one way.
pub proof fn every_attempt_is_recorded_once(
    obligation: Obligation,
    has_owner: bool,
    outcome: SettlementOutcome,
    outstanding: Inventory,
    transferred: nat,
    abandoned: nat,
)
    requires
        disposed(obligation, has_owner, outcome),
        recorded(outcome, outstanding, transferred, abandoned),
    ensures
        outstanding.outstanding().len() + transferred + abandoned
            == obligation.inventory.outstanding().len(),
        transferred == 0 || abandoned == 0,
        transferred + abandoned == 0 || outstanding.outstanding().len() == 0,
{
    assert(Inventory::nothing_issued(0, 0).outstanding() =~= Set::empty());
}

/// An inventory is settled exactly where nothing in it is outstanding.
pub proof fn settled_means_nothing_outstanding(inventory: Inventory)
    requires
        inventory.attempts.dom().finite(),
    ensures
        inventory.settled() <==> inventory.outstanding().len() == 0,
        inventory.settled() <==> inventory.outstanding() =~= Set::<u64>::empty(),
{
    let outstanding = inventory.outstanding();
    if inventory.settled() {
        assert(outstanding =~= Set::empty());
    } else {
        let w = choose|w: u64|
            inventory.attempts.contains_key(w) && (
            #[trigger] inventory.attempts[w]).accounted is None;
        assert(outstanding.contains(w));
        if outstanding.len() == 0 {
            assert(outstanding =~= Set::empty());
        }
    }
}

/// An offered obligation comes to a receipt exactly where the owner accepted it and it was not
/// dropped meanwhile; what was declined is declined as it came back; and both a receipt and a loss
/// say how much was owed.
pub proof fn a_receipt_needs_an_owner_that_kept_the_obligation(
    outstanding: usize,
    answer: Result<(), SettlementBundle>,
    dropped: bool,
    r: Result<SettlementReceipt, SettlementRefusal>,
    told: usize,
)
    requires
        call_ensures(concluded, (outstanding, answer, dropped), r),
        r matches Ok(receipt) ==> call_ensures(SettlementReceipt::outstanding, (&receipt,), told),
    ensures
        r is Ok <==> answer is Ok && !dropped,
        r is Err && r->Err_0 is Declined <==> answer is Err,
        r matches Err(SettlementRefusal::Declined(returned)) ==> returned == answer->Err_0,
        r is Err && r->Err_0 is Abandoned <==> answer is Ok && dropped,
        r matches Err(SettlementRefusal::Abandoned { outstanding: lost }) ==> lost == outstanding,
        r is Ok ==> told == outstanding,
{
}

/// Where an obligation went says how offering it ended: with the owner exactly where there is a
/// receipt, lost exactly where it was dropped, and otherwise where it was, whole.
pub proof fn an_obligation_goes_where_its_offer_ended(
    offered: Result<SettlementReceipt, SettlementRefusal>,
    r: SettlementOutcome,
)
    requires
        call_ensures(outcome_of, (offered,), r),
    ensures
        r is Transferred <==> offered is Ok,
        r matches SettlementOutcome::Transferred(receipt) ==> receipt == offered->Ok_0,
        r is Abandoned <==> offered is Err && offered->Err_0 is Abandoned,
        r matches SettlementOutcome::Abandoned { outstanding } ==> offered->Err_0
            == (SettlementRefusal::Abandoned { outstanding }),
        r is SettledInPlace <==> offered is Err && offered->Err_0 is Declined,
{
}

/// No attempt is lost on the way from an obligation to its fencing record, and none is counted
/// twice: what was owed is what the record still owes, or was transferred, or was lost. An authority
/// is released on the way exactly where the obligation stayed.
pub proof fn what_was_owed_is_owed_transferred_or_lost(
    bundle: SettlementBundle,
    outcome: SettlementOutcome,
    owner: Option<&mut dyn SettlementOwner>,
    held: &IssuedAttempts,
    owed: usize,
    record: (IssuedAttempts, HandoverRecord, Option<Released>),
    still_owed: usize,
    transferred: usize,
    abandoned: usize,
)
    requires
        call_ensures(SettlementBundle::issued, (&bundle,), held),
        call_ensures(IssuedAttempts::outstanding_count, (held,), owed),
        call_ensures(hand_over, (bundle, owner), outcome),
        call_ensures(SettlementOutcome::into_fencing_record, (outcome,), record),
        call_ensures(IssuedAttempts::outstanding_count, (&record.0,), still_owed),
        call_ensures(HandoverRecord::transferred, (&record.1,), transferred),
        call_ensures(HandoverRecord::abandoned, (&record.1,), abandoned),
    ensures
        still_owed + transferred + abandoned == owed,
        outcome is Transferred ==> transferred == owed,
        outcome is Abandoned ==> abandoned == owed,
        outcome is SettledInPlace ==> still_owed == owed,
        owner is None ==> outcome is SettledInPlace,
        record.2 is Some <==> outcome is SettledInPlace,
        outcome matches SettlementOutcome::SettledInPlace(admission, issued) ==> record.0@
            == issued@ && issued@ == held@ && record.2->0@ == admission@,
{
    assert(Inventory::nothing_issued(0, 0).outstanding() =~= Set::empty());
}

/// An authority is released exactly where nothing is owed, whether its obligation is discharged or
/// its phase is gone; it is that very job's. Otherwise it is kept: the obligation comes back as it
/// was, or the authority is retained for good.
pub proof fn an_authority_is_released_only_where_nothing_is_owed(
    admission: Admission,
    issued: IssuedAttempts,
    owed: usize,
    bundle: SettlementBundle,
    discharged: Result<Discharged, SettlementBundle>,
    disposal: Disposal,
)
    requires
        call_ensures(SettlementBundle::new, (admission, issued), bundle),
        call_ensures(IssuedAttempts::outstanding_count, (&issued,), owed),
        call_ensures(SettlementBundle::discharge, (bundle,), discharged),
        call_ensures(retain_without_a_phase, (admission, issued), disposal),
    ensures
        discharged is Ok <==> owed == 0,
        discharged matches Err(back) ==> back == bundle,
        discharged matches Ok(d) ==> d.job() == admission@,
        disposal is Released <==> owed == 0,
        disposal matches Disposal::Released(released) ==> released@ == admission@,
        disposal matches Disposal::Retained(retained) ==> retained@ == admission@,
{
    issued.is_finite();
    settled_means_nothing_outstanding(issued@);
}

/// A discharge names every identifier that was issued, each with the fact that accounted for it, and
/// nothing else.
pub proof fn a_discharge_names_every_identifier(
    bundle: SettlementBundle,
    held: &IssuedAttempts,
    discharged: Discharged,
    named: &[(WorkerId, String, Accounting)],
    count: usize,
    asked: WorkerId,
    record: Option<&crate::scheduling::fanout::AttemptRecord>,
)
    requires
        call_ensures(SettlementBundle::issued, (&bundle,), held),
        call_ensures(SettlementBundle::discharge, (bundle,), Ok(discharged)),
        call_ensures(Discharged::accounted, (&discharged,), named),
        call_ensures(Discharged::count, (&discharged,), count),
        call_ensures(IssuedAttempts::record, (held, asked), record),
    ensures
        count == named@.len(),
        record is Some <==> exists|i: int|
            0 <= i < named@.len() && (#[trigger] named@[i]).0 == asked,
        forall|i: int|
            0 <= i < named@.len() && (#[trigger] named@[i]).0 == asked ==> named@[i].1@
                == record->0.attempt_id@ && Some(named@[i].2) == record->0.accounted,
{
    let listing = discharged.listing();
    let workers = listing.map_values(|e: (u64, Attempt)| e.0);
    assert(held@.lists(listing));
    assert(workers.len() == named@.len());
    assert forall|i: int| 0 <= i < named@.len() implies #[trigger] workers[i]
        == named@[i].0.0 by {
        assert(listing[i] == (
            named@[i].0.0,
            Attempt { id: named@[i].1@, accounted: Some(named@[i].2) },
        ));
    }
    assert(held@.attempts.dom().contains(asked.0) <==> workers.contains(asked.0));
    if record is Some {
        let i = choose|i: int| 0 <= i < workers.len() && workers[i] == asked.0;
        assert(named@[i].0.0 == asked.0);
        assert(named@[i].0 == asked);
    }
    assert forall|i: int| 0 <= i < named@.len() && (#[trigger] named@[i]).0 == asked implies {
        &&& record is Some
        &&& named@[i].1@ == record->0.attempt_id@
        &&& Some(named@[i].2) == record->0.accounted
    } by {
        assert(workers[i] == asked.0);
        assert(workers.contains(asked.0));
        assert(listing[i] == (
            named@[i].0.0,
            Attempt { id: named@[i].1@, accounted: Some(named@[i].2) },
        ));
        assert(listing[i].1 == held@.attempts[listing[i].0]);
    }
}

/// An obligation reads an observation as its inventory alone would, and keeps its authority.
pub proof fn an_obligation_observes_as_its_inventory_does(
    bundle: &mut SettlementBundle,
    attempts: &mut IssuedAttempts,
    seen: Observed,
    by_bundle: Accounted,
    by_attempts: Accounted,
)
    requires
        old(bundle)@.inventory == old(attempts)@,
        call_ensures(SettlementBundle::observe, (bundle, &seen), by_bundle),
        call_ensures(IssuedAttempts::observe, (attempts, &seen), by_attempts),
    ensures
        by_bundle@ == by_attempts@,
        final(bundle)@.inventory == final(attempts)@,
        final(bundle)@.job == old(bundle)@.job,
        final(bundle)@.guard == old(bundle)@.guard,
{
}

/// An obligation that is offered is declined exactly where the owner declines it, and comes back as
/// it was; otherwise a receipt, or the report of a loss, says how much was owed. An obligation that
/// is retained keeps its own job's authority.
pub proof fn an_offer_ends_with_what_was_owed(
    bundle: SettlementBundle,
    owner: &mut crate::lifecycle::settlement::JobSettlementOwner,
    before: Option<usize>,
    r: Result<SettlementReceipt, SettlementRefusal>,
    held: &IssuedAttempts,
    owed: usize,
    told: usize,
    retained: Retained,
)
    requires
        call_ensures(SettlementBundle::issued, (&bundle,), held),
        call_ensures(IssuedAttempts::outstanding_count, (held,), owed),
        call_ensures(
            crate::lifecycle::settlement::JobSettlementOwner::outstanding,
            (&*old(owner),),
            before,
        ),
        call_ensures(
            SettlementBundle::transfer_to::<crate::lifecycle::settlement::JobSettlementOwner>,
            (bundle, owner),
            r,
        ),
        r matches Ok(receipt) ==> call_ensures(SettlementReceipt::outstanding, (&receipt,), told),
        call_ensures(SettlementBundle::retain_unsettled, (bundle,), retained),
    ensures
        r is Err && r->Err_0 is Declined <==> before is Some,
        r matches Err(SettlementRefusal::Declined(returned)) ==> returned.halves()
            == bundle.halves(),
        r matches Err(SettlementRefusal::Abandoned { outstanding }) ==> outstanding == owed,
        r is Ok ==> told == owed,
        retained@ == bundle@.job,
        retained.keeps() == bundle@.guard,
{
}

} // verus!
