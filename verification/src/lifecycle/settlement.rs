//! The party that outlives a scheduling attempt and answers for the obligation it left.

use crate::admission::{Admission, Retained};
use crate::scheduling::fanout::observed::{Accounted, Observation, Observed};
use crate::scheduling::fanout::settlement::{
    Discharged, Obligation, SettlementBundle, SettlementOwner,
};
use crate::scheduling::fanout::{Accounting, IssuedAttempts};
use std::mem::ManuallyDrop;
use vstd::prelude::*;

verus! {

/// One job's settlement owner. It holds at most one obligation, and one that it holds owes at
/// least one identifier. Dropping the owner drops no obligation: what it holds stays locked.
pub struct JobSettlementOwner {
    job_id: String,
    held: Option<ManuallyDrop<SettlementBundle>>,
    /// The discharge of what the owner took over last, where that owed nothing.
    discharged: Option<Discharged>,
}

/// The proof that an obligation was moved into an owner's slot.
struct Kept(());

impl Kept {
    fn store(slot: &mut Option<ManuallyDrop<SettlementBundle>>, bundle: SettlementBundle) -> (r:
        Self)
        ensures
            *final(slot) matches Some(stored) && stored@ == bundle,
    {
        *slot = Some(ManuallyDrop::new(bundle));
        Kept(())
    }

    fn into_acceptance(self) {
    }
}

/// What an observation did to the obligation an owner holds.
#[must_use]
#[derive(Debug)]
pub enum Progress {
    /// The owner holds nothing an observation could account for.
    NothingHeld,
    /// The observation is not about what the owner holds.
    NotThisObligation,
    /// Identifiers are still unaccounted for.
    StillOwed { outstanding: usize },
    /// The last one was accounted for, and the authority was released.
    Discharged(Discharged),
}

/// What an owner that goes away leaves behind.
pub enum Ended {
    NothingHeld,
    Retained(Retained),
}

impl View for JobSettlementOwner {
    type V = Option<Obligation>;

    closed spec fn view(&self) -> Option<Obligation> {
        match self.held {
            Some(bundle) => Some(bundle@@),
            None => None,
        }
    }
}

/// What an owner holds once it has kept `obligation`, having held nothing: the obligation, unless
/// it owes nothing.
pub open spec fn kept(obligation: Obligation) -> Option<Obligation> {
    if obligation.inventory.settled() {
        None
    } else {
        Some(obligation)
    }
}

/// What can happen to an owner: it is offered an obligation, or an observation, or is asked to give
/// back what it holds.
pub enum OwnerTurn {
    Offered(Obligation),
    Observed(Observation),
    AskedBack,
}

/// What an owner that held `held` holds after a turn.
pub open spec fn held_after(held: Option<Obligation>, turn: OwnerTurn) -> Option<Obligation> {
    match (held, turn) {
        (None, OwnerTurn::Offered(offered)) => kept(offered),
        (Some(held), OwnerTurn::Observed(observed)) => if held.inventory.disagreement(
            observed,
        ) is Some {
            Some(held)
        } else {
            kept(Obligation { inventory: held.inventory.after(observed), ..held })
        },
        (Some(_), OwnerTurn::AskedBack) => None,
        (held, _) => held,
    }
}

/// Whose authority an owner that held `held` accepts in a turn, if any.
pub open spec fn accepts(held: Option<Obligation>, turn: OwnerTurn) -> Option<Seq<char>> {
    match (held, turn) {
        (None, OwnerTurn::Offered(offered)) => Some(offered.job),
        _ => None,
    }
}

/// Whose authority an owner that held `held` releases in a turn, if any: that of an obligation
/// which owes nothing, as soon as it owes nothing.
pub open spec fn releases(held: Option<Obligation>, turn: OwnerTurn) -> Option<Seq<char>> {
    match (held, turn) {
        (None, OwnerTurn::Offered(offered)) => if offered.inventory.settled() {
            Some(offered.job)
        } else {
            None
        },
        (Some(held), OwnerTurn::Observed(observed)) => if held.inventory.disagreement(
            observed,
        ) is None && held.inventory.after(observed).settled() {
            Some(held.job)
        } else {
            None
        },
        _ => None,
    }
}

/// The obligation an owner that held `held` gives back in a turn, if any: the one it held, as it
/// stood.
pub open spec fn gives_back(held: Option<Obligation>, turn: OwnerTurn) -> Option<Obligation> {
    match turn {
        OwnerTurn::AskedBack => held,
        _ => None,
    }
}

impl JobSettlementOwner {
    /// Whose authority was released as the owner took it over, where what it took over last owed
    /// nothing.
    pub closed spec fn released(self) -> Option<Seq<char>> {
        match self.discharged {
            Some(discharged) => Some(discharged.job()),
            None => None,
        }
    }

    /// The job the owner answers for.
    pub closed spec fn job(self) -> Seq<char> {
        self.job_id@
    }

    #[verifier::type_invariant]
    closed spec fn owes_what_it_holds(self) -> bool {
        self.held matches Some(bundle) ==> !bundle@@.inventory.settled()
    }

    /// An owner that holds nothing.
    pub fn for_job(job_id: String) -> (r: Self)
        ensures
            r@ is None,
            r.released() is None,
            r.job() == job_id@,
    {
        JobSettlementOwner { job_id, held: None, discharged: None }
    }

    /// Offers one observation to the obligation the owner holds, and releases the authority if it
    /// was the last one owed.
    pub fn observe(&mut self, observed: &Observed) -> (r: Progress)
        ensures
            final(self).job() == old(self).job(),
            final(self).released() == old(self).released(),
            final(self)@ == held_after(old(self)@, OwnerTurn::Observed(observed@)),
            match releases(old(self)@, OwnerTurn::Observed(observed@)) {
                Some(job) => r matches Progress::Discharged(discharged) && discharged.job() == job,
                None => !(r is Discharged),
            },
            match old(self)@ {
                None => r is NothingHeld && final(self)@ is None,
                Some(held) => if held.inventory.disagreement(observed@) is Some {
                    r is NotThisObligation && final(self)@ == old(self)@
                } else {
                    let inventory = held.inventory.after(observed@);
                    &&& final(self)@ == kept(Obligation { inventory, ..held })
                    &&& if inventory.settled() {
                        r matches Progress::Discharged(discharged) && discharged.job() == held.job
                            && inventory.lists(discharged.listing()) && crate::admission::unlocked(
                            held.guard,
                        )
                    } else {
                        r matches Progress::StillOwed { outstanding } && outstanding
                            == inventory.outstanding().len()
                    }
                },
            },
    {
        proof {
            use_type_invariant(&*self);
        }
        let mut slot: Option<ManuallyDrop<SettlementBundle>> = None;
        std::mem::swap(&mut slot, &mut self.held);
        match slot {
            None => Progress::NothingHeld,
            Some(held) => {
                let mut bundle = ManuallyDrop::into_inner(held);
                let accounted = bundle.observe(observed);
                let (rest, progress) = Self::settle(bundle);
                self.held = rest;
                match accounted {
                    Accounted::NotThisObligation(_) => Progress::NotThisObligation,
                    Accounted::Settled(_) | Accounted::Already(_) => progress,
                }
            },
        }
    }

    /// Discharges an obligation if it owes nothing, and hands it back for keeping if it does.
    fn settle(bundle: SettlementBundle) -> (r: (Option<ManuallyDrop<SettlementBundle>>, Progress))
        ensures
            bundle@.inventory.settled() ==> r.0 is None && (r.1 matches Progress::Discharged(
                discharged,
            ) && discharged.job() == bundle@.job && bundle@.inventory.lists(discharged.listing()))
                && crate::admission::unlocked(bundle@.guard),
            !bundle@.inventory.settled() ==> (r.0 matches Some(rest) && rest@@ == bundle@
                && rest@ == bundle) && (
            r.1 matches Progress::StillOwed { outstanding } && outstanding
                == bundle@.inventory.outstanding().len()),
    {
        match bundle.discharge() {
            Ok(discharged) => (None, Progress::Discharged(discharged)),
            Err(bundle) => {
                let outstanding: usize = bundle.issued().outstanding_count();
                let mut slot: Option<ManuallyDrop<SettlementBundle>> = None;
                let _kept = Kept::store(&mut slot, bundle);
                (slot, Progress::StillOwed { outstanding })
            },
        }
    }

    /// Keeps an obligation, unless one is held already. One that owes nothing is discharged here,
    /// and its authority released: there is nothing to wait for.
    fn keep(&mut self, bundle: SettlementBundle) -> (r: Result<Kept, SettlementBundle>)
        ensures
            final(self).job() == old(self).job(),
            final(self)@ == held_after(old(self)@, OwnerTurn::Offered(bundle@)),
            r is Ok <==> accepts(old(self)@, OwnerTurn::Offered(bundle@)) is Some,
            r is Ok ==> final(self).released() == releases(
                old(self)@,
                OwnerTurn::Offered(bundle@),
            ),
            releases(old(self)@, OwnerTurn::Offered(bundle@)) is Some ==> crate::admission::unlocked(
                bundle@.guard,
            ),
            r matches Err(returned) ==> returned == bundle && final(self).released() == old(
                self,
            ).released(),
    {
        if self.held.is_some() {
            return Err(bundle);
        }
        let mut slot: Option<ManuallyDrop<SettlementBundle>> = None;
        let kept = Kept::store(&mut slot, bundle);
        if let Some(stored) = slot {
            let (rest, settled) = Self::settle(ManuallyDrop::into_inner(stored));
            self.held = rest;
            self.discharged = match settled {
                Progress::Discharged(discharged) => Some(discharged),
                _ => None,
            };
        }
        Ok(kept)
    }

    /// How many identifiers the owner is answerable for, if it holds an obligation.
    pub fn outstanding(&self) -> (r: Option<usize>)
        ensures
            match self@ {
                None => r is None,
                Some(held) => r matches Some(n) && n == held.inventory.outstanding().len() && n > 0,
            },
    {
        proof {
            use_type_invariant(&*self);
        }
        match &self.held {
            None => None,
            Some(bundle) => {
                let issued = bundle.issued();
                proof {
                    issued.is_finite();
                    crate::scheduling::fanout::settlement::settled_means_nothing_outstanding(
                        issued@,
                    );
                }
                Some(issued.outstanding_count())
            },
        }
    }

    /// Every attempt the owner is answerable for, by ascending worker.
    pub fn holding(&self) -> (r: Option<Vec<(u64, String, Option<Accounting>)>>)
        ensures
            r is Some <==> self@ is Some,
            r matches Some(listed) ==> self@->0.inventory.lists(
                Seq::new(
                    listed@.len(),
                    |i: int|
                        (
                            listed@[i].0,
                            crate::scheduling::fanout::Attempt {
                                id: listed@[i].1@,
                                accounted: listed@[i].2,
                            },
                        ),
                ),
            ),
    {
        match &self.held {
            None => None,
            Some(bundle) => Some(bundle.issued().listed()),
        }
    }

    /// Gives back what the owner holds, if it holds anything: the authority and the inventory leave
    /// together, as they came, and the authority stays taken.
    pub fn give_back(&mut self) -> (r: Option<(Admission, IssuedAttempts)>)
        ensures
            final(self).job() == old(self).job(),
            final(self).released() == old(self).released(),
            final(self)@ == held_after(old(self)@, OwnerTurn::AskedBack),
            final(self)@ is None,
            match gives_back(old(self)@, OwnerTurn::AskedBack) {
                Some(held) => r matches Some((admission, issued)) && admission@ == held.job
                    && admission.holds() == held.guard && issued@ == held.inventory,
                None => r is None,
            },
    {
        let mut slot: Option<ManuallyDrop<SettlementBundle>> = None;
        std::mem::swap(&mut slot, &mut self.held);
        match slot {
            None => None,
            Some(held) => Some(ManuallyDrop::into_inner(held).give_back()),
        }
    }

    /// Ends the owner. What it holds owes an identifier, so the authority behind it is retained.
    pub fn end(self) -> (r: Ended)
        ensures
            match self@ {
                None => r is NothingHeld,
                Some(held) => r matches Ended::Retained(retained) && retained@ == held.job
                    && retained.keeps() == held.guard,
            },
    {
        let JobSettlementOwner { job_id: _, held, discharged: _ } = self;
        match held {
            None => Ended::NothingHeld,
            Some(bundle) => Ended::Retained(ManuallyDrop::into_inner(bundle).retain_unsettled()),
        }
    }
}

impl SettlementOwner for JobSettlementOwner {
    /// It declines where it holds an obligation already.
    open spec fn declines(&self, offered: Obligation) -> bool {
        self@ is Some
    }

    open spec fn speaks_for(&self) -> Option<Obligation> {
        self@
    }

    open spec fn speaks_for_after(&self, offered: Obligation) -> Option<Obligation> {
        held_after(self@, OwnerTurn::Offered(offered))
    }

    fn take_over(&mut self, bundle: SettlementBundle) -> (r: Result<(), SettlementBundle>)
        ensures
            final(self).job() == old(self).job(),
            final(self)@ == held_after(old(self)@, OwnerTurn::Offered(bundle@)),
            r is Ok <==> accepts(old(self)@, OwnerTurn::Offered(bundle@)) is Some,
            r is Ok ==> final(self).released() == releases(
                old(self)@,
                OwnerTurn::Offered(bundle@),
            ),
            releases(old(self)@, OwnerTurn::Offered(bundle@)) is Some ==> crate::admission::unlocked(
                bundle@.guard,
            ),
            r matches Err(returned) ==> returned == bundle && final(self).released() == old(
                self,
            ).released(),
    {
        match self.keep(bundle) {
            Ok(kept) => {
                kept.into_acceptance();
                Ok(())
            },
            Err(bundle) => Err(bundle),
        }
    }
}

/// What an owner that began with nothing holds after some turns.
pub open spec fn held_after_all(turns: Seq<OwnerTurn>) -> Option<Obligation>
    decreases turns.len(),
{
    if turns.len() == 0 {
        None
    } else {
        held_after(held_after_all(turns.drop_last()), turns.last())
    }
}

/// Whose authority it accepted in those turns, in order.
pub open spec fn accepted_in(turns: Seq<OwnerTurn>) -> Seq<Seq<char>>
    decreases turns.len(),
{
    if turns.len() == 0 {
        Seq::empty()
    } else {
        let before = turns.drop_last();
        match accepts(held_after_all(before), turns.last()) {
            Some(job) => accepted_in(before).push(job),
            None => accepted_in(before),
        }
    }
}

/// Whose authority it released in those turns, in order.
pub open spec fn released_in(turns: Seq<OwnerTurn>) -> Seq<Seq<char>>
    decreases turns.len(),
{
    if turns.len() == 0 {
        Seq::empty()
    } else {
        let before = turns.drop_last();
        match releases(held_after_all(before), turns.last()) {
            Some(job) => released_in(before).push(job),
            None => released_in(before),
        }
    }
}

/// Whose authority it gave back in those turns, in order.
pub open spec fn given_back_in(turns: Seq<OwnerTurn>) -> Seq<Seq<char>>
    decreases turns.len(),
{
    if turns.len() == 0 {
        Seq::empty()
    } else {
        let before = turns.drop_last();
        match gives_back(held_after_all(before), turns.last()) {
            Some(given) => given_back_in(before).push(given.job),
            None => given_back_in(before),
        }
    }
}

/// Whose authority left it in those turns, released or given back, in order.
pub open spec fn left_in(turns: Seq<OwnerTurn>) -> Seq<Seq<char>>
    decreases turns.len(),
{
    if turns.len() == 0 {
        Seq::empty()
    } else {
        let before = turns.drop_last();
        let held = held_after_all(before);
        match (releases(held, turns.last()), gives_back(held, turns.last())) {
            (Some(job), _) => left_in(before).push(job),
            (None, Some(given)) => left_in(before).push(given.job),
            (None, None) => left_in(before),
        }
    }
}

/// Whatever an owner is offered, asked for and shown, every authority it accepted has left it but
/// that of the obligation it holds, and the obligation it holds owes an identifier. Each that left
/// it was released or was given back, and none was both.
pub proof fn an_owner_releases_all_but_what_it_holds(turns: Seq<OwnerTurn>)
    ensures
        match held_after_all(turns) {
            Some(held) => !held.inventory.settled() && accepted_in(turns) == left_in(turns).push(
                held.job,
            ),
            None => accepted_in(turns) == left_in(turns),
        },
        left_in(turns).to_multiset() == released_in(turns).to_multiset().add(
            given_back_in(turns).to_multiset(),
        ),
    decreases turns.len(),
{
    broadcast use vstd::seq_lib::group_to_multiset_ensures;

    if turns.len() > 0 {
        let before = turns.drop_last();
        let held = held_after_all(before);
        an_owner_releases_all_but_what_it_holds(before);
        assert(left_in(turns).to_multiset() =~= released_in(turns).to_multiset().add(
            given_back_in(turns).to_multiset(),
        ));
    } else {
        assert(left_in(turns).to_multiset() =~= released_in(turns).to_multiset().add(
            given_back_in(turns).to_multiset(),
        ));
    }
}

/// An owner that is never asked to give anything back has released every authority it accepted but
/// that of the obligation it holds: nothing leaves it in any other way.
pub proof fn an_owner_nobody_asks_releases_what_it_accepts(turns: Seq<OwnerTurn>)
    requires
        forall|i: int| 0 <= i < turns.len() ==> !(#[trigger] turns[i] is AskedBack),
    ensures
        given_back_in(turns).len() == 0,
        match held_after_all(turns) {
            Some(held) => accepted_in(turns) == released_in(turns).push(held.job),
            None => accepted_in(turns) == released_in(turns),
        },
    decreases turns.len(),
{
    if turns.len() > 0 {
        let before = turns.drop_last();
        assert forall|i: int| 0 <= i < before.len() implies !(#[trigger] before[i] is AskedBack) by {
            assert(before[i] == turns[i]);
        }
        an_owner_nobody_asks_releases_what_it_accepts(before);
        assert(!(turns[turns.len() - 1] is AskedBack));
    }
}

/// An obligation that is given back owes an identifier: one that owes nothing was released before
/// it could be asked for.
pub proof fn what_is_given_back_is_owed(turns: Seq<OwnerTurn>, turn: OwnerTurn)
    ensures
        gives_back(held_after_all(turns), turn) matches Some(given) ==> !given.inventory.settled(),
{
    an_owner_releases_all_but_what_it_holds(turns);
}

/// An owner takes an obligation over exactly where it holds none. It then holds it exactly where
/// something is owed, and as much as is owed; what owes nothing is released at once, for its own job.
/// One that is declined comes back as it was, and what the owner holds is untouched.
pub proof fn an_owner_holds_only_what_is_owed(
    owner: &mut JobSettlementOwner,
    bundle: SettlementBundle,
    offered: &IssuedAttempts,
    owed: usize,
    r: Result<(), SettlementBundle>,
    before: Option<usize>,
    after: Option<usize>,
)
    requires
        call_ensures(SettlementBundle::issued, (&bundle,), offered),
        call_ensures(IssuedAttempts::outstanding_count, (offered,), owed),
        call_ensures(JobSettlementOwner::outstanding, (&*old(owner),), before),
        call_ensures(<JobSettlementOwner as SettlementOwner>::take_over, (owner, bundle), r),
        call_ensures(JobSettlementOwner::outstanding, (&*final(owner),), after),
    ensures
        r is Ok <==> before is None,
        r matches Err(returned) ==> returned == bundle && after == before,
        r is Ok ==> (after is Some <==> owed > 0),
        r is Ok && after is Some ==> after->0 == owed,
        r is Ok ==> (final(owner).released() is Some <==> owed == 0),
        r is Ok && owed == 0 ==> final(owner).released()->0 == bundle@.job,
        final(owner).job() == old(owner).job(),
{
    offered.is_finite();
    crate::scheduling::fanout::settlement::settled_means_nothing_outstanding(offered@);
}

/// An observation that is about what an owner holds accounts for what it accounts for there; the
/// authority is released exactly with the last identifier, and what is still owed is held and
/// counted. One that is about something else changes nothing.
pub proof fn an_owner_releases_with_the_last_identifier(
    owner: &mut JobSettlementOwner,
    observed: &Observed,
    r: Progress,
    attempts: &mut IssuedAttempts,
    accounted: Accounted,
    owed: usize,
    before: Option<usize>,
    after: Option<usize>,
)
    requires
        old(owner)@ is Some ==> old(owner)@->0.inventory == old(attempts)@,
        call_ensures(JobSettlementOwner::outstanding, (&*old(owner),), before),
        call_ensures(JobSettlementOwner::observe, (owner, observed), r),
        call_ensures(JobSettlementOwner::outstanding, (&*final(owner),), after),
        call_ensures(IssuedAttempts::observe, (attempts, observed), accounted),
        call_ensures(IssuedAttempts::outstanding_count, (&*final(attempts),), owed),
    ensures
        r is NothingHeld <==> before is None,
        before is Some ==> (r is NotThisObligation <==> accounted is NotThisObligation),
        r is NotThisObligation ==> after == before,
        before is Some && !(accounted is NotThisObligation) ==> (r is Discharged <==> owed == 0),
        r matches Progress::Discharged(discharged) ==> after is None && discharged.job() == old(
            owner)@->0.job,
        r matches Progress::StillOwed { outstanding } ==> outstanding == owed && after == Some(owed)
            && owed > 0,
        r is NothingHeld ==> after is None,
{
    let inventory = final(attempts)@;
    final(attempts).is_finite();
    crate::scheduling::fanout::settlement::settled_means_nothing_outstanding(inventory);
}

/// What an owner holds is given back whole, once, or retained when the owner ends: the authority over
/// the same job, and as many identifiers as it owed.
pub proof fn what_an_owner_holds_leaves_it_whole(
    owner: &mut JobSettlementOwner,
    before: Option<usize>,
    r: Option<(Admission, IssuedAttempts)>,
    after: Option<usize>,
    owed: usize,
    ending: JobSettlementOwner,
    ended: Ended,
    holding: Option<Vec<(u64, String, Option<Accounting>)>>,
)
    requires
        call_ensures(JobSettlementOwner::outstanding, (&*old(owner),), before),
        call_ensures(JobSettlementOwner::holding, (&*old(owner),), holding),
        call_ensures(JobSettlementOwner::give_back, (owner,), r),
        call_ensures(JobSettlementOwner::outstanding, (&*final(owner),), after),
        r matches Some((_, issued)) ==> call_ensures(
            IssuedAttempts::outstanding_count,
            (&issued,),
            owed,
        ),
        ending == *old(owner),
        call_ensures(JobSettlementOwner::end, (ending,), ended),
    ensures
        r is Some <==> before is Some,
        r is Some ==> owed == before->0 && owed > 0,
        after is None,
        holding is Some <==> before is Some,
        ended is Retained <==> before is Some,
        r matches Some((admission, _)) ==> ended->Retained_0@ == admission@
            && ended->Retained_0.keeps() == admission.holds(),
{
}

} // verus!
