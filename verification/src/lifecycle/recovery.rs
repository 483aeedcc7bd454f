//! The fencing obligation an interrupted attempt leaves in the job's row, and what a controller
//! that finds one there makes of it.
//!
//! A target is settled by one of two observations and by nothing else: it acknowledged a fence
//! above everything the obligation issued, or its generation was observed to be gone. Neither time
//! nor the number of passes settles anything.

use crate::lifecycle::mode::LifecycleMode;
use crate::lifecycle::witness::{FenceAcknowledgement, ObservedTermination};
use crate::scheduling::context::StatusPublication;
use crate::scheduling::discharge::Discharge;
use crate::scheduling::fanout::IssuedAttempts;
use crate::text;
use crate::types::WorkerId;
use vstd::prelude::*;
use vstd::string::*;

verus! {

/// What is known of one target.
#[derive(Clone, Copy, Debug, PartialEq, Eq, Structural)]
pub enum FenceTargetState {
    /// It owes an answer.
    Pending,
    /// It acknowledged a fence.
    Acknowledged,
    /// Its generation is gone.
    Terminated,
}

/// One worker generation an attempt may have addressed.
#[derive(Clone, Debug, PartialEq, Eq)]
pub struct FenceTarget {
    pub worker_id: u64,
    pub generation: u64,
    /// The identifier it was issued, where that is unaccounted for.
    pub attempt_id: Option<String>,
    /// Where it was reached.
    pub rpc_address: Option<String>,
    /// The process that was answering there.
    pub incarnation: Option<u64>,
    pub state: FenceTargetState,
}

fn copied_text(text: &Option<String>) -> (r: Option<String>)
    ensures
        r == *text,
{
    match text {
        Some(t) => Some(t.clone()),
        None => None,
    }
}

impl FenceTarget {
    fn copied(&self) -> (r: Self)
        ensures
            r == *self,
    {
        FenceTarget {
            worker_id: self.worker_id,
            generation: self.generation,
            attempt_id: copied_text(&self.attempt_id),
            rpc_address: copied_text(&self.rpc_address),
            incarnation: self.incarnation,
            state: self.state,
        }
    }

    /// The target as a controller that supersedes it reads it: an acknowledgement is of a fence
    /// that no longer stands, and expires; a termination does not.
    pub open spec fn as_reopened(self) -> FenceTarget {
        if self.state == FenceTargetState::Acknowledged {
            FenceTarget { state: FenceTargetState::Pending, attempt_id: None, ..self }
        } else {
            self
        }
    }

    /// The target as it is written back: one that is settled owes no identifier.
    pub open spec fn as_recorded(self) -> FenceTarget {
        if self.state == FenceTargetState::Pending {
            self
        } else {
            FenceTarget { attempt_id: None, ..self }
        }
    }

    /// The target after it was observed in `state`. A pending one is settled by either
    /// observation, and a termination outranks an acknowledgement; nothing makes one pending.
    pub open spec fn advanced(self, worker: u64, generation: u64, state: FenceTargetState) -> FenceTarget {
        if self.worker_id == worker && self.generation == generation && self.advances_to(state) {
            FenceTarget { state, ..self }
        } else {
            self
        }
    }

    pub open spec fn advances_to(self, state: FenceTargetState) -> bool {
        match state {
            FenceTargetState::Pending => false,
            FenceTargetState::Acknowledged => self.state == FenceTargetState::Pending,
            FenceTargetState::Terminated => self.state != FenceTargetState::Terminated,
        }
    }
}

/// The durable record of an obligation.
#[derive(Clone, Debug, PartialEq, Eq)]
pub struct Fencing {
    targets: Vec<FenceTarget>,
    candidate_root: Option<String>,
    fencing_since_millis: Option<u64>,
}

/// Why an obligation cannot be recorded.
#[derive(Clone, Copy, Debug, PartialEq, Eq, Structural)]
pub enum Unrecordable {
    /// It names more targets than a record holds.
    TooManyTargets { targets: usize, capacity: usize },
    /// Its targets and its identifiers are of different generations.
    GenerationMismatch { targets: u64, issued: u64 },
}

impl Unrecordable {
    pub open spec fn text(self) -> Seq<char> {
        match self {
            Unrecordable::TooManyTargets { targets, capacity } => "a fencing record of "@
                + text::decimal_digits(targets as nat) + " targets is more than the "@
                + text::decimal_digits(capacity as nat) + " one holds"@,
            Unrecordable::GenerationMismatch { targets, issued } => {
                "this attempt's targets are of generation "@ + text::decimal_digits(targets as nat)
                    + " while the identifiers it issued are of generation "@
                    + text::decimal_digits(issued as nat)
            },
        }
    }

    /// The refusal as an operator reads it.
    pub fn report(&self) -> (r: String)
        ensures
            r@ == self.text(),
    {
        match self {
            Unrecordable::TooManyTargets { targets, capacity } => {
                let mut r = "a fencing record of ".to_owned();
                let named = text::decimal(*targets as u64);
                r.append(named.as_str());
                r.append(" targets is more than the ");
                let holds = text::decimal(*capacity as u64);
                r.append(holds.as_str());
                r.append(" one holds");
                r
            },
            Unrecordable::GenerationMismatch { targets, issued } => {
                let mut r = "this attempt's targets are of generation ".to_owned();
                let of_targets = text::decimal(*targets);
                r.append(of_targets.as_str());
                r.append(" while the identifiers it issued are of generation ");
                let of_issued = text::decimal(*issued);
                r.append(of_issued.as_str());
                r
            },
        }
    }
}

impl Fencing {
    pub closed spec fn named(self) -> Seq<FenceTarget> {
        self.targets@
    }

    pub closed spec fn candidate(self) -> Option<String> {
        self.candidate_root
    }

    pub closed spec fn since(self) -> Option<u64> {
        self.fencing_since_millis
    }

    /// The record of `targets`, unless they are more than a record holds. Nothing is left out to
    /// make it fit: a record that named fewer targets would read as settled too early.
    pub fn record(
        targets: Vec<FenceTarget>,
        candidate_root: Option<String>,
        fencing_since_millis: Option<u64>,
        capacity: usize,
    ) -> (r: Result<Self, Unrecordable>)
        ensures
            if targets@.len() > capacity {
                r matches Err(Unrecordable::TooManyTargets { targets: named, capacity: holds })
                    && named == targets@.len() && holds == capacity
            } else {
                r matches Ok(record) && record.named() == targets@ && record.candidate()
                    == candidate_root && record.since() == fencing_since_millis
            },
    {
        if targets.len() > capacity {
            return Err(Unrecordable::TooManyTargets { targets: targets.len(), capacity });
        }
        Ok(Fencing { targets, candidate_root, fencing_since_millis })
    }

    pub fn targets(&self) -> (r: &[FenceTarget])
        ensures
            r@ == self.named(),
    {
        self.targets.as_slice()
    }

    pub fn candidate_root(&self) -> (r: Option<&str>)
        ensures
            match self.candidate() {
                Some(key) => r matches Some(named) && named@ == key@,
                None => r is None,
            },
    {
        match &self.candidate_root {
            Some(key) => Some(key.as_str()),
            None => None,
        }
    }

    pub fn fencing_since_millis(&self) -> (r: Option<u64>)
        ensures
            r == self.since(),
    {
        self.fencing_since_millis
    }

    /// The record as a controller that supersedes the generations it names reads it.
    pub fn reopened(&self) -> (r: Self)
        ensures
            r.named() == self.named().map_values(|t: FenceTarget| t.as_reopened()),
            r.candidate() == self.candidate(),
            r.since() == self.since(),
    {
        let mut targets: Vec<FenceTarget> = Vec::new();
        let mut i: usize = 0;
        while i < self.targets.len()
            invariant
                i <= self.targets@.len(),
                targets@.len() == i,
                forall|j: int| 0 <= j < i ==> targets@[j] == self.targets@[j].as_reopened(),
            decreases self.targets@.len() - i,
        {
            let mut target = self.targets[i].copied();
            match target.state {
                FenceTargetState::Acknowledged => {
                    target.state = FenceTargetState::Pending;
                    target.attempt_id = None;
                },
                FenceTargetState::Pending | FenceTargetState::Terminated => {},
            }
            targets.push(target);
            i = i + 1;
        }
        assert(targets@ =~= self.named().map_values(|t: FenceTarget| t.as_reopened()));
        Fencing {
            targets,
            candidate_root: copied_text(&self.candidate_root),
            fencing_since_millis: self.fencing_since_millis,
        }
    }
}

/// A worker an interrupted attempt may have addressed, as the attempt itself knows it.
#[derive(Clone, Debug, PartialEq, Eq)]
pub struct AddressedWorker {
    pub worker: WorkerId,
    pub rpc_address: Option<String>,
    pub incarnation: Option<u64>,
    pub state: FenceTargetState,
}

/// The target an addressed worker becomes: it owes the identifier it was issued, unless something
/// accounted for that.
pub open spec fn target_of(
    addressed: AddressedWorker,
    generation: u64,
    inventory: crate::scheduling::fanout::Inventory,
    target: FenceTarget,
) -> bool {
    let worker = addressed.worker.0;
    &&& target.worker_id == worker
    &&& target.generation == generation
    &&& target.rpc_address == addressed.rpc_address
    &&& target.incarnation == addressed.incarnation
    &&& target.state == addressed.state
    &&& if inventory.outstanding().contains(worker) {
        target.attempt_id matches Some(id) && id@ == inventory.attempts[worker].id
    } else {
        target.attempt_id is None
    }
}

/// Describes what an interrupted attempt owes, for the job's row. Nothing where it addressed
/// nobody. An obligation that cannot be described whole is refused.
pub fn describe(
    generation: u64,
    addressed: Vec<AddressedWorker>,
    inventory: &IssuedAttempts,
    candidate_root: Option<String>,
    fencing_since_millis: Option<u64>,
    capacity: usize,
) -> (r: Result<Option<Fencing>, Unrecordable>)
    ensures
        if inventory@.attempts.dom().len() > 0 && inventory@.generation != generation {
            r == Err::<Option<Fencing>, _>(
                Unrecordable::GenerationMismatch {
                    targets: generation,
                    issued: inventory@.generation,
                },
            )
        } else if addressed@.len() > capacity {
            r matches Err(Unrecordable::TooManyTargets { targets, capacity: holds }) && targets
                == addressed@.len() && holds == capacity
        } else if addressed@.len() == 0 {
            r == Ok::<Option<Fencing>, Unrecordable>(None)
        } else {
            r matches Ok(Some(record)) && {
                &&& record.candidate() == candidate_root
                &&& record.since() == fencing_since_millis
                &&& record.named().len() == addressed@.len()
                &&& forall|i: int|
                    0 <= i < addressed@.len() ==> target_of(
                        #[trigger] addressed@[i],
                        generation,
                        inventory@,
                        record.named()[i],
                    )
            }
        },
{
    if inventory.issued_count() > 0 && inventory.generation() != generation {
        return Err(
            Unrecordable::GenerationMismatch {
                targets: generation,
                issued: inventory.generation(),
            },
        );
    }
    let mut targets: Vec<FenceTarget> = Vec::new();
    let mut i: usize = 0;
    while i < addressed.len()
        invariant
            i <= addressed@.len(),
            targets@.len() == i,
            forall|j: int|
                0 <= j < i ==> target_of(
                    #[trigger] addressed@[j],
                    generation,
                    inventory@,
                    targets@[j],
                ),
        decreases addressed@.len() - i,
    {
        let worker = &addressed[i];
        let attempt_id = match inventory.record(worker.worker) {
            Some(record) => match record.accounted {
                None => Some(record.attempt_id.clone()),
                Some(_) => None,
            },
            None => None,
        };
        targets.push(
            FenceTarget {
                worker_id: worker.worker.0,
                generation,
                attempt_id,
                rpc_address: copied_text(&worker.rpc_address),
                incarnation: worker.incarnation,
                state: worker.state,
            },
        );
        i = i + 1;
    }
    let empty = targets.len() == 0;
    match Fencing::record(targets, candidate_root, fencing_since_millis, capacity) {
        Err(e) => Err(e),
        Ok(record) => if empty {
            Ok(None)
        } else {
            Ok(Some(record))
        },
    }
}

/// An obligation read back from a row, and what has been observed of its targets since.
#[derive(Debug)]
pub struct RecoveredObligation {
    targets: Vec<FenceTarget>,
    candidate_root: Option<String>,
    fencing_since_millis: Option<u64>,
    /// The highest fence anything in the record can have been issued under.
    issued_under: u64,
}

impl RecoveredObligation {
    pub closed spec fn named(self) -> Seq<FenceTarget> {
        self.targets@
    }

    pub closed spec fn candidate(self) -> Option<String> {
        self.candidate_root
    }

    pub closed spec fn since(self) -> Option<u64> {
        self.fencing_since_millis
    }

    pub closed spec fn bound(self) -> u64 {
        self.issued_under
    }

    /// The obligation of `record`, as the controller that raised the row to `adopted_fence` finds
    /// it: everything in it was issued under a lower fence.
    pub fn of(record: &Fencing, adopted_fence: u64) -> (r: Self)
        ensures
            r.named() == record.named(),
            r.candidate() == record.candidate(),
            r.since() == record.since(),
            r.bound() == (if adopted_fence == 0 {
                0
            } else {
                (adopted_fence - 1) as u64
            }),
    {
        let mut targets: Vec<FenceTarget> = Vec::new();
        let mut i: usize = 0;
        while i < record.targets.len()
            invariant
                i <= record.targets@.len(),
                targets@ == record.targets@.take(i as int),
            decreases record.targets@.len() - i,
        {
            targets.push(record.targets[i].copied());
            assert(targets@ =~= record.targets@.take(i + 1));
            i = i + 1;
        }
        assert(record.targets@.take(record.targets@.len() as int) =~= record.targets@);
        let issued_under: u64 = if adopted_fence == 0 {
            0
        } else {
            adopted_fence - 1
        };
        RecoveredObligation {
            targets,
            candidate_root: copied_text(&record.candidate_root),
            fencing_since_millis: record.fencing_since_millis,
            issued_under,
        }
    }

    /// Settles what an observation of `worker` in `generation` settles. Says whether it did.
    fn advance(&mut self, worker: WorkerId, generation: u64, state: FenceTargetState) -> (r: bool)
        ensures
            final(self).named() == advanced_all(old(self).named(), worker.0, generation, state),
            r == (final(self).named() != old(self).named()),
            *final(self) == (RecoveredObligation { targets: final(self).targets, ..*old(self) }),
    {
        let mut advanced = false;
        let mut i: usize = 0;
        while i < self.targets.len()
            invariant
                i <= self.targets@.len(),
                self.targets@.len() == old(self).targets@.len(),
                *self == (RecoveredObligation { targets: self.targets, ..*old(self) }),
                forall|j: int|
                    0 <= j < i ==> #[trigger] self.targets@[j] == old(self).targets@[j].advanced(
                        worker.0,
                        generation,
                        state,
                    ),
                forall|j: int|
                    i <= j < self.targets@.len() ==> #[trigger] self.targets@[j]
                        == old(self).targets@[j],
                !advanced ==> self.targets@ == old(self).targets@,
                advanced ==> exists|j: int|
                    0 <= j < i && #[trigger] self.targets@[j] != old(self).targets@[j],
            decreases self.targets@.len() - i,
        {
            let target = &self.targets[i];
            let advances = match (state, target.state) {
                (FenceTargetState::Acknowledged, FenceTargetState::Pending) => true,
                (FenceTargetState::Terminated, FenceTargetState::Pending) => true,
                (FenceTargetState::Terminated, FenceTargetState::Acknowledged) => true,
                _ => false,
            };
            let ghost before = self.targets@;
            if target.worker_id == worker.0 && target.generation == generation && advances {
                let mut settled = target.copied();
                settled.state = state;
                self.targets.set(i, settled);
                advanced = true;
                assert(self.targets@[i as int] != old(self).targets@[i as int]);
            }
            proof {
                if advanced {
                    if self.targets@[i as int] == old(self).targets@[i as int] {
                        let j = choose|j: int|
                            0 <= j < i && #[trigger] before[j] != old(self).targets@[j];
                        assert(self.targets@[j] != old(self).targets@[j]);
                    }
                }
            }
            i = i + 1;
        }
        assert(self.named() =~= advanced_all(old(self).named(), worker.0, generation, state));
        advanced
    }

    /// Settles the target that acknowledged, if the fence it acknowledged is above everything the
    /// obligation issued. Says whether that was news.
    pub fn observe_acknowledgement(&mut self, acknowledgement: &FenceAcknowledgement) -> (r: bool)
        ensures
            final(self).named() == (if acknowledgement.of_fence() > old(self).bound() {
                advanced_all(
                    old(self).named(),
                    acknowledgement.of_worker().0,
                    acknowledgement.of_generation(),
                    FenceTargetState::Acknowledged,
                )
            } else {
                old(self).named()
            }),
            r == (final(self).named() != old(self).named()),
            final(self).candidate() == old(self).candidate(),
            final(self).since() == old(self).since(),
            final(self).bound() == old(self).bound(),
    {
        if acknowledgement.observed_fence() <= self.issued_under {
            return false;
        }
        self.advance(
            acknowledgement.worker(),
            acknowledgement.generation(),
            FenceTargetState::Acknowledged,
        )
    }

    /// Settles the target whose generation was observed to be gone. Says whether that was news.
    pub fn observe_termination(&mut self, termination: &ObservedTermination) -> (r: bool)
        ensures
            final(self).named() == advanced_all(
                old(self).named(),
                termination.of_worker().0,
                termination.of_generation(),
                FenceTargetState::Terminated,
            ),
            r == (final(self).named() != old(self).named()),
            final(self).candidate() == old(self).candidate(),
            final(self).since() == old(self).since(),
            final(self).bound() == old(self).bound(),
    {
        self.advance(termination.worker(), termination.generation(), FenceTargetState::Terminated)
    }

    /// Every target, and where it stands.
    pub fn states(&self) -> (r: Vec<(u64, u64, FenceTargetState)>)
        ensures
            r@ == self.named().map_values(
                |t: FenceTarget| (t.worker_id, t.generation, t.state),
            ),
    {
        let mut r: Vec<(u64, u64, FenceTargetState)> = Vec::new();
        let mut i: usize = 0;
        while i < self.targets.len()
            invariant
                i <= self.targets@.len(),
                r@.len() == i,
                forall|j: int|
                    0 <= j < i ==> r@[j] == (
                        self.targets@[j].worker_id,
                        self.targets@[j].generation,
                        self.targets@[j].state,
                    ),
            decreases self.targets@.len() - i,
        {
            let target = &self.targets[i];
            r.push((target.worker_id, target.generation, target.state));
            i = i + 1;
        }
        assert(r@ =~= self.named().map_values(
            |t: FenceTarget| (t.worker_id, t.generation, t.state),
        ));
        r
    }

    /// How many targets owe an answer, and how many identifiers they were issued.
    pub fn owed(&self) -> (r: (usize, usize))
        ensures
            r.0 == pending_in(self.named()),
            r.1 == identifiers_in(self.named()),
            r.1 <= r.0,
    {
        let mut pending: usize = 0;
        let mut identifiers: usize = 0;
        let mut i: usize = 0;
        assert(self.targets@.take(0) =~= Seq::empty());
        while i < self.targets.len()
            invariant
                i <= self.targets@.len(),
                pending == pending_in(self.targets@.take(i as int)),
                identifiers == identifiers_in(self.targets@.take(i as int)),
                identifiers <= pending <= i,
            decreases self.targets@.len() - i,
        {
            assert(self.targets@.take(i + 1).drop_last() =~= self.targets@.take(i as int));
            let target = &self.targets[i];
            match target.state {
                FenceTargetState::Pending => {
                    pending = pending + 1;
                    if target.attempt_id.is_some() {
                        identifiers = identifiers + 1;
                    }
                },
                FenceTargetState::Acknowledged | FenceTargetState::Terminated => {},
            }
            i = i + 1;
        }
        assert(self.targets@.take(self.targets@.len() as int) =~= self.targets@);
        (pending, identifiers)
    }

    /// The record that is written back: the same targets, with no identifier owed by one that is
    /// settled, and the same origin. It still names generations that owe nothing, because a later
    /// controller may have to fence them. Nothing where it names none.
    pub fn record(&self) -> (r: Option<Fencing>)
        ensures
            self.named().len() == 0 ==> r is None,
            self.named().len() != 0 ==> (r matches Some(record) && {
                &&& record.named() == self.named().map_values(|t: FenceTarget| t.as_recorded())
                &&& record.candidate() == self.candidate()
                &&& record.since() == self.since()
            }),
    {
        if self.targets.len() == 0 {
            return None;
        }
        let mut targets: Vec<FenceTarget> = Vec::new();
        let mut i: usize = 0;
        while i < self.targets.len()
            invariant
                i <= self.targets@.len(),
                targets@.len() == i,
                forall|j: int| 0 <= j < i ==> targets@[j] == self.targets@[j].as_recorded(),
            decreases self.targets@.len() - i,
        {
            let mut target = self.targets[i].copied();
            match target.state {
                FenceTargetState::Pending => {},
                FenceTargetState::Acknowledged | FenceTargetState::Terminated => {
                    target.attempt_id = None;
                },
            }
            targets.push(target);
            i = i + 1;
        }
        assert(targets@ =~= self.named().map_values(|t: FenceTarget| t.as_recorded()));
        Some(
            Fencing {
                targets,
                candidate_root: copied_text(&self.candidate_root),
                fencing_since_millis: self.fencing_since_millis,
            },
        )
    }
}

/// Every target after an observation.
pub open spec fn advanced_all(
    targets: Seq<FenceTarget>,
    worker: u64,
    generation: u64,
    state: FenceTargetState,
) -> Seq<FenceTarget> {
    targets.map_values(|t: FenceTarget| t.advanced(worker, generation, state))
}

/// How many targets owe an answer.
pub open spec fn pending_in(targets: Seq<FenceTarget>) -> nat
    decreases targets.len(),
{
    if targets.len() == 0 {
        0
    } else {
        pending_in(targets.drop_last()) + (if targets.last().state == FenceTargetState::Pending {
            1nat
        } else {
            0
        })
    }
}

/// How many identifiers targets that owe an answer were issued.
pub open spec fn identifiers_in(targets: Seq<FenceTarget>) -> nat
    decreases targets.len(),
{
    if targets.len() == 0 {
        0
    } else {
        identifiers_in(targets.drop_last()) + (if targets.last().state == FenceTargetState::Pending
            && targets.last().attempt_id is Some {
            1nat
        } else {
            0
        })
    }
}

/// Observing the same thing twice is observing it once.
pub proof fn observing_again_changes_nothing(
    targets: Seq<FenceTarget>,
    worker: u64,
    generation: u64,
    state: FenceTargetState,
)
    ensures
        ({
            let once = advanced_all(targets, worker, generation, state);
            advanced_all(once, worker, generation, state) == once
        }),
{
    let once = advanced_all(targets, worker, generation, state);
    assert(advanced_all(once, worker, generation, state) =~= once);
}

/// No observation makes a settled target pending, and none touches a target it does not name.
pub proof fn settled_targets_stay_settled(
    target: FenceTarget,
    worker: u64,
    generation: u64,
    state: FenceTargetState,
)
    ensures
        target.state != FenceTargetState::Pending ==> target.advanced(
            worker,
            generation,
            state,
        ).state != FenceTargetState::Pending,
        target.state == FenceTargetState::Terminated ==> target.advanced(worker, generation, state)
            == target,
        target.worker_id != worker || target.generation != generation ==> target.advanced(
            worker,
            generation,
            state,
        ) == target,
{
}

/// A record that was written back after a pass that observed nothing reads as it was, if its
/// settled targets owed no identifier: any number of such passes leave it alone.
pub proof fn an_uneventful_pass_leaves_the_record(targets: Seq<FenceTarget>)
    requires
        forall|i: int|
            0 <= i < targets.len() ==> ((#[trigger] targets[i]).state == FenceTargetState::Pending
                || targets[i].attempt_id is None),
    ensures
        targets.map_values(|t: FenceTarget| t.as_recorded()) == targets,
{
    assert(targets.map_values(|t: FenceTarget| t.as_recorded()) =~= targets);
}

/// Why a controller reads a recorded obligation.
#[derive(Clone, Copy, Debug, PartialEq, Eq, Structural)]
pub enum DischargeReason {
    /// It is about to replace the generations the record names.
    SupersedingTheGenerationsItNames,
    /// It keeps them.
    AdoptingTheGenerationItNames,
}

/// A pass over a recorded obligation.
#[derive(Debug)]
pub struct RecoveryPass {
    obligation: RecoveredObligation,
}

/// What is left to do about a row's obligation.
#[derive(Debug)]
pub enum RecoveryStep {
    /// Nothing.
    Over(Discharge),
    /// Its targets are to be addressed and observed.
    Pass(RecoveryPass),
}

/// What is reported of a controller that holds no fence to advance.
pub open spec fn no_adopted_fence(job_id: Seq<char>) -> Seq<char> {
    "job "@ + job_id + " cannot advance a lifecycle fence over its recovered obligation: job "@
        + job_id
        + " carries no adopted lifecycle fence, so this controller cannot address its worker generations under one"@
}

/// Begins a pass over what the job's row carries. A mechanism that records none reads none; a
/// controller that holds no fence can address nobody.
pub fn discharge_recorded_obligation(
    mode: LifecycleMode,
    job_id: &str,
    recorded: Option<&Fencing>,
    adopted_fence: u64,
    reason: DischargeReason,
) -> (r: RecoveryStep)
    ensures
        if mode != LifecycleMode::FencedV2 {
            r == RecoveryStep::Over(Discharge::Inactive)
        } else {
            match recorded {
                None => r == RecoveryStep::Over(Discharge::NothingRecorded),
                Some(record) => if adopted_fence == 0 {
                    r matches RecoveryStep::Over(Discharge::Unusable(report)) && report@
                        == no_adopted_fence(job_id@)
                } else {
                    r matches RecoveryStep::Pass(pass) && {
                        &&& pass.named() == (match reason {
                            DischargeReason::SupersedingTheGenerationsItNames => {
                                record.named().map_values(|t: FenceTarget| t.as_reopened())
                            },
                            DischargeReason::AdoptingTheGenerationItNames => record.named(),
                        })
                        &&& pass.candidate() == record.candidate()
                        &&& pass.since() == record.since()
                        &&& pass.bound() == adopted_fence - 1
                    }
                },
            }
        },
{
    if !mode.recovers_a_durable_fencing_obligation() {
        return RecoveryStep::Over(Discharge::Inactive);
    }
    match recorded {
        None => RecoveryStep::Over(Discharge::NothingRecorded),
        Some(record) => {
            if adopted_fence == 0 {
                let mut report = "job ".to_owned();
                report.append(job_id);
                report.append(
                    " cannot advance a lifecycle fence over its recovered obligation: job ",
                );
                report.append(job_id);
                report.append(
                    " carries no adopted lifecycle fence, so this controller cannot address its worker generations under one",
                );
                return RecoveryStep::Over(Discharge::Unusable(report));
            }
            let obligation = match reason {
                DischargeReason::SupersedingTheGenerationsItNames => RecoveredObligation::of(
                    &record.reopened(),
                    adopted_fence,
                ),
                DischargeReason::AdoptingTheGenerationItNames => RecoveredObligation::of(
                    record,
                    adopted_fence,
                ),
            };
            RecoveryStep::Pass(RecoveryPass { obligation })
        },
    }
}

impl RecoveryPass {
    pub closed spec fn named(self) -> Seq<FenceTarget> {
        self.obligation.named()
    }

    pub closed spec fn candidate(self) -> Option<String> {
        self.obligation.candidate()
    }

    pub closed spec fn since(self) -> Option<u64> {
        self.obligation.since()
    }

    pub closed spec fn bound(self) -> u64 {
        self.obligation.bound()
    }

    /// The obligation, for reading observations into.
    pub fn obligation_mut(&mut self) -> (r: &mut RecoveredObligation)
        ensures
            r.named() == old(self).named(),
            r.candidate() == old(self).candidate(),
            r.since() == old(self).since(),
            r.bound() == old(self).bound(),
            final(self).named() == final(r).named(),
            final(self).candidate() == final(r).candidate(),
            final(self).since() == final(r).since(),
            final(self).bound() == final(r).bound(),
    {
        &mut self.obligation
    }

    /// The record to write, at the end of the pass.
    pub fn record(&self) -> (r: Option<Fencing>)
        ensures
            self.named().len() == 0 ==> r is None,
            self.named().len() != 0 ==> (r matches Some(record) && {
                &&& record.named() == self.named().map_values(|t: FenceTarget| t.as_recorded())
                &&& record.candidate() == self.candidate()
                &&& record.since() == self.since()
            }),
    {
        self.obligation.record()
    }

    /// What the pass came to, once its record was written or could not be. Nothing is settled
    /// until the row says so.
    pub fn published(self, outcome: Result<StatusPublication, String>) -> (r: Discharge)
        ensures
            match outcome {
                Ok(StatusPublication::Superseded(stale)) => r == Discharge::Superseded(stale),
                Err(failure) => r == Discharge::Unusable(failure),
                Ok(StatusPublication::Published) => if pending_in(self.named()) == 0 {
                    r == Discharge::Settled
                } else {
                    r matches Discharge::StillPending { pending, outstanding_attempts } && pending
                        == pending_in(self.named()) && outstanding_attempts == identifiers_in(
                        self.named(),
                    )
                },
            },
    {
        match outcome {
            Ok(StatusPublication::Superseded(stale)) => Discharge::Superseded(stale),
            Err(failure) => Discharge::Unusable(failure),
            Ok(StatusPublication::Published) => {
                let (pending, outstanding_attempts) = self.obligation.owed();
                if pending == 0 {
                    Discharge::Settled
                } else {
                    Discharge::StillPending { pending, outstanding_attempts }
                }
            },
        }
    }
}

/// What a scheduler says about the live workers of a generation.
#[derive(Clone, Debug, PartialEq, Eq)]
pub enum GenerationObservation {
    /// These are live, and no others.
    Live(Vec<WorkerId>),
    /// It keeps no account of them.
    Untracked { why: String },
}

/// The terminations a scheduler's answer is evidence of: every addressed worker that a listing of
/// the live ones leaves out. An answer that is no listing is evidence of nothing.
pub fn observe_terminations(
    observed: Result<GenerationObservation, String>,
    generation: u64,
    addressed: &Vec<WorkerId>,
) -> (r: Result<Vec<ObservedTermination>, String>)
    ensures
        match observed {
            Err(e) => r == Err::<Vec<ObservedTermination>, _>(e),
            Ok(GenerationObservation::Untracked { why }) => r == Err::<
                Vec<ObservedTermination>,
                _,
            >(why),
            Ok(GenerationObservation::Live(live)) => r matches Ok(gone) && {
                &&& forall|i: int|
                    0 <= i < gone@.len() ==> (#[trigger] gone@[i]).of_generation() == generation
                &&& gone@.map_values(|t: ObservedTermination| t.of_worker()) == addressed@.filter(
                    |w: WorkerId| !live@.contains(w),
                )
            },
        },
{
    match observed {
        Err(e) => Err(e),
        Ok(GenerationObservation::Untracked { why }) => Err(why),
        Ok(GenerationObservation::Live(live)) => {
            let mut gone: Vec<ObservedTermination> = Vec::new();
            let mut i: usize = 0;
            let ghost absent = |w: WorkerId| !live@.contains(w);
            assert(addressed@.take(0).filter(absent) =~= Seq::empty()) by {
                reveal(Seq::filter);
            }
            while i < addressed.len()
                invariant
                    i <= addressed@.len(),
                    absent == (|w: WorkerId| !live@.contains(w)),
                    forall|j: int|
                        0 <= j < gone@.len() ==> (#[trigger] gone@[j]).of_generation()
                            == generation,
                    gone@.map_values(|t: ObservedTermination| t.of_worker()) =~= addressed@.take(
                        i as int,
                    ).filter(absent),
                decreases addressed@.len() - i,
            {
                let worker = addressed[i];
                let ghost before = gone@;
                let lives = lists(&live, worker);
                if !lives {
                    gone.push(ObservedTermination::observed(worker, generation));
                }
                proof {
                    let taken = addressed@.take(i + 1);
                    assert(taken.drop_last() =~= addressed@.take(i as int));
                    assert(taken.last() == worker);
                    reveal(Seq::filter);
                    if !lives {
                        assert(gone@.map_values(|t: ObservedTermination| t.of_worker())
                            =~= before.map_values(|t: ObservedTermination| t.of_worker()).push(
                            worker,
                        ));
                    }
                }
                i = i + 1;
            }
            assert(addressed@.take(addressed@.len() as int) =~= addressed@);
            Ok(gone)
        },
    }
}

fn lists(live: &Vec<WorkerId>, worker: WorkerId) -> (r: bool)
    ensures
        r == live@.contains(worker),
{
    let mut i: usize = 0;
    while i < live.len()
        invariant
            i <= live@.len(),
            forall|j: int| 0 <= j < i ==> live@[j] != worker,
        decreases live@.len() - i,
    {
        if live[i] == worker {
            assert(live@[i as int] == worker);
            return true;
        }
        i = i + 1;
    }
    false
}

/// A record names every target it is made of, or is not made: nothing is left out to make it fit. It
/// is made exactly where it holds them all, and says the candidate and the origin it was given.
pub proof fn a_record_leaves_no_target_out(
    targets: Vec<FenceTarget>,
    candidate_root: Option<String>,
    since: Option<u64>,
    capacity: usize,
    r: Result<Fencing, Unrecordable>,
    named: &[FenceTarget],
    candidate: Option<&str>,
    origin: Option<u64>,
)
    requires
        call_ensures(Fencing::record, (targets, candidate_root, since, capacity), r),
        r matches Ok(record) ==> call_ensures(Fencing::targets, (&record,), named) && call_ensures(
            Fencing::candidate_root,
            (&record,),
            candidate,
        ) && call_ensures(Fencing::fencing_since_millis, (&record,), origin),
    ensures
        r is Ok <==> targets@.len() <= capacity,
        r is Ok ==> named@ == targets@,
        r is Ok ==> (candidate is Some <==> candidate_root is Some),
        r is Ok && candidate is Some ==> candidate->0@ == candidate_root->0@,
        r is Ok ==> origin == since,
        r matches Err(e) ==> e == (Unrecordable::TooManyTargets {
            targets: targets.len(),
            capacity,
        }),
{
}

/// An interrupted attempt's obligation is described exactly where its targets and its identifiers
/// are of one generation and a record holds them; there is none where it addressed nobody. Each
/// worker it addressed is a target, where it was reached, in the state it was seen in, owing the
/// identifier it was issued exactly where nothing accounts for that.
pub proof fn every_addressed_worker_is_described(
    generation: u64,
    addressed: Vec<AddressedWorker>,
    inventory: &IssuedAttempts,
    candidate_root: Option<String>,
    since: Option<u64>,
    capacity: usize,
    r: Result<Option<Fencing>, Unrecordable>,
    issued: usize,
    issued_for: u64,
    named: &[FenceTarget],
    origin: Option<u64>,
    i: int,
    record: Option<&crate::scheduling::fanout::AttemptRecord>,
)
    requires
        call_ensures(
            describe,
            (generation, addressed, inventory, candidate_root, since, capacity),
            r,
        ),
        call_ensures(IssuedAttempts::issued_count, (inventory,), issued),
        call_ensures(IssuedAttempts::generation, (inventory,), issued_for),
        r matches Ok(Some(fencing)) ==> call_ensures(Fencing::targets, (&fencing,), named)
            && call_ensures(Fencing::fencing_since_millis, (&fencing,), origin),
        0 <= i < addressed@.len() ==> call_ensures(
            IssuedAttempts::record,
            (inventory, addressed@[i].worker),
            record,
        ),
    ensures
        r is Ok <==> !(issued > 0 && issued_for != generation) && addressed@.len() <= capacity,
        r matches Ok(described) ==> (described is None <==> addressed@.len() == 0),
        r is Ok && addressed@.len() > 0 ==> named@.len() == addressed@.len() && origin == since,
        r is Ok && 0 <= i < addressed@.len() ==> named@[i].worker_id == addressed@[i].worker.0
            && named@[i].generation == generation && named@[i].state == addressed@[i].state
            && named@[i].rpc_address == addressed@[i].rpc_address && named@[i].incarnation
            == addressed@[i].incarnation && (named@[i].attempt_id is Some <==> record is Some
            && record->0.accounted is None) && (named@[i].attempt_id is Some
            ==> named@[i].attempt_id->0@ == record->0.attempt_id@),
        r matches Err(e) ==> (e is GenerationMismatch <==> issued > 0 && issued_for != generation),
{
    if r is Ok && 0 <= i < addressed@.len() {
        let fencing = r->Ok_0->0;
        assert(target_of(addressed@[i], generation, inventory@, fencing.named()[i]));
    }
}

/// A target as the controller that replaces its generation reads it: an acknowledgement has expired,
/// and with it the identifier it settled; everything else stands as it was. Nobody comes or goes.
pub proof fn only_acknowledgements_expire(
    record: &Fencing,
    reopened: Fencing,
    before: &[FenceTarget],
    after: &[FenceTarget],
    i: int,
)
    requires
        call_ensures(Fencing::reopened, (record,), reopened),
        call_ensures(Fencing::targets, (record,), before),
        call_ensures(Fencing::targets, (&reopened,), after),
        0 <= i < before@.len(),
    ensures
        after@.len() == before@.len(),
        after@[i].worker_id == before@[i].worker_id,
        after@[i].generation == before@[i].generation,
        after@[i].rpc_address == before@[i].rpc_address,
        after@[i].incarnation == before@[i].incarnation,
        after@[i].state == FenceTargetState::Terminated <==> before@[i].state
            == FenceTargetState::Terminated,
        after@[i].state == FenceTargetState::Pending <==> before@[i].state
            != FenceTargetState::Terminated,
        before@[i].state != FenceTargetState::Acknowledged ==> after@[i].attempt_id
            == before@[i].attempt_id,
        before@[i].state == FenceTargetState::Acknowledged ==> after@[i].attempt_id is None,
        reopened.candidate() == record.candidate(),
        reopened.since() == record.since(),
{
}

/// A recovered obligation is what the row records. A target is settled by an acknowledgement exactly
/// where it owes an answer, the acknowledgement is its own, and the fence is at least the one this
/// controller adopted; no other target changes, nor anything but its state.
pub proof fn an_acknowledgement_settles_only_under_the_adopted_fence(
    record: &Fencing,
    adopted_fence: u64,
    obligation: &mut RecoveredObligation,
    acknowledgement: &FenceAcknowledgement,
    worker: WorkerId,
    generation: u64,
    fence: u64,
    news: bool,
    targets: &[FenceTarget],
    before: Vec<(u64, u64, FenceTargetState)>,
    after: Vec<(u64, u64, FenceTargetState)>,
    i: int,
)
    requires
        adopted_fence > 0,
        call_ensures(RecoveredObligation::of, (record, adopted_fence), *old(obligation)),
        call_ensures(Fencing::targets, (record,), targets),
        call_ensures(FenceAcknowledgement::worker, (acknowledgement,), worker),
        call_ensures(FenceAcknowledgement::generation, (acknowledgement,), generation),
        call_ensures(FenceAcknowledgement::observed_fence, (acknowledgement,), fence),
        call_ensures(RecoveredObligation::states, (&*old(obligation),), before),
        call_ensures(
            RecoveredObligation::observe_acknowledgement,
            (obligation, acknowledgement),
            news,
        ),
        call_ensures(RecoveredObligation::states, (&*final(obligation),), after),
        0 <= i < targets@.len(),
    ensures
        before@.len() == targets@.len(),
        after@.len() == targets@.len(),
        before@[i] == (targets@[i].worker_id, targets@[i].generation, targets@[i].state),
        after@[i].0 == before@[i].0,
        after@[i].1 == before@[i].1,
        after@[i].2 == (if before@[i].2 == FenceTargetState::Pending && before@[i].0 == worker.0
            && before@[i].1 == generation && fence >= adopted_fence {
            FenceTargetState::Acknowledged
        } else {
            before@[i].2
        }),
        after@[i] != before@[i] ==> news,
{
    let was = old(obligation).named();
    let now = final(obligation).named();
    assert(before@[i] == (was[i].worker_id, was[i].generation, was[i].state));
    assert(after@[i] == (now[i].worker_id, now[i].generation, now[i].state));
}

/// A target is settled for good by the termination of its own generation, and by that of no other;
/// it keeps what it is and where it was reached.
pub proof fn a_termination_settles_its_own_target(
    obligation: &mut RecoveredObligation,
    termination: &ObservedTermination,
    worker: WorkerId,
    generation: u64,
    news: bool,
    before: Vec<(u64, u64, FenceTargetState)>,
    after: Vec<(u64, u64, FenceTargetState)>,
    i: int,
)
    requires
        call_ensures(ObservedTermination::worker, (termination,), worker),
        call_ensures(ObservedTermination::generation, (termination,), generation),
        call_ensures(RecoveredObligation::states, (&*old(obligation),), before),
        call_ensures(RecoveredObligation::observe_termination, (obligation, termination), news),
        call_ensures(RecoveredObligation::states, (&*final(obligation),), after),
        0 <= i < before@.len(),
    ensures
        after@.len() == before@.len(),
        after@[i].0 == before@[i].0,
        after@[i].1 == before@[i].1,
        after@[i].2 == (if before@[i].0 == worker.0 && before@[i].1 == generation {
            FenceTargetState::Terminated
        } else {
            before@[i].2
        }),
        after@[i] != before@[i] ==> news,
        final(obligation).named()[i].attempt_id == old(obligation).named()[i].attempt_id,
        final(obligation).named()[i].rpc_address == old(obligation).named()[i].rpc_address,
{
    let was = old(obligation).named();
    let now = final(obligation).named();
    assert(before@.len() == was.len());
    assert(before@[i] == (was[i].worker_id, was[i].generation, was[i].state));
    assert(after@[i] == (now[i].worker_id, now[i].generation, now[i].state));
}

proof fn pending_targets_are_counted(targets: Seq<FenceTarget>)
    ensures
        pending_in(targets) == targets.filter(
            |t: FenceTarget| t.state == FenceTargetState::Pending,
        ).len(),
        identifiers_in(targets) == targets.filter(
            |t: FenceTarget| t.state == FenceTargetState::Pending && t.attempt_id is Some,
        ).len(),
        pending_in(targets) == 0 <==> forall|i: int|
            0 <= i < targets.len() ==> (#[trigger] targets[i]).state != FenceTargetState::Pending,
    decreases targets.len(),
{
    reveal(Seq::filter);
    if targets.len() > 0 {
        let earlier = targets.drop_last();
        pending_targets_are_counted(earlier);
        assert(forall|i: int| 0 <= i < earlier.len() ==> #[trigger] earlier[i] == targets[i]);
        assert(targets[targets.len() - 1] == targets.last());
        if pending_in(targets) == 0 {
            assert forall|i: int| 0 <= i < targets.len() implies (#[trigger] targets[i]).state
                != FenceTargetState::Pending by {
                if i < earlier.len() {
                    assert(earlier[i].state != FenceTargetState::Pending);
                }
            }
        }
        if forall|i: int|
            0 <= i < targets.len() ==> (#[trigger] targets[i]).state != FenceTargetState::Pending {
            assert forall|i: int| 0 <= i < earlier.len() implies (#[trigger] earlier[i]).state
                != FenceTargetState::Pending by {
                assert(targets[i].state != FenceTargetState::Pending);
            }
        }
    }
}

/// What is owed is as many answers as there are pending targets and as many identifiers as those
/// were issued; nothing is owed exactly where no target is pending.
pub proof fn what_is_owed_is_what_is_pending(
    obligation: &RecoveredObligation,
    owed: (usize, usize),
    states: Vec<(u64, u64, FenceTargetState)>,
)
    requires
        call_ensures(RecoveredObligation::owed, (obligation,), owed),
        call_ensures(RecoveredObligation::states, (obligation,), states),
    ensures
        owed.0 == obligation.named().filter(
            |t: FenceTarget| t.state == FenceTargetState::Pending,
        ).len(),
        owed.1 == obligation.named().filter(
            |t: FenceTarget| t.state == FenceTargetState::Pending && t.attempt_id is Some,
        ).len(),
        owed.1 <= owed.0,
        owed.0 == 0 <==> forall|i: int|
            0 <= i < states@.len() ==> (#[trigger] states@[i]).2 != FenceTargetState::Pending,
{
    pending_targets_are_counted(obligation.named());
    let targets = obligation.named();
    assert(states@.len() == targets.len());
    assert(forall|i: int|
        0 <= i < targets.len() ==> (#[trigger] states@[i]).2 == targets[i].state);
    if forall|i: int|
        0 <= i < states@.len() ==> (#[trigger] states@[i]).2 != FenceTargetState::Pending {
        assert forall|i: int| 0 <= i < targets.len() implies (#[trigger] targets[i]).state
            != FenceTargetState::Pending by {
            assert(states@[i].2 == targets[i].state);
        }
    }
}

/// A pass is made exactly over a recorded obligation, by the fenced mechanism, under a fence that
/// was adopted. It starts from the record, in which a controller that replaces the generations it
/// names has every acknowledgement expire and one that keeps them has none.
pub proof fn a_pass_is_made_only_over_a_recorded_obligation(
    mode: LifecycleMode,
    job_id: &str,
    recorded: Option<&Fencing>,
    adopted_fence: u64,
    reason: DischargeReason,
    r: RecoveryStep,
    reopened: Fencing,
)
    requires
        call_ensures(
            discharge_recorded_obligation,
            (mode, job_id, recorded, adopted_fence, reason),
            r,
        ),
        recorded is Some ==> call_ensures(Fencing::reopened, (recorded->0,), reopened),
    ensures
        r is Pass <==> mode == LifecycleMode::FencedV2 && recorded is Some && adopted_fence > 0,
        r matches RecoveryStep::Pass(pass) ==> pass.named() == (if reason
            == DischargeReason::SupersedingTheGenerationsItNames {
            reopened.named()
        } else {
            recorded->0.named()
        }) && pass.bound() + 1 == adopted_fence && pass.since() == recorded->0.since()
            && pass.candidate() == recorded->0.candidate(),
        r matches RecoveryStep::Over(discharge) ==> (discharge is Inactive <==> mode
            != LifecycleMode::FencedV2) && (discharge is NothingRecorded <==> mode
            == LifecycleMode::FencedV2 && recorded is None) && (discharge is Unusable <==> mode
            == LifecycleMode::FencedV2 && recorded is Some),
{
}

/// A pass settles the job's obligation exactly where the row was written and no target is pending;
/// otherwise it says how much is owed, that another controller holds the job, or why the row was not
/// written. What is written names every target in its state, without the identifiers of those that
/// are settled.
pub proof fn a_pass_settles_only_what_the_row_says(
    pass: RecoveryPass,
    outcome: Result<StatusPublication, String>,
    r: Discharge,
    record: Option<Fencing>,
    i: int,
)
    requires
        call_ensures(RecoveryPass::published, (pass, outcome), r),
        call_ensures(RecoveryPass::record, (&pass,), record),
    ensures
        r is Settled <==> outcome is Ok && outcome->Ok_0 is Published && (forall|k: int|
            0 <= k < pass.named().len() ==> (#[trigger] pass.named()[k]).state
                != FenceTargetState::Pending),
        r is StillPending ==> r->pending == pass.named().filter(
            |t: FenceTarget| t.state == FenceTargetState::Pending,
        ).len() && r->outstanding_attempts == pass.named().filter(
            |t: FenceTarget| t.state == FenceTargetState::Pending && t.attempt_id is Some,
        ).len(),
        r is Superseded <==> outcome is Ok && outcome->Ok_0 is Superseded,
        r matches Discharge::Superseded(holder) ==> holder == outcome->Ok_0->Superseded_0,
        r is Unusable <==> outcome is Err,
        r matches Discharge::Unusable(why) ==> why == outcome->Err_0,
        !(r is Inactive) && !(r is NothingRecorded),
        record is Some <==> pass.named().len() > 0,
        record is Some ==> record->0.named().len() == pass.named().len() && record->0.since()
            == pass.since() && record->0.candidate() == pass.candidate(),
        0 <= i < pass.named().len() ==> record->0.named()[i].worker_id == pass.named()[i].worker_id
            && record->0.named()[i].generation == pass.named()[i].generation
            && record->0.named()[i].state == pass.named()[i].state
            && record->0.named()[i].rpc_address == pass.named()[i].rpc_address
            && record->0.named()[i].incarnation == pass.named()[i].incarnation
            && record->0.named()[i].attempt_id == (if pass.named()[i].state
            == FenceTargetState::Pending {
            pass.named()[i].attempt_id
        } else {
            None
        }),
{
    pending_targets_are_counted(pass.named());
}

/// A scheduler's listing of the live workers is evidence that every addressed worker it leaves out
/// is gone, in that generation, and of nothing else; an answer that is no listing is no evidence.
pub proof fn who_is_not_listed_is_gone(
    observed: Result<GenerationObservation, String>,
    generation: u64,
    addressed: &Vec<WorkerId>,
    r: Result<Vec<ObservedTermination>, String>,
    asked: WorkerId,
)
    requires
        call_ensures(observe_terminations, (observed, generation, addressed), r),
    ensures
        r is Ok <==> observed is Ok && observed->Ok_0 is Live,
        observed matches Err(e) ==> r->Err_0 == e,
        observed is Ok && observed->Ok_0 is Untracked ==> r->Err_0 == observed->Ok_0->why,
        r matches Ok(gone) ==> ((exists|i: int|
            0 <= i < gone@.len() && (#[trigger] gone@[i]).of_worker() == asked)
            <==> addressed@.contains(asked) && !observed->Ok_0->Live_0@.contains(asked)),
        r matches Ok(gone) ==> forall|i: int|
            0 <= i < gone@.len() ==> (#[trigger] gone@[i]).of_generation() == generation,
{
    if r is Ok {
        let gone = r->Ok_0@;
        let live = observed->Ok_0->Live_0@;
        let absent = |w: WorkerId| !live.contains(w);
        let workers = gone.map_values(|t: ObservedTermination| t.of_worker());
        let missing = addressed@.filter(absent);
        assert(workers == missing);
        if addressed@.contains(asked) && !live.contains(asked) {
            let i = choose|i: int| 0 <= i < addressed@.len() && addressed@[i] == asked;
            assert(absent(addressed@[i]));
            addressed@.lemma_filter_contains(absent, i);
        }
        if missing.contains(asked) {
            addressed@.lemma_filter_contains_rev(absent, asked);
            let i = choose|i: int| 0 <= i < missing.len() && missing[i] == asked;
            assert(absent(missing[i]));
        }
        if exists|i: int| 0 <= i < gone.len() && (#[trigger] gone[i]).of_worker() == asked {
            let i = choose|i: int| 0 <= i < gone.len() && (#[trigger] gone[i]).of_worker() == asked;
            assert(workers[i] == asked);
            assert(missing.contains(asked));
        }
        if missing.contains(asked) {
            let i = choose|i: int| 0 <= i < missing.len() && missing[i] == asked;
            assert(workers[i] == asked);
            assert(gone[i].of_worker() == asked);
        }
    }
}

/// A refusal to record says the two numbers it is about.
pub proof fn a_refusal_to_record_says_its_numbers(refusal: &Unrecordable, r: String)
    requires
        call_ensures(Unrecordable::report, (refusal,), r),
    ensures
        *refusal matches Unrecordable::TooManyTargets { targets, capacity } ==> exists|
            before: Seq<char>,
            between: Seq<char>,
            after: Seq<char>,
        | #![trigger says(r@, before, targets as nat, between, capacity as nat, after)]
            says(r@, before, targets as nat, between, capacity as nat, after),
        *refusal matches Unrecordable::GenerationMismatch { targets, issued } ==> exists|
            before: Seq<char>,
            between: Seq<char>,
            after: Seq<char>,
        | #![trigger says(r@, before, targets as nat, between, issued as nat, after)]
            says(r@, before, targets as nat, between, issued as nat, after),
{
    match *refusal {
        Unrecordable::TooManyTargets { targets, capacity } => {
            assert(says(
                r@,
                "a fencing record of "@,
                targets as nat,
                " targets is more than the "@,
                capacity as nat,
                " one holds"@,
            ));
        },
        Unrecordable::GenerationMismatch { targets, issued } => {
            assert(r@ =~= r@ + Seq::<char>::empty());
            assert(says(
                r@,
                "this attempt's targets are of generation "@,
                targets as nat,
                " while the identifiers it issued are of generation "@,
                issued as nat,
                Seq::empty(),
            ));
        },
    }
}

/// Whether a text says two numbers, in this order and with these texts around them.
pub open spec fn says(
    text: Seq<char>,
    before: Seq<char>,
    first: nat,
    between: Seq<char>,
    second: nat,
    after: Seq<char>,
) -> bool {
    text == before + text::decimal_digits(first) + between + text::decimal_digits(second) + after
}

} // verus!
