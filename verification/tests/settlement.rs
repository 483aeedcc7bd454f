//! The obligation an interrupted fan-out leaves, and the owner that answers for it.

use arroyo_controller::admission::{Admission, AdmissionLock};
use arroyo_controller::lifecycle::mode::{JobLifecycle, LifecycleMode};
use arroyo_controller::lifecycle::settlement::{Ended, JobSettlementOwner, Progress};
use arroyo_controller::lifecycle::witness::{FenceAcknowledgement, ObservedTermination};
use arroyo_controller::scheduling::fanout::observed::{Accounted, Disagreement, Observed};
use arroyo_controller::scheduling::fanout::settlement::{
    hand_over, retain_without_a_phase, Disposal, Obligation, SettlementBundle, SettlementOutcome,
    SettlementOwner, SettlementReceipt,
};
use arroyo_controller::scheduling::fanout::{Accounting, AttemptLedger, IssuedAttempts};
use arroyo_controller::scheduling::phases::{
    AwaitingTasks, AwaitingWorkers, CommitPublish, Fanning, Leaving, Preamble, StartFanOut,
};
use arroyo_controller::types::WorkerId;
use std::marker::PhantomData;

const GENERATION: u64 = 7;
const FENCE: u64 = 11;

fn ack(worker: u64, generation: u64) -> FenceAcknowledgement {
    FenceAcknowledgement::reported(WorkerId(worker), generation, FENCE + 1)
}

fn gone(worker: u64, generation: u64) -> ObservedTermination {
    ObservedTermination::observed(WorkerId(worker), generation)
}

fn admitted() -> (AdmissionLock, Admission) {
    let lock = AdmissionLock::for_job("job_abc".to_string());
    let admission = lock.try_admit().expect("nobody else holds the lock");
    (lock, admission)
}

fn inventory(issued: &[(u64, &str)]) -> IssuedAttempts {
    let mut inventory = IssuedAttempts::issued_under(GENERATION, FENCE);
    for (worker, attempt_id) in issued {
        inventory.issued(WorkerId(*worker), (*attempt_id).to_string());
    }
    inventory
}

fn obligation(admission: Admission, issued: &[(u64, &str)]) -> SettlementBundle {
    SettlementBundle::new(admission, inventory(issued))
}

fn owning(issued: &[(u64, &str)]) -> (AdmissionLock, JobSettlementOwner) {
    let (authority, admission) = admitted();
    let mut owner = JobSettlementOwner::for_job("job_abc".to_string());
    let SettlementOutcome::Transferred(receipt) =
        hand_over(obligation(admission, issued), Some(&mut owner))
    else {
        panic!("this owner takes an obligation offered to it");
    };
    assert_eq!(receipt.outstanding(), issued.len());
    (authority, owner)
}

#[test]
fn the_publication_lock_is_taken_while_an_admission_lives() {
    let (lock, admission) = admitted();
    assert!(!lock.is_free());
    assert!(lock.try_admit().is_none());
    drop(admission);
    assert!(lock.is_free());
    let admission = lock.try_admit().expect("released");
    let _released = admission.release();
    assert!(lock.is_free());
    let retained = lock.try_admit().expect("released").retain();
    drop(retained);
    assert!(!lock.is_free());
}

#[test]
fn each_of_the_three_observations_accounts_for_the_identifier_it_names() {
    for (observed, expected) in [
        (
            Observed::authoritative_response(WorkerId(4), GENERATION, "id-4"),
            Accounting::AuthoritativeResponse,
        ),
        (Observed::acknowledged_fence(&ack(4, GENERATION)), Accounting::AcknowledgedFence),
        (Observed::terminated_generation(&gone(4, GENERATION)), Accounting::TerminatedGeneration),
    ] {
        let (authority, mut owner) = owning(&[(4, "id-4")]);
        assert!(!authority.is_free(), "{expected:?}");
        let Progress::Discharged(discharged) = owner.observe(&observed) else {
            panic!("{expected:?}: this is the only identifier owed");
        };
        assert_eq!(discharged.accounted(), [(WorkerId(4), "id-4".to_string(), expected)]);
        assert_eq!(discharged.count(), 1);
        assert_eq!(owner.outstanding(), None, "{expected:?}");
        assert!(authority.is_free(), "{expected:?}");
    }
}

#[test]
fn mutating_the_agreement_between_identifier_generation_and_outcome_accounts_for_nothing() {
    let cases: Vec<(&str, Observed, Disagreement)> = vec![
        (
            "a response from another generation",
            Observed::authoritative_response(WorkerId(4), GENERATION + 1, "id-4"),
            Disagreement::Generation { observed: GENERATION + 1, addressed: GENERATION },
        ),
        (
            "an acknowledged fence from another generation",
            Observed::acknowledged_fence(&ack(4, GENERATION - 1)),
            Disagreement::Generation { observed: GENERATION - 1, addressed: GENERATION },
        ),
        (
            "a termination of another generation",
            Observed::terminated_generation(&gone(4, GENERATION + 2)),
            Disagreement::Generation { observed: GENERATION + 2, addressed: GENERATION },
        ),
        (
            "a response from a worker this fan-out issued nothing to",
            Observed::authoritative_response(WorkerId(5), GENERATION, "id-4"),
            Disagreement::NotIssuedTo { worker: 5 },
        ),
        (
            "an acknowledged fence from a worker this fan-out issued nothing to",
            Observed::acknowledged_fence(&ack(5, GENERATION)),
            Disagreement::NotIssuedTo { worker: 5 },
        ),
        (
            "a termination of a worker this fan-out issued nothing to",
            Observed::terminated_generation(&gone(5, GENERATION)),
            Disagreement::NotIssuedTo { worker: 5 },
        ),
        (
            "a response naming another request of this worker",
            Observed::authoritative_response(WorkerId(4), GENERATION, "id-4-previous"),
            Disagreement::Identifier {
                worker: 4,
                observed: "id-4-previous".to_string(),
                issued: "id-4".to_string(),
            },
        ),
        (
            "an acknowledged fence that does not supersede the one this obligation issued under",
            Observed::acknowledged_fence(&FenceAcknowledgement::reported(
                WorkerId(4),
                GENERATION,
                FENCE,
            )),
            Disagreement::Fence { worker: 4, observed: FENCE, issued_under: FENCE },
        ),
        (
            "an acknowledged fence below the one this obligation issued under",
            Observed::acknowledged_fence(&FenceAcknowledgement::reported(
                WorkerId(4),
                GENERATION,
                FENCE - 1,
            )),
            Disagreement::Fence { worker: 4, observed: FENCE - 1, issued_under: FENCE },
        ),
    ];

    for (what, observed, expected) in cases {
        let (authority, mut owner) = owning(&[(4, "id-4")]);
        assert!(matches!(owner.observe(&observed), Progress::NotThisObligation), "{what}");
        assert_eq!(owner.outstanding(), Some(1), "{what}");
        assert!(!authority.is_free(), "{what}");

        let (_authority, admission) = admitted();
        let mut bundle = obligation(admission, &[(4, "id-4")]);
        assert_eq!(bundle.observe(&observed), Accounted::NotThisObligation(expected), "{what}");
        let SettlementOutcome::SettledInPlace(admission, _) = hand_over(bundle, None) else {
            panic!("{what}: with no owner the obligation stays with the caller");
        };
        drop(admission);
    }
}

#[test]
fn an_obligation_is_discharged_only_when_every_identifier_it_issued_is_accounted_for() {
    let (authority, mut owner) = owning(&[(1, "id-1"), (2, "id-2"), (3, "id-3")]);
    assert!(matches!(
        owner.observe(&Observed::authoritative_response(WorkerId(1), GENERATION, "id-1")),
        Progress::StillOwed { outstanding: 2 }
    ));
    assert!(!authority.is_free());
    assert!(matches!(
        owner.observe(&Observed::acknowledged_fence(&ack(2, GENERATION))),
        Progress::StillOwed { outstanding: 1 }
    ));
    assert!(!authority.is_free());

    let Progress::Discharged(discharged) =
        owner.observe(&Observed::terminated_generation(&gone(3, GENERATION)))
    else {
        panic!("the third and last identifier discharges the obligation");
    };
    assert_eq!(
        discharged.accounted(),
        [
            (WorkerId(1), "id-1".to_string(), Accounting::AuthoritativeResponse),
            (WorkerId(2), "id-2".to_string(), Accounting::AcknowledgedFence),
            (WorkerId(3), "id-3".to_string(), Accounting::TerminatedGeneration),
        ]
    );
    assert!(authority.is_free());
}

#[test]
fn observing_the_same_identifier_twice_is_not_two_outcomes() {
    let (authority, mut owner) = owning(&[(1, "id-1"), (2, "id-2")]);
    for _ in 0..3 {
        assert!(matches!(
            owner.observe(&Observed::authoritative_response(WorkerId(1), GENERATION, "id-1")),
            Progress::StillOwed { outstanding: 1 }
        ));
    }
    assert!(matches!(
        owner.observe(&Observed::acknowledged_fence(&ack(1, GENERATION))),
        Progress::StillOwed { outstanding: 1 }
    ));
    assert_eq!(
        owner
            .holding()
            .expect("the obligation is still held")
            .into_iter()
            .map(|(worker, _, accounted)| (worker, accounted))
            .collect::<Vec<_>>(),
        vec![(1, Some(Accounting::AuthoritativeResponse)), (2, None)]
    );
    assert!(matches!(
        owner.observe(&Observed::acknowledged_fence(&ack(2, GENERATION))),
        Progress::Discharged(_)
    ));
    assert!(authority.is_free());
    assert!(matches!(
        owner.observe(&Observed::acknowledged_fence(&ack(1, GENERATION))),
        Progress::NothingHeld
    ));
    assert_eq!(owner.outstanding(), None);
}

#[test]
fn a_second_obligation_is_declined_and_comes_back_whole() {
    let (first_authority, mut owner) = owning(&[(1, "id-1")]);
    let (second_authority, admission) = admitted();

    let outcome =
        hand_over(obligation(admission, &[(2, "id-2"), (3, "id-3")]), Some(&mut owner));
    let SettlementOutcome::SettledInPlace(admission, issued) = outcome else {
        panic!("an owner that already holds an obligation declines the next one");
    };
    assert_eq!(
        issued
            .records()
            .into_iter()
            .map(|(w, r)| (w.0, r.attempt_id.clone()))
            .collect::<Vec<_>>(),
        vec![(2, "id-2".to_string()), (3, "id-3".to_string())]
    );
    assert_eq!(issued.generation(), GENERATION);
    assert_eq!(owner.outstanding(), Some(1));
    assert!(!first_authority.is_free());
    assert!(!second_authority.is_free());
    drop(admission);
    assert!(second_authority.is_free());
}

struct Abandoning;

impl SettlementOwner for Abandoning {
    fn declines(&self, _offered: Obligation) -> bool {
        unreachable!("stated of an owner, and never asked of one")
    }

    fn speaks_for(&self) -> Option<Obligation> {
        unreachable!("stated of an owner, and never asked of one")
    }

    fn speaks_for_after(&self, _offered: Obligation) -> Option<Obligation> {
        unreachable!("stated of an owner, and never asked of one")
    }

    fn take_over(&mut self, bundle: SettlementBundle) -> Result<(), SettlementBundle> {
        drop(bundle);
        Ok(())
    }
}

struct Keeping {
    held: Option<SettlementBundle>,
}

impl SettlementOwner for Keeping {
    fn declines(&self, _offered: Obligation) -> bool {
        unreachable!("stated of an owner, and never asked of one")
    }

    fn speaks_for(&self) -> Option<Obligation> {
        unreachable!("stated of an owner, and never asked of one")
    }

    fn speaks_for_after(&self, _offered: Obligation) -> Option<Obligation> {
        unreachable!("stated of an owner, and never asked of one")
    }

    fn take_over(&mut self, bundle: SettlementBundle) -> Result<(), SettlementBundle> {
        let _outstanding = bundle.issued().outstanding_count();
        self.held = Some(bundle);
        Ok(())
    }
}

#[test]
fn an_owner_that_drops_the_obligation_is_reported_as_a_loss_and_issued_no_receipt() {
    let (authority, admission) = admitted();
    let outcome =
        hand_over(obligation(admission, &[(1, "id-1"), (2, "id-2")]), Some(&mut Abandoning));
    let SettlementOutcome::Abandoned { outstanding } = outcome else {
        panic!("an owner that dropped the obligation did not take it over");
    };
    assert_eq!(outstanding, 2);
    assert!(authority.is_free());
}

#[test]
fn a_receipt_is_issued_exactly_where_the_lock_did_not_come_back() {
    let (authority, admission) = admitted();
    let mut keeping = Keeping { held: None };
    let outcome = hand_over(obligation(admission, &[(1, "id-1")]), Some(&mut keeping));
    let SettlementOutcome::Transferred(receipt) = outcome else {
        panic!("an owner that keeps the obligation is issued a receipt");
    };
    assert_eq!(receipt.outstanding(), 1);
    assert!(!authority.is_free());
    assert_eq!(keeping.held.as_ref().map(|b| b.issued().issued_count()), Some(1));
}

#[test]
fn what_the_fencing_record_starts_from_depends_on_where_the_obligation_went() {
    let (authority, admission) = admitted();
    let (issued, record, released) =
        hand_over(obligation(admission, &[(1, "id-1")]), None).into_fencing_record();
    assert_eq!(issued.outstanding_count(), 1);
    assert_eq!((record.transferred(), record.abandoned()), (0, 0));
    assert!(released.is_some());
    assert!(authority.is_free());

    let (_authority, admission) = admitted();
    let mut keeping = Keeping { held: None };
    let (issued, record, released) =
        hand_over(obligation(admission, &[(1, "id-1"), (2, "id-2")]), Some(&mut keeping))
            .into_fencing_record();
    assert_eq!(issued.issued_count(), 0);
    assert_eq!((record.transferred(), record.abandoned()), (2, 0));
    assert!(released.is_none());

    let (_authority, admission) = admitted();
    let (issued, record, released) =
        hand_over(obligation(admission, &[(1, "id-1")]), Some(&mut Abandoning))
            .into_fencing_record();
    assert_eq!(issued.issued_count(), 0);
    assert_eq!((record.transferred(), record.abandoned()), (0, 1));
    assert!(released.is_none());
}

#[test]
fn dropping_the_owner_with_an_identifier_unaccounted_for_retains_the_authority() {
    let (authority, mut owner) = owning(&[(1, "id-1"), (2, "id-2")]);
    assert!(matches!(
        owner.observe(&Observed::authoritative_response(WorkerId(1), GENERATION, "id-1")),
        Progress::StillOwed { outstanding: 1 }
    ));
    drop(owner);
    assert!(!authority.is_free());
}

#[test]
fn ending_the_owner_says_what_it_leaves() {
    let (authority, owner) = owning(&[(1, "id-1")]);
    assert!(matches!(owner.end(), Ended::Retained(_)));
    assert!(!authority.is_free());
    assert!(matches!(
        JobSettlementOwner::for_job("job_abc".to_string()).end(),
        Ended::NothingHeld
    ));
}

#[test]
fn dropping_the_owner_after_everything_is_accounted_for_releases_the_authority() {
    let (authority, admission) = admitted();
    let mut owner = JobSettlementOwner::for_job("job_abc".to_string());
    let mut bundle = SettlementBundle::new(admission, inventory(&[(1, "id-1")]));
    assert_eq!(
        bundle.observe(&Observed::acknowledged_fence(&ack(1, GENERATION))),
        Accounted::Settled(Accounting::AcknowledgedFence)
    );
    let SettlementOutcome::Transferred(_) = hand_over(bundle, Some(&mut owner)) else {
        panic!("this owner takes an obligation offered to it");
    };
    assert_eq!(owner.outstanding(), None);
    assert!(authority.is_free());
    drop(owner);
    assert!(authority.is_free());
}

#[test]
fn an_obligation_without_a_phase_is_retained_only_while_something_is_owed() {
    let (authority, admission) = admitted();
    assert!(matches!(
        retain_without_a_phase(admission, inventory(&[(1, "id-1")])),
        Disposal::Retained(_)
    ));
    assert!(!authority.is_free());

    let (authority, admission) = admitted();
    assert!(matches!(
        retain_without_a_phase(admission, inventory(&[])),
        Disposal::Released(_)
    ));
    assert!(authority.is_free());
}

/// Says whether a type is a settlement owner, by which of two methods resolves.
struct Probe<T>(PhantomData<T>);

trait Owns {
    fn owns(&self) -> bool {
        true
    }
}

impl<T: SettlementOwner> Owns for Probe<T> {}

trait DoesNotOwn {
    fn owns(&self) -> bool {
        false
    }
}

impl<T> DoesNotOwn for &Probe<T> {}

#[test]
fn exactly_one_production_settlement_owner_exists() {
    let candidates: Vec<(&str, bool)> = vec![
        ("JobSettlementOwner", (&Probe::<JobSettlementOwner>(PhantomData)).owns()),
        ("JobLifecycle", (&Probe::<JobLifecycle>(PhantomData)).owns()),
        ("Preamble", (&Probe::<Preamble>(PhantomData)).owns()),
        ("AwaitingWorkers", (&Probe::<AwaitingWorkers>(PhantomData)).owns()),
        ("StartFanOut", (&Probe::<StartFanOut>(PhantomData)).owns()),
        ("Fanning", (&Probe::<Fanning>(PhantomData)).owns()),
        ("AwaitingTasks", (&Probe::<AwaitingTasks>(PhantomData)).owns()),
        ("CommitPublish", (&Probe::<CommitPublish>(PhantomData)).owns()),
        ("Leaving", (&Probe::<Leaving>(PhantomData)).owns()),
        ("AttemptLedger", (&Probe::<AttemptLedger>(PhantomData)).owns()),
        ("IssuedAttempts", (&Probe::<IssuedAttempts>(PhantomData)).owns()),
        ("SettlementBundle", (&Probe::<SettlementBundle>(PhantomData)).owns()),
        ("SettlementReceipt", (&Probe::<SettlementReceipt>(PhantomData)).owns()),
        ("AdmissionLock", (&Probe::<AdmissionLock>(PhantomData)).owns()),
        ("Admission", (&Probe::<Admission>(PhantomData)).owns()),
    ];
    let implemented_in: Vec<&str> =
        candidates.into_iter().filter(|(_, owns)| *owns).map(|(name, _)| name).collect();
    assert_eq!(implemented_in, vec!["JobSettlementOwner"]);
    assert!((&Probe::<Keeping>(PhantomData)).owns());
}

#[test]
fn the_selected_mechanism_transfers_an_interrupted_obligation_to_its_settlement_owner() {
    let mut lifecycle = JobLifecycle::for_mode(LifecycleMode::SELECTED, "job_abc".to_string());
    let owner = lifecycle.settlement().expect("the selected mechanism has a settlement owner");

    let (authority, admission) = admitted();
    let outcome = hand_over(obligation(admission, &[(1, "id-1")]), Some(&mut *owner));
    let SettlementOutcome::Transferred(receipt) = outcome else {
        panic!("with an owner, an interrupted fan-out transfers rather than settling in place");
    };
    assert_eq!(receipt.outstanding(), 1);
    assert!(!authority.is_free());

    let accounted =
        owner.observe(&Observed::authoritative_response(WorkerId(1), GENERATION, "id-1"));
    assert!(matches!(accounted, Progress::Discharged(_)));
    assert!(authority.is_free());
}

#[test]
fn each_accounting_fact_names_itself_and_carries_the_generation_it_is_about() {
    let facts = [
        (
            Observed::authoritative_response(WorkerId(1), GENERATION, "id-1"),
            Accounting::AuthoritativeResponse,
            "an authoritative response",
        ),
        (
            Observed::acknowledged_fence(&ack(1, GENERATION)),
            Accounting::AcknowledgedFence,
            "an acknowledged fence and its revokes",
        ),
        (
            Observed::terminated_generation(&gone(1, GENERATION)),
            Accounting::TerminatedGeneration,
            "an observed generation termination",
        ),
    ];
    for (observed, accounting, name) in &facts {
        assert_eq!(observed.accounting(), *accounting);
        assert_eq!(observed.generation(), GENERATION);
        assert_eq!(accounting.as_str(), *name);
    }
    let mut named: Vec<&str> = facts.iter().map(|(_, _, name)| *name).collect();
    named.sort_unstable();
    named.dedup();
    assert_eq!(named.len(), 3);
}

#[test]
fn a_ledger_accounts_for_the_answers_that_name_what_it_issued() {
    let mut ledger = AttemptLedger::owned_by(true, GENERATION, FENCE);
    assert!(ledger.owned());
    ledger.issued(WorkerId(1), "id-1");
    ledger.issued(WorkerId(2), "id-2");
    let _ = ledger.answered(WorkerId(1), "id-1");
    let _ = ledger.answered(WorkerId(2), "id-other");
    let _ = ledger.answered(WorkerId(3), "id-3");
    let snapshot = ledger.snapshot();
    assert_eq!(snapshot.issued_count(), 2);
    assert_eq!(snapshot.outstanding_count(), 1);
    assert_eq!(snapshot.fence(), FENCE);
    assert_eq!(
        snapshot.record(WorkerId(1)).and_then(|r| r.accounted),
        Some(Accounting::AuthoritativeResponse)
    );
    assert_eq!(snapshot.record(WorkerId(2)).and_then(|r| r.accounted), None);
    assert!(snapshot.record(WorkerId(3)).is_none());
}

struct Declining;

impl SettlementOwner for Declining {
    fn declines(&self, _offered: Obligation) -> bool {
        unreachable!("stated of an owner, and never asked of one")
    }

    fn speaks_for(&self) -> Option<Obligation> {
        unreachable!("stated of an owner, and never asked of one")
    }

    fn speaks_for_after(&self, _offered: Obligation) -> Option<Obligation> {
        unreachable!("stated of an owner, and never asked of one")
    }

    fn take_over(&mut self, bundle: SettlementBundle) -> Result<(), SettlementBundle> {
        Err(bundle)
    }
}

#[test]
fn a_declining_owner_and_no_owner_come_to_the_same() {
    for declining in [false, true] {
        let (authority, admission) = admitted();
        let bundle = obligation(admission, &[(1, "id-1"), (2, "id-2")]);
        let outcome = if declining {
            hand_over(bundle, Some(&mut Declining))
        } else {
            hand_over(bundle, None)
        };
        let SettlementOutcome::SettledInPlace(admission, issued) = outcome else {
            panic!("nobody took it over");
        };
        assert_eq!(issued.listed(), inventory(&[(1, "id-1"), (2, "id-2")]).listed());
        assert!(!authority.is_free());
        drop(admission);
        assert!(authority.is_free());
    }
}

#[test]
fn no_attempt_is_lost_on_the_way_into_the_fencing_record() {
    let (_held, mut full) = owning(&[(9, "id-9")]);
    let mut empty = JobSettlementOwner::for_job("job_abc".to_string());
    let owners: [Option<&mut dyn SettlementOwner>; 4] =
        [None, Some(&mut full), Some(&mut empty), Some(&mut Abandoning)];
    let mut records = Vec::new();
    for owner in owners {
        let (_authority, admission) = admitted();
        let outcome = hand_over(obligation(admission, &[(1, "id-1"), (2, "id-2")]), owner);
        let (issued, record, _released) = outcome.into_fencing_record();
        records.push((issued.outstanding_count(), record.transferred(), record.abandoned()));
    }
    assert_eq!(records, vec![(2, 0, 0), (2, 0, 0), (0, 2, 0), (0, 0, 2)]);
}

#[test]
fn an_owner_that_holds_nothing_has_released_everything_it_accepted() {
    let mut owner = JobSettlementOwner::for_job("job_abc".to_string());
    let mut locks = Vec::new();
    for owed in [true, false, true] {
        let (authority, admission) = admitted();
        let issued: &[(u64, &str)] = if owed { &[(1, "id-1")] } else { &[] };
        assert!(owner.take_over(obligation(admission, issued)).is_ok());
        assert_eq!(owner.outstanding(), owed.then_some(1));
        if owed {
            assert!(!authority.is_free());
            let progress =
                owner.observe(&Observed::terminated_generation(&gone(1, GENERATION)));
            assert!(matches!(progress, Progress::Discharged(_)));
        }
        locks.push(authority);
        assert_eq!(owner.outstanding(), None);
        assert!(locks.iter().all(AdmissionLock::is_free));
    }
}

/// What an owner gives back is the obligation as it stands, its authority still taken; nothing stays
/// behind, and what was given back settles nothing here.
#[test]
fn an_owner_gives_back_the_obligation_it_holds_and_keeps_nothing() {
    let (lock, mut owner) = owning(&[(4, "id-4"), (9, "id-9")]);
    assert!(matches!(
        owner.observe(&Observed::acknowledged_fence(&ack(4, GENERATION))),
        Progress::StillOwed { outstanding: 1 }
    ));
    let (admission, issued) = owner.give_back().expect("it holds an obligation");
    assert!(!lock.is_free());
    assert_eq!(issued.outstanding_count(), 1);
    assert_eq!(
        issued.listed(),
        vec![
            (4, "id-4".to_string(), Some(Accounting::AcknowledgedFence)),
            (9, "id-9".to_string(), None),
        ]
    );
    assert_eq!(owner.outstanding(), None);
    assert!(owner.give_back().is_none());
    assert!(matches!(
        owner.observe(&Observed::acknowledged_fence(&ack(9, GENERATION))),
        Progress::NothingHeld
    ));
    assert!(!lock.is_free());

    // It can be handed over again, and the owner is then answerable for it again.
    let again = hand_over(SettlementBundle::new(admission, issued), Some(&mut owner));
    assert!(matches!(again, SettlementOutcome::Transferred(receipt) if receipt.outstanding() == 1));
    assert!(matches!(
        owner.observe(&Observed::acknowledged_fence(&ack(9, GENERATION))),
        Progress::Discharged(_)
    ));
    assert!(lock.is_free());
    assert!(matches!(owner.end(), Ended::NothingHeld));
}

/// An obligation that nobody takes leaves what it was made of, and its authority is still taken.
#[test]
fn an_obligation_nobody_takes_stays_what_it_was_made_of() {
    let (lock, admission) = admitted();
    let SettlementOutcome::SettledInPlace(admission, issued) =
        hand_over(obligation(admission, &[(4, "id-4")]), None)
    else {
        panic!("there is no owner to take it");
    };
    assert_eq!(issued, inventory(&[(4, "id-4")]));
    assert!(!lock.is_free());
    drop(admission);
    assert!(lock.is_free());
}

/// Only a guard of the lock's own mutex is one it recognises.
#[test]
fn a_lock_tells_its_own_guard_from_anothers() {
    let lock = AdmissionLock::for_job("job_abc".to_string());
    let other = AdmissionLock::for_job("job_abc".to_string());
    let guard = lock.mutex().try_lock_owned().expect("nobody else holds the lock");
    assert!(lock.guards(&guard));
    assert!(!other.guards(&guard));
    let admission = lock.admitted(guard);
    assert!(!lock.is_free() && other.is_free());
    let _released = admission.release();
    assert!(lock.is_free());
}
