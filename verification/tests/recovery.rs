//! The obligation a row carries, and what a controller that finds it there makes of it.

use arroyo_controller::lifecycle::alert::{
    age_of, AlertTransition, FencingAlert, FencingError, FencingReport,
};
use arroyo_controller::lifecycle::mode::LifecycleMode;
use arroyo_controller::lifecycle::recovery::{
    describe, discharge_recorded_obligation, observe_terminations, AddressedWorker,
    DischargeReason, FenceTarget, FenceTargetState, Fencing, GenerationObservation,
    RecoveredObligation, RecoveryPass, RecoveryStep,
};
use arroyo_controller::lifecycle::witness::{FenceAcknowledgement, ObservedTermination};
use arroyo_controller::scheduling::context::StatusPublication;
use arroyo_controller::scheduling::discharge::Discharge;
use arroyo_controller::scheduling::fanout::IssuedAttempts;
use arroyo_controller::types::WorkerId;

const GENERATION: u64 = 4;
const WORKER: WorkerId = WorkerId(7);
const ATTEMPT: &str = "0123456789abcdef0123456789abcdef";
const INCARNATION: u64 = 21;
const CAPACITY: usize = 64;
const AN_HOUR_AGO: u64 = 1_700_000_000_000;

fn pending_target(address: Option<String>) -> FenceTarget {
    FenceTarget {
        worker_id: WORKER.0,
        generation: GENERATION,
        attempt_id: Some(ATTEMPT.to_string()),
        rpc_address: address,
        incarnation: Some(INCARNATION),
        state: FenceTargetState::Pending,
    }
}

fn obligation(address: Option<String>) -> Fencing {
    Fencing::record(
        vec![pending_target(address)],
        Some("pl_1/job/generations/4/candidates/c.json".to_string()),
        Some(AN_HOUR_AGO),
        CAPACITY,
    )
    .expect("the fixture obligation is writable")
}

fn pass(record: &Fencing, fence: u64, reason: DischargeReason) -> RecoveryPass {
    match discharge_recorded_obligation(
        LifecycleMode::FencedV2,
        "job_abc",
        Some(record),
        fence,
        reason,
    ) {
        RecoveryStep::Pass(pass) => pass,
        RecoveryStep::Over(over) => panic!("the pass runs: {over:?}"),
    }
}

#[test]
fn re_opening_a_record_expires_acknowledgements_and_keeps_terminations() {
    let record = Fencing::record(
        vec![
            FenceTarget {
                worker_id: 1,
                state: FenceTargetState::Acknowledged,
                ..pending_target(Some("http://10.0.0.1:9191".to_string()))
            },
            FenceTarget {
                worker_id: 2,
                state: FenceTargetState::Terminated,
                ..pending_target(Some("http://10.0.0.2:9191".to_string()))
            },
            FenceTarget {
                worker_id: 3,
                state: FenceTargetState::Pending,
                ..pending_target(Some("http://10.0.0.3:9191".to_string()))
            },
        ],
        None,
        Some(AN_HOUR_AGO),
        CAPACITY,
    )
    .expect("the fixture record is writable");

    let reopened = record.reopened();
    assert_eq!(
        reopened
            .targets()
            .iter()
            .map(|t| (t.worker_id, t.state, t.attempt_id.clone()))
            .collect::<Vec<_>>(),
        vec![
            (1, FenceTargetState::Pending, None),
            (2, FenceTargetState::Terminated, Some(ATTEMPT.to_string())),
            (3, FenceTargetState::Pending, Some(ATTEMPT.to_string())),
        ]
    );
    assert_eq!(reopened.fencing_since_millis(), Some(AN_HOUR_AGO));
    assert_eq!(reopened.candidate_root(), None);
}

#[test]
fn an_answer_from_a_successor_generation_settles_nothing_of_its_predecessors() {
    let mut recovered = RecoveredObligation::of(&obligation(None), 2);
    assert!(!recovered.observe_acknowledgement(&FenceAcknowledgement::reported(
        WORKER,
        GENERATION + 1,
        9
    )));
    assert!(
        !recovered.observe_termination(&ObservedTermination::observed(WORKER, GENERATION + 1))
    );
    assert!(!recovered.observe_acknowledgement(&FenceAcknowledgement::reported(
        WorkerId(WORKER.0 + 1),
        GENERATION,
        9
    )));
    assert_eq!(recovered.states(), vec![(WORKER.0, GENERATION, FenceTargetState::Pending)]);
    assert!(
        recovered.observe_acknowledgement(&FenceAcknowledgement::reported(WORKER, GENERATION, 9))
    );
    assert_eq!(recovered.states(), vec![(WORKER.0, GENERATION, FenceTargetState::Acknowledged)]);
}

#[test]
fn an_acknowledgement_that_does_not_supersede_what_the_obligation_issued_settles_nothing() {
    let mut recovered = RecoveredObligation::of(&obligation(None), 6);
    for at in [4, 5] {
        assert!(!recovered
            .observe_acknowledgement(&FenceAcknowledgement::reported(WORKER, GENERATION, at)));
        assert_eq!(recovered.states(), vec![(WORKER.0, GENERATION, FenceTargetState::Pending)]);
    }
    assert!(
        recovered.observe_acknowledgement(&FenceAcknowledgement::reported(WORKER, GENERATION, 6))
    );
    assert_eq!(recovered.states(), vec![(WORKER.0, GENERATION, FenceTargetState::Acknowledged)]);
}

#[test]
fn every_fencing_error_carries_its_own_operator_label() {
    let labels: Vec<&str> = [
        FencingError::Unrecordable,
        FencingError::NotAcknowledged,
        FencingError::TerminationUnobservable,
        FencingError::PublicationFailed,
    ]
    .into_iter()
    .map(FencingError::as_str)
    .collect();
    assert_eq!(
        labels,
        vec![
            "unrecordable",
            "not_acknowledged",
            "termination_unobservable",
            "publication_failed",
        ]
    );
    let mut distinct = labels.clone();
    distinct.sort_unstable();
    distinct.dedup();
    assert_eq!(distinct.len(), labels.len());
}

#[test]
fn a_recovered_target_only_ever_leaves_pending() {
    let mut recovered = RecoveredObligation::of(&obligation(None), 2);
    assert!(
        recovered.observe_acknowledgement(&FenceAcknowledgement::reported(WORKER, GENERATION, 9))
    );
    assert!(
        !recovered.observe_acknowledgement(&FenceAcknowledgement::reported(WORKER, GENERATION, 9))
    );
    assert!(recovered.observe_termination(&ObservedTermination::observed(WORKER, GENERATION)));
    assert!(
        !recovered.observe_acknowledgement(&FenceAcknowledgement::reported(WORKER, GENERATION, 9))
    );
    assert_eq!(recovered.states(), vec![(WORKER.0, GENERATION, FenceTargetState::Terminated)]);
    assert!(recovered.record().is_some_and(|record| record
        .targets()
        .iter()
        .all(|target| target.state == FenceTargetState::Terminated
            && target.attempt_id.is_none())));
}

#[test]
fn the_fencing_alert_runs_its_whole_lifecycle() {
    let mut alert = FencingAlert::new();
    let report =
        FencingReport { pending_targets: 2, outstanding_attempts: 1, age: Some(3_600) };

    assert_eq!(alert.alert_settled(), AlertTransition::Quiet);
    assert_eq!(alert.published(), (0, 0, 0, 0));

    assert_eq!(alert.alert_pending(report), AlertTransition::Raised);
    assert_eq!(alert.published(), (2, 1, 3_600, 1));

    for pass in 0..2 {
        assert_eq!(alert.alert_pending(report), AlertTransition::Sustained, "pass {pass}");
    }
    assert_eq!(alert.published(), (2, 1, 3_600, 1));

    assert_eq!(alert.alert_settled(), AlertTransition::Cleared);
    assert_eq!(alert.published(), (0, 0, 0, 0));
    assert_eq!(alert.alert_settled(), AlertTransition::Quiet);
}

#[test]
fn an_unknown_age_leaves_the_one_published_before() {
    let mut alert = FencingAlert::new();
    let known = FencingReport { pending_targets: 1, outstanding_attempts: 1, age: Some(60) };
    alert.alert_pending(known);
    alert.alert_pending(FencingReport { age: None, ..known });
    assert_eq!(alert.published(), (1, 1, 60, 1));
}

#[test]
fn an_unusable_fencing_origin_reports_no_age_rather_than_no_time() {
    let now = AN_HOUR_AGO + 3_600_000;
    assert_eq!(age_of(None, Some(now)), None);
    assert_eq!(age_of(Some(now + 60_000), Some(now)), None);
    assert_eq!(age_of(Some(now - 3_600_000), Some(now)), Some(3_600_000));
    assert_eq!(age_of(Some(now), Some(now)), Some(0));
    assert_eq!(age_of(Some(now), None), None);
}

fn addressed(workers: Vec<u64>) -> Vec<AddressedWorker> {
    workers
        .into_iter()
        .map(|worker| AddressedWorker {
            worker: WorkerId(worker),
            rpc_address: None,
            incarnation: None,
            state: FenceTargetState::Pending,
        })
        .collect()
}

#[test]
fn the_durable_projection_fails_closed_rather_than_truncating() {
    let inventory = IssuedAttempts::issued_under(GENERATION, 1);

    let at_capacity = addressed((0..CAPACITY as u64).collect());
    let described = describe(GENERATION, at_capacity, &inventory, None, None, CAPACITY)
        .expect("an obligation at capacity is describable")
        .expect("and it owes something");
    assert_eq!(described.targets().len(), CAPACITY);

    let over = addressed((0..CAPACITY as u64 + 1).collect());
    let refused = describe(GENERATION, over, &inventory, None, None, CAPACITY)
        .expect_err("an obligation past capacity is not describable");
    assert!(refused.report().contains("more than the"), "{}", refused.report());

    let mut elsewhere = IssuedAttempts::issued_under(GENERATION + 1, 1);
    elsewhere.issued(WORKER, ATTEMPT.to_string());
    let refused =
        describe(GENERATION, addressed(vec![WORKER.0]), &elsewhere, None, None, CAPACITY)
            .expect_err("a mismatched inventory is not describable");
    assert!(
        refused.report().contains("while the identifiers it issued"),
        "{}",
        refused.report()
    );

    let mut here = IssuedAttempts::issued_under(GENERATION, 1);
    here.issued(WORKER, ATTEMPT.to_string());
    assert!(
        describe(GENERATION, addressed(vec![WORKER.0]), &here, None, None, CAPACITY).is_ok()
    );
}

#[test]
fn a_described_target_owes_the_identifier_it_was_issued() {
    let mut inventory = IssuedAttempts::issued_under(GENERATION, 1);
    inventory.issued(WORKER, ATTEMPT.to_string());
    let record = describe(
        GENERATION,
        vec![
            AddressedWorker {
                worker: WORKER,
                rpc_address: Some("http://10.0.0.1:9191".to_string()),
                incarnation: Some(INCARNATION),
                state: FenceTargetState::Pending,
            },
            AddressedWorker {
                worker: WorkerId(8),
                rpc_address: None,
                incarnation: None,
                state: FenceTargetState::Pending,
            },
        ],
        &inventory,
        Some("c.json".to_string()),
        Some(5),
        CAPACITY,
    )
    .expect("describable")
    .expect("owed");
    assert_eq!(
        record.targets()[0],
        pending_target(Some("http://10.0.0.1:9191".to_string()))
    );
    assert_eq!(record.targets()[1].attempt_id, None);
    assert_eq!(record.candidate_root(), Some("c.json"));
    assert_eq!(record.fencing_since_millis(), Some(5));

    assert_eq!(
        describe(GENERATION, vec![], &inventory, None, None, CAPACITY),
        Ok(None),
        "an attempt that addressed nobody owes nothing"
    );
}

#[test]
fn the_legacy_mechanism_neither_writes_nor_recovers_a_durable_fencing_obligation() {
    let seeded = obligation(None);
    assert!(matches!(
        discharge_recorded_obligation(
            LifecycleMode::LegacyT08,
            "job_abc",
            Some(&seeded),
            3,
            DischargeReason::SupersedingTheGenerationsItNames,
        ),
        RecoveryStep::Over(Discharge::Inactive)
    ));
    assert!(matches!(
        discharge_recorded_obligation(
            LifecycleMode::FencedV2,
            "job_abc",
            None,
            3,
            DischargeReason::SupersedingTheGenerationsItNames,
        ),
        RecoveryStep::Over(Discharge::NothingRecorded)
    ));
}

#[test]
fn a_recovery_pass_without_an_adopted_fence_is_unusable_and_writes_nothing() {
    let step = discharge_recorded_obligation(
        LifecycleMode::FencedV2,
        "job_abc",
        Some(&obligation(None)),
        0,
        DischargeReason::SupersedingTheGenerationsItNames,
    );
    let RecoveryStep::Over(Discharge::Unusable(report)) = step else {
        panic!("a pass with no fence to advance cannot report anything about the obligation");
    };
    assert_eq!(
        report,
        "job job_abc cannot advance a lifecycle fence over its recovered obligation: job \
         job_abc carries no adopted lifecycle fence, so this controller cannot address its \
         worker generations under one"
    );
}

#[test]
fn a_superseding_controller_asks_a_settled_generation_again_and_an_adopting_one_does_not() {
    let settled = Fencing::record(
        vec![FenceTarget {
            state: FenceTargetState::Acknowledged,
            attempt_id: None,
            ..pending_target(None)
        }],
        None,
        Some(AN_HOUR_AGO),
        CAPACITY,
    )
    .unwrap();

    let adopting = pass(&settled, 3, DischargeReason::AdoptingTheGenerationItNames);
    assert_eq!(
        adopting.published(Ok(StatusPublication::Published)),
        Discharge::Settled
    );

    let superseding = pass(&settled, 3, DischargeReason::SupersedingTheGenerationsItNames);
    assert_eq!(
        superseding.published(Ok(StatusPublication::Published)),
        Discharge::StillPending { pending: 1, outstanding_attempts: 0 }
    );

    let mut superseding = pass(&settled, 3, DischargeReason::SupersedingTheGenerationsItNames);
    assert!(superseding
        .obligation_mut()
        .observe_acknowledgement(&FenceAcknowledgement::reported(WORKER, GENERATION, 3)));
    assert_eq!(
        superseding.published(Ok(StatusPublication::Published)),
        Discharge::Settled
    );
}

#[test]
fn repeated_recovery_passes_reconcile_idempotently() {
    let seeded = obligation(None);
    let mut rows = vec![seeded.clone()];
    for fence in 1..4 {
        let standing = rows.last().unwrap().clone();
        let recovery = pass(&standing, fence, DischargeReason::SupersedingTheGenerationsItNames);
        rows.push(recovery.record().expect("the obligation stands"));
        assert_eq!(
            recovery.published(Ok(StatusPublication::Published)),
            Discharge::StillPending { pending: 1, outstanding_attempts: 1 }
        );
    }
    for row in &rows {
        assert_eq!(*row, seeded);
    }
    assert_eq!(rows[0].fencing_since_millis(), Some(AN_HOUR_AGO));
}

#[test]
fn a_pass_is_worth_what_the_row_took_of_it() {
    for (outcome, expected) in [
        (
            Ok(StatusPublication::Superseded("fence 9".to_string())),
            Discharge::Superseded("fence 9".to_string()),
        ),
        (Err("no such table".to_string()), Discharge::Unusable("no such table".to_string())),
        (Ok(StatusPublication::Published), Discharge::Settled),
    ] {
        let mut recovery =
            pass(&obligation(None), 2, DischargeReason::SupersedingTheGenerationsItNames);
        assert!(recovery
            .obligation_mut()
            .observe_termination(&ObservedTermination::observed(WORKER, GENERATION)));
        assert_eq!(recovery.published(outcome), expected);
    }
}

#[test]
fn no_termination_witness_exists_without_an_authoritative_listing() {
    assert_eq!(
        observe_terminations(
            Err("the scheduler cannot list this job".to_string()),
            GENERATION,
            &vec![WORKER]
        ),
        Err("the scheduler cannot list this job".to_string())
    );
    assert!(observe_terminations(
        Ok(GenerationObservation::Untracked { why: "no registry".to_string() }),
        GENERATION,
        &vec![WORKER]
    )
    .is_err());
    assert_eq!(
        observe_terminations(
            Ok(GenerationObservation::Live(vec![WORKER])),
            GENERATION,
            &vec![WORKER]
        ),
        Ok(vec![])
    );
    assert_eq!(
        observe_terminations(
            Ok(GenerationObservation::Live(vec![])),
            GENERATION + 1,
            &vec![WORKER]
        )
        .expect("a tracking scheduler answers")
        .iter()
        .map(|t| (t.worker(), t.generation()))
        .collect::<Vec<_>>(),
        vec![(WORKER, GENERATION + 1)]
    );
}

#[test]
fn a_report_gives_an_obligations_age_in_seconds() {
    let report = FencingReport::at(2, 1, Some(1_000), Some(3_601_999));
    assert_eq!(
        report,
        FencingReport { pending_targets: 2, outstanding_attempts: 1, age: Some(3_600) }
    );
    assert_eq!(FencingReport::at(0, 0, None, Some(5)).age, None);
    assert_eq!(FencingReport::at(0, 0, Some(6), Some(5)).age, None);
    assert_eq!(FencingReport::at(0, 0, Some(6), None).age, None);
}
