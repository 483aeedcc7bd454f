//! What the configuration poll leaves for a job, and what the job's writer decides about it.

use arroyo_controller::lifecycle::intent::{
    IntentMailbox, IntentVersion, LifecycleActor, LifecycleDecision, LifecycleIntent,
    ObservedIntent, PolledJob, StateBackendError,
};
use arroyo_controller::lifecycle::mode::{JobLifecycle, LifecycleMode};
use arroyo_controller::lifecycle::waiting::{JobWait, Received, Waited};
use arroyo_controller::messages::JobMessage;
use arroyo_controller::types::{JobConfig, RestartMode, StateBackendSelector, StopMode};

fn running_config() -> JobConfig {
    JobConfig {
        id: "job_abc".to_string(),
        organization_id: "org".to_string(),
        pipeline_name: "pipeline".to_string(),
        pipeline_id: 1,
        stop_mode: StopMode::none,
        checkpoint_interval: 10_000_000,
        ttl: None,
        parallelism_overrides: vec![],
        restart_nonce: 3,
        restart_mode: RestartMode::safe,
        ignore_state_before_epoch: None,
        env_vars: "{}".to_string(),
        scheduler_config: "{}".to_string(),
        state_backend: StateBackendSelector::Parquet,
    }
}

fn polled(config: JobConfig, refusal: Option<StateBackendError>) -> PolledJob {
    PolledJob { execution_selector: StateBackendSelector::Parquet, config, refusal }
}

fn selector_changed() -> StateBackendError {
    StateBackendError::JobSelectorChanged {
        label: "job \"job_abc\"".to_string(),
        running: StateBackendSelector::Parquet,
        requested: StateBackendSelector::StateEngine,
    }
}

fn writer() -> LifecycleActor {
    LifecycleActor::new("job_abc".to_string(), StateBackendSelector::Parquet)
}

#[test]
fn production_selects_only_the_fenced_v2_lifecycle() {
    assert_eq!(LifecycleMode::ALL.len(), 2);
    for mode in LifecycleMode::ALL {
        let expected = match mode {
            LifecycleMode::LegacyT08 => false,
            LifecycleMode::FencedV2 => true,
        };
        assert_eq!(mode == LifecycleMode::SELECTED, expected, "{mode:?}");
    }
    assert_eq!(LifecycleMode::SELECTED, LifecycleMode::FencedV2);
}

#[test]
fn exactly_one_mode_recovers_a_durable_obligation() {
    assert_eq!(
        (
            LifecycleMode::LegacyT08.recovers_a_durable_fencing_obligation(),
            LifecycleMode::FencedV2.recovers_a_durable_fencing_obligation(),
        ),
        (false, true)
    );
    assert!(LifecycleMode::SELECTED.recovers_a_durable_fencing_obligation());
}

#[test]
fn stop_wins_over_refusal() {
    for stop_mode in
        [StopMode::checkpoint, StopMode::graceful, StopMode::immediate, StopMode::force]
    {
        let mut refused = running_config();
        refused.stop_mode = stop_mode;
        refused.restart_nonce = 99;
        refused.state_backend = StateBackendSelector::StateEngine;

        let intent = LifecycleIntent::classify(StateBackendSelector::Parquet, polled(refused, Some(selector_changed())));
        assert_eq!(
            intent,
            LifecycleIntent::RefusedButStopping { error: selector_changed(), stop_mode },
            "{stop_mode:?}"
        );

        let mut mailbox = IntentMailbox::new();
        mailbox.submit(intent);
        let decision = writer()
            .observe(&mailbox)
            .expect("the job's writer must decide on the poll's intent");
        assert_eq!(
            decision,
            LifecycleDecision::StopUnderRunningConfig(stop_mode),
            "{stop_mode:?}"
        );
    }

    let mut refused = running_config();
    refused.state_backend = StateBackendSelector::StateEngine;
    assert_eq!(refused.stop_mode, StopMode::none);

    let mut mailbox = IntentMailbox::new();
    mailbox.submit(LifecycleIntent::classify(StateBackendSelector::Parquet, polled(refused, Some(selector_changed()))));
    assert_eq!(
        writer().observe(&mailbox),
        Some(LifecycleDecision::Refuse(selector_changed()))
    );
}

#[test]
fn repeated_polls_leave_one_intent() {
    let _: fn(&mut IntentMailbox, LifecycleIntent) -> (IntentVersion, bool) =
        IntentMailbox::submit;

    let mut mailbox = IntentMailbox::new();
    let unchanged =
        LifecycleIntent::classify(StateBackendSelector::Parquet, polled(running_config(), Some(selector_changed())));
    let (first, is_new) = mailbox.submit(unchanged.clone());
    assert!(is_new);
    assert_eq!(first.as_u64(), 1);
    for poll in 1..10_000 {
        let (version, is_new) = mailbox.submit(unchanged.clone());
        assert_eq!(version, first, "poll {poll}");
        assert!(!is_new, "poll {poll}");
    }
    let (version, standing) =
        mailbox.newer_than(IntentVersion::none()).expect("the standing intent");
    assert_eq!(version, first);
    assert_eq!(*standing, unchanged);
    assert!(mailbox.newer_than(first).is_none());

    let mut previous = first;
    for nonce in 0..1_000 {
        let mut changed = running_config();
        changed.restart_nonce = nonce + 1000;
        let (version, is_new) =
            mailbox.submit(LifecycleIntent::classify(StateBackendSelector::Parquet, polled(changed, None)));
        assert!(is_new);
        assert_eq!(version.as_u64(), previous.as_u64() + 1, "nonce {nonce}");
        assert!(mailbox.newer_than(version).is_none(), "nonce {nonce}");
        previous = version;
    }
    assert_eq!(previous.as_u64(), 1_001);
}

#[test]
fn every_field_of_a_configuration_makes_a_row_a_new_one() {
    let mut mailbox = IntentMailbox::new();
    mailbox.submit(LifecycleIntent::Adopt(Box::new(running_config())));
    let changes: Vec<fn(&mut JobConfig)> = vec![
        |c| c.id = "other".to_string(),
        |c| c.organization_id = "other".to_string(),
        |c| c.pipeline_name = "other".to_string(),
        |c| c.pipeline_id = 2,
        |c| c.stop_mode = StopMode::graceful,
        |c| c.checkpoint_interval = 1,
        |c| c.ttl = Some(1),
        |c| c.parallelism_overrides = vec![(1, 2)],
        |c| c.restart_nonce = 4,
        |c| c.restart_mode = RestartMode::force,
        |c| c.ignore_state_before_epoch = Some(1),
        |c| c.env_vars = "{\"A\":\"b\"}".to_string(),
        |c| c.scheduler_config = "{\"a\":1}".to_string(),
        |c| c.state_backend = StateBackendSelector::StateEngine,
    ];
    for (i, change) in changes.iter().enumerate() {
        let mut config = running_config();
        change(&mut config);
        let (_, is_new) = mailbox.submit(LifecycleIntent::Adopt(Box::new(config)));
        assert!(is_new, "field {i}");
        let (_, is_new) = mailbox.submit(LifecycleIntent::Adopt(Box::new(running_config())));
        assert!(is_new, "field {i}");
        let (_, is_new) = mailbox.submit(LifecycleIntent::Adopt(Box::new(running_config())));
        assert!(!is_new, "field {i}");
    }
}

#[test]
fn repaired_row_not_failed_by_stale_intent() {
    let mut mailbox = IntentMailbox::new();
    mailbox.submit(LifecycleIntent::classify(StateBackendSelector::Parquet, polled(
        running_config(),
        Some(selector_changed()),
    )));

    let mut repaired = running_config();
    repaired.restart_nonce = 4;
    mailbox.submit(LifecycleIntent::classify(StateBackendSelector::Parquet, polled(repaired.clone(), None)));

    let mut actor = writer();
    assert_eq!(
        actor.observe(&mailbox),
        Some(LifecycleDecision::Adopt(Box::new(repaired.clone())))
    );
    assert_eq!(actor.observe(&mailbox), None);

    let mut mailbox = IntentMailbox::new();
    mailbox.submit(LifecycleIntent::classify(StateBackendSelector::Parquet, polled(
        running_config(),
        Some(selector_changed()),
    )));
    let mut actor = writer();
    assert_eq!(
        actor.observe(&mailbox),
        Some(LifecycleDecision::Refuse(selector_changed()))
    );

    mailbox.submit(LifecycleIntent::classify(StateBackendSelector::Parquet, polled(
        running_config(),
        Some(selector_changed()),
    )));
    assert_eq!(actor.observe(&mailbox), None);

    mailbox.submit(LifecycleIntent::classify(StateBackendSelector::Parquet, polled(repaired.clone(), None)));
    assert_eq!(
        actor.observe(&mailbox),
        Some(LifecycleDecision::Adopt(Box::new(repaired)))
    );
}

#[test]
fn the_fenced_mechanism_supplies_a_writer_and_a_settlement_owner_together() {
    for mode in LifecycleMode::ALL {
        let mut lifecycle = JobLifecycle::for_mode(mode, "job_abc".to_string());
        let has_writer = lifecycle
            .actor("job_abc".to_string(), StateBackendSelector::Parquet)
            .is_some();
        assert_eq!(has_writer, lifecycle.settlement().is_some(), "{mode:?}");
        assert_eq!(has_writer, mode == LifecycleMode::FencedV2, "{mode:?}");
    }
}

#[test]
fn a_wait_reads_the_writer_before_it_parks_and_after_it_is_woken() {
    let mut mailbox = IntentMailbox::new();
    let mut config = running_config();
    let mut wait = JobWait::new(Some(writer()));
    assert_eq!(wait.before_parking(&mailbox, &mut config), Ok(None));

    // A stop that is submitted while the wait does something else ends it before it parks.
    let mut stopping = running_config();
    stopping.stop_mode = StopMode::graceful;
    mailbox.submit(LifecycleIntent::Adopt(Box::new(stopping.clone())));
    assert_eq!(
        wait.before_parking(&mailbox, &mut config),
        Ok(Some(Waited::Decided(ObservedIntent::Stop)))
    );
    assert_eq!(config, stopping);

    // A message and the channel's end leave the writer alone.
    mailbox.submit(LifecycleIntent::Refuse(selector_changed()));
    assert_eq!(
        wait.after_parking(Received::Message(JobMessage::Other(3)), &mailbox, &mut config),
        Ok(Waited::Message(JobMessage::Other(3)))
    );
    assert_eq!(
        wait.after_parking(Received::Closed, &mailbox, &mut config),
        Ok(Waited::Closed)
    );
    assert_eq!(config, stopping);

    // A submission does not.
    assert_eq!(
        wait.after_parking(Received::Submitted, &mailbox, &mut config),
        Err(selector_changed())
    );
    assert_eq!(config, stopping);
    assert_eq!(
        wait.after_parking(Received::Submitted, &mailbox, &mut config),
        Ok(Waited::Woken)
    );
    mailbox.submit(LifecycleIntent::Adopt(Box::new(running_config())));
    assert_eq!(
        wait.after_parking(Received::Submitted, &mailbox, &mut config),
        Ok(Waited::Decided(ObservedIntent::Adopted(Box::new(stopping))))
    );
    assert_eq!(config, running_config());
}

#[test]
fn a_refusal_found_before_parking_fails_the_wait() {
    let mut mailbox = IntentMailbox::new();
    let mut config = running_config();
    let mut wait = JobWait::new(Some(writer()));
    mailbox.submit(LifecycleIntent::Refuse(selector_changed()));
    assert_eq!(
        wait.before_parking(&mailbox, &mut config),
        Err(selector_changed())
    );
    assert_eq!(config, running_config());
}

#[test]
fn a_decision_is_published_into_the_configuration() {
    let mut config = running_config();
    let mut updated = running_config();
    updated.checkpoint_interval = 1;
    assert_eq!(
        LifecycleDecision::Adopt(Box::new(updated.clone())).apply(&mut config),
        Ok(ObservedIntent::Adopted(Box::new(running_config())))
    );
    assert_eq!(config, updated);

    assert_eq!(
        LifecycleDecision::StopUnderRunningConfig(StopMode::immediate).apply(&mut config),
        Ok(ObservedIntent::Stop)
    );
    updated.stop_mode = StopMode::immediate;
    assert_eq!(config, updated);

    assert_eq!(
        LifecycleDecision::StopUnderRunningConfig(StopMode::none).apply(&mut config),
        Ok(ObservedIntent::Continue)
    );
    updated.stop_mode = StopMode::none;
    assert_eq!(config, updated);

    assert_eq!(
        LifecycleDecision::Refuse(selector_changed()).apply(&mut config),
        Err(selector_changed())
    );
    assert_eq!(config, updated);
}

#[test]
fn a_job_without_a_writer_decides_nothing() {
    let mut mailbox = IntentMailbox::new();
    let mut config = running_config();
    let mut stopping = running_config();
    stopping.stop_mode = StopMode::force;
    mailbox.submit(LifecycleIntent::Adopt(Box::new(stopping)));

    let mut without = JobWait::new(None);
    assert_eq!(without.decide(&mailbox, &mut config), Ok(None));
    assert_eq!(config, running_config());

    let mut with = JobWait::new(Some(writer()));
    assert_eq!(
        with.decide(&mailbox, &mut config),
        Ok(Some(ObservedIntent::Stop))
    );
    assert_eq!(with.decide(&mailbox, &mut config), Ok(None));
}

/// A row that would change the job's backend is refused, by the poll and by the job's writer, and
/// stops the job where it asks for a stop.
#[test]
fn a_change_of_the_state_backend_is_refused_and_never_adopted() {
    let mut changed = running_config();
    changed.state_backend = StateBackendSelector::StateEngine;
    let intent =
        LifecycleIntent::classify(StateBackendSelector::Parquet, polled(changed.clone(), None));
    assert_eq!(intent, LifecycleIntent::Refuse(selector_changed()));
    assert_eq!(
        LifecycleIntent::classify(
            StateBackendSelector::Parquet,
            PolledJob {
                execution_selector: StateBackendSelector::StateEngine,
                config: running_config(),
                refusal: None,
            }
        ),
        LifecycleIntent::Refuse(selector_changed())
    );

    let mut mailbox = IntentMailbox::new();
    mailbox.submit(LifecycleIntent::Adopt(Box::new(changed.clone())));
    assert_eq!(
        writer().observe(&mailbox),
        Some(LifecycleDecision::Refuse(selector_changed()))
    );
    changed.stop_mode = StopMode::graceful;
    assert_eq!(
        LifecycleIntent::classify(StateBackendSelector::Parquet, polled(changed.clone(), None)),
        LifecycleIntent::RefusedButStopping {
            error: selector_changed(),
            stop_mode: StopMode::graceful,
        }
    );
    mailbox.submit(LifecycleIntent::Adopt(Box::new(changed)));
    assert_eq!(
        writer().observe(&mailbox),
        Some(LifecycleDecision::StopUnderRunningConfig(StopMode::graceful))
    );
}
