//! The pieces a scheduling attempt is made of.

use arroyo_controller::job::{JobContext, JobStatus};
use arroyo_controller::messages::JobMessage;
use arroyo_controller::scheduling::assignments::compute_assignments;
use arroyo_controller::scheduling::checkpoint::{
    epochs, ignores_state, leader_checkpoint, leader_prepared, CheckpointRow, DatabaseFailure,
    GenerationInitialization, LeaderRecoveryFailure, RecoveryManifest, SelectedCheckpoint,
};
use arroyo_controller::scheduling::connect::{
    after_failed_dial, handle_worker_connect, ConnectStep, DialStep,
};
use arroyo_controller::scheduling::fanout::AttemptLedger;
use arroyo_controller::scheduling::restore::{
    stored_epoch, CheckpointInfo, CommittingState, LoadedCheckpoint, OperatorCheckpoint,
    PreflightFailure, RestorePreparationError, RewriteFailure, TableCheckpoint, TableType,
};
use arroyo_controller::scheduling::start_execution::{
    applied_start, identifier, issue_all, mint_start_execution_id, start_request, Collection,
    ExecutionPlan, StartExecutionOutcome, StartReply, StartSettlement, StartStep,
    TransportSettlement, START_EXECUTION_RECONCILE_ATTEMPTS,
};
use arroyo_controller::scheduling::start_workers::{
    read_job_variables, ClusterEnvironment, SchedulerError, StartWorkersStep, StartingWorkers,
};
use arroyo_controller::scheduling::tasks::StartedTasks;
use arroyo_controller::scheduling::workers::{
    slots_for_job, WorkerState, WorkerStatus, Workers,
};
use arroyo_controller::states::{fatal, retryable, StateName};
use arroyo_controller::text;
use arroyo_controller::types::{
    JobConfig, LogicalProgram, ProgramNode, RestartMode, StateBackendSelector, StopMode, WorkerId,
};

fn config() -> JobConfig {
    JobConfig {
        id: "job_p".to_string(),
        organization_id: "org_p".to_string(),
        pipeline_name: "a pipeline".to_string(),
        pipeline_id: 1,
        stop_mode: StopMode::none,
        checkpoint_interval: 10_000_000,
        ttl: None,
        parallelism_overrides: vec![],
        restart_nonce: 0,
        restart_mode: RestartMode::safe,
        ignore_state_before_epoch: None,
        env_vars: r#"{"B": "2", "A": "one"}"#.to_string(),
        scheduler_config: r#"{"pool": 1}"#.to_string(),
        state_backend: StateBackendSelector::Parquet,
    }
}

fn job() -> JobContext {
    JobContext {
        config: config(),
        status: JobStatus {
            generation: 12,
            restarts: 0,
            restart_nonce: 0,
            tasks: None,
            leader: None,
        },
        program: program(),
        pipeline_id: "pl_1".to_string(),
        pipeline_tags: vec![("team".to_string(), "data".to_string())],
        execution_selector: StateBackendSelector::Parquet,
    }
}

fn program() -> LogicalProgram {
    LogicalProgram {
        nodes: vec![
            ProgramNode { node_id: 1, parallelism: 4 },
            ProgramNode { node_id: 2, parallelism: 1 },
        ],
        task_count: 5,
        hash: "program".to_string(),
    }
}

fn worker(id: u64, slots: usize) -> WorkerStatus {
    WorkerStatus {
        id: WorkerId(id),
        machine_id: format!("machine_{id}"),
        rpc_address: format!("rpc_{id}"),
        data_address: format!("data_{id}"),
        slots,
        state: WorkerState::Connected,
        reconciles_start_execution: true,
    }
}

#[test]
fn a_program_needs_the_slots_of_its_widest_node() {
    assert_eq!(slots_for_job(&program()), 4);
    let empty = LogicalProgram { nodes: vec![], task_count: 0, hash: "empty".to_string() };
    assert_eq!(slots_for_job(&empty), 0);
}

#[test]
fn workers_are_filled_one_after_the_other() {
    let (first, second) = (worker(5, 3), worker(6, 2));
    let placed = compute_assignments(&vec![&first, &second], &program());
    let seats: Vec<(u32, u32, u64)> =
        placed.iter().map(|a| (a.task_id, a.subtask_idx, a.worker_id)).collect();
    // Every node starts over with the first worker.
    assert_eq!(
        seats,
        vec![(1, 0, 5), (1, 1, 5), (1, 2, 5), (1, 3, 6), (2, 0, 5)]
    );
    assert_eq!(placed[3].worker_addr, "data_6");
    assert_eq!(placed[3].worker_rpc, "rpc_6");
}

/// A worker without slots is never full.
#[test]
fn a_worker_without_slots_takes_everything() {
    let (first, second) = (worker(5, 0), worker(6, 2));
    let placed = compute_assignments(&vec![&first, &second], &program());
    assert!(placed.iter().all(|a| a.worker_id == 5));
    assert_eq!(placed.len(), 5);
}

#[test]
fn workers_are_listed_by_ascending_id() {
    let mut workers = Workers::new();
    assert_eq!(workers.leader(), None);
    assert!(workers.have_slots(0));
    assert!(!workers.have_slots(1));
    for id in [9, 2, 5] {
        workers.insert(worker(id, 2));
    }
    assert_eq!(workers.ids(), vec![2, 5, 9]);
    let listed: Vec<u64> = workers.statuses().iter().map(|w| w.id.0).collect();
    assert_eq!(listed, vec![2, 5, 9]);
    assert_eq!(workers.leader(), Some((WorkerId(2), "rpc_2".to_string())));
    assert!(workers.have_slots(6));
    assert!(!workers.have_slots(7));
    // A second registration takes the place of the first.
    workers.insert(worker(9, 5));
    assert!(workers.have_slots(9));
    assert!(!workers.have_slots(10));
    assert!(workers.mark(WorkerId(5), WorkerState::Ready));
    assert!(!workers.mark(WorkerId(7), WorkerState::Ready));
    assert_eq!(workers.get(WorkerId(5)).unwrap().state, WorkerState::Ready);
    assert!(workers.get(WorkerId(7)).is_none());
    assert_eq!(workers.require_reconciling(), Ok(()));
}

#[test]
fn a_registration_is_recorded_for_its_own_generation_only() {
    let connect = |generation| JobMessage::WorkerConnect {
        worker_id: WorkerId(3),
        machine_id: "m".to_string(),
        generation,
        rpc_address: "rpc".to_string(),
        data_address: "data".to_string(),
        slots: 4,
        reconciles_start_execution: false,
    };
    let mut workers = Workers::new();
    assert_eq!(handle_worker_connect(connect(11), &mut workers, 12), ConnectStep::WrongGeneration);
    assert!(workers.get(WorkerId(3)).is_none());
    assert_eq!(
        handle_worker_connect(connect(12), &mut workers, 12),
        ConnectStep::Dial { worker_id: WorkerId(3), rpc_address: "rpc".to_string() }
    );
    let known = workers.get(WorkerId(3)).unwrap();
    assert_eq!((known.slots, known.state), (4, WorkerState::Connected));
    assert_eq!(known.machine_id, "m");
    assert_eq!(known.data_address, "data");
    assert!(!known.reconciles_start_execution);
    assert_eq!(
        handle_worker_connect(JobMessage::Other(1), &mut workers, 12),
        ConnectStep::NotAConnect(JobMessage::Other(1))
    );
}

#[test]
fn a_worker_is_dialled_three_times() {
    assert_eq!(after_failed_dial(0), DialStep::RetryAfter(100));
    assert_eq!(after_failed_dial(1), DialStep::RetryAfter(200));
    assert_eq!(after_failed_dial(2), DialStep::GiveUpAfter(300));
}

#[test]
fn a_task_counts_once() {
    let mut tasks = StartedTasks::new();
    tasks.insert(1, 0);
    tasks.insert(1, 1);
    tasks.insert(1, 0);
    tasks.insert(2, 0);
    assert_eq!(tasks.len(), 3);
}

#[test]
fn an_identifier_is_two_numbers_in_hexadecimal() {
    assert_eq!(identifier(0, 255), "000000000000000000000000000000ff");
    assert_eq!(identifier(u64::MAX, 0xABC), "ffffffffffffffff0000000000000abc");
}

/// Identifiers are minted by chance: two are different, and neither is a fixed number.
#[test]
fn the_minted_start_execution_id_is_exactly_the_bounded_width() {
    let first = mint_start_execution_id();
    let second = mint_start_execution_id();
    assert_eq!(first.len(), 32);
    assert_eq!(second.len(), 32);
    assert!(first.chars().all(|c| c.is_ascii_hexdigit() && !c.is_ascii_uppercase()));
    assert_ne!(first, second);
}

fn plan(leader: Option<(WorkerId, String)>) -> ExecutionPlan {
    ExecutionPlan {
        program: LogicalProgram {
            nodes: vec![ProgramNode { node_id: 1, parallelism: 3 }],
            task_count: 3,
            hash: "hash".to_string(),
        },
        assignments: vec![],
        restore_epoch: Some(4),
        start_epoch: 4,
        min_epoch: 2,
        leader,
        checkpoint_manifest_ref: Some("ref".to_string()),
        checkpoint_interval_micros: 77,
        state_backend: StateBackendSelector::StateEngine,
    }
}

#[test]
fn every_worker_is_asked_for_the_same_but_who_leads() {
    let led = plan(Some((WorkerId(2), "rpc_2".to_string())));
    let leader = start_request(&led, WorkerId(2), "id".to_string());
    let follower = start_request(&led, WorkerId(3), "id".to_string());
    assert!(leader.is_leader && leader.wait_for_leader);
    assert!(!follower.is_leader && follower.wait_for_leader);
    assert_eq!(follower.job_controller_addr.as_deref(), Some("rpc_2"));
    assert_eq!(leader.state_backend, "stateengine");
    assert_eq!(leader.checkpoint_manifest_ref.as_deref(), Some("ref"));
    assert_eq!(leader.checkpoint_interval_micros, 77);
    assert_eq!(leader.start_execution_id, "id");
    assert_eq!((&leader.program, &follower.program), (&led.program, &led.program));
    assert_eq!((leader.program.task_count, leader.program.hash.as_str()), (3, "hash"));
    let alone = start_request(&plan(None), WorkerId(2), "id".to_string());
    assert!(!alone.is_leader && !alone.wait_for_leader && alone.job_controller_addr.is_none());
    assert_eq!((alone.restore_epoch, alone.start_epoch, alone.min_epoch), (Some(4), 4, 2));
}

fn settlement(outcome: StartExecutionOutcome) -> Result<StartSettlement, String> {
    Ok(StartSettlement { outcome, observed_fence: Some(3) })
}

#[test]
fn only_an_applied_request_starts_a_worker() {
    assert_eq!(applied_start(&settlement(StartExecutionOutcome::Applied)), Ok(Some(3)));
    assert_eq!(
        applied_start(&settlement(StartExecutionOutcome::FenceAcknowledged)),
        Err("it answered FenceAcknowledged, which acknowledges a fence rather than starting the \
             execution"
            .to_string())
    );
    assert_eq!(
        applied_start(&settlement(StartExecutionOutcome::Revoked)),
        Err("it answered Revoked, which acknowledges a fence rather than starting the execution"
            .to_string())
    );
    assert_eq!(applied_start(&Err("unreadable".to_string())), Err("unreadable".to_string()));
}

fn ambiguous() -> StartReply {
    StartReply::Failure {
        settlement: TransportSettlement::Ambiguous,
        status: "timed out".to_string(),
    }
}

/// A worker that never answers is asked once and then as often again as the budget says, always
/// under the same identifier, and what it never answered stays owed.
#[test]
fn an_unsettled_request_is_offered_again_until_its_budget_is_spent() {
    let mut ledger = AttemptLedger::owned_by(false, 12, 0);
    let mut attempt = issue_all(&vec![WorkerId(4)], &mut ledger).remove(0);
    let id = attempt.start_execution_id().to_string();
    for n in 1..=START_EXECUTION_RECONCILE_ATTEMPTS {
        match attempt.on_reply(ambiguous(), &mut ledger) {
            StartStep::Retry(again) => attempt = again,
            other => panic!("{other:?}"),
        }
        assert_eq!(attempt.unsettled(), n);
        assert_eq!(attempt.start_execution_id(), id);
        assert_eq!(attempt.worker(), WorkerId(4));
    }
    match attempt.on_reply(ambiguous(), &mut ledger) {
        StartStep::Settled(outcome) => assert_eq!(
            outcome.failure(),
            Some(
                format!(
                    "worker WorkerId(4) never settled StartExecution {id} after 9 attempts: timed \
                     out"
                )
                .as_str()
            )
        ),
        other => panic!("{other:?}"),
    }
    assert_eq!(ledger.attempts().outstanding_count(), 1);
}

#[test]
fn every_answer_is_accounted_for_however_it_reads() {
    let ask = |reply| {
        let mut ledger = AttemptLedger::owned_by(false, 12, 0);
        let attempt = issue_all(&vec![WorkerId(4)], &mut ledger).remove(0);
        let id = attempt.start_execution_id().to_string();
        let failure = match attempt.on_reply(reply, &mut ledger) {
            StartStep::Settled(outcome) => {
                assert_eq!(outcome.worker(), WorkerId(4));
                Some(outcome.failure().map(|report| report.replace(&id, "id")))
            }
            StartStep::Retry(again) => {
                assert_eq!(again.start_execution_id(), id);
                None
            }
        };
        (failure, ledger.attempts().outstanding_count())
    };
    let failed = |report: &str| Some(Some(report.to_string()));
    assert_eq!(
        ask(StartReply::Response(settlement(StartExecutionOutcome::Applied))),
        (Some(None), 0)
    );
    assert_eq!(
        ask(StartReply::Response(settlement(StartExecutionOutcome::Revoked))),
        (
            failed(
                "worker WorkerId(4) did not apply StartExecution id: it answered Revoked, which \
                 acknowledges a fence rather than starting the execution"
            ),
            0
        )
    );
    assert_eq!(
        ask(StartReply::Response(Err("unreadable".to_string()))),
        (failed("worker WorkerId(4) did not apply StartExecution id: unreadable"), 0)
    );
    assert_eq!(
        ask(StartReply::Failure {
            settlement: TransportSettlement::Definitive,
            status: "denied".to_string(),
        }),
        (failed("failed to start execution on worker WorkerId(4): denied"), 0)
    );
    assert_eq!(ask(ambiguous()), (None, 1));
}

#[test]
fn the_first_failure_is_reported_once_everything_is_in() {
    let collect = |replies: Vec<(u64, StartReply)>| {
        let mut ledger = AttemptLedger::owned_by(false, 12, 0);
        let workers: Vec<WorkerId> = replies.iter().map(|(w, _)| WorkerId(*w)).collect();
        let attempts = issue_all(&workers, &mut ledger);
        let mut collection = Collection::begin(ledger);
        for (attempt, (_, reply)) in attempts.into_iter().zip(replies) {
            assert!(!collection.is_complete());
            assert!(collection.read(attempt, reply).is_none());
        }
        assert!(collection.is_complete());
        collection.came_to()
    };
    let applied = || StartReply::Response(settlement(StartExecutionOutcome::Applied));
    let denied = |status: &str| StartReply::Failure {
        settlement: TransportSettlement::Definitive,
        status: status.to_string(),
    };
    assert_eq!(
        collect(vec![
            (1, applied()),
            (4, denied("first")),
            (2, applied()),
            (3, denied("second")),
        ]),
        Err("failed to start execution on worker WorkerId(4): first".to_string())
    );
    assert_eq!(
        collect(vec![(2, applied()), (1, applied())]),
        Ok(vec![WorkerId(2), WorkerId(1)])
    );
    assert_eq!(collect(vec![]), Ok(vec![]));
}

/// An attempt that is offered again has no outcome yet, and one of another fan-out counts for
/// nothing in this one.
#[test]
fn a_fan_out_is_complete_only_with_an_outcome_for_each_of_its_own_attempts() {
    let applied = || StartReply::Response(settlement(StartExecutionOutcome::Applied));
    let workers = vec![WorkerId(4), WorkerId(5)];
    let mut ledger = AttemptLedger::owned_by(false, 12, 0);
    let mut own = issue_all(&workers, &mut ledger);
    let mut elsewhere = AttemptLedger::owned_by(false, 12, 0);
    let mut foreign = issue_all(&workers, &mut elsewhere);

    let mut collection = Collection::begin(ledger);
    let again = collection.read(own.remove(0), ambiguous()).expect("offered again");
    assert_eq!(again.unsettled(), 1);
    assert!(!collection.is_complete());
    assert!(collection.read(again, applied()).is_none());
    assert!(!collection.is_complete());
    assert_eq!(collection.issued().outstanding_count(), 1);
    assert!(collection.read(own.remove(0), applied()).is_none());
    assert!(collection.is_complete());
    assert_eq!(collection.issued().outstanding_count(), 0);
    assert_eq!(collection.came_to(), Ok(workers.clone()));

    let mut other = AttemptLedger::owned_by(false, 12, 0);
    let mut attempts = issue_all(&workers, &mut other);
    let mut collection = Collection::begin(other);
    assert!(collection.read(attempts.remove(0), applied()).is_none());
    assert!(collection.read(foreign.remove(1), applied()).is_none());
    assert!(!collection.is_complete());
    assert_eq!(collection.issued().outstanding_count(), 1);
}

fn cluster(state_url: Option<&str>) -> ClusterEnvironment {
    ClusterEnvironment {
        state_url: state_url.map(|s| s.to_string()),
        checkpoint_url: "s3://cluster".to_string(),
        cluster_id_env: "CLUSTER_ID".to_string(),
        cluster_id: "c_1".to_string(),
    }
}

fn environment(starting: &StartingWorkers) -> Vec<(String, String)> {
    let mut variables = starting.request().env_vars.clone();
    variables.sort();
    variables
}

fn pairs(of: &[(&str, &str)]) -> Vec<(String, String)> {
    of.iter().map(|(k, v)| (k.to_string(), v.to_string())).collect()
}

/// The variables are read out of the row's text, and the two the controller reserves are set over
/// whatever the job says.
#[test]
fn workers_start_in_the_jobs_environment_and_the_controllers() {
    let starting = StartingWorkers::for_job(&job(), 4, cluster(None)).unwrap();
    assert_eq!(
        environment(&starting),
        pairs(&[
            ("A", "one"),
            ("ARROYO__CHECKPOINT_URL", "s3://cluster"),
            ("B", "2"),
            ("CLUSTER_ID", "c_1"),
        ])
    );
    let mut job = job();
    job.config.env_vars =
        r#"{"CLUSTER_ID": "mine", "ARROYO__CHECKPOINT_URL": "mine"}"#.to_string();
    let starting = StartingWorkers::for_job(&job, 4, cluster(Some("s3://job"))).unwrap();
    assert_eq!(
        environment(&starting),
        pairs(&[("ARROYO__CHECKPOINT_URL", "s3://job"), ("CLUSTER_ID", "c_1")])
    );
    let request = starting.request();
    assert_eq!(request.program, program());
    assert_eq!((request.slots, request.generation), (4, 12));
    assert_eq!(request.pipeline_id, "pl_1");
    assert_eq!(request.organization_id, "org_p");
    assert_eq!(request.job_id, "job_p");
    assert_eq!(request.name, "a pipeline");
    assert_eq!(request.hash, "program");
    assert_eq!(request.pipeline_tags, pairs(&[("team", "data")]));
    assert_eq!(request.wasm_path, "");
    assert_eq!(request.scheduler_config, r#"{"pool": 1}"#);
}

#[test]
fn a_malformed_environment_fails_the_job() {
    let source = "malformed env_vars in job_configs row".to_string();
    for (text, report) in [
        (r#"{"A": 1}"#, "invalid type: integer `1`, expected a string"),
        (r#"[]"#, "invalid type: sequence, expected a map"),
    ] {
        let mut job = job();
        job.config.env_vars = text.to_string();
        assert_eq!(
            StartingWorkers::for_job(&job, 4, cluster(None)).unwrap_err(),
            fatal(
                &format!("failed to deserialize env_vars from job_configs: {report}"),
                source.clone()
            )
        );
    }
    assert_eq!(
        read_job_variables(Err("r".to_string())),
        Err(fatal("failed to deserialize env_vars from job_configs: r", source))
    );
    assert_eq!(read_job_variables(Ok(pairs(&[("A", "1")]))), Ok(pairs(&[("A", "1")])));
}

#[test]
fn a_full_cluster_is_asked_again_until_the_budget_is_spent() {
    let starting = || StartingWorkers::for_job(&job(), 4, cluster(None)).unwrap();
    assert!(matches!(starting().answered(Ok(()), 5, 10), Ok(StartWorkersStep::Started)));
    let full = || Err(SchedulerError::NotEnoughSlots { slots_needed: 1 });
    match starting().answered(full(), 10, 10) {
        Ok(StartWorkersStep::AskAgain(again)) => assert_eq!(again.request(), starting().request()),
        other => panic!("{other:?}"),
    }
    assert_eq!(
        starting().answered(full(), 11, 10).unwrap_err(),
        fatal(
            "Not enough slots to schedule job",
            "scheduler error -- needed 4 slots".to_string()
        )
    );
    assert_eq!(
        starting().answered(Err(SchedulerError::Other("busy".to_string())), 0, 10).unwrap_err(),
        retryable(
            StateName::Scheduling,
            "encountered error during scheduling",
            "scheduling error: busy".to_string(),
            20
        )
    );
    assert_eq!(
        starting().answered(Err(SchedulerError::Fatal("no image".to_string())), 0, 10).unwrap_err(),
        fatal(
            "scheduling failed: no image",
            "non-retryable scheduling error: no image".to_string()
        )
    );
}

fn row(epoch: i32) -> CheckpointRow {
    CheckpointRow {
        pub_id: format!("chk_{epoch}"),
        epoch,
        min_epoch: 1,
        needs_commits: true,
        state_backend: "parquet".to_string(),
    }
}

fn described(epoch: u64) -> CheckpointInfo {
    CheckpointInfo {
        epoch,
        min_epoch: 1,
        id: format!("chk_{epoch}"),
        needs_commits: true,
    }
}

#[test]
fn a_job_restores_from_its_newest_checkpoint_unless_its_threshold_skips_it() {
    let picked = |rows, threshold| {
        SelectedCheckpoint::among(Ok(rows), threshold).unwrap().row().map(|r| r.epoch)
    };
    assert_eq!(picked(vec![row(7), row(6)], None), Some(7));
    assert_eq!(picked(vec![row(7), row(6)], Some(7)), Some(7));
    // Nothing older is restored in its place.
    assert_eq!(picked(vec![row(7), row(9)], Some(8)), None);
    assert_eq!(picked(vec![], None), None);
    assert_eq!(
        SelectedCheckpoint::among(Err(DatabaseFailure::Client("x".to_string())), None).unwrap_err(),
        retryable(StateName::Scheduling, "failed to get db client", "x".to_string(), 10)
    );
    assert_eq!(
        SelectedCheckpoint::among(Err(DatabaseFailure::Query("x".to_string())), None).unwrap_err(),
        retryable(StateName::Scheduling, "failed to fetch last checkpoint", "x".to_string(), 10)
    );
}

#[test]
fn nothing_is_marked_failed_before_the_backend_is_compared() {
    let selected = || SelectedCheckpoint::among(Ok(vec![row(7)]), None).unwrap();
    assert_eq!(
        selected().validated(Err("stateengine".to_string())).unwrap_err(),
        fatal(
            "cannot restore a checkpoint written with a different state backend",
            "stateengine".to_string()
        )
    );
    let validated = || selected().validated(Ok(())).unwrap();
    assert_eq!(validated().mark_failed_from(), 8);
    assert_eq!(
        validated().marked_failed(Err(DatabaseFailure::Client("x".to_string()))).unwrap_err(),
        retryable(
            StateName::Scheduling,
            "failed to get db client for mark_failed",
            "x".to_string(),
            10
        )
    );
    assert_eq!(
        validated().marked_failed(Err(DatabaseFailure::Query("x".to_string()))).unwrap_err(),
        retryable(
            StateName::Scheduling,
            "failed to mark in-progress checkpoints as failed",
            "x".to_string(),
            10
        )
    );
    let ready = || validated().marked_failed(Ok(())).unwrap();
    assert_eq!(ready().to_prepare(), Some(&described(7)));
    let replay = || CommittingState { checkpoint_id: "chk_7".to_string(), operators: vec![] };
    assert_eq!(
        ready().prepared(Some(Ok(Some(replay())))),
        Ok((Some(described(7)), Some(replay())))
    );
    assert_eq!(
        ready().prepared(Some(Err(RestorePreparationError::Retryable {
            message: "m".to_string(),
            source: "s".to_string()
        }))),
        Err(retryable(StateName::Scheduling, "m", "s".to_string(), 10))
    );
    assert_eq!(
        ready().prepared(Some(Err(RestorePreparationError::Fatal {
            message: "m".to_string(),
            source: "s".to_string()
        }))),
        Err(fatal("m", "s".to_string()))
    );
    // Without a checkpoint everything that was in progress is marked failed.
    let none = SelectedCheckpoint::among(Ok(vec![]), None).unwrap().validated(Ok(())).unwrap();
    assert_eq!(none.mark_failed_from(), 1);
    let none = none.marked_failed(Ok(())).unwrap();
    assert_eq!(none.to_prepare(), None);
    assert_eq!(none.prepared(None), Ok((None, None)));
}

#[test]
fn a_worker_led_generation_restores_what_its_manifest_says() {
    let manifest = RecoveryManifest { epoch: 8, min_epoch: 2, needs_commit: true };
    assert_eq!(leader_checkpoint(GenerationInitialization::NoCheckpoint), Ok(None));
    assert_eq!(
        leader_checkpoint(GenerationInitialization::Recovers {
            checkpoint_ref: "ref".to_string(),
            manifest: Some(manifest)
        }),
        Ok(Some(CheckpointInfo {
            epoch: 8,
            min_epoch: 2,
            id: "ref".to_string(),
            needs_commits: true
        }))
    );
    assert_eq!(
        leader_checkpoint(GenerationInitialization::Recovers {
            checkpoint_ref: "ref".to_string(),
            manifest: None
        }),
        Err("recovery checkpoint manifest ref is missing!".to_string())
    );
    assert_eq!(
        leader_checkpoint(GenerationInitialization::StopOrphaned {
            canonical_ref: "Some(r)".to_string()
        }),
        Err("somehow ended up with an orphaned checkpoint during recovery... should not \
             happencanonical_ref = Some(r)"
            .to_string())
    );
    assert_eq!(
        leader_checkpoint(GenerationInitialization::Failed { failure: "Missing".to_string() }),
        Err("failed while resolving restoration checkpoint: Missing".to_string())
    );
    assert_eq!(leader_prepared(Ok(None)), Ok(None));
    assert_eq!(
        leader_prepared(Err(LeaderRecoveryFailure::Other("x".to_string()))),
        Err(retryable(
            StateName::Scheduling,
            "failed to load checkpoint metadata",
            "x".to_string(),
            20
        ))
    );
    assert_eq!(
        leader_prepared(Err(LeaderRecoveryFailure::StateBackend("x".to_string()))),
        Err(fatal(
            "cannot restore a checkpoint written with a different state backend",
            "x".to_string()
        ))
    );
    assert!(ignores_state(Some(12), 12));
    assert!(!ignores_state(Some(11), 12));
    assert!(!ignores_state(None, 12));
    assert!(!ignores_state(Some(-1), u64::MAX));
}

#[test]
fn a_job_without_a_checkpoint_takes_its_first_at_the_threshold() {
    assert_eq!(epochs(false, Some(6), &None), (5, 5));
    assert_eq!(epochs(false, Some(0), &None), (0, 0));
    assert_eq!(epochs(false, Some(-3), &None), (0, 0));
    assert_eq!(epochs(false, None, &None), (0, 0));
    // Where workers lead, the threshold names a generation.
    assert_eq!(epochs(true, Some(6), &None), (0, 0));
    assert_eq!(epochs(false, Some(6), &Some(described(9))), (9, 1));
}

fn operator(operator_id: &str, config: Option<TableType>) -> OperatorCheckpoint {
    OperatorCheckpoint {
        operator_id: operator_id.to_string(),
        tables: vec![TableCheckpoint {
            table_name: "g".to_string(),
            config,
            commit_data: Some(vec![(0, b"commit".to_vec())]),
        }],
    }
}

fn loaded(needs_commits: bool) -> LoadedCheckpoint {
    LoadedCheckpoint::loaded(
        CheckpointInfo {
            epoch: 4,
            min_epoch: 2,
            id: "checkpoint_1".to_string(),
            needs_commits,
        },
        Ok(()),
    )
    .unwrap()
}

fn restoring() -> Vec<(String, usize)> {
    vec![("node_1".to_string(), 1), ("node_2".to_string(), 1)]
}

/// A checkpoint that was refused has no rewrite to perform.
#[test]
fn a_checkpoint_with_a_disagreeing_operator_has_nothing_to_rewrite() {
    for needs_commits in [false, true] {
        assert_eq!(
            loaded(needs_commits)
                .preflighted(
                    Err(PreflightFailure::StateBackend("node_2 disagrees".to_string())),
                    &restoring(),
                )
                .unwrap_err(),
            RestorePreparationError::Fatal {
                message: "cannot restore a checkpoint written with a different state backend"
                    .to_string(),
                source: "node_2 disagrees".to_string(),
            }
        );
    }
    assert_eq!(
        loaded(false)
            .preflighted(
                Err(PreflightFailure::Incomplete("node_2 is missing".to_string())),
                &restoring(),
            )
            .unwrap_err(),
        RestorePreparationError::Fatal {
            message: "cannot restore a checkpoint that does not cover the job's operators"
                .to_string(),
            source: "node_2 is missing".to_string(),
        }
    );
    assert_eq!(
        loaded(false)
            .preflighted(Err(PreflightFailure::Other("x".to_string())), &restoring())
            .unwrap_err(),
        RestorePreparationError::Retryable {
            message: "Failed to load operator metadata for epoch 4".to_string(),
            source: "x".to_string(),
        }
    );
    assert_eq!(
        LoadedCheckpoint::loaded(described(4), Err("x".to_string())).unwrap_err(),
        RestorePreparationError::Retryable {
            message: "Failed to load checkpoint metadata for epoch 4".to_string(),
            source: "x".to_string(),
        }
    );
}

#[test]
fn commits_are_replayed_for_every_operator_that_has_any() {
    let operators = || {
        Ok(vec![
            operator("node_1", Some(TableType::GlobalKeyValue)),
            operator("node_2", Some(TableType::GlobalKeyValue)),
        ])
    };
    let ready = loaded(false).preflighted(operators(), &restoring()).unwrap();
    assert_eq!((ready.epoch(), ready.min_epoch()), (4, 2));
    assert_eq!(ready.rewritten(Ok(())), Ok(None));
    assert_eq!(stored_epoch(4), 4);
    assert_eq!(stored_epoch(0x1_0000_0000), 0);
    assert_eq!(stored_epoch(u64::MAX), u32::MAX);

    let wide = vec![("node_2".to_string(), 3), ("node_1".to_string(), 1)];
    let committing = loaded(true).preflighted(operators(), &wide).unwrap();
    let replay = committing.rewritten(Ok(())).unwrap().expect("commits are replayed");
    assert_eq!(replay.checkpoint_id, "checkpoint_1");
    assert_eq!(replay.operators.len(), 2);
    assert_eq!(
        replay.operators[0].tables,
        vec![("g".to_string(), vec![(0, b"commit".to_vec())])]
    );
    let subtasks: Vec<(String, u32)> = replay.commit_subtasks();
    assert_eq!(
        subtasks,
        vec![
            ("node_1".to_string(), 0),
            ("node_2".to_string(), 0),
            ("node_2".to_string(), 1),
            ("node_2".to_string(), 2),
        ]
    );

    // A table that expires its keys has none.
    let expiring = Ok(vec![operator("node_1", Some(TableType::ExpiringKeyedTimeTable))]);
    let replay =
        loaded(true).preflighted(expiring, &restoring()).unwrap().rewritten(Ok(())).unwrap();
    assert_eq!(replay.unwrap().operators.len(), 0);
}

#[test]
fn tables_that_cannot_be_interpreted_fail_the_restore() {
    let refused = |operators| {
        match loaded(true).preflighted(Ok(operators), &restoring()).unwrap_err() {
            RestorePreparationError::Fatal { message, source } => (message, source),
            other => panic!("{other:?}"),
        }
    };
    assert_eq!(
        refused(vec![operator("node_1", None)]),
        (
            "Failed to restore job; table config for g not found.".to_string(),
            "table config for g not found".to_string()
        )
    );
    assert_eq!(
        refused(vec![operator("node_1", Some(TableType::MissingTableType))]),
        ("Missing table type".to_string(), "table type not found".to_string())
    );
    assert_eq!(
        refused(vec![operator("node_3", Some(TableType::GlobalKeyValue))]),
        (
            "Failed to restore job; operator node_3 is not in the job's program.".to_string(),
            "operator node_3 not found in program".to_string()
        )
    );
    // A checkpoint that replays nothing is not looked into that far.
    let untouched =
        loaded(false).preflighted(Ok(vec![operator("node_1", None)]), &restoring()).unwrap();
    assert_eq!(
        untouched.rewritten(Err(RewriteFailure::NotValidated("x".to_string()))),
        Err(RestorePreparationError::Fatal {
            message: "cannot rewrite a checkpoint's metadata for operators that were not validated"
                .to_string(),
            source: "x".to_string(),
        })
    );
    let unwritten = loaded(false).preflighted(Ok(vec![]), &restoring()).unwrap();
    assert_eq!(
        unwritten.rewritten(Err(RewriteFailure::NotWritten("x".to_string()))),
        Err(RestorePreparationError::Retryable {
            message: "Failed to write checkpoint metadata for epoch 4".to_string(),
            source: "x".to_string(),
        })
    );
}

#[test]
fn numbers_print_as_they_are_read() {
    assert_eq!(text::decimal(0), "0");
    assert_eq!(text::decimal(u64::MAX), "18446744073709551615");
    assert_eq!(text::padded(255, 16, 4), "00ff");
    assert_eq!(text::listed(&vec![3, 9]), "[3, 9]");
    assert_eq!(text::listed(&vec![]), "[]");
    assert!(text::same("a", "a"));
    assert!(!text::same("a", "b"));
}
