//! A scheduling attempt without a fence, stage by stage.

use arroyo_controller::admission::AdmissionLock;
use arroyo_controller::job::{JobContext, JobStatus, LeaderContext};
use arroyo_controller::lifecycle::fence::FenceProtocol;
use arroyo_controller::lifecycle::intent::ObservedIntent;
use arroyo_controller::messages::{JobMessage, RunningMessage, TaskFailure};
use arroyo_controller::scheduling::checkpoint::LeaderRecoveryFailure;
use arroyo_controller::scheduling::context::{
    PhaseContext, RecoveryPreparation, StatusPublication,
};
use arroyo_controller::scheduling::execution::{JobFailure, JobState, LeaderStatus};
use arroyo_controller::scheduling::restore::{CheckpointInfo, CommittingState};
use arroyo_controller::scheduling::start_execution::{
    StartExecutionOutcome, StartReply, StartSettlement, TransportSettlement,
};
use arroyo_controller::scheduling::unfenced::{Outgoing, Stage, Step, UnfencedScheduling};
use arroyo_controller::scheduling::workers::WorkerState;
use arroyo_controller::states::{
    ErrorDomain, NextState, StateError, StateName, StopBehavior, Transition,
};
use arroyo_controller::types::{
    JobConfig, LogicalProgram, ProgramNode, RestartMode, StateBackendSelector, StopMode, WorkerId,
};

fn config() -> JobConfig {
    JobConfig {
        id: "job_u".to_string(),
        organization_id: "org".to_string(),
        pipeline_name: "pipeline".to_string(),
        pipeline_id: 1,
        stop_mode: StopMode::none,
        checkpoint_interval: 10_000_000,
        ttl: None,
        parallelism_overrides: vec![],
        restart_nonce: 0,
        restart_mode: RestartMode::safe,
        ignore_state_before_epoch: Some(6),
        env_vars: "{}".to_string(),
        scheduler_config: "{}".to_string(),
        state_backend: StateBackendSelector::Parquet,
    }
}

fn program() -> LogicalProgram {
    LogicalProgram {
        nodes: vec![ProgramNode { node_id: 7, parallelism: 2 }],
        task_count: 2,
        hash: "program".to_string(),
    }
}

fn job() -> JobContext {
    JobContext {
        config: config(),
        status: JobStatus {
            generation: 4,
            restarts: 0,
            restart_nonce: 0,
            tasks: None,
            leader: None,
        },
        program: program(),
        pipeline_id: "pl_1".to_string(),
        pipeline_tags: vec![("team".to_string(), "data".to_string())],
        execution_selector: StateBackendSelector::StateEngine,
    }
}

fn go(step: Step) -> UnfencedScheduling {
    match step {
        Step::Go(next) => next,
        Step::End { result, .. } => panic!("the attempt ended with {result:?}"),
    }
}

fn end(step: Step) -> (JobContext, Result<Transition, StateError>) {
    match step {
        Step::Go(next) => panic!("the attempt went on in {:?}", next.standing()),
        Step::End { job, result, .. } => (job, result),
    }
}

fn retried(step: Step) -> (String, String, usize) {
    match end(step).1 {
        Err(StateError::RetryableError { state, message, source, retries }) => {
            assert_eq!(state, StateName::Scheduling);
            (message, source, retries)
        }
        other => panic!("{other:?}"),
    }
}

fn connect(worker: u64, generation: u64, slots: usize, reconciles: bool) -> JobMessage {
    JobMessage::WorkerConnect {
        worker_id: WorkerId(worker),
        machine_id: format!("machine_{worker}"),
        generation,
        rpc_address: format!("http://10.0.0.{worker}:1"),
        data_address: format!("10.0.0.{worker}:2"),
        slots,
        reconciles_start_execution: reconciles,
    }
}

fn entered(leader_mode: bool) -> UnfencedScheduling {
    go(UnfencedScheduling::begin(PhaseContext::new(job(), leader_mode)))
}

fn persisting(lock: &AdmissionLock, leader_mode: bool) -> UnfencedScheduling {
    entered(leader_mode).admitted(lock.try_admit().expect("nobody else holds the lock"))
}

fn preparing(lock: &AdmissionLock, leader_mode: bool) -> UnfencedScheduling {
    let attempt = go(persisting(lock, leader_mode)
        .generation_persisted(Ok(StatusPublication::Published)))
    .cluster_torn_down(program());
    go(attempt.workers_started(Ok(())))
}

fn restored(needs_commits: bool) -> RecoveryPreparation {
    RecoveryPreparation::Controller(Ok((
        Some(CheckpointInfo {
            epoch: 9,
            min_epoch: 3,
            id: "chk_9".to_string(),
            needs_commits,
        }),
        if needs_commits {
            Some(CommittingState { checkpoint_id: "chk_9".to_string(), operators: vec![] })
        } else {
            None
        },
    )))
}

fn awaiting_workers(lock: &AdmissionLock, needs_commits: bool) -> UnfencedScheduling {
    go(preparing(lock, false).recovery_prepared(restored(needs_commits)))
}

fn opening(lock: &AdmissionLock, needs_commits: bool) -> UnfencedScheduling {
    let (step, _) =
        awaiting_workers(lock, needs_commits).worker_message(connect(2, 5, 1, true), Ok(()));
    let (step, _) = go(step).worker_message(connect(1, 5, 1, true), Ok(()));
    go(step)
}

fn issuing(lock: &AdmissionLock, needs_commits: bool) -> UnfencedScheduling {
    let attempt = go(go(opening(lock, needs_commits).channel_opened(Ok(()))).channel_opened(Ok(())));
    go(attempt.channels_open(Ok(FenceProtocol::Legacy)))
        .admitted(lock.try_admit().expect("the authority was released"))
}

fn applied() -> StartReply {
    StartReply::Response(Ok(StartSettlement {
        outcome: StartExecutionOutcome::Applied,
        observed_fence: None,
    }))
}

/// Asks every worker, reads the same reply from each, and says what the fan-out came to.
fn fan_out(attempt: UnfencedScheduling, reply: impl Fn() -> StartReply) -> Step {
    let (mut attempt, _, requests) = attempt.issue();
    assert_eq!(attempt.standing(), Stage::Fanning);
    for request in requests {
        assert!(!attempt.is_settled());
        let (next, again) = attempt.read(request, reply());
        assert!(again.is_none());
        attempt = next;
    }
    assert!(attempt.is_settled());
    attempt.fan_out_settled()
}

fn awaiting_tasks(lock: &AdmissionLock, needs_commits: bool) -> UnfencedScheduling {
    go(fan_out(issuing(lock, needs_commits), applied))
}

fn started(task_id: u32, subtask_idx: u32) -> JobMessage {
    JobMessage::TaskStarted { task_id, subtask_idx }
}

fn lock() -> AdmissionLock {
    AdmissionLock::for_job("job_u".to_string())
}

/// The whole attempt, with restored commits. The publication lock is taken in exactly the stages
/// that do something that cannot be taken back.
#[test]
fn the_authority_is_held_exactly_where_something_cannot_be_taken_back() {
    let lock = lock();
    let attempt = entered(false);
    assert_eq!(attempt.standing(), Stage::Entering);
    assert!(attempt.authority().is_none() && lock.is_free());

    let attempt = attempt.admitted(lock.try_admit().unwrap());
    assert_eq!(attempt.standing(), Stage::PersistingGeneration);
    assert_eq!(attempt.knows().job.status.generation, 5);
    assert!(attempt.authority().is_some() && !lock.is_free());

    let attempt = go(attempt.generation_persisted(Ok(StatusPublication::Published)));
    assert_eq!(attempt.standing(), Stage::TearingDown);
    let attempt = attempt.cluster_torn_down(program());
    assert_eq!(attempt.standing(), Stage::StartingWorkers);
    assert_eq!(attempt.knows().slots_needed, 2);
    let attempt = go(attempt.workers_started(Ok(())));
    assert_eq!(attempt.standing(), Stage::PreparingRecovery);
    assert!(!lock.is_free());

    let attempt = go(attempt.recovery_prepared(restored(true)));
    assert_eq!(attempt.standing(), Stage::AwaitingWorkers);
    assert!(attempt.authority().is_none() && lock.is_free());

    let (step, outgoing) = attempt.worker_message(connect(2, 5, 1, true), Ok(()));
    assert_eq!(
        outgoing,
        Outgoing::Dial { worker_id: WorkerId(2), rpc_address: "http://10.0.0.2:1".to_string() }
    );
    let attempt = go(step);
    assert_eq!(attempt.standing(), Stage::AwaitingWorkers);
    let (step, _) = attempt.worker_message(connect(1, 5, 1, true), Ok(()));
    let attempt = go(step);
    assert_eq!(attempt.standing(), Stage::OpeningChannels);
    let attempt = go(go(attempt.channel_opened(Ok(()))).channel_opened(Ok(())));
    let attempt = go(attempt.channels_open(Ok(FenceProtocol::Legacy)));
    assert_eq!(attempt.standing(), Stage::ReadyToIssue);
    assert!(lock.is_free());

    let attempt = attempt.admitted(lock.try_admit().unwrap());
    assert_eq!(attempt.standing(), Stage::Issuing);
    assert_eq!(attempt.knows().job.status.generation, 5);
    assert!(!lock.is_free());
    let (attempt, plan, requests) = attempt.issue();
    assert_eq!(attempt.standing(), Stage::Fanning);
    assert_eq!(plan.restore_epoch, Some(9));
    assert_eq!((plan.start_epoch, plan.min_epoch), (9, 3));
    assert!(plan.leader.is_none() && plan.checkpoint_manifest_ref.is_none());
    assert_eq!(plan.state_backend, StateBackendSelector::StateEngine);
    assert_eq!(plan.checkpoint_interval_micros, 10_000_000);
    let placed: Vec<(u32, u64)> =
        plan.assignments.iter().map(|a| (a.subtask_idx, a.worker_id)).collect();
    assert_eq!(placed, vec![(0, 1), (1, 2)]);
    let mut attempt = attempt;
    for (n, request) in requests.into_iter().enumerate() {
        assert!(!attempt.is_settled());
        let unanswered = StartReply::Failure {
            settlement: TransportSettlement::Ambiguous,
            status: "timed out".to_string(),
        };
        let (next, again) = attempt.read(request, unanswered);
        let again = again.expect("a request without an outcome is offered again");
        let (next, again) = next.read(again, applied());
        assert!(again.is_none());
        assert_eq!(next.is_settled(), n == 1);
        assert!(next.authority().is_some() && !lock.is_free());
        attempt = next;
    }
    let attempt = go(attempt.fan_out_settled());
    assert_eq!(attempt.standing(), Stage::AwaitingTasks);
    assert!(attempt.authority().is_none() && lock.is_free());
    assert_eq!(
        attempt.knows().workers.get(WorkerId(1)).unwrap().state,
        WorkerState::Initializing
    );

    let (step, _) = attempt.task_message(started(7, 0), Ok(()));
    let attempt = go(step);
    assert_eq!(attempt.standing(), Stage::AwaitingTasks);
    let (step, _) = attempt.task_message(started(7, 1), Ok(()));
    let attempt = go(step);
    assert_eq!(attempt.standing(), Stage::HandingOver);

    let (attempt, plan) = attempt.hand_over();
    let plan = plan.expect("the controller runs this job");
    assert_eq!(plan.generation, 5);
    assert_eq!((plan.start_epoch, plan.min_epoch), (9, 3));
    assert_eq!(plan.workers, vec![WorkerId(1), WorkerId(2)]);
    assert!(plan.committing_state.is_some());
    assert_eq!(attempt.standing(), Stage::CommitsPending);
    assert!(lock.is_free());
    let attempt = attempt.admitted(lock.try_admit().unwrap());
    assert_eq!(attempt.standing(), Stage::PublishingCommits);
    assert!(!lock.is_free());
    let attempt = attempt.commits_published();
    assert_eq!(attempt.standing(), Stage::Leaving);
    assert!(lock.is_free());

    let (job, result) = attempt.leave(Ok(()));
    assert!(matches!(result, Ok(Transition::Advance(NextState::Running(_)))));
    assert_eq!(job.status.tasks, Some(2));
    assert_eq!(job.status.leader, None);
}

#[test]
fn a_job_that_is_to_stop_is_not_scheduled() {
    let mut job = job();
    job.config.stop_mode = StopMode::checkpoint;
    let (left, result) = end(UnfencedScheduling::begin(PhaseContext::new(job.clone(), false)));
    assert_eq!(
        result,
        Ok(Transition::Advance(NextState::Stopping { stop_mode: StopBehavior::StopJobImmediate }))
    );
    assert_eq!(left, job);
}

#[test]
fn a_superseded_controller_stops_and_a_failed_write_is_retried() {
    let lock = lock();
    let (job, result) = end(persisting(&lock, false)
        .generation_persisted(Ok(StatusPublication::Superseded("another".to_string()))));
    assert_eq!(result, Ok(Transition::Stop));
    assert_eq!(job.status.generation, 5);
    assert!(lock.is_free());

    let failed = persisting(&lock, false).generation_persisted(Err("no database".to_string()));
    assert_eq!(
        retried(failed),
        (
            "failed to advance generation for scheduling retry".to_string(),
            "no database".to_string(),
            10
        )
    );
    assert!(lock.is_free());
}

#[test]
fn every_preparation_reports_its_own_failure() {
    let lock = lock();
    let other = preparing(&lock, true).recovery_prepared(RecoveryPreparation::Leader(Err(
        LeaderRecoveryFailure::Other("unreachable".to_string()),
    )));
    assert_eq!(
        retried(other),
        ("failed to load checkpoint metadata".to_string(), "unreachable".to_string(), 20)
    );
    let (_, result) = end(preparing(&lock, true).recovery_prepared(RecoveryPreparation::Leader(
        Err(LeaderRecoveryFailure::StateBackend("written by another".to_string())),
    )));
    assert!(matches!(
        result,
        Err(StateError::FatalError { message, source, .. })
            if message == "cannot restore a checkpoint written with a different state backend"
                && source == "written by another"
    ));
    let refused = StateError::RetryableError {
        state: StateName::Scheduling,
        message: "encountered error during scheduling".to_string(),
        source: "scheduling error: busy".to_string(),
        retries: 20,
    };
    let attempt = go(persisting(&lock, false)
        .generation_persisted(Ok(StatusPublication::Published)))
    .cluster_torn_down(program());
    assert_eq!(end(attempt.workers_started(Err(refused.clone()))).1, Err(refused));
    assert!(lock.is_free());
}

#[test]
fn a_wait_answers_the_writer_on_every_turn() {
    let lock = lock();
    let attempt = go(awaiting_workers(&lock, false).observed(Ok(ObservedIntent::Continue)));
    // A stop that the writer decided but nothing states any more changes nothing.
    let attempt = go(attempt.observed(Ok(ObservedIntent::Stop)));
    let attempt = go(attempt.observed(Ok(ObservedIntent::Adopted(Box::new(config())))));
    assert_eq!(attempt.standing(), Stage::AwaitingWorkers);
    let refusal = StateError::RetryableError {
        state: StateName::Scheduling,
        message: "m".to_string(),
        source: "s".to_string(),
        retries: 1,
    };
    assert_eq!(end(attempt.observed(Err(refusal.clone()))).1, Err(refusal.clone()));
    assert_eq!(end(awaiting_tasks(&lock, false).handled(Err(refusal.clone()))).1, Err(refusal));
    assert_eq!(go(awaiting_tasks(&lock, false).handled(Ok(()))).standing(), Stage::AwaitingTasks);
}

#[test]
fn the_wait_for_workers_reads_a_message_by_its_kind() {
    let lock = lock();
    // A worker of another generation is not recorded.
    let (step, outgoing) =
        awaiting_workers(&lock, false).worker_message(connect(1, 4, 8, true), Ok(()));
    let attempt = go(step);
    assert_eq!(outgoing, Outgoing::Nothing);
    assert_eq!(attempt.standing(), Stage::AwaitingWorkers);
    assert!(attempt.knows().workers.get(WorkerId(1)).is_none());
    // A message that is no registration is the job's.
    let (step, outgoing) = attempt.worker_message(JobMessage::Other(3), Ok(()));
    let attempt = go(step);
    assert_eq!(outgoing, Outgoing::HandOn(JobMessage::Other(3)));
    // A stop leaves, whatever a check of the same configuration would say.
    let mut update = config();
    update.stop_mode = StopMode::force;
    let refused = StateError::RetryableError {
        state: StateName::Scheduling,
        message: "m".to_string(),
        source: "s".to_string(),
        retries: 1,
    };
    let (step, _) =
        attempt.worker_message(JobMessage::ConfigUpdate(update), Err(refused.clone()));
    assert_eq!(
        end(step).1,
        Ok(Transition::Advance(NextState::Stopping { stop_mode: StopBehavior::StopWorkers }))
    );
    // A configuration without one is carried on with only where the check allows it.
    let (step, _) = awaiting_workers(&lock, false)
        .worker_message(JobMessage::ConfigUpdate(config()), Err(refused.clone()));
    assert_eq!(end(step).1, Err(refused));
    // More slots than needed from one worker end the wait too.
    let (step, _) = awaiting_workers(&lock, false).worker_message(connect(1, 5, 3, true), Ok(()));
    assert_eq!(go(step).standing(), Stage::OpeningChannels);
    assert_eq!(
        retried(awaiting_workers(&lock, false).workers_timed_out("600s")),
        (
            "timed out while waiting for workers to start".to_string(),
            "timed out after 600s while waiting for worker startup".to_string(),
            3
        )
    );
}

#[test]
fn nothing_is_issued_to_workers_that_cannot_be_asked_twice() {
    let lock = lock();
    let (step, _) = awaiting_workers(&lock, false).worker_message(connect(9, 5, 1, false), Ok(()));
    let (step, _) = go(step).worker_message(connect(3, 5, 1, false), Ok(()));
    let attempt = go(go(go(step).channel_opened(Ok(()))).channel_opened(Ok(())));
    assert_eq!(
        retried(attempt.channels_open(Ok(FenceProtocol::Legacy))),
        (
            "workers predating the StartExecution reconciliation contract".to_string(),
            "workers [3, 9] did not advertise `reconciles_start_execution`; upgrade the worker \
             image to at least this controller's version before scheduling this job"
                .to_string(),
            10
        )
    );
    let opened = || go(go(opening(&lock, false).channel_opened(Ok(()))).channel_opened(Ok(())));
    assert_eq!(
        retried(opened().channels_open(Err("no fence".to_string()))),
        (
            "the job's lifecycle fence cannot address its worker generations".to_string(),
            "no fence".to_string(),
            10
        )
    );
    assert_eq!(
        retried(opened().channels_open(Ok(FenceProtocol::Fenced { generation: 5, fence: 2 }))).0,
        "a fenced job reached the pre-fence scheduling body"
    );
    assert_eq!(
        retried(opening(&lock, false).channel_opened(Err("refused".to_string()))),
        ("Failed to start cluster for pipeline".to_string(), "refused".to_string(), 10)
    );
    assert!(lock.is_free());
}

#[test]
fn a_failed_fan_out_releases_the_authority_and_is_retried() {
    let lock = lock();
    let attempt = issuing(&lock, false);
    assert!(!lock.is_free());
    let denied = || StartReply::Failure {
        settlement: TransportSettlement::Definitive,
        status: "denied".to_string(),
    };
    assert_eq!(
        retried(fan_out(attempt, denied)),
        (
            "failed to initialize workers".to_string(),
            "failed to start execution on worker WorkerId(1): denied".to_string(),
            10
        )
    );
    assert!(lock.is_free());
}

#[test]
fn the_wait_for_tasks_reads_a_message_by_its_kind() {
    let lock = lock();
    let failure = TaskFailure {
        operator_id: "op".to_string(),
        subtask_idx: 1,
        reason: "boom".to_string(),
        error_domain: ErrorDomain::User,
    };
    let (step, outgoing) = awaiting_tasks(&lock, false).task_message(
        JobMessage::RunningMessage(RunningMessage::TaskFailed(failure.clone())),
        Ok(()),
    );
    assert_eq!(outgoing, Outgoing::TaskFailed(failure.clone()));
    let attempt = go(step);
    let (step, _) = attempt.task_message(
        JobMessage::WorkerInitializationComplete {
            worker_id: WorkerId(1),
            success: true,
            error_message: None,
        },
        Ok(()),
    );
    let attempt = go(step);
    assert_eq!(attempt.knows().workers.get(WorkerId(1)).unwrap().state, WorkerState::Ready);
    // The same task twice is one task.
    let (step, _) = attempt.task_message(started(7, 0), Ok(()));
    let (step, _) = go(step).task_message(started(7, 0), Ok(()));
    let attempt = go(step);
    assert_eq!(attempt.standing(), Stage::AwaitingTasks);
    let (step, _) = attempt.task_message(
        JobMessage::WorkerInitializationComplete {
            worker_id: WorkerId(2),
            success: false,
            error_message: None,
        },
        Ok(()),
    );
    assert_eq!(
        retried(step),
        (
            "worker initialization failed".to_string(),
            "worker 2 initialization failed: Unknown error".to_string(),
            5
        )
    );

    let explained = Some(LeaderStatus {
        job_state: Some(JobState::JobFailed),
        job_failure: Some(JobFailure { task_failure: failure.clone() }),
    });
    let (_, failed) = awaiting_tasks(&lock, false).tasks_timed_out(explained, "60s");
    assert_eq!(failed, Ok(JobFailure { task_failure: failure }));
    let (_, timed_out) = awaiting_tasks(&lock, false).tasks_timed_out(None, "60s");
    assert!(matches!(
        timed_out,
        Err(StateError::RetryableError { message, source, retries: 3, .. })
            if message == "timed out while waiting for tasks to start"
                && source == "timed out after 60s while waiting for worker startup"
    ));
}

/// Where a worker leads, it is the one with the smallest id, and the job leaves for it once it is
/// reached. The threshold of such a job names a generation and says nothing about its epochs.
#[test]
fn a_led_job_leaves_for_its_leader() {
    let lock = lock();
    let led = || {
        let attempt = go(preparing(&lock, true).recovery_prepared(RecoveryPreparation::Leader(
            Ok(None),
        )));
        let (step, _) = attempt.worker_message(connect(8, 5, 1, true), Ok(()));
        let (step, _) = go(step).worker_message(connect(6, 5, 1, true), Ok(()));
        let attempt = go(go(go(step).channel_opened(Ok(()))).channel_opened(Ok(())));
        let attempt = go(attempt.channels_open(Ok(FenceProtocol::Legacy)))
            .admitted(lock.try_admit().unwrap());
        let plan = attempt.knows().execution_plan();
        assert_eq!(plan.leader, Some((WorkerId(6), "http://10.0.0.6:1".to_string())));
        assert_eq!((plan.restore_epoch, plan.start_epoch, plan.min_epoch), (None, 0, 0));
        let attempt = go(fan_out(attempt, applied));
        let (step, _) = attempt.task_message(started(7, 0), Ok(()));
        let (step, _) = go(step).task_message(started(7, 1), Ok(()));
        let (attempt, plan) = go(step).hand_over();
        assert!(plan.is_none());
        assert_eq!(attempt.standing(), Stage::Leaving);
        attempt
    };
    let (job, result) = led().leave(Ok(()));
    assert_eq!(result, Ok(Transition::Advance(NextState::LeaderRunning)));
    assert_eq!(
        job.status.leader,
        Some(LeaderContext {
            worker_id: WorkerId(6),
            rpc_address: "http://10.0.0.6:1".to_string(),
            generation: 5
        })
    );
    let (job, result) = led().leave(Err("unreachable".to_string()));
    assert!(matches!(
        result,
        Err(StateError::RetryableError { message, source, retries: 10, .. })
            if message == "failed to connect to worker leader" && source == "unreachable"
    ));
    assert_eq!(job.status.leader, None);
}

/// Without a checkpoint, a job that the controller keeps the checkpoints of starts right below its
/// threshold.
#[test]
fn a_job_without_a_checkpoint_starts_below_its_threshold() {
    let lock = lock();
    let attempt = go(preparing(&lock, false)
        .recovery_prepared(RecoveryPreparation::Controller(Ok((None, None)))));
    assert_eq!(attempt.knows().epochs(), (5, 5));
    assert_eq!(attempt.into_job().config.id, "job_u");
}
