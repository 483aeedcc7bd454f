//! What each of a job's states does, turn by turn.

use arroyo_controller::job::{JobStatus, LeaderContext};
use arroyo_controller::lifecycle::intent::ObservedIntent;
use arroyo_controller::messages::{JobMessage, RunningMessage, TaskFailure};
use arroyo_controller::recovering::{
    after_failed_tear_down, TearDownStep,
    Cleanup, CleanupEvent, CleanupFailure, CleanupStage, CleanupStep, ControllerCleanup,
    FinishWait, LeaderCleanup, Recovering, Retry, WorkerTeardown,
};
use arroyo_controller::rescaling::{RescaleProgress, Rescaling};
use arroyo_controller::restarting::{
    CheckpointEvent, CheckpointStage, CheckpointStep, FinalCheckpoint, RestartEntry, Restarting,
};
use arroyo_controller::running::{
    ControllerProgress, Running, RunningConfigAction, RunningEvent, RunningStage, RunningStep,
};
use arroyo_controller::scheduling::context::StatusPublication;
use arroyo_controller::scheduling::execution::JobState;
use arroyo_controller::scheduling::{run_state_body, Scheduling, StateBody};
use arroyo_controller::states::{
    fatal, retryable, stop_if_desired_non_running, stop_if_desired_running, ErrorDomain,
    FatalProvenance, LeavingForStop, NextState, StateError, StateName, StopBehavior, Transition,
};
use arroyo_controller::types::{
    JobConfig, RestartMode, StateBackendSelector, StopMode, WorkerId,
};

fn config(stop_mode: StopMode) -> JobConfig {
    JobConfig {
        id: "job_s".to_string(),
        organization_id: "org".to_string(),
        pipeline_name: "pipeline".to_string(),
        pipeline_id: 1,
        stop_mode,
        checkpoint_interval: 10_000_000,
        ttl: None,
        parallelism_overrides: vec![(1, 4)],
        restart_nonce: 0,
        restart_mode: RestartMode::safe,
        ignore_state_before_epoch: None,
        env_vars: "{}".to_string(),
        scheduler_config: "{}".to_string(),
        state_backend: StateBackendSelector::Parquet,
    }
}

fn status(restarts: i32) -> JobStatus {
    JobStatus {
        generation: 3,
        restarts,
        restart_nonce: 0,
        tasks: Some(2),
        leader: Some(LeaderContext {
            worker_id: WorkerId(1),
            rpc_address: "http://10.0.0.1:1".to_string(),
            generation: 3,
        }),
    }
}

fn stopping(stop_mode: StopBehavior) -> Transition {
    Transition::Advance(NextState::Stopping { stop_mode })
}

fn failure() -> TaskFailure {
    TaskFailure {
        operator_id: "op".to_string(),
        subtask_idx: 0,
        reason: "boom".to_string(),
        error_domain: ErrorDomain::External,
    }
}

fn refusal() -> StateError {
    fatal("refused", "row".to_string())
}

#[test]
fn every_stop_mode_leads_somewhere_of_its_own() {
    let running: Vec<Option<Transition>> = [
        StopMode::none,
        StopMode::checkpoint,
        StopMode::graceful,
        StopMode::immediate,
        StopMode::force,
    ]
    .iter()
    .map(|mode| stop_if_desired_running(&config(*mode)))
    .collect();
    assert_eq!(
        running,
        vec![
            None,
            Some(Transition::Advance(NextState::CheckpointStopping)),
            Some(stopping(StopBehavior::StopJobGraceful)),
            Some(stopping(StopBehavior::StopJobImmediate)),
            Some(stopping(StopBehavior::StopWorkers)),
        ]
    );
    assert_eq!(stop_if_desired_non_running(&config(StopMode::none)), None);
    for mode in [StopMode::checkpoint, StopMode::graceful, StopMode::immediate] {
        assert_eq!(
            stop_if_desired_non_running(&config(mode)),
            Some(stopping(StopBehavior::StopJobImmediate))
        );
    }
    assert_eq!(
        stop_if_desired_non_running(&config(StopMode::force)),
        Some(stopping(StopBehavior::StopWorkers))
    );
}

/// Every state but one answers a stop it is entered with before it runs.
#[test]
fn a_state_entered_with_a_stop_leaves_unless_it_recovers() {
    let stop = config(StopMode::checkpoint);
    assert_eq!(
        Running {}.leave_for_stop(&stop),
        LeavingForStop::Leaves(Transition::Advance(NextState::CheckpointStopping))
    );
    assert_eq!(
        Scheduling {}.leave_for_stop(&stop),
        LeavingForStop::Leaves(stopping(StopBehavior::StopJobImmediate))
    );
    assert_eq!(
        Restarting { mode: RestartMode::safe }.leave_for_stop(&stop),
        LeavingForStop::Leaves(stopping(StopBehavior::StopJobImmediate))
    );
    assert_eq!(
        Rescaling {}.leave_for_stop(&stop),
        LeavingForStop::Leaves(stopping(StopBehavior::StopJobImmediate))
    );
    let recovering = recovering();
    assert_eq!(
        recovering.clone().leave_for_stop(&stop),
        LeavingForStop::Stays(recovering)
    );
    assert_eq!(
        Running {}.leave_for_stop(&config(StopMode::none)),
        LeavingForStop::Stays(Running {})
    );
    assert_eq!(Running::enter(&stop), Some(Transition::Advance(NextState::CheckpointStopping)));
    assert_eq!(Running::enter(&config(StopMode::none)), None);
}

#[test]
fn states_are_known_by_their_names() {
    assert_eq!(Scheduling {}.name(), "Scheduling");
    assert_eq!(Running {}.name(), "Running");
    assert_eq!(Restarting { mode: RestartMode::force }.name(), "Restarting");
    assert_eq!(Rescaling {}.name(), "Rescaling");
    assert_eq!(recovering().name(), "Recovering");
}

/// Only the scheduling of a fenced job runs the phase graph.
#[test]
fn the_phase_graph_runs_only_a_fenced_scheduling() {
    assert_eq!(run_state_body(StateName::Scheduling, true), StateBody::PhaseGraph);
    assert_eq!(run_state_body(StateName::Scheduling, false), StateBody::Own);
    assert_eq!(run_state_body(StateName::Running, true), StateBody::Own);
}

#[test]
fn errors_carry_what_they_were_made_with() {
    assert_eq!(
        fatal("m", "s".to_string()),
        StateError::FatalError {
            message: "m".to_string(),
            domain: ErrorDomain::Internal,
            source: "s".to_string(),
            provenance: FatalProvenance::Unrelated,
        }
    );
    assert_eq!(
        retryable(StateName::Rescaling, "m", "s".to_string(), 7),
        StateError::RetryableError {
            state: StateName::Rescaling,
            message: "m".to_string(),
            source: "s".to_string(),
            retries: 7,
        }
    );
}

fn run(stage: RunningStage, event: RunningEvent, config: &JobConfig) -> RunningStep {
    let mut before = status(0);
    let step = Running::next(stage, event, config, &mut before);
    assert_eq!(before, status(0));
    step
}

fn goes_on(stage: RunningStage) -> RunningStep {
    RunningStep::Go { stage, update: None }
}

#[test]
fn a_running_job_answers_a_stop_by_either_route_alike() {
    for mode in [StopMode::checkpoint, StopMode::graceful, StopMode::immediate, StopMode::force] {
        let decided = run(
            RunningStage::ReadingIntent,
            RunningEvent::Intent(Ok(ObservedIntent::Stop)),
            &config(mode),
        );
        let brought = run(
            RunningStage::Waiting,
            RunningEvent::Message(JobMessage::ConfigUpdate(config(mode))),
            &config(StopMode::none),
        );
        assert_eq!(decided, brought);
        assert_eq!(
            decided,
            RunningStep::End(Ok(stop_if_desired_running(&config(mode)).unwrap()))
        );
    }
    let none = config(StopMode::none);
    assert_eq!(
        run(RunningStage::ReadingIntent, RunningEvent::Intent(Ok(ObservedIntent::Stop)), &none),
        goes_on(RunningStage::Waiting)
    );
    assert_eq!(
        run(RunningStage::ReadingIntent, RunningEvent::Intent(Ok(ObservedIntent::Continue)), &none),
        goes_on(RunningStage::Waiting)
    );
    assert_eq!(
        run(RunningStage::ReadingIntent, RunningEvent::Intent(Err(refusal())), &none),
        RunningStep::End(Err(refusal()))
    );
}

#[test]
fn a_running_job_decides_on_a_configuration_by_either_route_alike() {
    let mut was = config(StopMode::none);
    was.restart_nonce = 9;
    let now = config(StopMode::none);
    let adopted = run(
        RunningStage::ReadingIntent,
        RunningEvent::Intent(Ok(ObservedIntent::Adopted(Box::new(was.clone())))),
        &now,
    );
    assert_eq!(
        adopted,
        goes_on(RunningStage::Deciding {
            superseded: was.clone(),
            updated: now.clone(),
            adopted: true
        })
    );
    let brought = run(
        RunningStage::Waiting,
        RunningEvent::Message(JobMessage::ConfigUpdate(now.clone())),
        &was,
    );
    assert_eq!(
        brought,
        goes_on(RunningStage::Deciding {
            superseded: was.clone(),
            updated: now.clone(),
            adopted: false
        })
    );
    let deciding = |adopted| RunningStage::Deciding {
        superseded: was.clone(),
        updated: now.clone(),
        adopted,
    };
    for adopted in [true, false] {
        assert_eq!(
            run(
                deciding(adopted),
                RunningEvent::Decided(Ok(RunningConfigAction::Restart(RestartMode::force))),
                &now
            ),
            RunningStep::End(Ok(Transition::Advance(NextState::Restarting(Restarting {
                mode: RestartMode::force
            }))))
        );
        assert_eq!(
            run(deciding(adopted), RunningEvent::Decided(Ok(RunningConfigAction::Rescale)), &now),
            RunningStep::End(Ok(Transition::Advance(NextState::Rescaling(Rescaling {}))))
        );
        assert_eq!(
            run(deciding(adopted), RunningEvent::Decided(Err(refusal())), &now),
            RunningStep::End(Err(refusal()))
        );
    }
    // One that is applied reaches the job's controller; only the turn that follows differs.
    assert_eq!(
        run(deciding(true), RunningEvent::Decided(Ok(RunningConfigAction::Apply)), &now),
        RunningStep::Go { stage: RunningStage::Waiting, update: Some(now.clone()) }
    );
    assert_eq!(
        run(deciding(false), RunningEvent::Decided(Ok(RunningConfigAction::Apply)), &now),
        RunningStep::Go { stage: RunningStage::ReadingIntent, update: Some(now.clone()) }
    );
}

#[test]
fn a_running_jobs_wait_ends_in_the_next_turn() {
    let none = config(StopMode::none);
    assert_eq!(
        run(RunningStage::Waiting, RunningEvent::Woken, &none),
        goes_on(RunningStage::ReadingIntent)
    );
    assert_eq!(
        run(
            RunningStage::Waiting,
            RunningEvent::Message(JobMessage::RunningMessage(RunningMessage::Other(2))),
            &none
        ),
        goes_on(RunningStage::Controlling(RunningMessage::Other(2)))
    );
    assert_eq!(
        run(RunningStage::Waiting, RunningEvent::Message(JobMessage::Other(5)), &none),
        goes_on(RunningStage::HandingOn(JobMessage::Other(5)))
    );
    let controlling = || RunningStage::Controlling(RunningMessage::Other(2));
    assert_eq!(
        run(controlling(), RunningEvent::Controlled(Ok(())), &none),
        goes_on(RunningStage::ReadingIntent)
    );
    assert_eq!(
        run(controlling(), RunningEvent::Controlled(Err("lost".to_string())), &none),
        RunningStep::End(Err(retryable(
            StateName::Running,
            "job encountered an error",
            "lost".to_string(),
            10
        )))
    );
    let handing_on = || RunningStage::HandingOn(JobMessage::Other(5));
    assert_eq!(
        run(handing_on(), RunningEvent::Handled(Ok(())), &none),
        goes_on(RunningStage::ReadingIntent)
    );
    assert_eq!(
        run(handing_on(), RunningEvent::Handled(Err(refusal())), &none),
        RunningStep::End(Err(refusal()))
    );
    assert_eq!(
        run(RunningStage::Waiting, RunningEvent::TtlExpired, &none),
        RunningStep::End(Ok(stopping(StopBehavior::StopJobImmediate)))
    );
}

#[test]
fn the_controllers_progress_decides_where_a_running_job_goes() {
    let none = config(StopMode::none);
    let ask = |progress| run(RunningStage::AskingProgress, RunningEvent::Progress(progress), &none);
    assert_eq!(ask(Ok(ControllerProgress::Continue)), goes_on(RunningStage::ReadingIntent));
    assert_eq!(
        ask(Ok(ControllerProgress::Finishing)),
        RunningStep::End(Ok(Transition::Advance(NextState::Finishing)))
    );
    assert_eq!(
        ask(Ok(ControllerProgress::TaskFailed(failure()))),
        RunningStep::TaskFailed(failure())
    );
    assert_eq!(
        ask(Err("gone".to_string())),
        RunningStep::End(Ok(Transition::Advance(NextState::Recovering(Recovering {
            source: "gone".to_string(),
            reason: "error while running".to_string(),
            domain: ErrorDomain::Internal,
        }))))
    );
}

/// Restarts are forgiven once the job has been healthy for longer than asked, and count again
/// where that could not be published.
#[test]
fn restarts_are_forgiven_only_where_that_is_published() {
    let none = config(StopMode::none);
    let tick = |ran_for| RunningEvent::Tick { ran_for, healthy_duration: 100 };
    let mut forgiven = status(2);
    let step = Running::next(RunningStage::Waiting, tick(101), &none, &mut forgiven);
    assert_eq!(step, goes_on(RunningStage::Forgiving { restarts: 2 }));
    assert_eq!(forgiven, status(0));
    let step = Running::next(
        RunningStage::Forgiving { restarts: 2 },
        RunningEvent::Published(Ok(StatusPublication::Published)),
        &none,
        &mut forgiven,
    );
    assert_eq!((step, forgiven.restarts), (goes_on(RunningStage::AskingProgress), 0));
    let step = Running::next(
        RunningStage::Forgiving { restarts: 2 },
        RunningEvent::Published(Err("no database".to_string())),
        &none,
        &mut forgiven,
    );
    assert_eq!((step, forgiven), (goes_on(RunningStage::AskingProgress), status(2)));

    let mut lost = status(0);
    let step = Running::next(
        RunningStage::Forgiving { restarts: 2 },
        RunningEvent::Published(Ok(StatusPublication::Superseded("another".to_string()))),
        &none,
        &mut lost,
    );
    assert_eq!(step, RunningStep::End(Ok(Transition::Stop)));
    assert_eq!(lost, status(0));

    let mut young = status(2);
    let step = Running::next(RunningStage::Waiting, tick(100), &none, &mut young);
    assert_eq!((step, young), (goes_on(RunningStage::AskingProgress), status(2)));
    let mut clean = status(0);
    let step = Running::next(RunningStage::Waiting, tick(101), &none, &mut clean);
    assert_eq!((step, clean), (goes_on(RunningStage::AskingProgress), status(0)));
}

#[test]
fn a_job_runs_no_longer_than_it_may_live() {
    let mut config = config(StopMode::none);
    assert_eq!(Running::ttl_end(&config, 5), None);
    config.ttl = Some(60);
    assert_eq!(Running::ttl_end(&config, 20), Some(40));
    assert_eq!(Running::ttl_end(&config, 60), Some(0));
    assert_eq!(Running::ttl_end(&config, 61), Some(0));
}

fn go(stage: CheckpointStage) -> CheckpointStep {
    CheckpointStep::Go(stage)
}

fn rescheduled() -> CheckpointStep {
    CheckpointStep::End(Ok(Transition::Advance(NextState::Scheduling(Scheduling {}))))
}

fn forced() -> CheckpointStep {
    CheckpointStep::End(Ok(Transition::Advance(NextState::Restarting(Restarting {
        mode: RestartMode::force,
    }))))
}

#[test]
fn a_safe_restart_is_rescheduled_once_its_checkpoint_is_done() {
    assert_eq!(
        Restarting { mode: RestartMode::safe }.enter(),
        RestartEntry::Checkpoint(CheckpointStage::AskingCheckpoint)
    );
    assert_eq!(Restarting { mode: RestartMode::force }.enter(), RestartEntry::CleanUp);
    let none = config(StopMode::none);
    let next = |stage, event| Restarting::next(stage, event, &none);
    // Whether a checkpoint was started does not matter to a restart.
    for started in [true, false] {
        assert_eq!(
            next(CheckpointStage::AskingCheckpoint, CheckpointEvent::Asked(Ok(started))),
            go(CheckpointStage::ReadingIntent)
        );
    }
    assert_eq!(
        next(CheckpointStage::AskingCheckpoint, CheckpointEvent::Asked(Err("x".to_string()))),
        CheckpointStep::End(Err(retryable(
            StateName::Restarting,
            "failed to initiate final checkpoint",
            "x".to_string(),
            10
        )))
    );
    assert_eq!(
        next(CheckpointStage::ReadingIntent, CheckpointEvent::Intent(Ok(ObservedIntent::Continue))),
        go(CheckpointStage::MonitoringCheckpoint)
    );
    let standing = |done, finished| {
        CheckpointEvent::Checkpoint(FinalCheckpoint::Standing { done, finished })
    };
    let monitoring = || CheckpointStage::MonitoringCheckpoint;
    assert_eq!(next(monitoring(), standing(true, true)), rescheduled());
    assert_eq!(next(monitoring(), standing(true, false)), go(CheckpointStage::Waiting));
    assert_eq!(next(monitoring(), standing(false, true)), go(CheckpointStage::Waiting));
    assert_eq!(
        next(
            monitoring(),
            CheckpointEvent::Checkpoint(FinalCheckpoint::Unknown("x".to_string()))
        ),
        CheckpointStep::End(Err(retryable(
            StateName::Restarting,
            "failed while monitoring final checkpoint",
            "x".to_string(),
            10
        )))
    );
    assert_eq!(
        next(CheckpointStage::Waiting, CheckpointEvent::Woken),
        go(CheckpointStage::ReadingIntent)
    );
    let controlling = || CheckpointStage::Controlling(RunningMessage::Other(1));
    assert_eq!(
        next(
            CheckpointStage::Waiting,
            CheckpointEvent::Message(
                JobMessage::RunningMessage(RunningMessage::Other(1)),
                Ok(())
            )
        ),
        go(controlling())
    );
    assert_eq!(
        next(controlling(), CheckpointEvent::Controlled(Ok(()))),
        go(CheckpointStage::ReadingIntent)
    );
    assert_eq!(
        next(controlling(), CheckpointEvent::Controlled(Err("x".to_string()))),
        CheckpointStep::End(Err(retryable(
            StateName::Restarting,
            "failed while waiting for job finish",
            "x".to_string(),
            10
        )))
    );
    assert_eq!(
        next(CheckpointStage::Waiting, CheckpointEvent::Message(JobMessage::Other(4), Ok(()))),
        go(CheckpointStage::HandingOn(JobMessage::Other(4)))
    );
    assert_eq!(
        next(
            CheckpointStage::HandingOn(JobMessage::Other(4)),
            CheckpointEvent::Handled(Err(refusal()))
        ),
        CheckpointStep::End(Err(refusal()))
    );
}

#[test]
fn a_restart_escalates_by_either_route_alike() {
    let mut force = config(StopMode::immediate);
    force.restart_mode = RestartMode::force;
    let none = config(StopMode::none);
    let adopted = Restarting::next(
        CheckpointStage::ReadingIntent,
        CheckpointEvent::Intent(Ok(ObservedIntent::Adopted(Box::new(none.clone())))),
        &force,
    );
    // A forced restart is asked for before a stop is looked for.
    let brought = Restarting::next(
        CheckpointStage::Waiting,
        CheckpointEvent::Message(JobMessage::ConfigUpdate(force.clone()), Ok(())),
        &none,
    );
    assert_eq!(adopted, forced());
    assert_eq!(brought, forced());
    // A configuration that may not be carried on with is not restarted from.
    assert_eq!(
        Restarting::next(
            CheckpointStage::Waiting,
            CheckpointEvent::Message(JobMessage::ConfigUpdate(force), Err(refusal())),
            &none,
        ),
        CheckpointStep::End(Err(refusal()))
    );
    assert_eq!(
        Restarting::next(
            CheckpointStage::Waiting,
            CheckpointEvent::Message(
                JobMessage::ConfigUpdate(config(StopMode::graceful)),
                Ok(())
            ),
            &none,
        ),
        CheckpointStep::End(Ok(stopping(StopBehavior::StopJobImmediate)))
    );
    assert_eq!(
        Restarting::next(
            CheckpointStage::ReadingIntent,
            CheckpointEvent::Intent(Ok(ObservedIntent::Stop)),
            &config(StopMode::force),
        ),
        CheckpointStep::End(Ok(stopping(StopBehavior::StopWorkers)))
    );
}

#[test]
fn a_rescale_ends_only_on_a_checkpoint_it_started() {
    let none = config(StopMode::none);
    let mut rescale = RescaleProgress::new();
    let done = || {
        CheckpointEvent::Checkpoint(FinalCheckpoint::Standing { done: true, finished: true })
    };
    // One that stood done before was another's.
    assert_eq!(
        rescale.next(CheckpointStage::MonitoringCheckpoint, done(), &none),
        go(CheckpointStage::AskingCheckpoint)
    );
    assert_eq!(
        rescale.next(CheckpointStage::AskingCheckpoint, CheckpointEvent::Asked(Ok(false)), &none),
        go(CheckpointStage::Waiting)
    );
    assert_eq!(
        rescale.next(CheckpointStage::MonitoringCheckpoint, done(), &none),
        go(CheckpointStage::AskingCheckpoint)
    );
    assert_eq!(
        rescale.next(
            CheckpointStage::AskingCheckpoint,
            CheckpointEvent::Asked(Err("x".to_string())),
            &none
        ),
        CheckpointStep::End(Err(retryable(
            StateName::Rescaling,
            "failed to initiate final checkpoint",
            "x".to_string(),
            10
        )))
    );
    assert_eq!(
        rescale.next(CheckpointStage::AskingCheckpoint, CheckpointEvent::Asked(Ok(true)), &none),
        go(CheckpointStage::Waiting)
    );
    assert_eq!(
        rescale.next(
            CheckpointStage::MonitoringCheckpoint,
            CheckpointEvent::Checkpoint(FinalCheckpoint::Standing { done: true, finished: false }),
            &none
        ),
        go(CheckpointStage::Waiting)
    );
    assert_eq!(rescale.next(CheckpointStage::MonitoringCheckpoint, done(), &none), rescheduled());
}

#[test]
fn a_rescale_takes_a_stop_before_it_checks_a_configuration() {
    let none = config(StopMode::none);
    let mut rescale = RescaleProgress::new();
    assert_eq!(
        rescale.next(
            CheckpointStage::Waiting,
            CheckpointEvent::Message(
                JobMessage::ConfigUpdate(config(StopMode::checkpoint)),
                Err(refusal())
            ),
            &none
        ),
        CheckpointStep::End(Ok(stopping(StopBehavior::StopJobImmediate)))
    );
    assert_eq!(
        rescale.next(
            CheckpointStage::Waiting,
            CheckpointEvent::Message(JobMessage::ConfigUpdate(none.clone()), Err(refusal())),
            &none
        ),
        CheckpointStep::End(Err(refusal()))
    );
    assert_eq!(
        rescale.next(
            CheckpointStage::Waiting,
            CheckpointEvent::Message(JobMessage::ConfigUpdate(none.clone()), Ok(())),
            &none
        ),
        go(CheckpointStage::ReadingIntent)
    );
    // A forced restart that is adopted meanwhile is no business of a rescale.
    let mut force = config(StopMode::none);
    force.restart_mode = RestartMode::force;
    assert_eq!(
        rescale.next(
            CheckpointStage::ReadingIntent,
            CheckpointEvent::Intent(Ok(ObservedIntent::Adopted(Box::new(none.clone())))),
            &force
        ),
        go(CheckpointStage::MonitoringCheckpoint)
    );
    assert_eq!(
        rescale.next(
            CheckpointStage::ReadingIntent,
            CheckpointEvent::Intent(Ok(ObservedIntent::Stop)),
            &config(StopMode::force)
        ),
        CheckpointStep::End(Ok(stopping(StopBehavior::StopWorkers)))
    );
    assert_eq!(
        rescale.next(
            CheckpointStage::ReadingIntent,
            CheckpointEvent::Intent(Err(refusal())),
            &none
        ),
        CheckpointStep::End(Err(refusal()))
    );
    assert_eq!(
        rescale.next(
            CheckpointStage::MonitoringCheckpoint,
            CheckpointEvent::Checkpoint(FinalCheckpoint::Unknown("x".to_string())),
            &none
        ),
        CheckpointStep::End(Err(retryable(
            StateName::Rescaling,
            "failed while monitoring final checkpoint",
            "x".to_string(),
            10
        )))
    );
    assert_eq!(
        rescale.next(
            CheckpointStage::Controlling(RunningMessage::Other(1)),
            CheckpointEvent::Controlled(Err("x".to_string())),
            &none
        ),
        CheckpointStep::End(Err(retryable(
            StateName::Rescaling,
            "failed while waiting for job finish",
            "x".to_string(),
            10
        )))
    );
}

fn recovering() -> Recovering {
    Recovering {
        source: "cause".to_string(),
        reason: "worker lost".to_string(),
        domain: ErrorDomain::External,
    }
}

#[test]
fn a_failed_job_is_tried_again_within_its_budget() {
    let none = config(StopMode::none);
    assert_eq!(
        recovering().enter(&none, &status(2), 3),
        Ok(Retry { recovering: recovering(), restarts: 2 })
    );
    assert_eq!(
        recovering().enter(&none, &status(3), 3),
        Err(StateError::FatalError {
            message: "Exhausted retries: worker lost".to_string(),
            domain: ErrorDomain::External,
            source: "cause".to_string(),
            provenance: FatalProvenance::Unrelated,
        })
    );
    // Any number of restarts is allowed.
    assert_eq!(
        recovering().enter(&none, &status(1_000_000), -1),
        Ok(Retry { recovering: recovering(), restarts: 1_000_000 })
    );
    // A preview job is not tried again, whatever its budget.
    let mut preview = config(StopMode::none);
    preview.ttl = Some(60);
    assert_eq!(
        recovering().enter(&preview, &status(0), -1),
        Err(fatal(
            "Job encountered a fatal error; see worker logs for details",
            "cause".to_string()
        ))
    );
}

fn clean(stage: CleanupStage, event: CleanupEvent) -> CleanupStep {
    let mut before = status(1);
    let step = stage.next(event, &mut before);
    let mut expected = status(1);
    if step == CleanupStep::Go(CleanupStage::TearingDown) {
        expected.leader = None;
    }
    assert_eq!(before, expected);
    step
}

#[test]
fn only_a_refusal_ends_a_cleanup_before_the_workers_are_torn_down() {
    let tearing = || CleanupStep::Go(CleanupStage::TearingDown);
    assert_eq!(
        clean(CleanupStage::StoppingController, CleanupEvent::ControllerStopped(Ok(()))),
        CleanupStep::Go(CleanupStage::AwaitingFinish)
    );
    assert_eq!(
        clean(
            CleanupStage::StoppingController,
            CleanupEvent::ControllerStopped(Err("x".to_string()))
        ),
        tearing()
    );
    for waited in [
        FinishWait::Finished,
        FinishWait::StopDecided,
        FinishWait::Failed("x".to_string()),
        FinishWait::TimedOut,
    ] {
        assert_eq!(
            clean(CleanupStage::AwaitingFinish, CleanupEvent::FinishWaited(waited)),
            tearing()
        );
    }
    assert_eq!(
        clean(
            CleanupStage::AwaitingFinish,
            CleanupEvent::FinishWaited(FinishWait::Refused(refusal()))
        ),
        CleanupStep::End(Err(CleanupFailure::Refused(refusal())))
    );
    assert_eq!(
        clean(CleanupStage::TearingDown, CleanupEvent::TornDown(Ok(()))),
        CleanupStep::End(Ok(()))
    );
    assert_eq!(
        clean(CleanupStage::TearingDown, CleanupEvent::TornDown(Err("x".to_string()))),
        CleanupStep::End(Err(CleanupFailure::Failed("x".to_string())))
    );
}

#[test]
fn a_leader_is_awaited_where_its_job_comes_to_rest() {
    let asked = |state| Recovering::cleanup_leader(Some(Some(state)));
    assert_eq!(
        asked(JobState::JobRunning),
        LeaderCleanup::StopThenAwait(JobState::JobStopped)
    );
    assert_eq!(asked(JobState::JobFailing), LeaderCleanup::StopThenAwait(JobState::JobFailed));
    assert_eq!(asked(JobState::JobStopping), LeaderCleanup::Await(JobState::JobStopped));
    assert_eq!(asked(JobState::JobFinishing), LeaderCleanup::Await(JobState::JobFinished));
    for state in [
        JobState::JobUnknown,
        JobState::JobInitializing,
        JobState::JobStopped,
        JobState::JobFinished,
        JobState::JobFailed,
    ] {
        assert_eq!(asked(state), LeaderCleanup::Done);
    }
    assert_eq!(Recovering::cleanup_leader(None), LeaderCleanup::Done);
    assert_eq!(Recovering::cleanup_leader(Some(None)), LeaderCleanup::Done);

    let expected = JobState::JobStopped;
    assert_eq!(
        clean(
            CleanupStage::PollingLeader,
            CleanupEvent::LeaderPolled(Some(Some(JobState::JobRunning)))
        ),
        CleanupStep::Go(CleanupStage::StoppingLeader { expected })
    );
    assert_eq!(
        clean(CleanupStage::StoppingLeader { expected }, CleanupEvent::LeaderStopped(Ok(()))),
        CleanupStep::Go(CleanupStage::AwaitingLeader { expected })
    );
    assert_eq!(
        clean(
            CleanupStage::StoppingLeader { expected },
            CleanupEvent::LeaderStopped(Err("x".to_string()))
        ),
        CleanupStep::Go(CleanupStage::TearingDown)
    );
    assert_eq!(
        clean(CleanupStage::AwaitingLeader { expected }, CleanupEvent::LeaderAwaited),
        CleanupStep::Go(CleanupStage::TearingDown)
    );
    assert_eq!(
        clean(CleanupStage::PollingLeader, CleanupEvent::LeaderPolled(None)),
        CleanupStep::Go(CleanupStage::TearingDown)
    );
}

#[test]
fn a_cleanup_begins_with_the_half_that_was_set_up() {
    assert_eq!(Recovering::cleanup_of(true, false), Cleanup::Controller);
    assert_eq!(Recovering::cleanup_of(false, true), Cleanup::Leader);
    assert_eq!(Recovering::cleanup_of(false, false), Cleanup::Nothing);
    assert_eq!(Recovering::cleanup_job_controller(true), ControllerCleanup::Done);
    assert_eq!(Recovering::cleanup_job_controller(false), ControllerCleanup::StopJob);
    let first = |cleanup, finished| {
        let mut status = status(1);
        let stage = CleanupStage::first(cleanup, finished, &mut status);
        (stage, status.leader.is_none())
    };
    assert_eq!(first(Cleanup::Controller, true), (CleanupStage::TearingDown, true));
    assert_eq!(first(Cleanup::Controller, false), (CleanupStage::StoppingController, false));
    assert_eq!(first(Cleanup::Leader, false), (CleanupStage::PollingLeader, false));
    assert_eq!(first(Cleanup::Nothing, false), (CleanupStage::TearingDown, true));
    assert_eq!(Recovering::tear_down_workers(Ok(0)), Ok(WorkerTeardown::Done));
    assert_eq!(Recovering::tear_down_workers(Ok(2)), Ok(WorkerTeardown::StopWorkers));
    assert_eq!(Recovering::tear_down_workers(Err("x".to_string())), Err("x".to_string()));
}

#[test]
fn a_cleaned_up_job_is_compiled_or_rescheduled() {
    assert_eq!(
        Recovering::after_cleanup(Ok(())),
        Ok(Transition::Advance(NextState::Compiling))
    );
    assert_eq!(
        Restarting::after_cleanup(Ok(())),
        Ok(Transition::Advance(NextState::Scheduling(Scheduling {})))
    );
    let refused = || Err(CleanupFailure::Refused(refusal()));
    assert_eq!(Recovering::after_cleanup(refused()), Err(refusal()));
    assert_eq!(Restarting::after_cleanup(refused()), Err(refusal()));
    let failed = || Err(CleanupFailure::Failed("x".to_string()));
    let message = "failed to tear down existing cluster";
    assert_eq!(
        Recovering::after_cleanup(failed()),
        Err(retryable(StateName::Recovering, message, "x".to_string(), 20))
    );
    assert_eq!(
        Restarting::after_cleanup(failed()),
        Err(retryable(StateName::Restarting, message, "x".to_string(), 20))
    );
}

#[test]
fn a_failed_tear_down_is_retried_ten_times() {
    let mut expected = vec![TearDownStep::Retry; 10];
    expected.push(TearDownStep::GiveUp);
    assert_eq!((0..11).map(after_failed_tear_down).collect::<Vec<_>>(), expected);
    assert_eq!(after_failed_tear_down(u64::MAX), TearDownStep::GiveUp);
}
