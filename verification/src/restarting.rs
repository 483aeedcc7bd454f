//! A job that is being restarted.

use crate::lifecycle::intent::ObservedIntent;
use crate::messages::{JobMessage, RunningMessage};
use crate::recovering::CleanupFailure;
use crate::scheduling::Scheduling;
use crate::states::{
    leaves_not_running, retryable, stop_if_desired_non_running, LeavingForStop, NextState,
    StateError, StateName, StopBehavior, Transition,
};
use crate::types::{JobConfig, RestartMode, StopMode};
use vstd::prelude::*;

verus! {

/// A job that is being restarted.
#[derive(Clone, Copy, Debug, PartialEq, Eq, Structural)]
pub struct Restarting {
    pub mode: RestartMode,
}

/// What a turn of a wait for a final checkpoint leaves to be done.
#[derive(Debug, PartialEq, Eq)]
pub enum CheckpointTurn {
    /// Nothing: the job waits on.
    Wait,
    /// The job leaves.
    Leave(Transition),
    /// The job's controller handles its own message.
    Control(RunningMessage),
    /// Nobody expects the message.
    HandOn(JobMessage),
}

/// What the job's controller says about the final checkpoint.
#[derive(Clone, Debug, PartialEq, Eq)]
pub enum FinalCheckpoint {
    /// Whether the checkpoint is done, and whether the job has finished.
    Standing { done: bool, finished: bool },
    /// It could not be asked.
    Unknown(String),
}

/// Where a forced restart starts over.
pub open spec fn forced() -> Transition {
    Transition::Advance(NextState::Restarting(Restarting { mode: RestartMode::force }))
}

/// Where a job goes that is to be placed on workers again.
pub open spec fn rescheduled() -> Transition {
    Transition::Advance(NextState::Scheduling(Scheduling {  }))
}

/// What the job's controller made of its own message during a wait for a final checkpoint.
pub(crate) fn message_handled(state: StateName, outcome: Result<(), String>) -> (r: Result<
    (),
    StateError,
>)
    ensures
        match outcome {
            Ok(()) => r is Ok,
            Err(source) => r matches Err(e) && e.retryable_with(
                state,
                "failed while waiting for job finish"@,
                source@,
                10,
            ),
        },
{
    match outcome {
        Ok(()) => Ok(()),
        Err(source) => Err(retryable(state, "failed while waiting for job finish", source, 10)),
    }
}

impl Restarting {
    pub fn name(&self) -> (r: &'static str)
        ensures
            r@ == StateName::Restarting.name(),
    {
        StateName::Restarting.as_str()
    }

    /// Leaves if a stop is asked for.
    pub fn leave_for_stop(self, config: &JobConfig) -> (r: LeavingForStop<Self>)
        ensures
            r == (match crate::states::stop_of_not_running(config.stop_mode) {
                Some(stop) => LeavingForStop::Leaves(stop),
                None => LeavingForStop::Stays(self),
            }),
    {
        leaves_not_running(self, config)
    }

    /// What asking for the final checkpoint of a safe restart came to.
    fn checkpoint_asked(outcome: Result<bool, String>) -> (r: Result<(), StateError>)
        ensures
            match outcome {
                Ok(_) => r is Ok,
                Err(source) => r matches Err(e) && e.retryable_with(
                    StateName::Restarting,
                    "failed to initiate final checkpoint"@,
                    source@,
                    10,
                ),
            },
    {
        match outcome {
            Ok(_) => Ok(()),
            Err(source) => Err(
                retryable(
                    StateName::Restarting,
                    "failed to initiate final checkpoint",
                    source,
                    10,
                ),
            ),
        }
    }

    /// What reading the job's writer means: a stop that now stands leaves, and an adopted
    /// configuration that asks for a forced restart starts over.
    fn on_intent(config: &JobConfig, observed: Result<ObservedIntent, StateError>) -> (r: Result<
        CheckpointTurn,
        StateError,
    >)
        ensures
            match observed {
                Err(refusal) => r == Err::<CheckpointTurn, _>(refusal),
                Ok(ObservedIntent::Stop) => match crate::states::stop_of_not_running(
                    config.stop_mode,
                ) {
                    Some(stop) => r == Ok::<_, StateError>(CheckpointTurn::Leave(stop)),
                    None => r == Ok::<_, StateError>(CheckpointTurn::Wait),
                },
                Ok(ObservedIntent::Adopted(_)) => r == Ok::<_, StateError>(
                    if config.restart_mode == RestartMode::force {
                        CheckpointTurn::Leave(forced())
                    } else {
                        CheckpointTurn::Wait
                    },
                ),
                Ok(ObservedIntent::Continue) => r == Ok::<_, StateError>(CheckpointTurn::Wait),
            },
    {
        match observed {
            Err(refusal) => Err(refusal),
            Ok(ObservedIntent::Stop) => match stop_if_desired_non_running(config) {
                Some(stop) => Ok(CheckpointTurn::Leave(stop)),
                None => Ok(CheckpointTurn::Wait),
            },
            Ok(ObservedIntent::Adopted(_)) => {
                if config.restart_mode == RestartMode::force {
                    return Ok(
                        CheckpointTurn::Leave(
                            Transition::Advance(
                                NextState::Restarting(Restarting { mode: RestartMode::force }),
                            ),
                        ),
                    );
                }
                Ok(CheckpointTurn::Wait)
            },
            Ok(ObservedIntent::Continue) => Ok(CheckpointTurn::Wait),
        }
    }

    /// What the final checkpoint's standing means: the job is rescheduled once it is done and the
    /// job has finished.
    fn on_checkpoint(checkpoint: FinalCheckpoint) -> (r: Result<CheckpointTurn, StateError>)
        ensures
            match checkpoint {
                FinalCheckpoint::Standing { done, finished } => r == Ok::<_, StateError>(
                    if done && finished {
                        CheckpointTurn::Leave(rescheduled())
                    } else {
                        CheckpointTurn::Wait
                    },
                ),
                FinalCheckpoint::Unknown(source) => r matches Err(e) && e.retryable_with(
                    StateName::Restarting,
                    "failed while monitoring final checkpoint"@,
                    source@,
                    10,
                ),
            },
    {
        match checkpoint {
            FinalCheckpoint::Standing { done, finished } => {
                if done && finished {
                    return Ok(
                        CheckpointTurn::Leave(
                            Transition::Advance(NextState::Scheduling(Scheduling {  })),
                        ),
                    );
                }
                Ok(CheckpointTurn::Wait)
            },
            FinalCheckpoint::Unknown(source) => Err(
                retryable(
                    StateName::Restarting,
                    "failed while monitoring final checkpoint",
                    source,
                    10,
                ),
            ),
        }
    }

    /// What a message means. A configuration that may not be carried on with fails; one that asks
    /// for a forced restart starts over, even where it asks for a stop too.
    fn on_message(msg: JobMessage, checked: Result<(), StateError>) -> (r: Result<
        CheckpointTurn,
        StateError,
    >)
        ensures
            match msg {
                JobMessage::RunningMessage(m) => r == Ok::<_, StateError>(
                    CheckpointTurn::Control(m),
                ),
                JobMessage::ConfigUpdate(c) => match checked {
                    Err(e) => r == Err::<CheckpointTurn, _>(e),
                    Ok(()) => if c.restart_mode == RestartMode::force {
                        r == Ok::<_, StateError>(CheckpointTurn::Leave(forced()))
                    } else {
                        match crate::states::stop_of_not_running(c.stop_mode) {
                            Some(stop) => r == Ok::<_, StateError>(CheckpointTurn::Leave(stop)),
                            None => r == Ok::<_, StateError>(CheckpointTurn::Wait),
                        }
                    },
                },
                other => r == Ok::<_, StateError>(CheckpointTurn::HandOn(other)),
            },
    {
        match msg {
            JobMessage::RunningMessage(m) => Ok(CheckpointTurn::Control(m)),
            JobMessage::ConfigUpdate(c) => {
                if let Err(e) = checked {
                    return Err(e);
                }
                if c.restart_mode == RestartMode::force {
                    return Ok(
                        CheckpointTurn::Leave(
                            Transition::Advance(
                                NextState::Restarting(Restarting { mode: RestartMode::force }),
                            ),
                        ),
                    );
                }
                match stop_if_desired_non_running(&c) {
                    Some(stop) => Ok(CheckpointTurn::Leave(stop)),
                    None => Ok(CheckpointTurn::Wait),
                }
            },
            msg => Ok(CheckpointTurn::HandOn(msg)),
        }
    }

    /// What tearing the cluster down for a forced restart came to.
    pub fn after_cleanup(outcome: Result<(), CleanupFailure>) -> (r: Result<Transition, StateError>)
        ensures
            match outcome {
                Ok(()) => r == Ok::<_, StateError>(rescheduled()),
                Err(CleanupFailure::Refused(refusal)) => r == Err::<Transition, _>(refusal),
                Err(CleanupFailure::Failed(source)) => r matches Err(e) && e.retryable_with(
                    StateName::Restarting,
                    "failed to tear down existing cluster"@,
                    source@,
                    20,
                ),
            },
    {
        match outcome {
            Ok(()) => Ok(Transition::Advance(NextState::Scheduling(Scheduling {  }))),
            Err(CleanupFailure::Refused(refusal)) => Err(refusal),
            Err(CleanupFailure::Failed(source)) => Err(
                retryable(
                    StateName::Restarting,
                    "failed to tear down existing cluster",
                    source,
                    20,
                ),
            ),
        }
    }
}

/// Where a safe restart or a rescale stands, and so what it does next.
#[derive(Debug, PartialEq, Eq)]
pub enum CheckpointStage {
    /// The final checkpoint is asked for.
    AskingCheckpoint,
    /// The job's writer is read.
    ReadingIntent,
    /// The job's controller is asked about the final checkpoint.
    MonitoringCheckpoint,
    /// The job waits, for a message or for its writer.
    Waiting,
    /// The job's controller handles its own message.
    Controlling(RunningMessage),
    /// Nobody expects the message.
    HandingOn(JobMessage),
}

/// What came of a stage.
#[derive(Debug)]
pub enum CheckpointEvent {
    /// Whether a checkpoint was started.
    Asked(Result<bool, String>),
    Intent(Result<ObservedIntent, StateError>),
    Checkpoint(FinalCheckpoint),
    Woken,
    /// A message, and whether a configuration it holds may be carried on with.
    Message(JobMessage, Result<(), StateError>),
    Controlled(Result<(), String>),
    Handled(Result<(), StateError>),
}

/// What follows a stage.
#[derive(Debug, PartialEq, Eq)]
pub enum CheckpointStep {
    Go(CheckpointStage),
    End(Result<Transition, StateError>),
}

impl CheckpointStage {
    /// Whether `event` is one that can come of this stage.
    pub open spec fn awaits(self, event: CheckpointEvent) -> bool {
        match self {
            CheckpointStage::AskingCheckpoint => event is Asked,
            CheckpointStage::ReadingIntent => event is Intent,
            CheckpointStage::MonitoringCheckpoint => event is Checkpoint,
            CheckpointStage::Waiting => event is Woken || event is Message,
            CheckpointStage::Controlling(_) => event is Controlled,
            CheckpointStage::HandingOn(_) => event is Handled,
        }
    }
}

/// Whether `step` is what follows a turn, where `waited` is the stage that follows one with nothing
/// to do.
pub open spec fn turned(
    turn: Result<CheckpointTurn, StateError>,
    waited: CheckpointStage,
    step: CheckpointStep,
) -> bool {
    match turn {
        Err(e) => step == CheckpointStep::End(Err(e)),
        Ok(CheckpointTurn::Wait) => step == CheckpointStep::Go(waited),
        Ok(CheckpointTurn::Leave(transition)) => step == CheckpointStep::End(Ok(transition)),
        Ok(CheckpointTurn::Control(m)) => step == CheckpointStep::Go(
            CheckpointStage::Controlling(m),
        ),
        Ok(CheckpointTurn::HandOn(msg)) => step == CheckpointStep::Go(
            CheckpointStage::HandingOn(msg),
        ),
    }
}

/// The step that follows a turn.
pub(crate) fn follow(turn: Result<CheckpointTurn, StateError>, waited: CheckpointStage) -> (r:
    CheckpointStep)
    ensures
        turned(turn, waited, r),
{
    match turn {
        Err(e) => CheckpointStep::End(Err(e)),
        Ok(CheckpointTurn::Wait) => CheckpointStep::Go(waited),
        Ok(CheckpointTurn::Leave(transition)) => CheckpointStep::End(Ok(transition)),
        Ok(CheckpointTurn::Control(m)) => CheckpointStep::Go(CheckpointStage::Controlling(m)),
        Ok(CheckpointTurn::HandOn(msg)) => CheckpointStep::Go(CheckpointStage::HandingOn(msg)),
    }
}

/// Whether `r` is what follows `stage` on `event` in a safe restart of a job under `config`.
pub open spec fn stepped(
    stage: CheckpointStage,
    event: CheckpointEvent,
    config: JobConfig,
    r: CheckpointStep,
) -> bool {
    match (stage, event) {
        (CheckpointStage::AskingCheckpoint, CheckpointEvent::Asked(outcome)) => {
            match outcome {
                Ok(_) => r == CheckpointStep::Go(CheckpointStage::ReadingIntent),
                Err(source) => r matches CheckpointStep::End(Err(e)) && e.retryable_with(
                    StateName::Restarting,
                    "failed to initiate final checkpoint"@,
                    source@,
                    10,
                ),
            }
        },
        (CheckpointStage::ReadingIntent, CheckpointEvent::Intent(observed)) => {
            match observed {
                Err(refusal) => r == CheckpointStep::End(Err(refusal)),
                Ok(ObservedIntent::Stop) => match crate::states::stop_of_not_running(
                    config.stop_mode,
                ) {
                    Some(stop) => r == CheckpointStep::End(Ok(stop)),
                    None => r == CheckpointStep::Go(CheckpointStage::MonitoringCheckpoint),
                },
                Ok(ObservedIntent::Adopted(_)) => if config.restart_mode
                    == RestartMode::force {
                    r == CheckpointStep::End(Ok(forced()))
                } else {
                    r == CheckpointStep::Go(CheckpointStage::MonitoringCheckpoint)
                },
                Ok(ObservedIntent::Continue) => r == CheckpointStep::Go(
                    CheckpointStage::MonitoringCheckpoint,
                ),
            }
        },
        (CheckpointStage::MonitoringCheckpoint, CheckpointEvent::Checkpoint(checkpoint)) => {
            match checkpoint {
                FinalCheckpoint::Standing { done, finished } => if done && finished {
                    r == CheckpointStep::End(Ok(rescheduled()))
                } else {
                    r == CheckpointStep::Go(CheckpointStage::Waiting)
                },
                FinalCheckpoint::Unknown(source) => r matches CheckpointStep::End(Err(e))
                    && e.retryable_with(
                    StateName::Restarting,
                    "failed while monitoring final checkpoint"@,
                    source@,
                    10,
                ),
            }
        },
        (CheckpointStage::Waiting, CheckpointEvent::Woken) => r == CheckpointStep::Go(
            CheckpointStage::ReadingIntent,
        ),
        (CheckpointStage::Waiting, CheckpointEvent::Message(msg, checked)) => match msg {
            JobMessage::RunningMessage(m) => r == CheckpointStep::Go(
                CheckpointStage::Controlling(m),
            ),
            JobMessage::ConfigUpdate(c) => match checked {
                Err(e) => r == CheckpointStep::End(Err(e)),
                Ok(()) => if c.restart_mode == RestartMode::force {
                    r == CheckpointStep::End(Ok(forced()))
                } else {
                    match crate::states::stop_of_not_running(c.stop_mode) {
                        Some(stop) => r == CheckpointStep::End(Ok(stop)),
                        None => r == CheckpointStep::Go(CheckpointStage::ReadingIntent),
                    }
                },
            },
            other => r == CheckpointStep::Go(CheckpointStage::HandingOn(other)),
        },
        (CheckpointStage::Controlling(_), CheckpointEvent::Controlled(outcome)) => {
            match outcome {
                Ok(()) => r == CheckpointStep::Go(CheckpointStage::ReadingIntent),
                Err(source) => r matches CheckpointStep::End(Err(e)) && e.retryable_with(
                    StateName::Restarting,
                    "failed while waiting for job finish"@,
                    source@,
                    10,
                ),
            }
        },
        (CheckpointStage::HandingOn(_), CheckpointEvent::Handled(outcome)) => match outcome {
            Ok(()) => r == CheckpointStep::Go(CheckpointStage::ReadingIntent),
            Err(e) => r == CheckpointStep::End(Err(e)),
        },
        _ => true,
    }
}

/// What a restart does first.
#[derive(Debug, PartialEq, Eq)]
pub enum RestartEntry {
    /// Take a final checkpoint.
    Checkpoint(CheckpointStage),
    /// Tear the cluster down.
    CleanUp,
}

impl Restarting {
    /// A safe restart asks for a final checkpoint; a forced one tears the cluster down.
    pub fn enter(self) -> (r: RestartEntry)
        ensures
            r == (match self.mode {
                RestartMode::safe => RestartEntry::Checkpoint(CheckpointStage::AskingCheckpoint),
                RestartMode::force => RestartEntry::CleanUp,
            }),
    {
        match self.mode {
            RestartMode::safe => RestartEntry::Checkpoint(CheckpointStage::AskingCheckpoint),
            RestartMode::force => RestartEntry::CleanUp,
        }
    }

    /// One step of a safe restart: the checkpoint is asked for once; then, on every turn, the
    /// writer is read, the checkpoint is looked at, and a message is waited for.
    pub fn next(stage: CheckpointStage, event: CheckpointEvent, config: &JobConfig) -> (r:
        CheckpointStep)
        requires
            stage.awaits(event),
        ensures
            stepped(stage, event, *config, r),
    {
        match (stage, event) {
            (CheckpointStage::AskingCheckpoint, CheckpointEvent::Asked(outcome)) => {
                match Self::checkpoint_asked(outcome) {
                    Err(e) => CheckpointStep::End(Err(e)),
                    Ok(()) => CheckpointStep::Go(CheckpointStage::ReadingIntent),
                }
            },
            (CheckpointStage::ReadingIntent, CheckpointEvent::Intent(observed)) => follow(
                Self::on_intent(config, observed),
                CheckpointStage::MonitoringCheckpoint,
            ),
            (CheckpointStage::MonitoringCheckpoint, CheckpointEvent::Checkpoint(checkpoint)) => {
                follow(Self::on_checkpoint(checkpoint), CheckpointStage::Waiting)
            },
            (CheckpointStage::Waiting, CheckpointEvent::Message(msg, checked)) => follow(
                Self::on_message(msg, checked),
                CheckpointStage::ReadingIntent,
            ),
            (CheckpointStage::Controlling(_), CheckpointEvent::Controlled(outcome)) => {
                match message_handled(StateName::Restarting, outcome) {
                    Err(e) => CheckpointStep::End(Err(e)),
                    Ok(()) => CheckpointStep::Go(CheckpointStage::ReadingIntent),
                }
            },
            (CheckpointStage::HandingOn(_), CheckpointEvent::Handled(Err(e))) => {
                CheckpointStep::End(Err(e))
            },
            _ => CheckpointStep::Go(CheckpointStage::ReadingIntent),
        }
    }
}

/// The job's writer is read before every look at the final checkpoint, and the checkpoint is looked
/// at before every wait: no stop decided during a wait is read on the far side of a reschedule.
pub proof fn the_writer_is_read_before_every_look(
    stage: CheckpointStage,
    event: CheckpointEvent,
    config: JobConfig,
    r: CheckpointStep,
)
    requires
        stage.awaits(event),
        stepped(stage, event, config, r),
    ensures
        r == CheckpointStep::Go(CheckpointStage::MonitoringCheckpoint) ==> stage is ReadingIntent,
        r == CheckpointStep::Go(CheckpointStage::Waiting) ==> stage is MonitoringCheckpoint,
        r == CheckpointStep::End(Ok(rescheduled())) ==> stage is MonitoringCheckpoint,
        r != CheckpointStep::Go(CheckpointStage::AskingCheckpoint),
{
}

/// A forced restart is asked for with the same effect whether the configuration that asks for it
/// was adopted or a message brought it, where it may be carried on with.
pub proof fn an_escalation_is_answered_alike_by_either_route(
    superseded: Box<JobConfig>,
    updated: JobConfig,
    config: JobConfig,
    adopted: CheckpointStep,
    brought: CheckpointStep,
)
    requires
        updated.restart_mode == RestartMode::force,
        stepped(
            CheckpointStage::ReadingIntent,
            CheckpointEvent::Intent(Ok(ObservedIntent::Adopted(superseded))),
            updated,
            adopted,
        ),
        stepped(
            CheckpointStage::Waiting,
            CheckpointEvent::Message(JobMessage::ConfigUpdate(updated), Ok(())),
            config,
            brought,
        ),
    ensures
        adopted == brought,
        adopted == CheckpointStep::End(Ok(forced())),
{
}

/// A safe restart hands its job to scheduling only once the final checkpoint is done and the job
/// has finished, and then it does: a job that still runs, or whose checkpoint is still being taken,
/// is never scheduled a second time.
pub proof fn a_safe_restart_reschedules_only_a_finished_job(
    stage: CheckpointStage,
    event: CheckpointEvent,
    config: &JobConfig,
    r: CheckpointStep,
)
    requires
        stage.awaits(event),
        call_ensures(Restarting::next, (stage, event, config), r),
    ensures
        (r matches CheckpointStep::End(Ok(Transition::Advance(NextState::Scheduling(_))))) <==> event
            == CheckpointEvent::Checkpoint(
            FinalCheckpoint::Standing { done: true, finished: true },
        ),
        stage is MonitoringCheckpoint && event->Checkpoint_0 is Standing ==> (r
            == CheckpointStep::Go(CheckpointStage::Waiting) <==> !(event->Checkpoint_0->done
            && event->Checkpoint_0->finished)),
{
}

/// No message is lost to a safe restart and none is made up: the job's controller gets exactly the
/// reports that are for it, and whatever nobody expects is handed on as it came.
pub proof fn a_safe_restart_passes_every_message_on(
    stage: CheckpointStage,
    event: CheckpointEvent,
    config: &JobConfig,
    r: CheckpointStep,
)
    requires
        stage.awaits(event),
        call_ensures(Restarting::next, (stage, event, config), r),
    ensures
        forall|m: RunningMessage| #[trigger]
            leaves_to_controller(r, m) <==> (event matches CheckpointEvent::Message(
                JobMessage::RunningMessage(told),
                _,
            ) && told == m),
        forall|msg: JobMessage| #[trigger]
            leaves_to_others(r, msg) <==> (event matches CheckpointEvent::Message(told, _) && told == msg
                && !(told is RunningMessage) && !(told is ConfigUpdate)),
{
}

/// Whether a step leaves `m` to the job's controller.
pub open spec fn leaves_to_controller(r: CheckpointStep, m: RunningMessage) -> bool {
    r == CheckpointStep::Go(CheckpointStage::Controlling(m))
}

/// Whether a step leaves `msg` to whoever expects it.
pub open spec fn leaves_to_others(r: CheckpointStep, msg: JobMessage) -> bool {
    r == CheckpointStep::Go(CheckpointStage::HandingOn(msg))
}

/// A safe restart becomes a forced one exactly where a configuration that may be carried on with
/// asks for that, and never a safe one again.
pub proof fn only_a_configuration_escalates_a_restart(
    stage: CheckpointStage,
    event: CheckpointEvent,
    config: &JobConfig,
    r: CheckpointStep,
)
    requires
        stage.awaits(event),
        call_ensures(Restarting::next, (stage, event, config), r),
    ensures
        r matches CheckpointStep::End(Ok(Transition::Advance(NextState::Restarting(to)))) ==> to.mode
            == RestartMode::force,
        (r matches CheckpointStep::End(Ok(Transition::Advance(NextState::Restarting(_))))) <==> ((
        event matches CheckpointEvent::Intent(Ok(ObservedIntent::Adopted(_)))
            && config.restart_mode == RestartMode::force) || (event matches CheckpointEvent::Message(
            JobMessage::ConfigUpdate(c),
            Ok(_),
        ) && c.restart_mode == RestartMode::force)),
{
}

/// A safe restart stops exactly where a stop is asked for, by the writer or by a configuration that
/// may be carried on with and escalates nothing. A forced stop takes the workers down; any other is
/// an immediate one, because no further checkpoint is possible.
pub proof fn a_safe_restart_stops_where_it_is_asked_to(
    stage: CheckpointStage,
    event: CheckpointEvent,
    config: &JobConfig,
    r: CheckpointStep,
)
    requires
        stage.awaits(event),
        call_ensures(Restarting::next, (stage, event, config), r),
    ensures
        (r matches CheckpointStep::End(Ok(Transition::Advance(NextState::Stopping { .. })))) <==> ((
        event == CheckpointEvent::Intent(Ok(ObservedIntent::Stop)) && config.stop_mode
            != StopMode::none) || (event matches CheckpointEvent::Message(
            JobMessage::ConfigUpdate(c),
            Ok(_),
        ) && c.restart_mode != RestartMode::force && c.stop_mode != StopMode::none)),
        r matches CheckpointStep::End(Ok(Transition::Advance(NextState::Stopping { stop_mode }))) ==> {
            let asked = match event {
                CheckpointEvent::Message(JobMessage::ConfigUpdate(c), _) => c.stop_mode,
                _ => config.stop_mode,
            };
            stop_mode == (if asked == StopMode::force {
                StopBehavior::StopWorkers
            } else {
                StopBehavior::StopJobImmediate
            })
        },
        r matches CheckpointStep::End(Ok(left)) ==> left is Advance && (left->Advance_0 is Stopping
            || left->Advance_0 is Restarting || left->Advance_0 is Scheduling),
{
}

/// A safe restart fails exactly where something failed, and says what: a refusal, or an error of the
/// job's own handling, is passed on as it is, and what the job's controller could not do is retried
/// with the reason it gave.
pub proof fn a_safe_restart_fails_only_for_a_failure(
    stage: CheckpointStage,
    event: CheckpointEvent,
    config: &JobConfig,
    r: CheckpointStep,
)
    requires
        stage.awaits(event),
        call_ensures(Restarting::next, (stage, event, config), r),
    ensures
        (r matches CheckpointStep::End(Err(_))) <==> (match event {
            CheckpointEvent::Asked(outcome) => outcome is Err,
            CheckpointEvent::Intent(observed) => observed is Err,
            CheckpointEvent::Checkpoint(standing) => standing is Unknown,
            CheckpointEvent::Woken => false,
            CheckpointEvent::Message(msg, checked) => msg is ConfigUpdate && checked is Err,
            CheckpointEvent::Controlled(outcome) => outcome is Err,
            CheckpointEvent::Handled(outcome) => outcome is Err,
        }),
        r matches CheckpointStep::End(Err(e)) ==> match event {
            CheckpointEvent::Intent(Err(refusal)) => e == refusal,
            CheckpointEvent::Message(_, Err(refusal)) => e == refusal,
            CheckpointEvent::Handled(Err(failure)) => e == failure,
            _ => e matches StateError::RetryableError { state, source, retries, .. } && state
                == StateName::Restarting && retries == 10 && source@ == (match event {
                CheckpointEvent::Asked(Err(told)) => told@,
                CheckpointEvent::Checkpoint(FinalCheckpoint::Unknown(told)) => told@,
                CheckpointEvent::Controlled(Err(told)) => told@,
                _ => source@,
            }),
        },
{
}

/// A restart takes a final checkpoint first unless it was forced, and a forced one reaches
/// scheduling only over a cluster that was torn down.
pub proof fn only_a_forced_restart_skips_the_checkpoint(
    restarting: Restarting,
    entered: RestartEntry,
    outcome: Result<(), CleanupFailure>,
    left: Result<Transition, StateError>,
)
    requires
        call_ensures(Restarting::enter, (restarting,), entered),
        call_ensures(Restarting::after_cleanup, (outcome,), left),
    ensures
        entered is CleanUp <==> restarting.mode == RestartMode::force,
        entered is Checkpoint ==> entered->Checkpoint_0 is AskingCheckpoint,
        left is Ok <==> outcome is Ok,
        left matches Ok(to) ==> to is Advance && to->Advance_0 is Scheduling,
        (outcome matches Err(CleanupFailure::Refused(refusal)) ==> left == Err::<Transition, _>(
            refusal,
        )),
        (outcome matches Err(CleanupFailure::Failed(told)) ==> (left matches Err(
            StateError::RetryableError { state, source, retries, .. },
        ) && state == StateName::Restarting && source@ == told@ && retries == 20)),
{
}

} // verus!
