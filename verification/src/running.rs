//! A job whose program runs.

use crate::job::JobStatus;
use crate::lifecycle::intent::ObservedIntent;
use crate::messages::{JobMessage, RunningMessage, TaskFailure};
use crate::recovering::Recovering;
use crate::rescaling::Rescaling;
use crate::restarting::Restarting;
use crate::scheduling::context::StatusPublication;
use crate::states::{
    leaves_running, retryable, stop_if_desired_running, ErrorDomain, LeavingForStop, NextState,
    StateError, StateName, StopBehavior, Transition,
};
use crate::types::{JobConfig, RestartMode, StopMode};
use vstd::prelude::*;

verus! {

/// A job whose program runs.
#[derive(Clone, Copy, Debug, PartialEq, Eq, Structural)]
pub struct Running {}

/// What a new configuration asks of a running job.
#[derive(Clone, Copy, Debug, PartialEq, Eq, Structural)]
pub enum RunningConfigAction {
    Restart(RestartMode),
    Rescale,
    /// The job goes on under it.
    Apply,
}

/// What became of a new configuration.
#[derive(Debug, PartialEq, Eq)]
enum ConfigApplied {
    /// The job leaves for it.
    Leaves(Transition),
    /// The job's controller is to be given it, and the job goes on.
    Applied(JobConfig),
}

/// What a turn of a running job leaves to be done.
#[derive(Debug, PartialEq, Eq)]
enum RunningTurn {
    /// Nothing: the job waits on.
    Wait,
    /// The job leaves.
    Leave(Transition),
    /// What the second configuration asks of a job under the first is to be decided.
    Decide { superseded: JobConfig, updated: JobConfig },
    /// The job's controller handles its own message.
    Control(RunningMessage),
    /// The message is the job's to handle.
    HandOn(JobMessage),
}

/// How far the job's controller says the job has come.
#[derive(Debug, PartialEq, Eq)]
pub enum ControllerProgress {
    Continue,
    Finishing,
    TaskFailed(TaskFailure),
}

/// What the controller's progress means.
#[derive(Debug, PartialEq, Eq)]
enum ProgressTurn {
    Wait,
    Leave(Transition),
    /// The failed task decides where the job goes.
    TaskFailed(TaskFailure),
}

impl Running {
    pub fn name(&self) -> (r: &'static str)
        ensures
            r@ == StateName::Running.name(),
    {
        StateName::Running.as_str()
    }

    /// Leaves if a stop is asked for.
    pub fn leave_for_stop(self, config: &JobConfig) -> (r: LeavingForStop<Self>)
        ensures
            r == (match crate::states::stop_of_running(config.stop_mode) {
                Some(stop) => LeavingForStop::Leaves(stop),
                None => LeavingForStop::Stays(self),
            }),
    {
        leaves_running(self, config)
    }

    /// The first look at the job's configuration.
    pub fn enter(config: &JobConfig) -> (r: Option<Transition>)
        ensures
            r == crate::states::stop_of_running(config.stop_mode),
    {
        stop_if_desired_running(config)
    }

    /// What reading the job's writer means: a stop that now stands leaves, and an adopted
    /// configuration is decided on against the one it superseded.
    fn on_intent(config: &JobConfig, observed: Result<ObservedIntent, StateError>) -> (r: Result<
        RunningTurn,
        StateError,
    >)
        ensures
            match observed {
                Err(refusal) => r == Err::<RunningTurn, _>(refusal),
                Ok(ObservedIntent::Stop) => match crate::states::stop_of_running(config.stop_mode) {
                    Some(stop) => r == Ok::<_, StateError>(RunningTurn::Leave(stop)),
                    None => r == Ok::<_, StateError>(RunningTurn::Wait),
                },
                Ok(ObservedIntent::Adopted(before)) => {
                    r matches Ok(RunningTurn::Decide { superseded, updated }) && superseded
                        == *before && updated@ == config@
                },
                Ok(ObservedIntent::Continue) => r == Ok::<_, StateError>(RunningTurn::Wait),
            },
    {
        match observed {
            Err(refusal) => Err(refusal),
            Ok(ObservedIntent::Stop) => match stop_if_desired_running(config) {
                Some(stop) => Ok(RunningTurn::Leave(stop)),
                None => Ok(RunningTurn::Wait),
            },
            Ok(ObservedIntent::Adopted(before)) => Ok(
                RunningTurn::Decide { superseded: *before, updated: config.copied() },
            ),
            Ok(ObservedIntent::Continue) => Ok(RunningTurn::Wait),
        }
    }

    /// What a message means. A configuration that asks for a stop leaves before anything else is
    /// asked of it.
    fn on_message(config: &JobConfig, msg: JobMessage) -> (r: RunningTurn)
        ensures
            match msg {
                JobMessage::ConfigUpdate(c) => match crate::states::stop_of_running(c.stop_mode) {
                    Some(stop) => r == RunningTurn::Leave(stop),
                    None => r matches RunningTurn::Decide { superseded, updated } && superseded@
                        == config@ && updated == c,
                },
                JobMessage::RunningMessage(m) => r == RunningTurn::Control(m),
                other => r == RunningTurn::HandOn(other),
            },
    {
        match msg {
            JobMessage::ConfigUpdate(c) => {
                if let Some(stop) = stop_if_desired_running(&c) {
                    return RunningTurn::Leave(stop);
                }
                RunningTurn::Decide { superseded: config.copied(), updated: c }
            },
            JobMessage::RunningMessage(m) => RunningTurn::Control(m),
            msg => RunningTurn::HandOn(msg),
        }
    }

    /// What the job's controller made of its own message.
    fn message_handled(outcome: Result<(), String>) -> (r: Result<(), StateError>)
        ensures
            match outcome {
                Ok(()) => r is Ok,
                Err(source) => r matches Err(e) && e.retryable_with(
                    StateName::Running,
                    "job encountered an error"@,
                    source@,
                    10,
                ),
            },
    {
        match outcome {
            Ok(()) => Ok(()),
            Err(source) => Err(
                retryable(StateName::Running, "job encountered an error", source, 10),
            ),
        }
    }

    /// Whether the job has run for long enough, since it started running, that its earlier
    /// restarts no longer count.
    fn forgives_restarts(status: &JobStatus, ran_for: u64, healthy_duration: u64) -> (r: bool)
        ensures
            r == (status.restarts > 0 && ran_for > healthy_duration),
    {
        status.restarts > 0 && ran_for > healthy_duration
    }

    /// Forgets the job's restarts, and says how many there were.
    fn forgive_restarts(status: &mut JobStatus) -> (r: i32)
        ensures
            r == old(status).restarts,
            *final(status) == restarts_set(*old(status), 0),
    {
        let restarts: i32 = status.restarts;
        status.restarts = 0;
        restarts
    }

    /// What publishing that came to. A controller that lost the job stops; where it could not be
    /// published the restarts count again.
    fn restarts_forgiven(
        status: &mut JobStatus,
        restarts: i32,
        outcome: Result<StatusPublication, String>,
    ) -> (r: Option<Transition>)
        ensures
            match outcome {
                Ok(StatusPublication::Published) => r is None && *final(status) == *old(status),
                Ok(StatusPublication::Superseded(_)) => r == Some(Transition::Stop)
                    && *final(status) == *old(status),
                Err(_) => r is None && *final(status) == restarts_set(*old(status), restarts),
            },
    {
        match outcome {
            Ok(StatusPublication::Published) => None,
            Ok(StatusPublication::Superseded(_)) => Some(Transition::Stop),
            Err(_) => {
                status.restarts = restarts;
                None
            },
        }
    }

    /// What the controller's progress means. A controller that fails sends the job to recover.
    fn on_progress(progress: Result<ControllerProgress, String>) -> (r: ProgressTurn)
        ensures
            match progress {
                Ok(ControllerProgress::Continue) => r == ProgressTurn::Wait,
                Ok(ControllerProgress::Finishing) => r == ProgressTurn::Leave(
                    Transition::Advance(NextState::Finishing),
                ),
                Ok(ControllerProgress::TaskFailed(event)) => r == ProgressTurn::TaskFailed(event),
                Err(source) => {
                    r matches ProgressTurn::Leave(
                        Transition::Advance(NextState::Recovering(recovering)),
                    ) && recovering.source == source && recovering.reason@
                        == "error while running"@ && recovering.domain == ErrorDomain::Internal
                },
            },
    {
        match progress {
            Ok(ControllerProgress::Continue) => ProgressTurn::Wait,
            Ok(ControllerProgress::Finishing) => ProgressTurn::Leave(
                Transition::Advance(NextState::Finishing),
            ),
            Ok(ControllerProgress::TaskFailed(event)) => ProgressTurn::TaskFailed(event),
            Err(source) => ProgressTurn::Leave(
                Transition::Advance(
                    NextState::Recovering(
                        Recovering {
                            source,
                            reason: "error while running".to_owned(),
                            domain: ErrorDomain::Internal,
                        },
                    ),
                ),
            ),
        }
    }

    /// How long the job may still run, where it is given a time to live. Both times are in
    /// microseconds.
    pub fn ttl_end(config: &JobConfig, ran_for: u64) -> (r: Option<u64>)
        ensures
            r == (match config.ttl {
                None => None::<u64>,
                Some(ttl) => Some(
                    if ran_for < ttl {
                        (ttl - ran_for) as u64
                    } else {
                        0
                    },
                ),
            }),
    {
        match config.ttl {
            None => None,
            Some(ttl) => Some(
                if ran_for < ttl {
                    ttl - ran_for
                } else {
                    0
                },
            ),
        }
    }

    /// The job's time to live is over: it stops at once.
    fn ttl_expired() -> (r: Transition)
        ensures
            r == Transition::Advance(
                NextState::Stopping { stop_mode: StopBehavior::StopJobImmediate },
            ),
    {
        Transition::Advance(NextState::Stopping { stop_mode: StopBehavior::StopJobImmediate })
    }
}

/// A status that counts this many restarts.
pub open spec fn restarts_set(status: JobStatus, restarts: i32) -> JobStatus {
    JobStatus { restarts, ..status }
}

/// Does what a new configuration asks of a running job.
fn apply_new_config(
    action: Result<RunningConfigAction, StateError>,
    updated: JobConfig,
) -> (r: Result<ConfigApplied, StateError>)
    ensures
        match action {
            Err(e) => r == Err::<ConfigApplied, _>(e),
            Ok(RunningConfigAction::Restart(mode)) => r == Ok::<_, StateError>(
                ConfigApplied::Leaves(
                    Transition::Advance(NextState::Restarting(Restarting { mode })),
                ),
            ),
            Ok(RunningConfigAction::Rescale) => r == Ok::<_, StateError>(
                ConfigApplied::Leaves(Transition::Advance(NextState::Rescaling(Rescaling {  }))),
            ),
            Ok(RunningConfigAction::Apply) => r == Ok::<_, StateError>(
                ConfigApplied::Applied(updated),
            ),
        },
{
    match action {
        Err(e) => Err(e),
        Ok(RunningConfigAction::Restart(mode)) => Ok(
            ConfigApplied::Leaves(Transition::Advance(NextState::Restarting(Restarting { mode }))),
        ),
        Ok(RunningConfigAction::Rescale) => Ok(
            ConfigApplied::Leaves(Transition::Advance(NextState::Rescaling(Rescaling {  }))),
        ),
        Ok(RunningConfigAction::Apply) => Ok(ConfigApplied::Applied(updated)),
    }
}

/// Where the task of a running job stands, and so what it does next.
#[derive(Debug, PartialEq, Eq)]
pub enum RunningStage {
    /// The job's writer is read.
    ReadingIntent,
    /// What a new configuration asks of the job is decided. An adopted one is followed by the
    /// wait, one that came as a message by the next turn.
    Deciding { superseded: JobConfig, updated: JobConfig, adopted: bool },
    /// The job waits: for a message, its writer, the next tick, or the end of its time to live.
    Waiting,
    /// The job's controller handles its own message.
    Controlling(RunningMessage),
    /// The job handles a message.
    HandingOn(JobMessage),
    /// The job's status is published with its restarts forgiven; so many there were.
    Forgiving { restarts: i32 },
    /// The job's controller is asked how far the job has come.
    AskingProgress,
}

/// What came of a stage.
#[derive(Debug)]
pub enum RunningEvent {
    Intent(Result<ObservedIntent, StateError>),
    Decided(Result<RunningConfigAction, StateError>),
    /// The writer may have something to say, or the job's standing was logged.
    Woken,
    Message(JobMessage),
    /// Time passed; the job has been running for so long, and counts as healthy after so long.
    Tick { ran_for: u64, healthy_duration: u64 },
    TtlExpired,
    Controlled(Result<(), String>),
    Handled(Result<(), StateError>),
    Published(Result<StatusPublication, String>),
    Progress(Result<ControllerProgress, String>),
}

/// What follows a stage.
#[derive(Debug, PartialEq, Eq)]
pub enum RunningStep {
    /// The next stage. A configuration is to be given to the job's controller first.
    Go { stage: RunningStage, update: Option<JobConfig> },
    /// The job leaves.
    End(Result<Transition, StateError>),
    /// The failed task decides where the job goes.
    TaskFailed(TaskFailure),
}

impl RunningStage {
    /// Whether `event` is one that can come of this stage.
    pub open spec fn awaits(self, event: RunningEvent) -> bool {
        match self {
            RunningStage::ReadingIntent => event is Intent,
            RunningStage::Deciding { .. } => event is Decided,
            RunningStage::Waiting => event is Woken || event is Message || event is Tick
                || event is TtlExpired,
            RunningStage::Controlling(_) => event is Controlled,
            RunningStage::HandingOn(_) => event is Handled,
            RunningStage::Forgiving { .. } => event is Published,
            RunningStage::AskingProgress => event is Progress,
        }
    }
}

impl RunningStep {
    /// Whether the job goes on in `stage`, with nothing to be done first.
    pub open spec fn goes_on(self, stage: RunningStage) -> bool {
        self == (RunningStep::Go { stage, update: None })
    }

    /// Whether the job leaves for `transition`.
    pub open spec fn leaves_for(self, transition: Transition) -> bool {
        self == RunningStep::End(Ok(transition))
    }

    /// Whether the job's state fails with `e`.
    pub open spec fn fails_with(self, e: StateError) -> bool {
        self == RunningStep::End(Err(e))
    }
}

/// Whether `step` is what follows, given what a turn leaves to be done. `adopted` says whether a
/// configuration to be decided on came from the job's writer.
spec fn turned(turn: RunningTurn, adopted: bool, step: RunningStep) -> bool {
    match turn {
        RunningTurn::Wait => step.goes_on(RunningStage::Waiting),
        RunningTurn::Leave(transition) => step.leaves_for(transition),
        RunningTurn::Decide { superseded, updated } => step.goes_on(
            RunningStage::Deciding { superseded, updated, adopted },
        ),
        RunningTurn::Control(m) => step.goes_on(RunningStage::Controlling(m)),
        RunningTurn::HandOn(msg) => step.goes_on(RunningStage::HandingOn(msg)),
    }
}

/// A job's status after `event` came of `stage`. Restarts are forgiven at a tick, once the job has
/// run for long enough, and count again where that could not be published.
pub open spec fn status_after(stage: RunningStage, event: RunningEvent, before: JobStatus) -> JobStatus {
    match (stage, event) {
        (RunningStage::Waiting, RunningEvent::Tick { ran_for, healthy_duration }) => {
            if before.restarts > 0 && ran_for > healthy_duration {
                restarts_set(before, 0)
            } else {
                before
            }
        },
        (RunningStage::Forgiving { restarts }, RunningEvent::Published(Err(_))) => restarts_set(
            before,
            restarts,
        ),
        _ => before,
    }
}

/// Whether `r` is what follows `stage` on `event`, for a job under `config` whose status was
/// `before`.
pub open spec fn stepped(
    stage: RunningStage,
    event: RunningEvent,
    config: JobConfig,
    before: JobStatus,
    r: RunningStep,
) -> bool {
    match (stage, event) {
        (RunningStage::ReadingIntent, RunningEvent::Intent(Err(refusal))) => r.fails_with(
            refusal,
        ),
        (RunningStage::ReadingIntent, RunningEvent::Intent(Ok(ObservedIntent::Stop))) => {
            match crate::states::stop_of_running(config.stop_mode) {
                Some(stop) => r.leaves_for(stop),
                None => r.goes_on(RunningStage::Waiting),
            }
        },
        (
            RunningStage::ReadingIntent,
            RunningEvent::Intent(Ok(ObservedIntent::Adopted(was))),
        ) => r matches RunningStep::Go {
            stage: RunningStage::Deciding { superseded, updated, adopted },
            update: None,
        } && superseded == *was && updated@ == config@ && adopted,
        (
            RunningStage::ReadingIntent,
            RunningEvent::Intent(Ok(ObservedIntent::Continue)),
        ) => r.goes_on(RunningStage::Waiting),
        (
            RunningStage::Deciding { updated, adopted, .. },
            RunningEvent::Decided(action),
        ) => match action {
            Err(e) => r.fails_with(e),
            Ok(RunningConfigAction::Restart(mode)) => r.leaves_for(
                Transition::Advance(NextState::Restarting(Restarting { mode })),
            ),
            Ok(RunningConfigAction::Rescale) => r.leaves_for(
                Transition::Advance(NextState::Rescaling(Rescaling {  })),
            ),
            Ok(RunningConfigAction::Apply) => r == (RunningStep::Go {
                stage: if adopted {
                    RunningStage::Waiting
                } else {
                    RunningStage::ReadingIntent
                },
                update: Some(updated),
            }),
        },
        (RunningStage::Waiting, RunningEvent::Woken) => r.goes_on(
            RunningStage::ReadingIntent,
        ),
        (RunningStage::Waiting, RunningEvent::Message(JobMessage::ConfigUpdate(c))) => {
            match crate::states::stop_of_running(c.stop_mode) {
                Some(stop) => r.leaves_for(stop),
                None => r matches RunningStep::Go {
                    stage: RunningStage::Deciding { superseded, updated, adopted },
                    update: None,
                } && superseded@ == config@ && updated == c && !adopted,
            }
        },
        (RunningStage::Waiting, RunningEvent::Message(JobMessage::RunningMessage(m))) => {
            r.goes_on(RunningStage::Controlling(m))
        },
        (RunningStage::Waiting, RunningEvent::Message(other)) => r.goes_on(
            RunningStage::HandingOn(other),
        ),
        (RunningStage::Waiting, RunningEvent::Tick { ran_for, healthy_duration }) => {
            if before.restarts > 0 && ran_for > healthy_duration {
                r.goes_on(RunningStage::Forgiving { restarts: before.restarts })
            } else {
                r.goes_on(RunningStage::AskingProgress)
            }
        },
        (RunningStage::Waiting, RunningEvent::TtlExpired) => r.leaves_for(
            Transition::Advance(
                NextState::Stopping { stop_mode: StopBehavior::StopJobImmediate },
            ),
        ),
        (RunningStage::Controlling(_), RunningEvent::Controlled(outcome)) => match outcome {
            Ok(()) => r.goes_on(RunningStage::ReadingIntent),
            Err(source) => r matches RunningStep::End(Err(e)) && e.retryable_with(
                StateName::Running,
                "job encountered an error"@,
                source@,
                10,
            ),
        },
        (RunningStage::HandingOn(_), RunningEvent::Handled(outcome)) => match outcome {
            Ok(()) => r.goes_on(RunningStage::ReadingIntent),
            Err(e) => r.fails_with(e),
        },
        (RunningStage::Forgiving { .. }, RunningEvent::Published(outcome)) => {
            match outcome {
                Ok(StatusPublication::Superseded(_)) => r.leaves_for(Transition::Stop),
                _ => r.goes_on(RunningStage::AskingProgress),
            }
        },
        (RunningStage::AskingProgress, RunningEvent::Progress(progress)) => match progress {
            Ok(ControllerProgress::Continue) => r.goes_on(RunningStage::ReadingIntent),
            Ok(ControllerProgress::Finishing) => r.leaves_for(
                Transition::Advance(NextState::Finishing),
            ),
            Ok(ControllerProgress::TaskFailed(event)) => r == RunningStep::TaskFailed(
                event,
            ),
            Err(source) => r matches RunningStep::End(
                Ok(Transition::Advance(NextState::Recovering(recovering))),
            ) && recovering.source == source && recovering.reason@
                == "error while running"@ && recovering.domain == ErrorDomain::Internal,
        },
        _ => true,
    }
}

impl Running {
    fn turn(turn: RunningTurn, adopted: bool) -> (r: RunningStep)
        ensures
            turned(turn, adopted, r),
    {
        let stage = match turn {
            RunningTurn::Leave(transition) => {
                return RunningStep::End(Ok(transition));
            },
            RunningTurn::Wait => RunningStage::Waiting,
            RunningTurn::Decide { superseded, updated } => RunningStage::Deciding {
                superseded,
                updated,
                adopted,
            },
            RunningTurn::Control(m) => RunningStage::Controlling(m),
            RunningTurn::HandOn(msg) => RunningStage::HandingOn(msg),
        };
        RunningStep::Go { stage, update: None }
    }

    /// One step of a running job: the writer is read at the head of every turn, and each turn ends
    /// with what the wait brought.
    pub fn next(
        stage: RunningStage,
        event: RunningEvent,
        config: &JobConfig,
        status: &mut JobStatus,
    ) -> (r: RunningStep)
        requires
            stage.awaits(event),
        ensures
            stepped(stage, event, *config, *old(status), r),
            *final(status) == status_after(stage, event, *old(status)),
    {
        match (stage, event) {
            (RunningStage::ReadingIntent, RunningEvent::Intent(observed)) => {
                match Self::on_intent(config, observed) {
                    Err(refusal) => RunningStep::End(Err(refusal)),
                    Ok(turn) => Self::turn(turn, true),
                }
            },
            (
                RunningStage::Deciding { superseded: _, updated, adopted },
                RunningEvent::Decided(action),
            ) => match apply_new_config(action, updated) {
                Err(e) => RunningStep::End(Err(e)),
                Ok(ConfigApplied::Leaves(transition)) => RunningStep::End(Ok(transition)),
                Ok(ConfigApplied::Applied(updated)) => {
                    let stage = if adopted {
                        RunningStage::Waiting
                    } else {
                        RunningStage::ReadingIntent
                    };
                    RunningStep::Go { stage, update: Some(updated) }
                },
            },
            (RunningStage::Waiting, RunningEvent::Message(msg)) => Self::turn(
                Self::on_message(config, msg),
                false,
            ),
            (RunningStage::Waiting, RunningEvent::Tick { ran_for, healthy_duration }) => {
                let stage = if Self::forgives_restarts(status, ran_for, healthy_duration) {
                    let restarts: i32 = Self::forgive_restarts(status);
                    RunningStage::Forgiving { restarts }
                } else {
                    RunningStage::AskingProgress
                };
                RunningStep::Go { stage, update: None }
            },
            (RunningStage::Waiting, RunningEvent::TtlExpired) => RunningStep::End(
                Ok(Self::ttl_expired()),
            ),
            (RunningStage::Controlling(_), RunningEvent::Controlled(outcome)) => {
                match Self::message_handled(outcome) {
                    Err(e) => RunningStep::End(Err(e)),
                    Ok(()) => RunningStep::Go { stage: RunningStage::ReadingIntent, update: None },
                }
            },
            (RunningStage::HandingOn(_), RunningEvent::Handled(Err(e))) => RunningStep::End(Err(e)),
            (RunningStage::Forgiving { restarts }, RunningEvent::Published(outcome)) => {
                match Self::restarts_forgiven(status, restarts, outcome) {
                    Some(stop) => RunningStep::End(Ok(stop)),
                    None => RunningStep::Go { stage: RunningStage::AskingProgress, update: None },
                }
            },
            (RunningStage::AskingProgress, RunningEvent::Progress(progress)) => {
                match Self::on_progress(progress) {
                    ProgressTurn::Wait => RunningStep::Go {
                        stage: RunningStage::ReadingIntent,
                        update: None,
                    },
                    ProgressTurn::Leave(transition) => RunningStep::End(Ok(transition)),
                    ProgressTurn::TaskFailed(event) => RunningStep::TaskFailed(event),
                }
            },
            _ => RunningStep::Go { stage: RunningStage::ReadingIntent, update: None },
        }
    }
}

/// A stop means the same whether the job's writer decided it or a message brought it.
pub proof fn a_stop_is_answered_alike_by_either_route(
    config: JobConfig,
    message: JobConfig,
    before: JobStatus,
    decided: RunningStep,
    brought: RunningStep,
)
    requires
        message.stop_mode == config.stop_mode,
        crate::states::stop_of_running(config.stop_mode) is Some,
        stepped(
            RunningStage::ReadingIntent,
            RunningEvent::Intent(Ok(ObservedIntent::Stop)),
            config,
            before,
            decided,
        ),
        stepped(
            RunningStage::Waiting,
            RunningEvent::Message(JobMessage::ConfigUpdate(message)),
            config,
            before,
            brought,
        ),
    ensures
        decided == brought,
        decided is End,
{
}

/// A configuration does the same to the job whether it was adopted or a message brought it: the
/// job leaves for the same state, fails alike, or has its controller given the same configuration.
pub proof fn a_configuration_is_applied_alike_by_either_route(
    superseded: JobConfig,
    updated: JobConfig,
    action: Result<RunningConfigAction, StateError>,
    config: JobConfig,
    before: JobStatus,
    adopted: RunningStep,
    brought: RunningStep,
)
    requires
        stepped(
            RunningStage::Deciding { superseded, updated, adopted: true },
            RunningEvent::Decided(action),
            config,
            before,
            adopted,
        ),
        stepped(
            RunningStage::Deciding { superseded, updated, adopted: false },
            RunningEvent::Decided(action),
            config,
            before,
            brought,
        ),
    ensures
        adopted is End <==> brought is End,
        adopted is End ==> adopted == brought,
        adopted matches RunningStep::Go { update, .. } ==> brought->Go_update == update && update
            == Some(updated),
{
}

/// The job's writer is read before every wait: a wait follows a reading of it, with at most the
/// decision on what that reading adopted in between.
pub proof fn the_writer_is_read_before_every_wait(
    stage: RunningStage,
    event: RunningEvent,
    config: JobConfig,
    before: JobStatus,
    r: RunningStep,
)
    requires
        stage.awaits(event),
        stepped(stage, event, config, before, r),
    ensures
        r matches RunningStep::Go { stage: RunningStage::Waiting, .. } ==> stage is ReadingIntent
            || stage matches RunningStage::Deciding { adopted: true, .. },
        r matches RunningStep::Go { stage: RunningStage::Deciding { adopted: true, .. }, .. } ==> {
            stage is ReadingIntent
        },
{
}

/// Restarts whose forgiveness could not be published are not forgiven: the job's status is what it
/// was before the tick.
pub proof fn unpublished_forgiveness_changes_nothing(
    config: JobConfig,
    before: JobStatus,
    ran_for: u64,
    healthy_duration: u64,
    forgiving: RunningStage,
    error: String,
)
    requires
        forgiving is Forgiving,
        stepped(
            RunningStage::Waiting,
            RunningEvent::Tick { ran_for, healthy_duration },
            config,
            before,
            (RunningStep::Go { stage: forgiving, update: None }),
        ),
    ensures
        status_after(
            forgiving,
            RunningEvent::Published(Err(error)),
            status_after(
                RunningStage::Waiting,
                RunningEvent::Tick { ran_for, healthy_duration },
                before,
            ),
        ) == before,
{
}

/// A job is restarted in the mode that was decided and rescaled where a rescale was, and for nothing
/// else: a running job never leaves for a forced restart where a safe one was decided, nor for
/// either unless one was decided.
pub proof fn a_job_is_restarted_in_the_mode_decided(
    stage: RunningStage,
    event: RunningEvent,
    config: &JobConfig,
    status: &mut JobStatus,
    r: RunningStep,
)
    requires
        stage.awaits(event),
        call_ensures(Running::next, (stage, event, config, status), r),
    ensures
        forall|mode: RestartMode| #[trigger]
            leaves_to_restart(r, mode) <==> event == RunningEvent::Decided(
                Ok(RunningConfigAction::Restart(mode)),
            ),
        (r matches RunningStep::End(Ok(Transition::Advance(NextState::Rescaling(_))))) <==> event
            == RunningEvent::Decided(Ok(RunningConfigAction::Rescale)),
{
}

/// Whether a running job leaves to be restarted in `mode`.
pub open spec fn leaves_to_restart(r: RunningStep, mode: RestartMode) -> bool {
    r matches RunningStep::End(Ok(Transition::Advance(NextState::Restarting(to)))) && to.mode
        == mode
}

/// A restart that was decided for a running job takes a final checkpoint first exactly where a safe
/// one was decided.
pub proof fn a_safe_restart_of_a_running_job_takes_a_checkpoint(
    superseded: JobConfig,
    updated: JobConfig,
    adopted: bool,
    mode: RestartMode,
    config: &JobConfig,
    status: &mut JobStatus,
    r: RunningStep,
    restarting: Restarting,
    entered: crate::restarting::RestartEntry,
)
    requires
        call_ensures(
            Running::next,
            (
                RunningStage::Deciding { superseded, updated, adopted },
                RunningEvent::Decided(Ok(RunningConfigAction::Restart(mode))),
                config,
                status,
            ),
            r,
        ),
        r == RunningStep::End(Ok(Transition::Advance(NextState::Restarting(restarting)))),
        call_ensures(Restarting::enter, (restarting,), entered),
    ensures
        entered is Checkpoint <==> mode == RestartMode::safe,
        entered is CleanUp <==> mode == RestartMode::force,
{
}

/// A configuration is given to the job's controller exactly where it was decided that the job goes
/// on under it, and then it is the very one that was decided on. An adopted one is followed by the
/// wait its turn has yet to do, and one that a message brought by the next turn.
pub proof fn a_controller_is_given_what_was_decided_on(
    stage: RunningStage,
    event: RunningEvent,
    config: &JobConfig,
    status: &mut JobStatus,
    r: RunningStep,
)
    requires
        stage.awaits(event),
        call_ensures(Running::next, (stage, event, config, status), r),
    ensures
        r matches RunningStep::Go { update, .. } ==> (update is Some <==> event
            == RunningEvent::Decided(Ok(RunningConfigAction::Apply))),
        r matches RunningStep::Go { update: Some(given), .. } ==> given == stage->updated,
        r matches RunningStep::Go { stage: following, update: Some(_) } ==> following == (
        if stage->adopted {
            RunningStage::Waiting
        } else {
            RunningStage::ReadingIntent
        }),
        event == RunningEvent::Decided(Ok(RunningConfigAction::Apply)) ==> r is Go,
{
}

/// What is decided on is what was asked: an adopted configuration against the one it superseded, and
/// one that a message brought against the job's own. Nothing else is decided on, and a configuration
/// that asks for a stop never is.
pub proof fn what_is_decided_on_is_what_was_asked(
    stage: RunningStage,
    event: RunningEvent,
    config: &JobConfig,
    status: &mut JobStatus,
    r: RunningStep,
)
    requires
        stage.awaits(event),
        call_ensures(Running::next, (stage, event, config, status), r),
    ensures
        r matches RunningStep::Go {
            stage: RunningStage::Deciding { superseded, updated, adopted },
            ..
        } ==> (if adopted {
            event matches RunningEvent::Intent(Ok(ObservedIntent::Adopted(was))) && superseded
                == *was && updated@ == config@
        } else {
            event matches RunningEvent::Message(JobMessage::ConfigUpdate(c)) && superseded@
                == config@ && updated == c && c.stop_mode == StopMode::none
        }),
        (event matches RunningEvent::Intent(Ok(ObservedIntent::Adopted(_)))) ==> r is Go
            && r->Go_stage is Deciding && r->Go_stage->adopted,
        (event matches RunningEvent::Message(JobMessage::ConfigUpdate(c)) ==> (c.stop_mode
            == StopMode::none ==> r is Go && r->Go_stage is Deciding && !r->Go_stage->adopted)),
{
}

/// A running job stops exactly where a stop is asked for, by its writer or by a configuration that a
/// message brings, where its time to live is over, or where another controller was found to hold it;
/// and it is stopped the way that was asked for.
pub proof fn a_running_job_stops_where_it_is_asked_to(
    stage: RunningStage,
    event: RunningEvent,
    config: &JobConfig,
    status: &mut JobStatus,
    r: RunningStep,
)
    requires
        stage.awaits(event),
        call_ensures(Running::next, (stage, event, config, status), r),
    ensures
        (r is End && r->End_0 is Ok && (r->End_0->Ok_0 == Transition::Advance(
            NextState::CheckpointStopping,
        ) || (r->End_0->Ok_0 is Advance && r->End_0->Ok_0->Advance_0 is Stopping))) <==> (
        event is TtlExpired || (event == RunningEvent::Intent(Ok(ObservedIntent::Stop))
            && config.stop_mode != StopMode::none) || (event matches RunningEvent::Message(
            JobMessage::ConfigUpdate(c),
        ) && c.stop_mode != StopMode::none)),
        event is TtlExpired ==> r == RunningStep::End(
            Ok(
                Transition::Advance(
                    NextState::Stopping { stop_mode: StopBehavior::StopJobImmediate },
                ),
            ),
        ),
        ({
            let asked = match event {
                RunningEvent::Message(JobMessage::ConfigUpdate(c)) => c.stop_mode,
                RunningEvent::Intent(Ok(ObservedIntent::Stop)) => config.stop_mode,
                _ => StopMode::none,
            };
            &&& asked == StopMode::checkpoint ==> r == RunningStep::End(
                Ok(Transition::Advance(NextState::CheckpointStopping)),
            )
            &&& asked == StopMode::graceful ==> r == RunningStep::End(
                Ok(
                    Transition::Advance(
                        NextState::Stopping { stop_mode: StopBehavior::StopJobGraceful },
                    ),
                ),
            )
            &&& asked == StopMode::immediate ==> r == RunningStep::End(
                Ok(
                    Transition::Advance(
                        NextState::Stopping { stop_mode: StopBehavior::StopJobImmediate },
                    ),
                ),
            )
            &&& asked == StopMode::force ==> r == RunningStep::End(
                Ok(
                    Transition::Advance(
                        NextState::Stopping { stop_mode: StopBehavior::StopWorkers },
                    ),
                ),
            )
        }),
        r == RunningStep::End(Ok(Transition::Stop)) <==> (event is Published
            && event->Published_0 is Ok && event->Published_0->Ok_0 is Superseded),
{
}

/// No message is lost to a running job and none is made up: its controller gets exactly the reports
/// that are for it, and any other message that holds no configuration is handed on as it came.
pub proof fn a_running_job_passes_every_message_on(
    stage: RunningStage,
    event: RunningEvent,
    config: &JobConfig,
    status: &mut JobStatus,
    r: RunningStep,
)
    requires
        stage.awaits(event),
        call_ensures(Running::next, (stage, event, config, status), r),
    ensures
        forall|m: RunningMessage| #[trigger]
            gives_to_controller(r, m) <==> event == RunningEvent::Message(
                JobMessage::RunningMessage(m),
            ),
        forall|msg: JobMessage| #[trigger]
            hands_on(r, msg) <==> event == RunningEvent::Message(msg) && !(msg is ConfigUpdate)
                && !(msg is RunningMessage),
{
}

/// Whether a running job's controller is to handle `m`.
pub open spec fn gives_to_controller(r: RunningStep, m: RunningMessage) -> bool {
    r matches RunningStep::Go { stage: RunningStage::Controlling(told), .. } && told == m
}

/// Whether the job is to handle `msg` itself.
pub open spec fn hands_on(r: RunningStep, msg: JobMessage) -> bool {
    r matches RunningStep::Go { stage: RunningStage::HandingOn(told), .. } && told == msg
}

/// A running job finishes exactly where its controller says so, recovers exactly where its
/// controller could not say, with the reason it gave, and leaves a failed task to decide exactly
/// where its controller reports one.
pub proof fn progress_decides_where_a_running_job_goes(
    stage: RunningStage,
    event: RunningEvent,
    config: &JobConfig,
    status: &mut JobStatus,
    r: RunningStep,
)
    requires
        stage.awaits(event),
        call_ensures(Running::next, (stage, event, config, status), r),
    ensures
        r == RunningStep::End(Ok(Transition::Advance(NextState::Finishing))) <==> event
            == RunningEvent::Progress(Ok(ControllerProgress::Finishing)),
        forall|failed: TaskFailure| #[trigger]
            leaves_to_task(r, failed) <==> event == RunningEvent::Progress(
                Ok(ControllerProgress::TaskFailed(failed)),
            ),
        (r is End && r->End_0 is Ok && r->End_0->Ok_0 is Advance
            && r->End_0->Ok_0->Advance_0 is Recovering) <==> (event is Progress
            && event->Progress_0 is Err),
        r matches RunningStep::End(Ok(Transition::Advance(NextState::Recovering(recovering)))) ==> {
            recovering.source == event->Progress_0->Err_0 && recovering.domain
                == ErrorDomain::Internal
        },
        event == RunningEvent::Progress(Ok(ControllerProgress::Continue)) ==> r is Go
            && r->Go_stage is ReadingIntent,
{
}

/// Whether a failed task decides where the job goes.
pub open spec fn leaves_to_task(r: RunningStep, failed: TaskFailure) -> bool {
    r == RunningStep::TaskFailed(failed)
}

/// A running job fails exactly where something failed: a refusal, a decision that could not be made
/// and an error of its own handling are passed on as they are, and what its controller could not
/// handle is retried with the reason it gave.
pub proof fn a_running_job_fails_only_for_a_failure(
    stage: RunningStage,
    event: RunningEvent,
    config: &JobConfig,
    status: &mut JobStatus,
    r: RunningStep,
)
    requires
        stage.awaits(event),
        call_ensures(Running::next, (stage, event, config, status), r),
    ensures
        (r is End && r->End_0 is Err) <==> (match event {
            RunningEvent::Intent(observed) => observed is Err,
            RunningEvent::Decided(action) => action is Err,
            RunningEvent::Controlled(outcome) => outcome is Err,
            RunningEvent::Handled(outcome) => outcome is Err,
            _ => false,
        }),
        r matches RunningStep::End(Err(e)) ==> match event {
            RunningEvent::Intent(Err(refusal)) => e == refusal,
            RunningEvent::Decided(Err(refusal)) => e == refusal,
            RunningEvent::Handled(Err(failure)) => e == failure,
            RunningEvent::Controlled(Err(told)) => e is RetryableError && e->state
                == StateName::Running && e->retries == 10 && e->RetryableError_source@ == told@,
            _ => false,
        },
{
}

/// A job's restarts are forgiven exactly at a tick after which it has run for longer than it takes
/// to count as healthy, and count again exactly where that could not be published. Nothing else
/// about the job's status ever changes.
pub proof fn restarts_are_forgiven_only_to_a_healthy_job(
    stage: RunningStage,
    event: RunningEvent,
    config: &JobConfig,
    status: &mut JobStatus,
    r: RunningStep,
)
    requires
        stage.awaits(event),
        call_ensures(Running::next, (stage, event, config, status), r),
    ensures
        final(status).generation == old(status).generation,
        final(status).restart_nonce == old(status).restart_nonce,
        final(status).tasks == old(status).tasks,
        final(status).leader == old(status).leader,
        event matches RunningEvent::Tick { ran_for, healthy_duration } ==> {
            let forgiven = old(status).restarts > 0 && ran_for > healthy_duration;
            &&& forgiven ==> final(status).restarts == 0 && r == (RunningStep::Go {
                stage: RunningStage::Forgiving { restarts: old(status).restarts },
                update: None,
            })
            &&& !forgiven ==> final(status).restarts == old(status).restarts && r == (
            RunningStep::Go { stage: RunningStage::AskingProgress, update: None })
        },
        event is Published && event->Published_0 is Err ==> final(status).restarts
            == stage->restarts,
        event is Published && !(r is End) ==> r == (RunningStep::Go {
            stage: RunningStage::AskingProgress,
            update: None,
        }),
        !(event is Tick) && !(event is Published && event->Published_0 is Err) ==> (
        final(status).restarts == old(status).restarts),
        (r matches RunningStep::Go { stage: RunningStage::Forgiving { .. }, .. }) ==> event is Tick,
{
}

/// Restarts that were forgiven and could not be published are counted again, as many as there were:
/// a tick and its failed publication leave the job's status as they found it.
pub proof fn forgiveness_that_is_not_published_is_taken_back(
    config: &JobConfig,
    ran_for: u64,
    healthy_duration: u64,
    ticked: &mut JobStatus,
    forgiving: RunningStage,
    error: String,
    published: &mut JobStatus,
    r: RunningStep,
)
    requires
        call_ensures(
            Running::next,
            (
                RunningStage::Waiting,
                RunningEvent::Tick { ran_for, healthy_duration },
                config,
                ticked,
            ),
            RunningStep::Go { stage: forgiving, update: None },
        ),
        forgiving is Forgiving,
        *old(published) == *final(ticked),
        call_ensures(
            Running::next,
            (forgiving, RunningEvent::Published(Err(error)), config, published),
            r,
        ),
    ensures
        final(published).restarts == old(ticked).restarts,
        final(published).generation == old(ticked).generation,
        final(published).leader == old(ticked).leader,
        final(published).tasks == old(ticked).tasks,
        final(published).restart_nonce == old(ticked).restart_nonce,
{
}

/// A turn of a running job that ends nothing reads the writer at its head and waits behind it.
pub proof fn a_quiet_turn_reads_the_writer_and_waits(
    stage: RunningStage,
    event: RunningEvent,
    config: &JobConfig,
    status: &mut JobStatus,
    r: RunningStep,
)
    requires
        stage.awaits(event),
        call_ensures(Running::next, (stage, event, config, status), r),
    ensures
        event is Woken || (event is Controlled && event->Controlled_0 is Ok) || (event is Handled
            && event->Handled_0 is Ok) ==> r == (RunningStep::Go {
            stage: RunningStage::ReadingIntent,
            update: None,
        }),
        event == RunningEvent::Intent(Ok(ObservedIntent::Continue)) || (event
            == RunningEvent::Intent(Ok(ObservedIntent::Stop)) && config.stop_mode
            == StopMode::none) ==> r == (RunningStep::Go {
            stage: RunningStage::Waiting,
            update: None,
        }),
        (r matches RunningStep::Go { stage: RunningStage::AskingProgress, .. }) ==> event is Tick
            || event is Published,
{
}

/// A running job is stopped on its way in exactly where its configuration asks it to stop, and a job
/// that is given a time to live has the rest of it left: what it has run and what it may still run
/// come to no less than it was given, and to no more while anything is left.
pub proof fn a_job_has_the_rest_of_its_time_to_live(
    config: &JobConfig,
    ran_for: u64,
    entered: Option<Transition>,
    left: Option<u64>,
)
    requires
        call_ensures(Running::enter, (config,), entered),
        call_ensures(Running::ttl_end, (config, ran_for), left),
    ensures
        entered is None <==> config.stop_mode == StopMode::none,
        left is Some <==> config.ttl is Some,
        left matches Some(rest) ==> {
            &&& ran_for + rest >= config.ttl->0
            &&& rest > 0 ==> ran_for + rest == config.ttl->0
            &&& rest <= config.ttl->0
        },
{
}

} // verus!
