//! A job whose parallelism changes.

use crate::lifecycle::intent::ObservedIntent;
use crate::messages::JobMessage;
use crate::restarting::{
    follow, message_handled, CheckpointEvent, CheckpointStage, CheckpointStep, CheckpointTurn,
    FinalCheckpoint,
};
use crate::scheduling::Scheduling;
use crate::states::{
    leaves_not_running, retryable, stop_if_desired_non_running, LeavingForStop, NextState,
    StateError, StateName, StopBehavior, Transition,
};
use crate::types::{JobConfig, RestartMode, StopMode};
use vstd::prelude::*;

verus! {

/// A job whose parallelism changes.
#[derive(Clone, Copy, Debug, PartialEq, Eq, Structural)]
pub struct Rescaling {}

/// A rescale under way: whether its final checkpoint has been started.
#[derive(Clone, Copy, Debug, PartialEq, Eq, Structural)]
pub struct RescaleProgress {
    final_checkpoint_started: bool,
}

impl RescaleProgress {
    pub closed spec fn started(self) -> bool {
        self.final_checkpoint_started
    }

    /// A rescale that has done nothing yet.
    pub fn new() -> (r: Self)
        ensures
            !r.started(),
    {
        RescaleProgress { final_checkpoint_started: false }
    }

    /// Whether the final checkpoint is still to be asked for.
    fn wants_checkpoint(&self) -> (r: bool)
        ensures
            r == !self.started(),
    {
        !self.final_checkpoint_started
    }

    /// What the final checkpoint's standing means: the job is rescheduled once the checkpoint this
    /// rescale started is done and the job has finished.
    fn on_checkpoint(&self, checkpoint: FinalCheckpoint) -> (r: Result<
        CheckpointTurn,
        StateError,
    >)
        ensures
            match checkpoint {
                FinalCheckpoint::Standing { done, finished } => r == Ok::<_, StateError>(
                    if done && finished && self.started() {
                        CheckpointTurn::Leave(crate::restarting::rescheduled())
                    } else {
                        CheckpointTurn::Wait
                    },
                ),
                FinalCheckpoint::Unknown(source) => r matches Err(e) && e.retryable_with(
                    StateName::Rescaling,
                    "failed while monitoring final checkpoint"@,
                    source@,
                    10,
                ),
            },
    {
        match checkpoint {
            FinalCheckpoint::Standing { done, finished } => {
                if done && finished && self.final_checkpoint_started {
                    return Ok(
                        CheckpointTurn::Leave(
                            Transition::Advance(NextState::Scheduling(Scheduling {  })),
                        ),
                    );
                }
                Ok(CheckpointTurn::Wait)
            },
            FinalCheckpoint::Unknown(source) => Err(
                retryable(
                    StateName::Rescaling,
                    "failed while monitoring final checkpoint",
                    source,
                    10,
                ),
            ),
        }
    }

    /// What asking for the final checkpoint came to: whether one was started.
    fn checkpoint_asked(&mut self, outcome: Result<bool, String>) -> (r: Result<
        (),
        StateError,
    >)
        ensures
            match outcome {
                Ok(started) => r is Ok && final(self).started() == started,
                Err(source) => final(self).started() == old(self).started() && (
                r matches Err(e) && e.retryable_with(
                    StateName::Rescaling,
                    "failed to initiate final checkpoint"@,
                    source@,
                    10,
                )),
            },
    {
        match outcome {
            Ok(started) => {
                self.final_checkpoint_started = started;
                Ok(())
            },
            Err(source) => Err(
                retryable(StateName::Rescaling, "failed to initiate final checkpoint", source, 10),
            ),
        }
    }
}

impl Rescaling {
    pub fn name(&self) -> (r: &'static str)
        ensures
            r@ == StateName::Rescaling.name(),
    {
        StateName::Rescaling.as_str()
    }

    /// Leaves if a stop is asked for.
    pub fn leave_for_stop(self, config: &JobConfig) -> (r: LeavingForStop<Self>)
        ensures
            r == (match crate::states::stop_of_not_running(config.stop_mode) {
                Some(stop) => LeavingForStop::Leaves(stop),
                None => LeavingForStop::Stays(self),
            }),
    {
        leaves_not_running(self, config)
    }

    /// What reading the job's writer means: a stop that now stands leaves.
    fn on_intent(config: &JobConfig, observed: Result<ObservedIntent, StateError>) -> (r: Result<
        CheckpointTurn,
        StateError,
    >)
        ensures
            match observed {
                Err(refusal) => r == Err::<CheckpointTurn, _>(refusal),
                Ok(ObservedIntent::Stop) => match crate::states::stop_of_not_running(
                    config.stop_mode,
                ) {
                    Some(stop) => r == Ok::<_, StateError>(CheckpointTurn::Leave(stop)),
                    None => r == Ok::<_, StateError>(CheckpointTurn::Wait),
                },
                Ok(_) => r == Ok::<_, StateError>(CheckpointTurn::Wait),
            },
    {
        match observed {
            Err(refusal) => Err(refusal),
            Ok(observed) => {
                if observed.stops() {
                    if let Some(stop) = stop_if_desired_non_running(config) {
                        return Ok(CheckpointTurn::Leave(stop));
                    }
                }
                Ok(CheckpointTurn::Wait)
            },
        }
    }

    /// What a message means. A configuration that asks for a stop leaves before it is checked.
    fn on_message(msg: JobMessage, checked: Result<(), StateError>) -> (r: Result<
        CheckpointTurn,
        StateError,
    >)
        ensures
            match msg {
                JobMessage::RunningMessage(m) => r == Ok::<_, StateError>(
                    CheckpointTurn::Control(m),
                ),
                JobMessage::ConfigUpdate(c) => match crate::states::stop_of_not_running(
                    c.stop_mode,
                ) {
                    Some(stop) => r == Ok::<_, StateError>(CheckpointTurn::Leave(stop)),
                    None => match checked {
                        Ok(()) => r == Ok::<_, StateError>(CheckpointTurn::Wait),
                        Err(e) => r == Err::<CheckpointTurn, _>(e),
                    },
                },
                other => r == Ok::<_, StateError>(CheckpointTurn::HandOn(other)),
            },
    {
        match msg {
            JobMessage::RunningMessage(m) => Ok(CheckpointTurn::Control(m)),
            JobMessage::ConfigUpdate(c) => {
                if let Some(stop) = stop_if_desired_non_running(&c) {
                    return Ok(CheckpointTurn::Leave(stop));
                }
                match checked {
                    Ok(()) => Ok(CheckpointTurn::Wait),
                    Err(e) => Err(e),
                }
            },
            msg => Ok(CheckpointTurn::HandOn(msg)),
        }
    }
}

/// The stage a look at the final checkpoint is followed by, while the job stays.
pub open spec fn after_look(started: bool) -> CheckpointStage {
    if started {
        CheckpointStage::Waiting
    } else {
        CheckpointStage::AskingCheckpoint
    }
}

/// Whether a rescale's final checkpoint has been started, after `event` came of `stage`.
pub open spec fn started_after(
    stage: CheckpointStage,
    event: CheckpointEvent,
    started: bool,
) -> bool {
    match (stage, event) {
        (CheckpointStage::AskingCheckpoint, CheckpointEvent::Asked(Ok(now))) => now,
        _ => started,
    }
}

/// Whether `r` is what follows `stage` on `event` in a rescale of a job under `config` whose final
/// checkpoint has been `started` or not.
pub open spec fn stepped(
    stage: CheckpointStage,
    event: CheckpointEvent,
    config: JobConfig,
    started: bool,
    r: CheckpointStep,
) -> bool {
    match (stage, event) {
        (CheckpointStage::AskingCheckpoint, CheckpointEvent::Asked(outcome)) => {
            match outcome {
                Ok(_) => r == CheckpointStep::Go(CheckpointStage::Waiting),
                Err(source) => r matches CheckpointStep::End(Err(e)) && e.retryable_with(
                    StateName::Rescaling,
                    "failed to initiate final checkpoint"@,
                    source@,
                    10,
                ),
            }
        },
        (CheckpointStage::ReadingIntent, CheckpointEvent::Intent(observed)) => {
            match observed {
                Err(refusal) => r == CheckpointStep::End(Err(refusal)),
                Ok(ObservedIntent::Stop) => match crate::states::stop_of_not_running(
                    config.stop_mode,
                ) {
                    Some(stop) => r == CheckpointStep::End(Ok(stop)),
                    None => r == CheckpointStep::Go(CheckpointStage::MonitoringCheckpoint),
                },
                Ok(_) => r == CheckpointStep::Go(CheckpointStage::MonitoringCheckpoint),
            }
        },
        (CheckpointStage::MonitoringCheckpoint, CheckpointEvent::Checkpoint(checkpoint)) => {
            match checkpoint {
                FinalCheckpoint::Standing { done, finished } => if done && finished && started {
                    r == CheckpointStep::End(Ok(crate::restarting::rescheduled()))
                } else {
                    r == CheckpointStep::Go(after_look(started))
                },
                FinalCheckpoint::Unknown(source) => r matches CheckpointStep::End(Err(e))
                    && e.retryable_with(
                    StateName::Rescaling,
                    "failed while monitoring final checkpoint"@,
                    source@,
                    10,
                ),
            }
        },
        (CheckpointStage::Waiting, CheckpointEvent::Woken) => r == CheckpointStep::Go(
            CheckpointStage::ReadingIntent,
        ),
        (CheckpointStage::Waiting, CheckpointEvent::Message(msg, checked)) => match msg {
            JobMessage::RunningMessage(m) => r == CheckpointStep::Go(
                CheckpointStage::Controlling(m),
            ),
            JobMessage::ConfigUpdate(c) => match crate::states::stop_of_not_running(
                c.stop_mode,
            ) {
                Some(stop) => r == CheckpointStep::End(Ok(stop)),
                None => match checked {
                    Ok(()) => r == CheckpointStep::Go(CheckpointStage::ReadingIntent),
                    Err(e) => r == CheckpointStep::End(Err(e)),
                },
            },
            other => r == CheckpointStep::Go(CheckpointStage::HandingOn(other)),
        },
        (CheckpointStage::Controlling(_), CheckpointEvent::Controlled(outcome)) => {
            match outcome {
                Ok(()) => r == CheckpointStep::Go(CheckpointStage::ReadingIntent),
                Err(source) => r matches CheckpointStep::End(Err(e)) && e.retryable_with(
                    StateName::Rescaling,
                    "failed while waiting for job finish"@,
                    source@,
                    10,
                ),
            }
        },
        (CheckpointStage::HandingOn(_), CheckpointEvent::Handled(outcome)) => match outcome {
            Ok(()) => r == CheckpointStep::Go(CheckpointStage::ReadingIntent),
            Err(e) => r == CheckpointStep::End(Err(e)),
        },
        _ => true,
    }
}

impl RescaleProgress {
    /// One step of a rescale: on every turn the writer is read, the checkpoint is looked at and,
    /// until one was started, asked for; then a message is waited for.
    pub fn next(&mut self, stage: CheckpointStage, event: CheckpointEvent, config: &JobConfig) -> (r:
        CheckpointStep)
        requires
            stage.awaits(event),
        ensures
            final(self).started() == started_after(stage, event, old(self).started()),
            stepped(stage, event, *config, old(self).started(), r),
    {
        match (stage, event) {
            (CheckpointStage::AskingCheckpoint, CheckpointEvent::Asked(outcome)) => {
                match self.checkpoint_asked(outcome) {
                    Err(e) => CheckpointStep::End(Err(e)),
                    Ok(()) => CheckpointStep::Go(CheckpointStage::Waiting),
                }
            },
            (CheckpointStage::ReadingIntent, CheckpointEvent::Intent(observed)) => follow(
                Rescaling::on_intent(config, observed),
                CheckpointStage::MonitoringCheckpoint,
            ),
            (CheckpointStage::MonitoringCheckpoint, CheckpointEvent::Checkpoint(checkpoint)) => {
                let looked = if self.wants_checkpoint() {
                    CheckpointStage::AskingCheckpoint
                } else {
                    CheckpointStage::Waiting
                };
                follow(self.on_checkpoint(checkpoint), looked)
            },
            (CheckpointStage::Waiting, CheckpointEvent::Message(msg, checked)) => follow(
                Rescaling::on_message(msg, checked),
                CheckpointStage::ReadingIntent,
            ),
            (CheckpointStage::Controlling(_), CheckpointEvent::Controlled(outcome)) => {
                match message_handled(StateName::Rescaling, outcome) {
                    Err(e) => CheckpointStep::End(Err(e)),
                    Ok(()) => CheckpointStep::Go(CheckpointStage::ReadingIntent),
                }
            },
            (CheckpointStage::HandingOn(_), CheckpointEvent::Handled(Err(e))) => {
                CheckpointStep::End(Err(e))
            },
            _ => CheckpointStep::Go(CheckpointStage::ReadingIntent),
        }
    }
}

/// The job's writer is read before every look at the final checkpoint, and a look precedes every
/// wait, with at most the asking for a checkpoint in between.
pub proof fn the_writer_is_read_before_every_look(
    stage: CheckpointStage,
    event: CheckpointEvent,
    config: JobConfig,
    started: bool,
    r: CheckpointStep,
)
    requires
        stage.awaits(event),
        stepped(stage, event, config, started, r),
    ensures
        r == CheckpointStep::Go(CheckpointStage::MonitoringCheckpoint) ==> stage is ReadingIntent,
        r == CheckpointStep::Go(CheckpointStage::AskingCheckpoint) ==> stage is MonitoringCheckpoint
            && !started,
        r == CheckpointStep::Go(CheckpointStage::Waiting) ==> stage is MonitoringCheckpoint
            || stage is AskingCheckpoint,
{
}

/// A rescale is rescheduled only on the checkpoint it started itself, and only once it started one:
/// one that stood done before does not end it.
pub proof fn only_its_own_checkpoint_ends_a_rescale(
    stage: CheckpointStage,
    event: CheckpointEvent,
    config: JobConfig,
    started: bool,
    r: CheckpointStep,
)
    requires
        stage.awaits(event),
        stepped(stage, event, config, started, r),
        r == CheckpointStep::End(Ok(crate::restarting::rescheduled())),
    ensures
        started,
        event == CheckpointEvent::Checkpoint(
            FinalCheckpoint::Standing { done: true, finished: true },
        ),
{
}

/// A rescale does with every message that holds no configuration what a safe restart does with it:
/// a report for the job's controller reaches the controller, and anything else is handed on, each as
/// it came. Neither state drops one.
pub proof fn a_rescale_passes_messages_on_as_a_restart_does(
    progress: &mut RescaleProgress,
    msg: JobMessage,
    checked: Result<(), StateError>,
    config: &JobConfig,
    rescaling: CheckpointStep,
    restarting: CheckpointStep,
)
    requires
        !(msg is ConfigUpdate),
        call_ensures(
            RescaleProgress::next,
            (progress, CheckpointStage::Waiting, CheckpointEvent::Message(msg, checked), config),
            rescaling,
        ),
        call_ensures(
            crate::restarting::Restarting::next,
            (CheckpointStage::Waiting, CheckpointEvent::Message(msg, checked), config),
            restarting,
        ),
    ensures
        rescaling == restarting,
        rescaling is Go,
        msg matches JobMessage::RunningMessage(m) ==> rescaling->Go_0
            == CheckpointStage::Controlling(m),
        !(msg is RunningMessage) ==> rescaling->Go_0 == CheckpointStage::HandingOn(msg),
        final(progress).started() == old(progress).started(),
{
}

/// A rescale hands its job to scheduling exactly where the final checkpoint it started itself is
/// done and the job has finished.
pub proof fn a_rescale_reschedules_only_a_finished_job(
    progress: &mut RescaleProgress,
    stage: CheckpointStage,
    event: CheckpointEvent,
    config: &JobConfig,
    r: CheckpointStep,
)
    requires
        stage.awaits(event),
        call_ensures(RescaleProgress::next, (progress, stage, event, config), r),
    ensures
        (r matches CheckpointStep::End(Ok(Transition::Advance(NextState::Scheduling(_))))) <==> (
        old(progress).started() && event == CheckpointEvent::Checkpoint(
            FinalCheckpoint::Standing { done: true, finished: true },
        )),
        r matches CheckpointStep::End(Ok(left)) ==> left is Advance && (left->Advance_0 is Stopping
            || left->Advance_0 is Scheduling),
{
}

/// A rescale's final checkpoint counts as started exactly where the job's controller said it
/// started one, last it was asked; it is asked again until it did, and not after that.
pub proof fn a_rescale_asks_until_a_checkpoint_is_started(
    progress: &mut RescaleProgress,
    stage: CheckpointStage,
    event: CheckpointEvent,
    config: &JobConfig,
    r: CheckpointStep,
)
    requires
        stage.awaits(event),
        call_ensures(RescaleProgress::next, (progress, stage, event, config), r),
    ensures
        event matches CheckpointEvent::Asked(Ok(started)) ==> final(progress).started() == started,
        !(event matches CheckpointEvent::Asked(Ok(_))) ==> final(progress).started() == old(progress).started(),
        r == CheckpointStep::Go(CheckpointStage::AskingCheckpoint) <==> (stage
            is MonitoringCheckpoint && !old(progress).started()
            && event->Checkpoint_0 is Standing),
        stage is MonitoringCheckpoint && old(progress).started() && event->Checkpoint_0 is Standing
            && !(event->Checkpoint_0->done && event->Checkpoint_0->finished) ==> r
            == CheckpointStep::Go(CheckpointStage::Waiting),
        event matches CheckpointEvent::Asked(Ok(_)) ==> r == CheckpointStep::Go(
            CheckpointStage::Waiting,
        ),
{
}

/// A rescale stops exactly where a stop is asked for, by the writer or by any configuration a
/// message brings; how is what the same mode means to a restart.
pub proof fn a_rescale_stops_where_it_is_asked_to(
    progress: &mut RescaleProgress,
    stage: CheckpointStage,
    event: CheckpointEvent,
    config: &JobConfig,
    r: CheckpointStep,
)
    requires
        stage.awaits(event),
        call_ensures(RescaleProgress::next, (progress, stage, event, config), r),
    ensures
        (r matches CheckpointStep::End(Ok(Transition::Advance(NextState::Stopping { .. })))) <==> ((
        event == CheckpointEvent::Intent(Ok(ObservedIntent::Stop)) && config.stop_mode
            != StopMode::none) || (event matches CheckpointEvent::Message(
            JobMessage::ConfigUpdate(c),
            _,
        ) && c.stop_mode != StopMode::none)),
        r matches CheckpointStep::End(Ok(Transition::Advance(NextState::Stopping { stop_mode }))) ==> {
            let asked = match event {
                CheckpointEvent::Message(JobMessage::ConfigUpdate(c), _) => c.stop_mode,
                _ => config.stop_mode,
            };
            stop_mode == (if asked == StopMode::force {
                StopBehavior::StopWorkers
            } else {
                StopBehavior::StopJobImmediate
            })
        },
{
}

/// A rescale fails exactly where something failed, and says what. A configuration that asks for a
/// stop is answered before it can be refused.
pub proof fn a_rescale_fails_only_for_a_failure(
    progress: &mut RescaleProgress,
    stage: CheckpointStage,
    event: CheckpointEvent,
    config: &JobConfig,
    r: CheckpointStep,
)
    requires
        stage.awaits(event),
        call_ensures(RescaleProgress::next, (progress, stage, event, config), r),
    ensures
        (r matches CheckpointStep::End(Err(_))) <==> (match event {
            CheckpointEvent::Asked(outcome) => outcome is Err,
            CheckpointEvent::Intent(observed) => observed is Err,
            CheckpointEvent::Checkpoint(standing) => standing is Unknown,
            CheckpointEvent::Woken => false,
            CheckpointEvent::Message(JobMessage::ConfigUpdate(c), checked) => checked is Err
                && c.stop_mode == StopMode::none,
            CheckpointEvent::Message(_, _) => false,
            CheckpointEvent::Controlled(outcome) => outcome is Err,
            CheckpointEvent::Handled(outcome) => outcome is Err,
        }),
        r matches CheckpointStep::End(Err(e)) ==> match event {
            CheckpointEvent::Intent(Err(refusal)) => e == refusal,
            CheckpointEvent::Message(_, Err(refusal)) => e == refusal,
            CheckpointEvent::Handled(Err(failure)) => e == failure,
            _ => e matches StateError::RetryableError { state, source, retries, .. } && state
                == StateName::Rescaling && retries == 10 && source@ == (match event {
                CheckpointEvent::Asked(Err(told)) => told@,
                CheckpointEvent::Checkpoint(FinalCheckpoint::Unknown(told)) => told@,
                CheckpointEvent::Controlled(Err(told)) => told@,
                _ => source@,
            }),
        },
{
}

/// A turn of a rescale or a restart that ends nothing begins the next one: whatever was waited for
/// or handled, the job's writer is read next, in both states.
pub proof fn a_turn_that_ends_nothing_reads_the_writer(
    progress: &mut RescaleProgress,
    stage: CheckpointStage,
    event: CheckpointEvent,
    config: &JobConfig,
    rescaling: CheckpointStep,
    restarting: CheckpointStep,
)
    requires
        stage.awaits(event),
        event == CheckpointEvent::Woken || event == CheckpointEvent::Controlled(Ok(())) || event
            == CheckpointEvent::Handled(Ok(())) || (event matches CheckpointEvent::Message(
            JobMessage::ConfigUpdate(c),
            Ok(_),
        ) && c.stop_mode == StopMode::none && c.restart_mode == RestartMode::safe),
        call_ensures(RescaleProgress::next, (progress, stage, event, config), rescaling),
        call_ensures(
            crate::restarting::Restarting::next,
            (stage, event, config),
            restarting,
        ),
    ensures
        rescaling == CheckpointStep::Go(CheckpointStage::ReadingIntent),
        restarting == rescaling,
{
}

/// A reading of the writer that neither stops nor fails is followed by a look at the checkpoint, in
/// a rescale always and in a restart unless the configuration escalates it.
pub proof fn a_reading_that_ends_nothing_looks_at_the_checkpoint(
    progress: &mut RescaleProgress,
    observed: ObservedIntent,
    config: &JobConfig,
    rescaling: CheckpointStep,
    restarting: CheckpointStep,
)
    requires
        observed is Stop ==> config.stop_mode == StopMode::none,
        call_ensures(
            RescaleProgress::next,
            (
                progress,
                CheckpointStage::ReadingIntent,
                CheckpointEvent::Intent(Ok(observed)),
                config,
            ),
            rescaling,
        ),
        call_ensures(
            crate::restarting::Restarting::next,
            (CheckpointStage::ReadingIntent, CheckpointEvent::Intent(Ok(observed)), config),
            restarting,
        ),
    ensures
        rescaling == CheckpointStep::Go(CheckpointStage::MonitoringCheckpoint),
        restarting == rescaling || (observed is Adopted && config.restart_mode
            == RestartMode::force),
        observed is Continue ==> restarting == rescaling,
{
}

/// A rescale that has just begun takes a checkpoint of its own, however one before it stands.
pub proof fn a_new_rescale_asks_for_its_own_checkpoint(
    begun: RescaleProgress,
    progress: &mut RescaleProgress,
    done: bool,
    finished: bool,
    config: &JobConfig,
    r: CheckpointStep,
)
    requires
        call_ensures(RescaleProgress::new, (), begun),
        *old(progress) == begun,
        call_ensures(
            RescaleProgress::next,
            (
                progress,
                CheckpointStage::MonitoringCheckpoint,
                CheckpointEvent::Checkpoint(FinalCheckpoint::Standing { done, finished }),
                config,
            ),
            r,
        ),
    ensures
        r == CheckpointStep::Go(CheckpointStage::AskingCheckpoint),
{
}

} // verus!
