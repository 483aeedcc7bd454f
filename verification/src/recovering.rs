//! A job whose execution failed and whose cluster is torn down before it is scheduled again.

use crate::job::JobStatus;
use crate::scheduling::execution::JobState;
use crate::states::{
    fatal, retryable, ErrorDomain, FatalProvenance, LeavingForStop, NextState, StateError,
    StateName, Transition,
};
use crate::types::JobConfig;
use vstd::prelude::*;
use vstd::string::*;

verus! {

/// A job whose execution failed.
#[derive(Clone, Debug, PartialEq, Eq)]
pub struct Recovering {
    pub source: String,
    pub reason: String,
    pub domain: ErrorDomain,
}

/// How long the job's controller is waited for once it was told to stop, in seconds.
pub const CONTROLLER_STOP_SECONDS: u64 = 5;

/// How long a leader is waited for to say how its job is, in seconds.
pub const LEADER_STATUS_SECONDS: u64 = 30;

/// How long a leader is waited for to reach the state it is expected in, in seconds.
pub const LEADER_STATE_SECONDS: u64 = 60;

/// How often tearing workers down is tried again.
pub const TEARDOWN_RETRIES: u64 = 10;

/// The first pause between those tries, in milliseconds.
pub const TEARDOWN_BASE_MILLIS: u64 = 200;

/// The longest pause between those tries, in seconds.
pub const TEARDOWN_MAX_SECONDS: u64 = 10;

/// Why tearing a job's cluster down did not complete.
#[derive(Clone, Debug, PartialEq, Eq)]
pub enum CleanupFailure {
    /// The teardown itself failed, after its retries.
    Failed(String),
    /// The job's configuration was refused while the cleanup waited.
    Refused(StateError),
}

/// How a wait for a job to finish ended.
#[derive(Clone, Debug, PartialEq, Eq)]
pub enum FinishWait {
    Finished,
    /// The job's writer decided a stop meanwhile.
    StopDecided,
    Refused(StateError),
    Failed(String),
    TimedOut,
}

/// What stands to be cleaned up before the workers are torn down.
#[derive(Clone, Copy, Debug, PartialEq, Eq, Structural)]
pub enum Cleanup {
    Controller,
    Leader,
    /// Neither was set up.
    Nothing,
}

/// What cleaning a controller up comes to next.
#[derive(Clone, Copy, Debug, PartialEq, Eq, Structural)]
pub enum ControllerCleanup {
    /// The job has finished already.
    Done,
    /// The controller is to be told to stop the job at once.
    StopJob,
}

/// What cleaning a leader up comes to.
#[derive(Clone, Copy, Debug, PartialEq, Eq, Structural)]
pub enum LeaderCleanup {
    /// There is nothing to wait for.
    Done,
    /// The leader is to be told to stop at once, and then awaited in this state.
    StopThenAwait(JobState),
    /// The leader is to be awaited in this state.
    Await(JobState),
}

/// Whether workers are left to be torn down.
#[derive(Clone, Copy, Debug, PartialEq, Eq, Structural)]
pub enum WorkerTeardown {
    Done,
    StopWorkers,
}

/// A failed job that is tried again: it backs off as after this many restarts, and is then cleaned
/// up.
#[derive(Debug, PartialEq, Eq)]
pub struct Retry {
    pub recovering: Recovering,
    pub restarts: i32,
}

impl Recovering {
    pub fn name(&self) -> (r: &'static str)
        ensures
            r@ == StateName::Recovering.name(),
    {
        StateName::Recovering.as_str()
    }

    /// Stays, whatever is asked for: what it does is the teardown a stop performs, and the state
    /// it hands the job to answers the stop before anything is started.
    pub fn leave_for_stop(self, _config: &JobConfig) -> (r: LeavingForStop<Self>)
        ensures
            r == LeavingForStop::Stays(self),
    {
        LeavingForStop::Stays(self)
    }

    /// Whether the job is tried again. A preview job is not, and neither is one that has used its
    /// restarts up; `-1` allows any number of them.
    pub fn enter(self, config: &JobConfig, status: &JobStatus, allowed_restarts: i32) -> (r: Result<
        Retry,
        StateError,
    >)
        ensures
            if config.ttl is Some {
                r matches Err(e) && e.fatal_with(
                    "Job encountered a fatal error; see worker logs for details"@,
                    self.source@,
                )
            } else if allowed_restarts != -1 && status.restarts >= allowed_restarts {
                r matches Err(StateError::FatalError { message, domain, source, provenance }) && {
                    &&& message@ == "Exhausted retries: "@ + self.reason@
                    &&& domain == self.domain
                    &&& source == self.source
                    &&& provenance == FatalProvenance::Unrelated
                }
            } else {
                r == Ok::<_, StateError>(
                    Retry { recovering: self, restarts: status.restarts },
                )
            },
    {
        if config.ttl.is_some() {
            return Err(
                fatal(
                    "Job encountered a fatal error; see worker logs for details",
                    self.source,
                ),
            );
        }
        if allowed_restarts != -1 && status.restarts >= allowed_restarts {
            let mut message = "Exhausted retries: ".to_owned();
            message.append(self.reason.as_str());
            return Err(
                StateError::FatalError {
                    message,
                    domain: self.domain,
                    source: self.source,
                    provenance: FatalProvenance::Unrelated,
                },
            );
        }
        Ok(Retry { recovering: self, restarts: status.restarts })
    }

    /// Which half of the job is to be cleaned up. It never has both.
    pub fn cleanup_of(has_controller: bool, has_leader: bool) -> (r: Cleanup)
        requires
            !(has_controller && has_leader),
        ensures
            r == (if has_controller {
                Cleanup::Controller
            } else if has_leader {
                Cleanup::Leader
            } else {
                Cleanup::Nothing
            }),
    {
        if has_controller {
            Cleanup::Controller
        } else if has_leader {
            Cleanup::Leader
        } else {
            Cleanup::Nothing
        }
    }

    /// Whether the job's controller is to be stopped at all.
    pub fn cleanup_job_controller(finished: bool) -> (r: ControllerCleanup)
        ensures
            r == (if finished {
                ControllerCleanup::Done
            } else {
                ControllerCleanup::StopJob
            }),
    {
        if finished {
            ControllerCleanup::Done
        } else {
            ControllerCleanup::StopJob
        }
    }

    /// What stopping the controller came to, and what waiting for it then came to. Only a refusal
    /// ends the cleanup: whatever else goes wrong is left to the teardown that follows.
    fn controller_stopped(stopped: Result<FinishWait, String>) -> (r: Result<
        (),
        CleanupFailure,
    >)
        ensures
            r == (match stopped {
                Ok(FinishWait::Refused(refusal)) => Err(CleanupFailure::Refused(refusal)),
                _ => Ok(()),
            }),
    {
        match stopped {
            Ok(FinishWait::Refused(refusal)) => Err(CleanupFailure::Refused(refusal)),
            Ok(FinishWait::Finished)
            | Ok(FinishWait::StopDecided)
            | Ok(FinishWait::Failed(_))
            | Ok(FinishWait::TimedOut)
            | Err(_) => Ok(()),
        }
    }

    /// What a leader's own account of its job asks for. Nothing where it gave none, or one nobody
    /// knows.
    pub fn cleanup_leader(status: Option<Option<JobState>>) -> (r: LeaderCleanup)
        ensures
            r == leader_cleanup(status),
    {
        match status {
            Some(Some(state)) => match state {
                JobState::JobRunning => LeaderCleanup::StopThenAwait(JobState::JobStopped),
                JobState::JobFailing => LeaderCleanup::StopThenAwait(JobState::JobFailed),
                JobState::JobStopping => LeaderCleanup::Await(JobState::JobStopped),
                JobState::JobFinishing => LeaderCleanup::Await(JobState::JobFinished),
                JobState::JobUnknown
                | JobState::JobInitializing
                | JobState::JobStopped
                | JobState::JobFinished
                | JobState::JobFailed => LeaderCleanup::Done,
            },
            _ => LeaderCleanup::Done,
        }
    }

    /// What telling the leader to stop came to: the state it is then awaited in, or nothing where
    /// it could not be told.
    fn leader_stopped(expected: JobState, stopped: Result<(), String>) -> (r: Option<JobState>)
        ensures
            r == (match stopped {
                Ok(()) => Some(expected),
                Err(_) => None,
            }),
    {
        match stopped {
            Ok(()) => Some(expected),
            Err(_) => None,
        }
    }

    /// Whether any of the generation's workers are left to be stopped. Not knowing is an error.
    pub fn tear_down_workers(workers: Result<usize, String>) -> (r: Result<WorkerTeardown, String>)
        ensures
            r == (match workers {
                Ok(n) => Ok(
                    if n == 0 {
                        WorkerTeardown::Done
                    } else {
                        WorkerTeardown::StopWorkers
                    },
                ),
                Err(e) => Err(e),
            }),
    {
        match workers {
            Ok(n) => Ok(
                if n == 0 {
                    WorkerTeardown::Done
                } else {
                    WorkerTeardown::StopWorkers
                },
            ),
            Err(e) => Err(e),
        }
    }

    /// What a cleanup that no refusal ended comes to, given what the last try at the teardown said.
    pub fn cleanup(torn_down: Result<(), String>) -> (r: Result<(), CleanupFailure>)
        ensures
            r == (match torn_down {
                Err(e) => Err(CleanupFailure::Failed(e)),
                Ok(()) => Ok(()),
            }),
    {
        match torn_down {
            Err(e) => Err(CleanupFailure::Failed(e)),
            Ok(()) => Ok(()),
        }
    }

    /// Where the job goes once it is cleaned up.
    pub fn after_cleanup(outcome: Result<(), CleanupFailure>) -> (r: Result<Transition, StateError>)
        ensures
            match outcome {
                Ok(()) => r == Ok::<_, StateError>(Transition::Advance(NextState::Compiling)),
                Err(CleanupFailure::Refused(refusal)) => r == Err::<Transition, _>(refusal),
                Err(CleanupFailure::Failed(source)) => r matches Err(e) && e.retryable_with(
                    StateName::Recovering,
                    "failed to tear down existing cluster"@,
                    source@,
                    20,
                ),
            },
    {
        match outcome {
            Ok(()) => Ok(Transition::Advance(NextState::Compiling)),
            Err(CleanupFailure::Refused(refusal)) => Err(refusal),
            Err(CleanupFailure::Failed(source)) => Err(
                retryable(
                    StateName::Recovering,
                    "failed to tear down existing cluster",
                    source,
                    20,
                ),
            ),
        }
    }
}

/// The state a job comes to rest in, once the state it is in has run its course under a stop.
pub open spec fn comes_to_rest(state: JobState) -> Option<JobState> {
    match state {
        JobState::JobRunning | JobState::JobStopping => Some(JobState::JobStopped),
        JobState::JobFinishing => Some(JobState::JobFinished),
        JobState::JobFailing => Some(JobState::JobFailed),
        _ => None,
    }
}

/// What cleaning a leader up comes to: it is awaited where its job comes to rest, after being told
/// to stop where its job would not get there by itself at once.
pub open spec fn leader_cleanup(status: Option<Option<JobState>>) -> LeaderCleanup {
    match status {
        Some(Some(state)) => match comes_to_rest(state) {
            None => LeaderCleanup::Done,
            Some(rest) => if state == JobState::JobRunning || state == JobState::JobFailing {
                LeaderCleanup::StopThenAwait(rest)
            } else {
                LeaderCleanup::Await(rest)
            },
        },
        _ => LeaderCleanup::Done,
    }
}

/// Where a cleanup stands, and so what it does next.
#[derive(Clone, Copy, Debug, PartialEq, Eq, Structural)]
pub enum CleanupStage {
    /// The job's controller is told to stop the job at once.
    StoppingController,
    /// The job is waited for to finish.
    AwaitingFinish,
    /// The leader is asked how its job is.
    PollingLeader,
    /// The leader is told to stop at once.
    StoppingLeader { expected: JobState },
    /// The leader is waited for to say that its job is in this state.
    AwaitingLeader { expected: JobState },
    /// The workers are torn down.
    TearingDown,
}

/// What came of a stage.
#[derive(Debug)]
pub enum CleanupEvent {
    ControllerStopped(Result<(), String>),
    FinishWaited(FinishWait),
    /// The leader's state, where it is one there is; nothing where it could not be asked in time.
    LeaderPolled(Option<Option<JobState>>),
    LeaderStopped(Result<(), String>),
    /// The leader said so, or was waited for long enough.
    LeaderAwaited,
    TornDown(Result<(), String>),
}

/// What follows a stage.
#[derive(Debug, PartialEq, Eq)]
pub enum CleanupStep {
    Go(CleanupStage),
    End(Result<(), CleanupFailure>),
}

/// A status that names no leader.
pub open spec fn leaderless(status: JobStatus) -> JobStatus {
    JobStatus { leader: None, ..status }
}

/// Whether `r` is what follows `stage` on `event` in a cleanup.
pub open spec fn cleaned(stage: CleanupStage, event: CleanupEvent, r: CleanupStep) -> bool {
    match (stage, event) {
        (CleanupStage::StoppingController, CleanupEvent::ControllerStopped(stopped)) => r
            == CleanupStep::Go(
            if stopped is Ok {
                CleanupStage::AwaitingFinish
            } else {
                CleanupStage::TearingDown
            },
        ),
        (CleanupStage::AwaitingFinish, CleanupEvent::FinishWaited(waited)) => match waited {
            FinishWait::Refused(refusal) => r == CleanupStep::End(
                Err(CleanupFailure::Refused(refusal)),
            ),
            _ => r == CleanupStep::Go(CleanupStage::TearingDown),
        },
        (CleanupStage::PollingLeader, CleanupEvent::LeaderPolled(status)) => r
            == CleanupStep::Go(
            match leader_cleanup(status) {
                LeaderCleanup::Done => CleanupStage::TearingDown,
                LeaderCleanup::StopThenAwait(expected) => CleanupStage::StoppingLeader {
                    expected,
                },
                LeaderCleanup::Await(expected) => CleanupStage::AwaitingLeader {
                    expected,
                },
            },
        ),
        (CleanupStage::StoppingLeader { expected }, CleanupEvent::LeaderStopped(stopped)) => {
            r == CleanupStep::Go(
                if stopped is Ok {
                    CleanupStage::AwaitingLeader { expected }
                } else {
                    CleanupStage::TearingDown
                },
            )
        },
        (CleanupStage::AwaitingLeader { .. }, CleanupEvent::LeaderAwaited) => r
            == CleanupStep::Go(CleanupStage::TearingDown),
        (CleanupStage::TearingDown, CleanupEvent::TornDown(torn_down)) => r
            == CleanupStep::End(
            match torn_down {
                Ok(()) => Ok(()),
                Err(e) => Err(CleanupFailure::Failed(e)),
            },
        ),
        _ => true,
    }
}

impl CleanupStage {
    /// Whether `event` is one that can come of this stage.
    pub open spec fn awaits(self, event: CleanupEvent) -> bool {
        match self {
            CleanupStage::StoppingController => event is ControllerStopped,
            CleanupStage::AwaitingFinish => event is FinishWaited,
            CleanupStage::PollingLeader => event is LeaderPolled,
            CleanupStage::StoppingLeader { .. } => event is LeaderStopped,
            CleanupStage::AwaitingLeader { .. } => event is LeaderAwaited,
            CleanupStage::TearingDown => event is TornDown,
        }
    }

    /// The stage a cleanup begins with. The leader is forgotten before workers are torn down.
    pub fn first(cleanup: Cleanup, finished: bool, status: &mut JobStatus) -> (r: Self)
        ensures
            r == (match cleanup {
                Cleanup::Controller => if finished {
                    CleanupStage::TearingDown
                } else {
                    CleanupStage::StoppingController
                },
                Cleanup::Leader => CleanupStage::PollingLeader,
                Cleanup::Nothing => CleanupStage::TearingDown,
            }),
            *final(status) == (if r == CleanupStage::TearingDown {
                leaderless(*old(status))
            } else {
                *old(status)
            }),
    {
        match cleanup {
            Cleanup::Controller => match Recovering::cleanup_job_controller(finished) {
                ControllerCleanup::Done => {
                    status.leader = None;
                    CleanupStage::TearingDown
                },
                ControllerCleanup::StopJob => CleanupStage::StoppingController,
            },
            Cleanup::Leader => CleanupStage::PollingLeader,
            Cleanup::Nothing => {
                status.leader = None;
                CleanupStage::TearingDown
            },
        }
    }

    /// One step of a cleanup. Whatever becomes of the controller or the leader, the workers are
    /// torn down; only a refused configuration ends the cleanup before that.
    pub fn next(self, event: CleanupEvent, status: &mut JobStatus) -> (r: CleanupStep)
        requires
            self.awaits(event),
        ensures
            cleaned(self, event, r),
            *final(status) == (if r == CleanupStep::Go(CleanupStage::TearingDown) {
                leaderless(*old(status))
            } else {
                *old(status)
            }),
    {
        let step = self.step(event);
        if let CleanupStep::Go(CleanupStage::TearingDown) = &step {
            status.leader = None;
        }
        step
    }

    fn step(self, event: CleanupEvent) -> (r: CleanupStep)
        requires
            self.awaits(event),
        ensures
            cleaned(self, event, r),
    {
        match (self, event) {
            (CleanupStage::StoppingController, CleanupEvent::ControllerStopped(stopped)) => {
                match stopped {
                    Ok(()) => CleanupStep::Go(CleanupStage::AwaitingFinish),
                    Err(_) => CleanupStep::Go(CleanupStage::TearingDown),
                }
            },
            (CleanupStage::AwaitingFinish, CleanupEvent::FinishWaited(waited)) => {
                match Recovering::controller_stopped(Ok(waited)) {
                    Ok(()) => CleanupStep::Go(CleanupStage::TearingDown),
                    Err(e) => CleanupStep::End(Err(e)),
                }
            },
            (CleanupStage::PollingLeader, CleanupEvent::LeaderPolled(status)) => {
                match Recovering::cleanup_leader(status) {
                    LeaderCleanup::Done => CleanupStep::Go(CleanupStage::TearingDown),
                    LeaderCleanup::StopThenAwait(expected) => CleanupStep::Go(
                        CleanupStage::StoppingLeader { expected },
                    ),
                    LeaderCleanup::Await(expected) => CleanupStep::Go(
                        CleanupStage::AwaitingLeader { expected },
                    ),
                }
            },
            (CleanupStage::StoppingLeader { expected }, CleanupEvent::LeaderStopped(stopped)) => {
                match Recovering::leader_stopped(expected, stopped) {
                    Some(expected) => CleanupStep::Go(CleanupStage::AwaitingLeader { expected }),
                    None => CleanupStep::Go(CleanupStage::TearingDown),
                }
            },
            (CleanupStage::TearingDown, CleanupEvent::TornDown(torn_down)) => CleanupStep::End(
                Recovering::cleanup(torn_down),
            ),
            _ => CleanupStep::Go(CleanupStage::TearingDown),
        }
    }

    /// How many more stages a cleanup can have.
    pub open spec fn stages_left(self) -> nat {
        match self {
            CleanupStage::PollingLeader => 4,
            CleanupStage::StoppingController => 3,
            CleanupStage::StoppingLeader { .. } => 3,
            CleanupStage::AwaitingFinish => 2,
            CleanupStage::AwaitingLeader { .. } => 2,
            CleanupStage::TearingDown => 1,
        }
    }
}

/// What follows a tear-down of a job's workers that failed.
#[derive(Clone, Copy, Debug, PartialEq, Eq, Structural)]
pub enum TearDownStep {
    /// Try again, after a pause.
    Retry,
    /// The failure stands.
    GiveUp,
}

/// What follows a tear-down that failed after it was retried `retries` times.
pub fn after_failed_tear_down(retries: u64) -> (r: TearDownStep)
    ensures
        r == (if retries < TEARDOWN_RETRIES {
            TearDownStep::Retry
        } else {
            TearDownStep::GiveUp
        }),
{
    if retries < TEARDOWN_RETRIES {
        TearDownStep::Retry
    } else {
        TearDownStep::GiveUp
    }
}

/// A cleanup ends: every stage leaves fewer stages to come.
pub proof fn every_cleanup_ends(stage: CleanupStage, event: CleanupEvent, r: CleanupStep)
    requires
        stage.awaits(event),
        cleaned(stage, event, r),
    ensures
        r matches CleanupStep::Go(following) ==> following.stages_left() < stage.stages_left(),
{
}

/// A cleanup tears the workers down whatever becomes of the controller or the leader: only a
/// configuration refused during the wait for the controller ends it before that.
pub proof fn only_a_refusal_spares_the_workers(
    stage: CleanupStage,
    event: CleanupEvent,
    outcome: Result<(), CleanupFailure>,
)
    requires
        stage.awaits(event),
        cleaned(stage, event, CleanupStep::End(outcome)),
    ensures
        stage == CleanupStage::TearingDown || (stage == CleanupStage::AwaitingFinish
            && outcome matches Err(CleanupFailure::Refused(_))),
{
}

/// A leader is waited for before its workers are torn down exactly where its job is on its way
/// somewhere: one that runs is told to stop first and one that fails too, and each is then waited
/// for in the state its job comes to rest in. A job that stands still, or whose leader cannot say,
/// is not waited for.
pub proof fn a_leader_is_waited_for_until_its_job_rests(
    state: JobState,
    status: &mut JobStatus,
    r: CleanupStep,
)
    requires
        call_ensures(
            CleanupStage::next,
            (CleanupStage::PollingLeader, CleanupEvent::LeaderPolled(Some(Some(state))), status),
            r,
        ),
    ensures
        r is Go,
        r->Go_0 is TearingDown || r->Go_0 is StoppingLeader || r->Go_0 is AwaitingLeader,
        r->Go_0 is TearingDown <==> state == JobState::JobUnknown || state
            == JobState::JobInitializing || state == JobState::JobStopped || state
            == JobState::JobFinished || state == JobState::JobFailed,
        r->Go_0 is StoppingLeader <==> state == JobState::JobRunning || state
            == JobState::JobFailing,
        r->Go_0 matches CleanupStage::StoppingLeader { expected } ==> rests_from(state, expected),
        r->Go_0 matches CleanupStage::AwaitingLeader { expected } ==> rests_from(state, expected),
        r->Go_0 is TearingDown ==> final(status).leader is None,
        !(r->Go_0 is TearingDown) ==> final(status).leader == old(status).leader,
{
}

/// Whether a job that is in `state` comes to rest in `rest`: what finishes has finished, what fails
/// has failed, and what runs or stops has stopped.
pub open spec fn rests_from(state: JobState, rest: JobState) -> bool {
    &&& rest == JobState::JobFinished <==> state == JobState::JobFinishing
    &&& rest == JobState::JobFailed <==> state == JobState::JobFailing
    &&& rest == JobState::JobStopped <==> state == JobState::JobStopping || state
        == JobState::JobRunning
    &&& rest == JobState::JobFinished || rest == JobState::JobFailed || rest
        == JobState::JobStopped
}

/// A leader that was told to stop is waited for in the state that was expected of it before, and one
/// that could not be told is not waited for.
pub proof fn a_leader_told_to_stop_is_waited_for(
    expected: JobState,
    stopped: Result<(), String>,
    status: &mut JobStatus,
    r: CleanupStep,
)
    requires
        call_ensures(
            CleanupStage::next,
            (
                CleanupStage::StoppingLeader { expected },
                CleanupEvent::LeaderStopped(stopped),
                status,
            ),
            r,
        ),
    ensures
        stopped is Ok ==> r == CleanupStep::Go(CleanupStage::AwaitingLeader { expected }),
        stopped is Err ==> r == CleanupStep::Go(CleanupStage::TearingDown),
{
}

/// A cleanup forgets the job's leader exactly where it is about to tear the workers down, and
/// changes nothing else about the job.
pub proof fn a_cleanup_forgets_the_leader_with_the_workers(
    stage: CleanupStage,
    event: CleanupEvent,
    status: &mut JobStatus,
    r: CleanupStep,
)
    requires
        stage.awaits(event),
        call_ensures(CleanupStage::next, (stage, event, status), r),
    ensures
        final(status).generation == old(status).generation,
        final(status).restarts == old(status).restarts,
        final(status).restart_nonce == old(status).restart_nonce,
        final(status).tasks == old(status).tasks,
        r == CleanupStep::Go(CleanupStage::TearingDown) ==> final(status).leader is None,
        r != CleanupStep::Go(CleanupStage::TearingDown) ==> final(status).leader == old(status).leader,
{
}

/// A cleanup succeeds exactly where the workers were torn down, fails with what kept them from
/// being, and is otherwise ended only by a refused configuration, which it passes on. A controller
/// that was told to stop is waited for; one that could not be told is not.
pub proof fn a_cleanup_ends_with_the_workers_or_a_refusal(
    stage: CleanupStage,
    event: CleanupEvent,
    status: &mut JobStatus,
    r: CleanupStep,
)
    requires
        stage.awaits(event),
        call_ensures(CleanupStage::next, (stage, event, status), r),
    ensures
        r is End && r->End_0 is Ok <==> event is TornDown && event->TornDown_0 is Ok,
        forall|e: String| #[trigger]
            ends_failed(r, e) <==> event == CleanupEvent::TornDown(Err(e)),
        forall|e: StateError| #[trigger]
            ends_refused(r, e) <==> event == CleanupEvent::FinishWaited(FinishWait::Refused(e)),
        r == CleanupStep::Go(CleanupStage::AwaitingFinish) <==> event is ControllerStopped
            && event->ControllerStopped_0 is Ok,
        !(event is TornDown) && !(event matches CleanupEvent::FinishWaited(FinishWait::Refused(_)))
            ==> r is Go,
        (event is LeaderAwaited || (event is FinishWaited && !(event->FinishWaited_0 is Refused))
            || (event is ControllerStopped && event->ControllerStopped_0 is Err) || (
        event is LeaderPolled && (event->LeaderPolled_0 is None || event->LeaderPolled_0->0 is None)))
            ==> r == CleanupStep::Go(CleanupStage::TearingDown),
{
}

/// Whether a cleanup failed with `e`.
pub open spec fn ends_failed(r: CleanupStep, e: String) -> bool {
    r == CleanupStep::End(Err(CleanupFailure::Failed(e)))
}

/// Whether a cleanup was ended by the refusal `e`.
pub open spec fn ends_refused(r: CleanupStep, e: StateError) -> bool {
    r == CleanupStep::End(Err(CleanupFailure::Refused(e)))
}

/// A cleanup begins with whoever runs the job: its controller, unless the job has finished already,
/// or its leader. With neither it begins with the workers, and only then is the leader forgotten.
pub proof fn a_cleanup_begins_with_whoever_runs_the_job(
    has_controller: bool,
    has_leader: bool,
    finished: bool,
    cleanup: Cleanup,
    status: &mut JobStatus,
    r: CleanupStage,
)
    requires
        !(has_controller && has_leader),
        call_ensures(Recovering::cleanup_of, (has_controller, has_leader), cleanup),
        call_ensures(CleanupStage::first, (cleanup, finished, status), r),
    ensures
        r == CleanupStage::StoppingController <==> has_controller && !finished,
        r == CleanupStage::PollingLeader <==> has_leader,
        r == CleanupStage::TearingDown <==> !has_leader && (!has_controller || finished),
        r == CleanupStage::TearingDown ==> final(status).leader is None,
        r != CleanupStage::TearingDown ==> final(status).leader == old(status).leader,
        final(status).generation == old(status).generation,
        final(status).restarts == old(status).restarts,
        final(status).restart_nonce == old(status).restart_nonce,
        final(status).tasks == old(status).tasks,
{
}

/// A failed job is tried again exactly where it is no preview and has restarts left, of which `-1`
/// allows any number; a job that may be restarted more often is tried again wherever one that may
/// be restarted less often is. What failed is kept either way.
pub proof fn a_job_is_tried_again_within_its_budget(
    recovering: Recovering,
    config: &JobConfig,
    status: &JobStatus,
    allowed: i32,
    r: Result<Retry, StateError>,
)
    requires
        call_ensures(Recovering::enter, (recovering, config, status, allowed), r),
    ensures
        r is Ok <==> config.ttl is None && (allowed == -1 || status.restarts < allowed),
        r matches Ok(retry) ==> retry.recovering == recovering && retry.restarts
            == status.restarts,
        r matches Err(e) ==> e is FatalError && e->FatalError_source@ == recovering.source@,
        r matches Err(e) ==> e->provenance == FatalProvenance::Unrelated && (config.ttl is None
            ==> e->domain == recovering.domain),
{
}

/// A recovered job is compiled again exactly where its cluster was torn down; a refusal is passed
/// on, and a teardown that failed is retried with its reason.
pub proof fn a_recovered_job_starts_over(
    torn_down: Result<(), String>,
    cleaned_up: Result<(), CleanupFailure>,
    r: Result<Transition, StateError>,
)
    requires
        call_ensures(Recovering::cleanup, (torn_down,), cleaned_up),
        call_ensures(Recovering::after_cleanup, (cleaned_up,), r),
    ensures
        r is Ok <==> torn_down is Ok,
        r matches Ok(to) ==> to is Advance && to->Advance_0 is Compiling,
        r matches Err(e) ==> e is RetryableError && e->state == StateName::Recovering && e->retries
            == 20 && e->RetryableError_source@ == torn_down->Err_0@,
{
}

/// A refusal during a cleanup is what the recovery fails with.
pub proof fn a_refused_cleanup_fails_with_the_refusal(
    refusal: StateError,
    r: Result<Transition, StateError>,
)
    requires
        call_ensures(Recovering::after_cleanup, (Err(CleanupFailure::Refused(refusal)),), r),
    ensures
        r == Err::<Transition, _>(refusal),
{
}

/// Workers are stopped exactly where any are left, and not knowing whether any are is a failure. A
/// teardown that fails is tried again a bounded number of times: once it is given up, it is given up
/// after every later failure too.
pub proof fn a_teardown_is_over_only_without_workers(
    workers: Result<usize, String>,
    r: Result<WorkerTeardown, String>,
    earlier: u64,
    later: u64,
    first: TearDownStep,
    second: TearDownStep,
)
    requires
        call_ensures(Recovering::tear_down_workers, (workers,), r),
        earlier <= later,
        call_ensures(after_failed_tear_down, (earlier,), first),
        call_ensures(after_failed_tear_down, (later,), second),
    ensures
        r is Ok <==> workers is Ok,
        r matches Err(e) ==> e == workers->Err_0,
        r matches Ok(teardown) ==> (teardown is Done <==> workers->Ok_0 == 0),
        first is GiveUp ==> second is GiveUp,
        earlier < 10 <==> first is Retry,
{
}

/// A controller is told to stop its job exactly where the job has not finished. A leader is told to
/// stop exactly where its job runs or is failing, and is awaited where its job comes to rest by
/// itself; a leader whose job rests already, has not begun, or that says nothing is left alone. The
/// state it is awaited in is the one it comes to rest in.
pub proof fn a_leader_is_told_to_stop_only_where_its_job_goes_on(
    finished: bool,
    controller: ControllerCleanup,
    status: Option<Option<JobState>>,
    leader: LeaderCleanup,
)
    requires
        call_ensures(Recovering::cleanup_job_controller, (finished,), controller),
        call_ensures(Recovering::cleanup_leader, (status,), leader),
    ensures
        controller is StopJob <==> !finished,
        leader is StopThenAwait <==> status == Some(Some(JobState::JobRunning)) || status == Some(
            Some(JobState::JobFailing),
        ),
        leader is Await <==> status == Some(Some(JobState::JobStopping)) || status == Some(
            Some(JobState::JobFinishing),
        ),
        leader matches LeaderCleanup::StopThenAwait(rest) ==> (rest == JobState::JobFailed
            <==> status == Some(Some(JobState::JobFailing))) && (rest == JobState::JobStopped
            <==> status == Some(Some(JobState::JobRunning))),
        leader matches LeaderCleanup::Await(rest) ==> (rest == JobState::JobFinished <==> status
            == Some(Some(JobState::JobFinishing))) && (rest == JobState::JobStopped <==> status
            == Some(Some(JobState::JobStopping))),
{
}

} // verus!
