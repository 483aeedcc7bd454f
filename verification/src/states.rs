//! Where a job's states lead, and how they fail.

use crate::recovering::Recovering;
use crate::rescaling::Rescaling;
use crate::restarting::Restarting;
use crate::running::Running;
use crate::scheduling::Scheduling;
use crate::types::{JobConfig, StopMode};
use vstd::prelude::*;

verus! {

/// The states this crate decides for, by name.
#[derive(Clone, Copy, Debug, PartialEq, Eq, Structural)]
pub enum StateName {
    Scheduling,
    Running,
    Restarting,
    Rescaling,
    Recovering,
}

impl StateName {
    /// The name a state is known by, in logs and in the job's status row.
    pub open spec fn name(self) -> Seq<char> {
        match self {
            StateName::Scheduling => "Scheduling"@,
            StateName::Running => "Running"@,
            StateName::Restarting => "Restarting"@,
            StateName::Rescaling => "Rescaling"@,
            StateName::Recovering => "Recovering"@,
        }
    }

    pub fn as_str(self) -> (r: &'static str)
        ensures
            r@ == self.name(),
    {
        match self {
            StateName::Scheduling => "Scheduling",
            StateName::Running => "Running",
            StateName::Restarting => "Restarting",
            StateName::Rescaling => "Rescaling",
            StateName::Recovering => "Recovering",
        }
    }
}

/// Whose fault an error is.
#[derive(Clone, Copy, Debug, PartialEq, Eq, Structural)]
pub enum ErrorDomain {
    Internal,
    External,
    User,
}

/// Whether a fatal error is about the row the job is configured by.
#[derive(Clone, Copy, Debug, PartialEq, Eq, Structural)]
pub enum FatalProvenance {
    Unrelated,
    Configuration,
}

/// How a state failed.
#[derive(Clone, Debug, PartialEq, Eq)]
pub enum StateError {
    /// The job fails.
    FatalError {
        message: String,
        domain: ErrorDomain,
        source: String,
        provenance: FatalProvenance,
    },
    /// The state is run again, up to a number of times.
    RetryableError { state: StateName, message: String, source: String, retries: usize },
}

impl StateError {
    /// Whether this is the ordinary fatal error with these texts.
    pub open spec fn fatal_with(self, message: Seq<char>, source: Seq<char>) -> bool {
        self matches StateError::FatalError { message: m, domain, source: s, provenance } && {
            &&& m@ == message
            &&& s@ == source
            &&& domain == ErrorDomain::Internal
            &&& provenance == FatalProvenance::Unrelated
        }
    }

    /// Whether this retries `state` up to `retries` times, with these texts.
    pub open spec fn retryable_with(
        self,
        state: StateName,
        message: Seq<char>,
        source: Seq<char>,
        retries: nat,
    ) -> bool {
        self matches StateError::RetryableError { state: n, message: m, source: s, retries: r } && {
            &&& n == state
            &&& m@ == message
            &&& s@ == source
            &&& r == retries
        }
    }
}

/// An error that fails the job.
pub fn fatal(message: &str, source: String) -> (r: StateError)
    ensures
        r.fatal_with(message@, source@),
{
    StateError::FatalError {
        message: message.to_owned(),
        domain: ErrorDomain::Internal,
        source,
        provenance: FatalProvenance::Unrelated,
    }
}

/// An error after which `state` is run again.
pub fn retryable(state: StateName, message: &str, source: String, retries: usize) -> (r: StateError)
    ensures
        r.retryable_with(state, message@, source@, retries as nat),
{
    StateError::RetryableError { state, message: message.to_owned(), source, retries }
}

/// How far a stop goes.
#[derive(Clone, Copy, Debug, PartialEq, Eq, Structural)]
pub enum StopBehavior {
    /// The job finishes what it has in flight.
    StopJobGraceful,
    /// The job ends at once.
    StopJobImmediate,
    /// The job's workers are stopped without asking the job.
    StopWorkers,
}

/// A state a job can be sent to.
#[derive(Clone, Debug, PartialEq, Eq)]
pub enum NextState {
    Compiling,
    Scheduling(Scheduling),
    Running(Running),
    LeaderRunning,
    Restarting(Restarting),
    Rescaling(Rescaling),
    Recovering(Recovering),
    Finishing,
    CheckpointStopping,
    Stopping { stop_mode: StopBehavior },
}

/// Where a state leads.
#[derive(Clone, Debug, PartialEq, Eq)]
pub enum Transition {
    /// To another state.
    Advance(NextState),
    /// Nowhere: this controller's task for the job ends.
    Stop,
}

/// Where a stop of a running job leads, if `mode` asks for one.
pub open spec fn stop_of_running(mode: StopMode) -> Option<Transition> {
    match mode {
        StopMode::none => None,
        StopMode::checkpoint => Some(Transition::Advance(NextState::CheckpointStopping)),
        StopMode::graceful => Some(
            Transition::Advance(NextState::Stopping { stop_mode: StopBehavior::StopJobGraceful }),
        ),
        StopMode::immediate => Some(
            Transition::Advance(NextState::Stopping { stop_mode: StopBehavior::StopJobImmediate }),
        ),
        StopMode::force => Some(
            Transition::Advance(NextState::Stopping { stop_mode: StopBehavior::StopWorkers }),
        ),
    }
}

/// Where a stop of a job that is not running leads, if `mode` asks for one: no final checkpoint
/// is possible, so every mode but a forced one is an immediate stop.
pub open spec fn stop_of_not_running(mode: StopMode) -> Option<Transition> {
    match mode {
        StopMode::none => None,
        StopMode::checkpoint | StopMode::graceful | StopMode::immediate => Some(
            Transition::Advance(NextState::Stopping { stop_mode: StopBehavior::StopJobImmediate }),
        ),
        StopMode::force => Some(
            Transition::Advance(NextState::Stopping { stop_mode: StopBehavior::StopWorkers }),
        ),
    }
}

/// Where a running job goes if its configuration asks it to stop.
pub fn stop_if_desired_running(config: &JobConfig) -> (r: Option<Transition>)
    ensures
        r == stop_of_running(config.stop_mode),
{
    match config.stop_mode {
        StopMode::none => None,
        StopMode::checkpoint => Some(Transition::Advance(NextState::CheckpointStopping)),
        StopMode::graceful => Some(
            Transition::Advance(NextState::Stopping { stop_mode: StopBehavior::StopJobGraceful }),
        ),
        StopMode::immediate => Some(
            Transition::Advance(NextState::Stopping { stop_mode: StopBehavior::StopJobImmediate }),
        ),
        StopMode::force => Some(
            Transition::Advance(NextState::Stopping { stop_mode: StopBehavior::StopWorkers }),
        ),
    }
}

/// Where a job that is not running goes if its configuration asks it to stop.
pub fn stop_if_desired_non_running(config: &JobConfig) -> (r: Option<Transition>)
    ensures
        r == stop_of_not_running(config.stop_mode),
{
    match config.stop_mode {
        StopMode::none => None,
        StopMode::checkpoint | StopMode::graceful | StopMode::immediate => Some(
            Transition::Advance(NextState::Stopping { stop_mode: StopBehavior::StopJobImmediate }),
        ),
        StopMode::force => Some(
            Transition::Advance(NextState::Stopping { stop_mode: StopBehavior::StopWorkers }),
        ),
    }
}

/// What a state does about a stop that was decided before it ran.
#[derive(Clone, Debug, PartialEq, Eq)]
pub enum LeavingForStop<S> {
    /// It leaves for this.
    Leaves(Transition),
    /// It runs, because no stop is asked for or because it reaches the stop by its own route.
    Stays(S),
}

/// What the state of a running job does about a stop.
pub fn leaves_running<S>(state: S, config: &JobConfig) -> (r: LeavingForStop<S>)
    ensures
        r == (match stop_of_running(config.stop_mode) {
            Some(stop) => LeavingForStop::Leaves(stop),
            None => LeavingForStop::Stays(state),
        }),
{
    match stop_if_desired_running(config) {
        Some(stop) => LeavingForStop::Leaves(stop),
        None => LeavingForStop::Stays(state),
    }
}

/// What the state of a job that is not running does about a stop.
pub fn leaves_not_running<S>(state: S, config: &JobConfig) -> (r: LeavingForStop<S>)
    ensures
        r == (match stop_of_not_running(config.stop_mode) {
            Some(stop) => LeavingForStop::Leaves(stop),
            None => LeavingForStop::Stays(state),
        }),
{
    match stop_if_desired_non_running(config) {
        Some(stop) => LeavingForStop::Leaves(stop),
        None => LeavingForStop::Stays(state),
    }
}

/// Both rules stop on the same modes: a job is never left running by one and stopped by the
/// other.
pub proof fn stopping_does_not_depend_on_the_state(mode: StopMode)
    ensures
        stop_of_running(mode) is Some <==> mode != StopMode::none,
        stop_of_not_running(mode) is Some <==> mode != StopMode::none,
{
}

/// A job is stopped exactly where a stop is asked for. A running job and one that does not run stop
/// differently only where a running one can still finish something first: it takes a checkpoint, or
/// drains, where the other is stopped at once.
pub proof fn a_running_job_alone_finishes_before_it_stops(
    config: &JobConfig,
    running: Option<Transition>,
    not_running: Option<Transition>,
)
    requires
        call_ensures(stop_if_desired_running, (config,), running),
        call_ensures(stop_if_desired_non_running, (config,), not_running),
    ensures
        running is None <==> config.stop_mode == StopMode::none,
        not_running is None <==> config.stop_mode == StopMode::none,
        config.stop_mode == StopMode::force || config.stop_mode == StopMode::immediate
            || config.stop_mode == StopMode::none <==> running == not_running,
        not_running matches Some(stop) ==> stop == Transition::Advance(
            NextState::Stopping {
                stop_mode: if config.stop_mode == StopMode::force {
                    StopBehavior::StopWorkers
                } else {
                    StopBehavior::StopJobImmediate
                },
            },
        ),
        running == Some(Transition::Advance(NextState::CheckpointStopping)) <==> config.stop_mode
            == StopMode::checkpoint,
        running == Some(
            Transition::Advance(NextState::Stopping { stop_mode: StopBehavior::StopJobGraceful }),
        ) <==> config.stop_mode == StopMode::graceful,
{
}

/// A state leaves before it runs exactly where its configuration asks it to stop, for the very stop
/// it would come to; otherwise it is what it was. Only a job that is being recovered stays
/// regardless.
pub proof fn a_state_leaves_for_the_stop_it_would_come_to(
    config: &JobConfig,
    running_stop: Option<Transition>,
    other_stop: Option<Transition>,
    running: LeavingForStop<Running>,
    scheduling: LeavingForStop<Scheduling>,
    restarting: Restarting,
    restarted: LeavingForStop<Restarting>,
    rescaling: LeavingForStop<Rescaling>,
    recovering: Recovering,
    recovered: LeavingForStop<Recovering>,
)
    requires
        call_ensures(stop_if_desired_running, (config,), running_stop),
        call_ensures(stop_if_desired_non_running, (config,), other_stop),
        call_ensures(Running::leave_for_stop, (Running {  }, config), running),
        call_ensures(Scheduling::leave_for_stop, (Scheduling {  }, config), scheduling),
        call_ensures(Restarting::leave_for_stop, (restarting, config), restarted),
        call_ensures(Rescaling::leave_for_stop, (Rescaling {  }, config), rescaling),
        call_ensures(Recovering::leave_for_stop, (recovering, config), recovered),
    ensures
        running_stop is Some ==> running == LeavingForStop::<Running>::Leaves(running_stop->0),
        running_stop is None ==> running == LeavingForStop::Stays(Running {  }),
        other_stop is Some ==> scheduling == LeavingForStop::<Scheduling>::Leaves(other_stop->0)
            && restarted == LeavingForStop::<Restarting>::Leaves(other_stop->0) && rescaling
            == LeavingForStop::<Rescaling>::Leaves(other_stop->0),
        other_stop is None ==> scheduling == LeavingForStop::Stays(Scheduling {  }) && restarted
            == LeavingForStop::Stays(restarting) && rescaling == LeavingForStop::Stays(
            Rescaling {  },
        ),
        recovered == LeavingForStop::Stays(recovering),
{
}

/// An error says what it was made to say. A fatal one is never retried, and a retryable one is
/// retried in the state and as often as it says.
pub proof fn an_error_says_what_it_was_made_of(
    state: StateName,
    message: &str,
    source: String,
    retries: usize,
    failed: StateError,
    retried: StateError,
)
    requires
        call_ensures(fatal, (message, source), failed),
        call_ensures(retryable, (state, message, source, retries), retried),
    ensures
        failed is FatalError,
        failed->FatalError_message@ == message@,
        failed->FatalError_source@ == source@,
        failed->domain == ErrorDomain::Internal,
        failed->provenance == FatalProvenance::Unrelated,
        retried is RetryableError,
        retried->state == state,
        retried->RetryableError_message@ == message@,
        retried->RetryableError_source@ == source@,
        retried->retries == retries,
{
}

/// Every state is known by its own name, and no two share one.
pub proof fn states_are_known_by_their_names(
    state: StateName,
    other: StateName,
    name: &'static str,
    other_name: &'static str,
)
    requires
        call_ensures(StateName::as_str, (state,), name),
        call_ensures(StateName::as_str, (other,), other_name),
    ensures
        name@ == other_name@ <==> state == other,
        state == StateName::Scheduling ==> name@ == "Scheduling"@,
        state == StateName::Running ==> name@ == "Running"@,
        state == StateName::Restarting ==> name@ == "Restarting"@,
        state == StateName::Rescaling ==> name@ == "Rescaling"@,
        state == StateName::Recovering ==> name@ == "Recovering"@,
{
    reveal_strlit("Scheduling");
    reveal_strlit("Running");
    reveal_strlit("Restarting");
    reveal_strlit("Rescaling");
    reveal_strlit("Recovering");
    assert(StateName::Scheduling.name()[0] == 'S');
    assert(StateName::Running.name()[1] == 'u');
    assert(StateName::Restarting.name()[2] == 's');
    assert(StateName::Restarting.name()[3] == 't');
    assert(StateName::Rescaling.name()[2] == 's');
    assert(StateName::Rescaling.name()[3] == 'c');
    assert(StateName::Recovering.name()[2] == 'c');
}

/// A state that leaves for a stop leaves for the one its rule gives, and one that does not stays
/// what it was.
pub proof fn a_state_that_does_not_leave_stays_what_it_was<S>(
    state: S,
    config: &JobConfig,
    running: LeavingForStop<S>,
    not_running: LeavingForStop<S>,
    running_stop: Option<Transition>,
    not_running_stop: Option<Transition>,
)
    requires
        call_ensures(leaves_running::<S>, (state, config), running),
        call_ensures(leaves_not_running::<S>, (state, config), not_running),
        call_ensures(stop_if_desired_running, (config,), running_stop),
        call_ensures(stop_if_desired_non_running, (config,), not_running_stop),
    ensures
        running == (match running_stop {
            Some(stop) => LeavingForStop::Leaves(stop),
            None => LeavingForStop::Stays(state),
        }),
        not_running == (match not_running_stop {
            Some(stop) => LeavingForStop::Leaves(stop),
            None => LeavingForStop::Stays(state),
        }),
        running is Stays <==> config.stop_mode == StopMode::none,
        not_running is Stays <==> config.stop_mode == StopMode::none,
{
}

} // verus!
