//! Placing a job's program on workers and starting it.

use crate::states::{
    leaves_not_running, LeavingForStop, NextState, StateName, StopBehavior, Transition,
};
use crate::types::{JobConfig, StopMode};
use vstd::prelude::*;

pub mod assignments;
pub mod checkpoint;
pub mod connect;
pub mod context;
pub mod discharge;
pub mod execution;
pub mod fanout;
pub mod handover;
pub mod observation;
pub mod phases;
pub mod plan;
pub mod restore;
pub mod rooting;
pub mod start_execution;
pub mod start_workers;
pub mod tasks;
pub mod unfenced;
pub mod workers;

verus! {

/// A job that is about to be placed on workers.
#[derive(Clone, Copy, Debug, PartialEq, Eq, Structural)]
pub struct Scheduling {}

/// Which body runs a state.
#[derive(Clone, Copy, Debug, PartialEq, Eq, Structural)]
pub enum StateBody {
    /// The phases of a fenced scheduling attempt.
    PhaseGraph,
    /// The state's own.
    Own,
}

/// Which body runs `state`: the phase graph for scheduling a job whose lifecycle is fenced, and
/// the state's own for everything else.
pub fn run_state_body(state: StateName, runs_fenced_lifecycle: bool) -> (r: StateBody)
    ensures
        r == (if state == StateName::Scheduling && runs_fenced_lifecycle {
            StateBody::PhaseGraph
        } else {
            StateBody::Own
        }),
{
    if state == StateName::Scheduling && runs_fenced_lifecycle {
        return StateBody::PhaseGraph;
    }
    StateBody::Own
}

impl Scheduling {
    pub fn name(&self) -> (r: &'static str)
        ensures
            r@ == StateName::Scheduling.name(),
    {
        StateName::Scheduling.as_str()
    }

    /// Leaves if a stop is asked for.
    pub fn leave_for_stop(self, config: &JobConfig) -> (r: LeavingForStop<Self>)
        ensures
            r == (match crate::states::stop_of_not_running(config.stop_mode) {
                Some(stop) => LeavingForStop::Leaves(stop),
                None => LeavingForStop::Stays(self),
            }),
    {
        leaves_not_running(self, config)
    }
}

/// A phase graph runs exactly where a job whose lifecycle is fenced is scheduled.
pub proof fn only_fenced_scheduling_runs_in_phases(
    state: StateName,
    runs_fenced_lifecycle: bool,
    body: StateBody,
)
    requires
        call_ensures(run_state_body, (state, runs_fenced_lifecycle), body),
    ensures
        body is PhaseGraph <==> runs_fenced_lifecycle && state is Scheduling,
{
}

/// A job that is being scheduled leaves exactly where its configuration asks it to stop: through its
/// workers where the stop is forced, at once otherwise. It is known by its state's name.
pub proof fn a_job_being_scheduled_leaves_where_it_is_asked_to_stop(
    scheduling: Scheduling,
    config: &JobConfig,
    r: LeavingForStop<Scheduling>,
    name: &'static str,
)
    requires
        call_ensures(Scheduling::leave_for_stop, (scheduling, config), r),
        call_ensures(Scheduling::name, (&scheduling,), name),
    ensures
        name@ == "Scheduling"@,
        r is Stays <==> config.stop_mode == StopMode::none,
        r matches LeavingForStop::Leaves(stop) ==> stop == Transition::Advance(
            NextState::Stopping {
                stop_mode: if config.stop_mode == StopMode::force {
                    StopBehavior::StopWorkers
                } else {
                    StopBehavior::StopJobImmediate
                },
            },
        ),
{
}

} // verus!
