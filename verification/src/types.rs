//! The plain values the controller's states are written in.

use vstd::prelude::*;

verus! {

/// A worker's identity within one job.
#[derive(Clone, Copy, Debug, PartialEq, Eq, Structural, Hash, PartialOrd, Ord)]
pub struct WorkerId(pub u64);

/// Which state backend a job's state is written with. Fixed for the life of an execution.
#[derive(Clone, Copy, Debug, PartialEq, Eq, Structural)]
pub enum StateBackendSelector {
    Parquet,
    StateEngine,
}

impl StateBackendSelector {
    /// The selector as it is persisted.
    pub open spec fn name(self) -> Seq<char> {
        match self {
            StateBackendSelector::Parquet => "parquet"@,
            StateBackendSelector::StateEngine => "stateengine"@,
        }
    }

    pub fn as_str(self) -> (r: &'static str)
        ensures
            r@ == self.name(),
    {
        match self {
            StateBackendSelector::Parquet => "parquet",
            StateBackendSelector::StateEngine => "stateengine",
        }
    }
}

/// How an operator asked a job to stop, if they did.
#[allow(non_camel_case_types)]
#[derive(Clone, Copy, Debug, PartialEq, Eq, Structural)]
pub enum StopMode {
    none,
    checkpoint,
    graceful,
    immediate,
    force,
}

/// Whether a restart takes a final checkpoint first.
#[allow(non_camel_case_types)]
#[derive(Clone, Copy, Debug, PartialEq, Eq, Structural)]
pub enum RestartMode {
    safe,
    force,
}

/// What an operator has asked of one job, as its row states it. Durations are in microseconds.
#[derive(Clone, Debug, PartialEq, Eq)]
pub struct JobConfig {
    pub id: String,
    pub organization_id: String,
    pub pipeline_name: String,
    pub pipeline_id: i64,
    pub stop_mode: StopMode,
    pub checkpoint_interval: u64,
    pub ttl: Option<u64>,
    /// Parallelism by node, where it is not the program's own.
    pub parallelism_overrides: Vec<(u32, usize)>,
    pub restart_nonce: i32,
    pub restart_mode: RestartMode,
    pub ignore_state_before_epoch: Option<i32>,
    /// The row's environment, as JSON text.
    pub env_vars: String,
    /// The row's scheduler configuration, as JSON text.
    pub scheduler_config: String,
    pub state_backend: StateBackendSelector,
}

/// A configuration as a value of the model.
#[verifier::ext_equal]
pub struct ConfigView {
    pub id: Seq<char>,
    pub organization_id: Seq<char>,
    pub pipeline_name: Seq<char>,
    pub pipeline_id: i64,
    pub stop_mode: StopMode,
    pub checkpoint_interval: u64,
    pub ttl: Option<u64>,
    pub parallelism_overrides: Seq<(u32, usize)>,
    pub restart_nonce: i32,
    pub restart_mode: RestartMode,
    pub ignore_state_before_epoch: Option<i32>,
    pub env_vars: Seq<char>,
    pub scheduler_config: Seq<char>,
    pub state_backend: StateBackendSelector,
}

impl View for JobConfig {
    type V = ConfigView;

    open spec fn view(&self) -> ConfigView {
        ConfigView {
            id: self.id@,
            organization_id: self.organization_id@,
            pipeline_name: self.pipeline_name@,
            pipeline_id: self.pipeline_id,
            stop_mode: self.stop_mode,
            checkpoint_interval: self.checkpoint_interval,
            ttl: self.ttl,
            parallelism_overrides: self.parallelism_overrides@,
            restart_nonce: self.restart_nonce,
            restart_mode: self.restart_mode,
            ignore_state_before_epoch: self.ignore_state_before_epoch,
            env_vars: self.env_vars@,
            scheduler_config: self.scheduler_config@,
            state_backend: self.state_backend,
        }
    }
}

fn same_overrides(left: &Vec<(u32, usize)>, right: &Vec<(u32, usize)>) -> (r: bool)
    ensures
        r == (left@ == right@),
{
    if left.len() != right.len() {
        return false;
    }
    let mut i: usize = 0;
    while i < left.len()
        invariant
            i <= left@.len() == right@.len(),
            forall|j: int| 0 <= j < i ==> left@[j] == right@[j],
        decreases left@.len() - i,
    {
        if left[i].0 != right[i].0 || left[i].1 != right[i].1 {
            return false;
        }
        i = i + 1;
    }
    assert(left@ =~= right@);
    true
}

fn copied_overrides(overrides: &Vec<(u32, usize)>) -> (r: Vec<(u32, usize)>)
    ensures
        r@ == overrides@,
{
    let mut r: Vec<(u32, usize)> = Vec::new();
    let mut i: usize = 0;
    while i < overrides.len()
        invariant
            i <= overrides@.len(),
            r@ == overrides@.take(i as int),
        decreases overrides@.len() - i,
    {
        r.push((overrides[i].0, overrides[i].1));
        assert(r@ =~= overrides@.take(i + 1));
        i = i + 1;
    }
    assert(overrides@.take(overrides@.len() as int) =~= overrides@);
    r
}

impl JobConfig {
    /// Whether two configurations ask for the same.
    pub fn same(&self, other: &JobConfig) -> (r: bool)
        ensures
            r == (self@ == other@),
    {
        self.id == other.id && self.organization_id == other.organization_id && self.pipeline_name
            == other.pipeline_name && self.pipeline_id == other.pipeline_id && self.stop_mode
            == other.stop_mode && self.checkpoint_interval == other.checkpoint_interval && self.ttl
            == other.ttl && same_overrides(
            &self.parallelism_overrides,
            &other.parallelism_overrides,
        ) && self.restart_nonce == other.restart_nonce && self.restart_mode == other.restart_mode
            && self.ignore_state_before_epoch == other.ignore_state_before_epoch && self.env_vars
            == other.env_vars && self.scheduler_config == other.scheduler_config
            && self.state_backend == other.state_backend
    }

    /// The same configuration again.
    pub fn copied(&self) -> (r: Self)
        ensures
            r@ == self@,
    {
        let parallelism_overrides = copied_overrides(&self.parallelism_overrides);
        JobConfig {
            id: self.id.clone(),
            organization_id: self.organization_id.clone(),
            pipeline_name: self.pipeline_name.clone(),
            pipeline_id: self.pipeline_id,
            stop_mode: self.stop_mode,
            checkpoint_interval: self.checkpoint_interval,
            ttl: self.ttl,
            parallelism_overrides,
            restart_nonce: self.restart_nonce,
            restart_mode: self.restart_mode,
            ignore_state_before_epoch: self.ignore_state_before_epoch,
            env_vars: self.env_vars.clone(),
            scheduler_config: self.scheduler_config.clone(),
            state_backend: self.state_backend,
        }
    }
}

/// One node of a job's program.
#[derive(Clone, Copy, Debug, PartialEq, Eq, Structural)]
pub struct ProgramNode {
    pub node_id: u32,
    pub parallelism: usize,
}

/// The parts of a job's program that scheduling reads: its nodes, in the graph's order, how many
/// tasks they come to, and what tells it from other programs.
#[derive(Clone, Debug, PartialEq, Eq)]
pub struct LogicalProgram {
    pub nodes: Vec<ProgramNode>,
    pub task_count: usize,
    /// What the whole program hashes to.
    pub hash: String,
}

impl LogicalProgram {
    /// Whether `other` is the same program.
    pub open spec fn same_as(self, other: LogicalProgram) -> bool {
        &&& other.nodes@ == self.nodes@
        &&& other.task_count == self.task_count
        &&& other.hash@ == self.hash@
    }

    /// The same program again.
    pub fn copied(&self) -> (r: Self)
        ensures
            self.same_as(r),
    {
        let mut nodes: Vec<ProgramNode> = Vec::new();
        let mut i: usize = 0;
        while i < self.nodes.len()
            invariant
                i <= self.nodes@.len(),
                nodes@ == self.nodes@.take(i as int),
            decreases self.nodes@.len() - i,
        {
            nodes.push(self.nodes[i]);
            assert(nodes@ =~= self.nodes@.take(i + 1));
            i = i + 1;
        }
        assert(self.nodes@.take(self.nodes@.len() as int) =~= self.nodes@);
        LogicalProgram { nodes, task_count: self.task_count, hash: self.hash.clone() }
    }
}

/// Two configurations are the same exactly where they agree field by field.
pub proof fn configurations_are_the_same_field_by_field(
    left: &JobConfig,
    right: &JobConfig,
    same: bool,
)
    requires
        call_ensures(JobConfig::same, (left, right), same),
    ensures
        same <==> left.id@ == right.id@ && left.organization_id@ == right.organization_id@
            && left.pipeline_name@ == right.pipeline_name@ && left.pipeline_id == right.pipeline_id
            && left.stop_mode == right.stop_mode && left.checkpoint_interval
            == right.checkpoint_interval && left.ttl == right.ttl
            && left.parallelism_overrides@ == right.parallelism_overrides@ && left.restart_nonce
            == right.restart_nonce && left.restart_mode == right.restart_mode
            && left.ignore_state_before_epoch == right.ignore_state_before_epoch && left.env_vars@
            == right.env_vars@ && left.scheduler_config@ == right.scheduler_config@
            && left.state_backend == right.state_backend,
{
    assert(same <==> left@ == right@);
    assert(left@.id == left.id@ && right@.id == right.id@);
}

/// A copied configuration is the one it was copied from.
pub proof fn a_copied_configuration_is_the_same(config: &JobConfig, copy: JobConfig, same: bool)
    requires
        call_ensures(JobConfig::copied, (config,), copy),
        call_ensures(JobConfig::same, (config, &copy), same),
    ensures
        same,
        copy.stop_mode == config.stop_mode,
        copy.restart_nonce == config.restart_nonce,
        copy.restart_mode == config.restart_mode,
        copy.ttl == config.ttl,
        copy.parallelism_overrides@ == config.parallelism_overrides@,
        copy.id@ == config.id@,
        copy.state_backend == config.state_backend,
{
    assert(copy@.stop_mode == config@.stop_mode);
}

/// A copied program has the nodes, the tasks and the hash of the one it was copied from.
pub proof fn a_copied_program_is_the_same(program: &LogicalProgram, copy: LogicalProgram)
    requires
        call_ensures(LogicalProgram::copied, (program,), copy),
    ensures
        copy.nodes@ == program.nodes@,
        copy.task_count == program.task_count,
        copy.hash@ == program.hash@,
{
}

/// A backend is persisted under its own name, and the two names differ.
pub proof fn backends_are_persisted_under_their_names(
    selector: StateBackendSelector,
    name: &'static str,
)
    requires
        call_ensures(StateBackendSelector::as_str, (selector,), name),
    ensures
        name@ == "parquet"@ <==> selector == StateBackendSelector::Parquet,
        name@ == "stateengine"@ <==> selector == StateBackendSelector::StateEngine,
{
    reveal_strlit("parquet");
    reveal_strlit("stateengine");
    assert("parquet"@.len() == 7);
    assert("stateengine"@.len() == 11);
}

} // verus!
