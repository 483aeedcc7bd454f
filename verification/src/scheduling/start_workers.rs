//! Asking the scheduler for workers, and the environment they start in.

use crate::job::JobContext;
use crate::states::{fatal, retryable, StateError, StateName};
use crate::text;
use crate::types::LogicalProgram;
use std::collections::BTreeMap;
use vstd::prelude::*;
use vstd::string::*;

verus! {

/// The variable that tells a worker where the job's checkpoints are.
pub const CHECKPOINT_URL_ENV: &'static str = "ARROYO__CHECKPOINT_URL";

/// The variables a JSON object of texts holds, by ascending name, or why the text is none: what
/// `serde_json::from_value` makes of the value a text denotes.
pub uninterp spec fn variables_in(text: Seq<char>) -> Result<
    Seq<(Seq<char>, Seq<char>)>,
    Seq<char>,
>;

/// Variables as values of the model.
pub open spec fn pairs_of(variables: Seq<(String, String)>) -> Seq<(Seq<char>, Seq<char>)> {
    Seq::new(variables.len(), |i: int| (variables[i].0@, variables[i].1@))
}

/// `serde_json::from_value`, into a map of texts to texts, of the value that `serde_json::from_str`
/// reads in the text. The result is a function of the text; on failure it is the error as it
/// prints.
#[verifier::external_body]
fn read_variables(text: &str) -> (r: Result<Vec<(String, String)>, String>)
    ensures
        match r {
            Ok(variables) => variables_in(text@) == Ok::<_, Seq<char>>(pairs_of(variables@)),
            Err(report) => variables_in(text@) == Err::<Seq<(Seq<char>, Seq<char>)>, _>(report@),
        },
{
    let value = serde_json::from_str::<serde_json::Value>(text).map_err(|e| e.to_string())?;
    serde_json::from_value::<BTreeMap<String, String>>(value)
        .map(|variables| variables.into_iter().collect())
        .map_err(|e| e.to_string())
}

/// The environment some variables make: where one is given twice, the later value counts.
pub open spec fn environment_of(variables: Seq<(Seq<char>, Seq<char>)>) -> Map<
    Seq<char>,
    Seq<char>,
>
    decreases variables.len(),
{
    if variables.len() == 0 {
        Map::empty()
    } else {
        environment_of(variables.drop_last()).insert(variables.last().0, variables.last().1)
    }
}

/// Sets one variable, in place of any value it had.
fn with_variable(variables: Vec<(String, String)>, name: &str, value: String) -> (r: Vec<
    (String, String),
>)
    ensures
        environment_of(pairs_of(r@)) == environment_of(pairs_of(variables@)).insert(name@, value@),
{
    let mut r: Vec<(String, String)> = Vec::new();
    let mut i: usize = 0;
    while i < variables.len()
        invariant
            i <= variables@.len(),
            environment_of(pairs_of(r@)) =~= environment_of(
                pairs_of(variables@.take(i as int)),
            ).remove(name@),
        decreases variables@.len() - i,
    {
        let ghost before = pairs_of(r@);
        proof {
            let taken = pairs_of(variables@.take(i + 1));
            assert(taken.drop_last() =~= pairs_of(variables@.take(i as int)));
        }
        if !text::same(variables[i].0.as_str(), name) {
            r.push((variables[i].0.clone(), variables[i].1.clone()));
            assert(pairs_of(r@).drop_last() =~= before);
        }
        i = i + 1;
    }
    assert(variables@.take(variables@.len() as int) =~= variables@);
    let ghost before = pairs_of(r@);
    r.push((name.to_owned(), value));
    assert(pairs_of(r@).drop_last() =~= before);
    assert(environment_of(pairs_of(r@)) =~= environment_of(pairs_of(variables@)).insert(
        name@,
        value@,
    ));
    r
}

/// The environment a job's workers start in: the job's own variables, with the two the controller
/// reserves set over any value the job gave them.
fn worker_environment(
    variables: Vec<(String, String)>,
    checkpoint_url: String,
    cluster_id_env: &str,
    cluster_id: String,
) -> (r: Vec<(String, String)>)
    ensures
        environment_of(pairs_of(r@)) == environment_of(pairs_of(variables@)).insert(
            CHECKPOINT_URL_ENV@,
            checkpoint_url@,
        ).insert(cluster_id_env@, cluster_id@),
{
    let variables = with_variable(variables, CHECKPOINT_URL_ENV, checkpoint_url);
    with_variable(variables, cluster_id_env, cluster_id)
}

/// What a job whose environment does not read fails with.
pub open spec fn malformed_environment(report: Seq<char>) -> Seq<char> {
    "failed to deserialize env_vars from job_configs: "@ + report
}

/// Reads the job's own variables, or fails the job.
fn job_variables(env_vars: &str) -> (r: Result<Vec<(String, String)>, StateError>)
    ensures
        match variables_in(env_vars@) {
            Ok(variables) => r matches Ok(read) && pairs_of(read@) == variables,
            Err(report) => r matches Err(e) && e.fatal_with(
                malformed_environment(report),
                "malformed env_vars in job_configs row"@,
            ),
        },
{
    read_job_variables(read_variables(env_vars))
}

/// What reading the job's own variables comes to.
pub fn read_job_variables(read: Result<Vec<(String, String)>, String>) -> (r: Result<
    Vec<(String, String)>,
    StateError,
>)
    ensures
        match read {
            Ok(variables) => r == Ok::<_, StateError>(variables),
            Err(report) => r matches Err(e) && e.fatal_with(
                malformed_environment(report@),
                "malformed env_vars in job_configs row"@,
            ),
        },
{
    match read {
        Ok(variables) => Ok(variables),
        Err(report) => {
            let mut message = "failed to deserialize env_vars from job_configs: ".to_owned();
            message.append(report.as_str());
            Err(fatal(message.as_str(), "malformed env_vars in job_configs row".to_owned()))
        },
    }
}

/// Where the job's checkpoints are: its own store, or the cluster's.
fn checkpoint_url(state_url: Option<String>, cluster_url: String) -> (r: String)
    ensures
        r@ == (match state_url {
            Some(url) => url@,
            None => cluster_url@,
        }),
{
    match state_url {
        Some(url) => url,
        None => cluster_url,
    }
}

fn copied_pairs(pairs: &Vec<(String, String)>) -> (r: Vec<(String, String)>)
    ensures
        pairs_of(r@) == pairs_of(pairs@),
{
    let mut r: Vec<(String, String)> = Vec::new();
    let mut i: usize = 0;
    while i < pairs.len()
        invariant
            i <= pairs@.len(),
            r@.len() == i,
            forall|j: int|
                0 <= j < i ==> (#[trigger] r@[j]).0@ == pairs@[j].0@ && r@[j].1@ == pairs@[j].1@,
        decreases pairs@.len() - i,
    {
        r.push((pairs[i].0.clone(), pairs[i].1.clone()));
        i = i + 1;
    }
    assert(pairs_of(r@) =~= pairs_of(pairs@));
    r
}

/// How long the scheduler is given before it is asked again, in seconds.
pub const ASK_AGAIN_SECONDS: u64 = 1;

/// What the scheduler can refuse workers with.
#[derive(Debug, PartialEq, Eq)]
pub enum SchedulerError {
    NotEnoughSlots { slots_needed: usize },
    Other(String),
    Fatal(String),
}

/// What the scheduler is asked for.
#[derive(Debug, PartialEq, Eq)]
pub struct StartPipelineReq {
    pub program: LogicalProgram,
    pub wasm_path: String,
    pub pipeline_id: String,
    pub organization_id: String,
    pub job_id: String,
    pub generation: u64,
    pub name: String,
    /// What the program hashes to.
    pub hash: String,
    pub slots: usize,
    pub env_vars: Vec<(String, String)>,
    pub pipeline_tags: Vec<(String, String)>,
    /// The row's scheduler configuration, as JSON text.
    pub scheduler_config: String,
}

/// What the cluster, rather than the job, says about its workers' environment.
#[derive(Debug)]
pub struct ClusterEnvironment {
    /// The job's own store of checkpoints, where it has one.
    pub state_url: Option<String>,
    /// The cluster's store of checkpoints.
    pub checkpoint_url: String,
    /// The variable that names the cluster to a worker.
    pub cluster_id_env: String,
    pub cluster_id: String,
}

/// Whether `request` asks for `job`'s workers, with this many slots.
pub open spec fn asks_for(request: StartPipelineReq, job: JobContext, slots: usize) -> bool {
    &&& request.program.nodes@ == job.program.nodes@
    &&& request.program.task_count == job.program.task_count
    &&& request.wasm_path@ == ""@
    &&& request.pipeline_id@ == job.pipeline_id@
    &&& request.organization_id@ == job.config.organization_id@
    &&& request.job_id@ == job.config.id@
    &&& request.generation == job.status.generation
    &&& request.program.hash@ == job.program.hash@
    &&& request.name@ == job.config.pipeline_name@
    &&& request.hash@ == job.program.hash@
    &&& request.slots == slots
    &&& pairs_of(request.pipeline_tags@) == pairs_of(job.pipeline_tags@)
    &&& request.scheduler_config@ == job.config.scheduler_config@
}

/// The environment workers start in, given the job's own variables.
pub open spec fn environment_in(
    variables: Seq<(Seq<char>, Seq<char>)>,
    cluster: ClusterEnvironment,
) -> Map<Seq<char>, Seq<char>> {
    environment_of(variables).insert(
        CHECKPOINT_URL_ENV@,
        match cluster.state_url {
            Some(url) => url@,
            None => cluster.checkpoint_url@,
        },
    ).insert(cluster.cluster_id_env@, cluster.cluster_id@)
}

/// A job's request for workers, until the scheduler grants or refuses it.
#[derive(Debug)]
pub struct StartingWorkers {
    request: StartPipelineReq,
}

/// What is left to do about a request for workers.
#[derive(Debug)]
pub enum StartWorkersStep {
    Started,
    /// Ask again for the same, after a pause.
    AskAgain(StartingWorkers),
}

impl View for StartingWorkers {
    type V = StartPipelineReq;

    closed spec fn view(&self) -> StartPipelineReq {
        self.request
    }
}

impl StartingWorkers {
    /// The request for a job's workers. A job whose own environment does not read fails.
    pub fn for_job(job: &JobContext, slots: usize, cluster: ClusterEnvironment) -> (r: Result<
        Self,
        StateError,
    >)
        ensures
            match variables_in(job.config.env_vars@) {
                Ok(variables) => r matches Ok(starting) && asks_for(starting@, *job, slots)
                    && environment_of(pairs_of(starting@.env_vars@)) == environment_in(
                    variables,
                    cluster,
                ),
                Err(report) => r matches Err(e) && e.fatal_with(
                    malformed_environment(report),
                    "malformed env_vars in job_configs row"@,
                ),
            },
    {
        match job_variables(job.config.env_vars.as_str()) {
            Err(e) => Err(e),
            Ok(variables) => Ok(Self::with_variables(job, slots, variables, cluster)),
        }
    }

    /// The request for a job's workers, given the job's own variables.
    pub fn with_variables(
        job: &JobContext,
        slots: usize,
        variables: Vec<(String, String)>,
        cluster: ClusterEnvironment,
    ) -> (r: Self)
        ensures
            asks_for(r@, *job, slots),
            environment_of(pairs_of(r@.env_vars@)) == environment_in(
                pairs_of(variables@),
                cluster,
            ),
    {
        let url = checkpoint_url(cluster.state_url, cluster.checkpoint_url);
        let env_vars = worker_environment(
            variables,
            url,
            cluster.cluster_id_env.as_str(),
            cluster.cluster_id,
        );
        StartingWorkers {
            request: StartPipelineReq {
                program: job.program.copied(),
                wasm_path: "".to_owned(),
                pipeline_id: job.pipeline_id.clone(),
                organization_id: job.config.organization_id.clone(),
                job_id: job.config.id.clone(),
                generation: job.status.generation,
                name: job.config.pipeline_name.clone(),
                hash: job.program.hash.clone(),
                slots,
                env_vars,
                pipeline_tags: copied_pairs(&job.pipeline_tags),
                scheduler_config: job.config.scheduler_config.clone(),
            },
        }
    }

    /// What the scheduler is asked for.
    pub fn request(&self) -> (r: &StartPipelineReq)
        ensures
            *r == self@,
    {
        &self.request
    }

    /// Reads the scheduler's answer, `elapsed` into a budget of `startup_time`. A cluster without
    /// enough slots is asked again until the budget is spent.
    pub fn answered(
        self,
        answer: Result<(), SchedulerError>,
        elapsed: u64,
        startup_time: u64,
    ) -> (r: Result<StartWorkersStep, StateError>)
        ensures
            match answer {
                Ok(()) => r matches Ok(StartWorkersStep::Started),
                Err(SchedulerError::NotEnoughSlots { .. }) => if elapsed > startup_time {
                    r matches Err(e) && e.fatal_with(
                        "Not enough slots to schedule job"@,
                        "scheduler error -- needed "@ + text::decimal_digits(self@.slots as nat)
                            + " slots"@,
                    )
                } else {
                    r matches Ok(StartWorkersStep::AskAgain(again)) && again@ == self@
                },
                Err(SchedulerError::Other(s)) => r matches Err(e) && e.retryable_with(
                    StateName::Scheduling,
                    "encountered error during scheduling"@,
                    "scheduling error: "@ + s@,
                    20,
                ),
                Err(SchedulerError::Fatal(s)) => r matches Err(e) && e.fatal_with(
                    "scheduling failed: "@ + s@,
                    "non-retryable scheduling error: "@ + s@,
                ),
            },
    {
        match answer {
            Ok(()) => Ok(StartWorkersStep::Started),
            Err(SchedulerError::NotEnoughSlots { .. }) => {
                if elapsed > startup_time {
                    let mut source = "scheduler error -- needed ".to_owned();
                    let digits = text::decimal(self.request.slots as u64);
                    source.append(digits.as_str());
                    source.append(" slots");
                    return Err(fatal("Not enough slots to schedule job", source));
                }
                Ok(StartWorkersStep::AskAgain(self))
            },
            Err(SchedulerError::Other(s)) => {
                let mut source = "scheduling error: ".to_owned();
                source.append(s.as_str());
                Err(
                    retryable(
                        StateName::Scheduling,
                        "encountered error during scheduling",
                        source,
                        20,
                    ),
                )
            },
            Err(SchedulerError::Fatal(s)) => {
                let mut message = "scheduling failed: ".to_owned();
                message.append(s.as_str());
                let mut source = "non-retryable scheduling error: ".to_owned();
                source.append(s.as_str());
                Err(fatal(message.as_str(), source))
            },
        }
    }
}

/// Whatever a job's own variables say, its workers are told where its checkpoints are and, where
/// the two have different names, which cluster they belong to, by the controller.
pub proof fn reserved_variables_are_the_controllers(
    variables: Seq<(Seq<char>, Seq<char>)>,
    cluster: ClusterEnvironment,
)
    ensures
        environment_in(variables, cluster)[cluster.cluster_id_env@] == cluster.cluster_id@,
        cluster.cluster_id_env@ != CHECKPOINT_URL_ENV@ ==> environment_in(
            variables,
            cluster,
        )[CHECKPOINT_URL_ENV@] == (match cluster.state_url {
            Some(url) => url@,
            None => cluster.checkpoint_url@,
        }),
        forall|name: Seq<char>|
            name != CHECKPOINT_URL_ENV@ && name != cluster.cluster_id_env@ ==> #[trigger]
            environment_in(variables, cluster).contains_key(name) == environment_of(
                variables,
            ).contains_key(name) && environment_in(variables, cluster)[name] == environment_of(
                variables,
            )[name],
{
}

/// A job's workers are asked for as the job's own: for its generation, its program and its pipeline,
/// with the slots it needs and the tags it has, and an unanswered request is asked again unchanged.
pub proof fn workers_are_asked_for_as_the_jobs_own(
    job: &JobContext,
    slots: usize,
    variables: Vec<(String, String)>,
    cluster: ClusterEnvironment,
    starting: StartingWorkers,
    request: &StartPipelineReq,
)
    requires
        call_ensures(
            StartingWorkers::with_variables,
            (job, slots, variables, cluster),
            starting,
        ),
        call_ensures(StartingWorkers::request, (&starting,), request),
    ensures
        request.job_id@ == job.config.id@,
        request.pipeline_id@ == job.pipeline_id@,
        request.organization_id@ == job.config.organization_id@,
        request.name@ == job.config.pipeline_name@,
        request.generation == job.status.generation,
        request.slots == slots,
        request.program.nodes@ == job.program.nodes@,
        request.program.task_count == job.program.task_count,
        request.program.hash@ == job.program.hash@,
        request.hash@ == job.program.hash@,
        request.scheduler_config@ == job.config.scheduler_config@,
        request.wasm_path@.len() == 0,
        request.pipeline_tags@.len() == job.pipeline_tags@.len(),
        forall|i: int|
            0 <= i < request.pipeline_tags@.len() ==> (#[trigger] request.pipeline_tags@[i]).0@
                == job.pipeline_tags@[i].0@ && request.pipeline_tags@[i].1@
                == job.pipeline_tags@[i].1@,
{
    reveal_strlit("");
    let told = pairs_of(request.pipeline_tags@);
    let own = pairs_of(job.pipeline_tags@);
    assert(told.len() == own.len());
    assert forall|i: int| 0 <= i < request.pipeline_tags@.len() implies (
    #[trigger] request.pipeline_tags@[i]).0@ == job.pipeline_tags@[i].0@
        && request.pipeline_tags@[i].1@ == job.pipeline_tags@[i].1@ by {
        assert(told[i] == own[i]);
    }
}

/// The value some variables give a name, the last one counting.
proof fn a_name_has_its_last_value(variables: Seq<(String, String)>, name: Seq<char>)
    ensures
        environment_of(pairs_of(variables)).contains_key(name) <==> exists|i: int|
            0 <= i < variables.len() && (#[trigger] variables[i]).0@ == name,
        forall|i: int|
            0 <= i < variables.len() && (#[trigger] variables[i]).0@ == name && (forall|j: int|
                i < j < variables.len() ==> (#[trigger] variables[j]).0@ != name)
                ==> environment_of(pairs_of(variables))[name] == variables[i].1@,
    decreases variables.len(),
{
    if variables.len() > 0 {
        let earlier = variables.drop_last();
        a_name_has_its_last_value(earlier, name);
        assert(pairs_of(variables).drop_last() =~= pairs_of(earlier));
        assert(forall|i: int| 0 <= i < earlier.len() ==> #[trigger] earlier[i] == variables[i]);
        let last = variables.len() - 1;
        assert(pairs_of(variables).last() == (variables[last].0@, variables[last].1@));
        assert forall|i: int|
            0 <= i < variables.len() && (#[trigger] variables[i]).0@ == name && (forall|j: int|
                i < j < variables.len() ==> (#[trigger] variables[j]).0@
                    != name) implies environment_of(pairs_of(variables))[name]
            == variables[i].1@ by {
            if i < last {
                assert(variables[last].0@ != name);
                assert(earlier[i] == variables[i]);
                assert forall|j: int| i < j < earlier.len() implies (#[trigger] earlier[j]).0@
                    != name by {
                    assert(earlier[j] == variables[j]);
                }
            }
        }
        if exists|i: int| 0 <= i < variables.len() && (#[trigger] variables[i]).0@ == name {
            let i = choose|i: int| 0 <= i < variables.len() && (#[trigger] variables[i]).0@ == name;
            if i < last {
                assert(earlier[i].0@ == name);
            }
        }
        if environment_of(pairs_of(variables)).contains_key(name) && variables[last].0@ != name {
            let i = choose|i: int| 0 <= i < earlier.len() && (#[trigger] earlier[i]).0@ == name;
            assert(variables[i].0@ == name);
        }
    }
}

/// A worker is told where the job's checkpoints are and which cluster it belongs to, whatever the
/// job's own variables say; every other variable of the job reaches it, and no variable that is
/// neither the job's nor one of those two does.
pub proof fn a_worker_is_told_the_jobs_variables_and_the_controllers(
    job: &JobContext,
    slots: usize,
    variables: Vec<(String, String)>,
    cluster: ClusterEnvironment,
    starting: StartingWorkers,
    request: &StartPipelineReq,
    n: int,
)
    requires
        call_ensures(
            StartingWorkers::with_variables,
            (job, slots, variables, cluster),
            starting,
        ),
        call_ensures(StartingWorkers::request, (&starting,), request),
        0 <= n < request.env_vars@.len(),
        forall|j: int|
            n < j < request.env_vars@.len() ==> (#[trigger] request.env_vars@[j]).0@
                != request.env_vars@[n].0@,
    ensures
        ({
            let (name, value) = request.env_vars@[n];
            &&& name@ == cluster.cluster_id_env@ ==> value@ == cluster.cluster_id@
            &&& name@ == CHECKPOINT_URL_ENV@ && name@ != cluster.cluster_id_env@ ==> value@ == (
            match cluster.state_url {
                Some(url) => url@,
                None => cluster.checkpoint_url@,
            })
            &&& name@ != CHECKPOINT_URL_ENV@ && name@ != cluster.cluster_id_env@ ==> exists|i: int|
                0 <= i < variables@.len() && (#[trigger] variables@[i]).0@ == name@
                    && variables@[i].1@ == value@
        }),
        forall|i: int|
            0 <= i < variables@.len() ==> exists|k: int|
                0 <= k < request.env_vars@.len() && (#[trigger] request.env_vars@[k]).0@
                    == (#[trigger] variables@[i]).0@,
        exists|k: int|
            0 <= k < request.env_vars@.len() && (#[trigger] request.env_vars@[k]).0@
                == cluster.cluster_id_env@,
        exists|k: int|
            0 <= k < request.env_vars@.len() && (#[trigger] request.env_vars@[k]).0@
                == CHECKPOINT_URL_ENV@,
{
    let told = request.env_vars@;
    let name = told[n].0@;
    a_name_has_its_last_value(told, name);
    a_name_has_its_last_value(told, cluster.cluster_id_env@);
    a_name_has_its_last_value(told, CHECKPOINT_URL_ENV@);
    a_name_has_its_last_value(variables@, name);
    assert(environment_of(pairs_of(told))[name] == told[n].1@);
    if name != CHECKPOINT_URL_ENV@ && name != cluster.cluster_id_env@ {
        assert(environment_of(pairs_of(variables@)).contains_key(name));
        let i = last_of(variables@, name);
        a_last_one_is_found(variables@, name);
    }
    assert forall|i: int| 0 <= i < variables@.len() implies exists|k: int|
        0 <= k < told.len() && (#[trigger] told[k]).0@ == (#[trigger] variables@[i]).0@ by {
        let own = variables@[i].0@;
        a_name_has_its_last_value(variables@, own);
        a_name_has_its_last_value(told, own);
        assert(environment_of(pairs_of(variables@)).contains_key(own));
        assert(environment_of(pairs_of(told)).contains_key(own));
    }
}

/// The last place a name is given a value.
spec fn last_of(variables: Seq<(String, String)>, name: Seq<char>) -> int
    decreases variables.len(),
{
    if variables.len() == 0 {
        -1
    } else if variables.last().0@ == name {
        variables.len() - 1
    } else {
        last_of(variables.drop_last(), name)
    }
}

proof fn a_last_one_is_found(variables: Seq<(String, String)>, name: Seq<char>)
    requires
        exists|i: int| 0 <= i < variables.len() && (#[trigger] variables[i]).0@ == name,
    ensures
        ({
            let i = last_of(variables, name);
            &&& 0 <= i < variables.len()
            &&& variables[i].0@ == name
            &&& forall|j: int| i < j < variables.len() ==> (#[trigger] variables[j]).0@ != name
        }),
    decreases variables.len(),
{
    if variables.last().0@ != name {
        let earlier = variables.drop_last();
        let i = choose|i: int| 0 <= i < variables.len() && (#[trigger] variables[i]).0@ == name;
        assert(earlier[i].0@ == name);
        a_last_one_is_found(earlier, name);
        let found = last_of(earlier, name);
        assert forall|j: int| found < j < variables.len() implies (#[trigger] variables[j]).0@
            != name by {
            if j < earlier.len() {
                assert(earlier[j] == variables[j]);
            }
        }
    }
}

/// Workers are started exactly where the scheduler grants them. It is asked again, for the same,
/// exactly while it is short of slots and the job still has time; a refusal it calls fatal, or a
/// shortage that outlasts the budget, fails the job, and any other is retried with the reason.
pub proof fn workers_are_asked_for_until_granted_refused_or_too_late(
    starting: StartingWorkers,
    before: &StartPipelineReq,
    answer: Result<(), SchedulerError>,
    elapsed: u64,
    startup_time: u64,
    r: Result<StartWorkersStep, StateError>,
    after: &StartPipelineReq,
)
    requires
        call_ensures(StartingWorkers::request, (&starting,), before),
        call_ensures(StartingWorkers::answered, (starting, answer, elapsed, startup_time), r),
        r matches Ok(StartWorkersStep::AskAgain(again)) ==> call_ensures(
            StartingWorkers::request,
            (&again,),
            after,
        ),
    ensures
        r is Ok && r->Ok_0 is Started <==> answer is Ok,
        r is Ok && r->Ok_0 is AskAgain <==> answer is Err && answer->Err_0 is NotEnoughSlots
            && elapsed <= startup_time,
        r is Ok && r->Ok_0 is AskAgain ==> *after == *before,
        r matches Err(e) ==> (e is RetryableError <==> answer->Err_0 is Other),
        r matches Err(e) ==> (e is RetryableError ==> e->retries == 20 && e->state
            == StateName::Scheduling),
{
}

/// A job whose environment does not read fails for good, and one whose environment reads keeps it.
pub proof fn an_environment_that_does_not_read_fails_the_job(
    read: Result<Vec<(String, String)>, String>,
    r: Result<Vec<(String, String)>, StateError>,
)
    requires
        call_ensures(read_job_variables, (read,), r),
    ensures
        r is Ok <==> read is Ok,
        r matches Ok(variables) ==> variables == read->Ok_0,
        r matches Err(e) ==> e is FatalError,
{
}

/// A refusal is told with the scheduler's own words, and a shortage with the slots that were asked
/// for.
pub proof fn a_refusal_is_told_in_the_schedulers_words(
    starting: StartingWorkers,
    request: &StartPipelineReq,
    answer: Result<(), SchedulerError>,
    elapsed: u64,
    startup_time: u64,
    e: StateError,
)
    requires
        call_ensures(StartingWorkers::request, (&starting,), request),
        call_ensures(
            StartingWorkers::answered,
            (starting, answer, elapsed, startup_time),
            Err(e),
        ),
    ensures
        answer is Err,
        answer->Err_0 matches SchedulerError::Other(words) ==> e is RetryableError
            && e->RetryableError_source@ == "scheduling error: "@ + words@,
        answer->Err_0 matches SchedulerError::Fatal(words) ==> e is FatalError
            && e->FatalError_message@ == "scheduling failed: "@ + words@ && e->FatalError_source@
            == "non-retryable scheduling error: "@ + words@,
        answer->Err_0 is NotEnoughSlots ==> e is FatalError && e->FatalError_source@
            == "scheduler error -- needed "@ + text::decimal_digits(request.slots as nat)
            + " slots"@ && elapsed > startup_time,
{
}

/// A job asks for its workers as it would with the variables its row holds, and fails exactly where
/// they do not read.
pub proof fn a_job_asks_with_the_variables_of_its_row(
    job: &JobContext,
    slots: usize,
    cluster: ClusterEnvironment,
    r: Result<StartingWorkers, StateError>,
    variables: Vec<(String, String)>,
    starting: StartingWorkers,
    request: &StartPipelineReq,
    direct: &StartPipelineReq,
)
    requires
        call_ensures(StartingWorkers::for_job, (job, slots, cluster), r),
        call_ensures(StartingWorkers::with_variables, (job, slots, variables, cluster), starting),
        call_ensures(StartingWorkers::request, (&starting,), direct),
        r matches Ok(asking) ==> call_ensures(StartingWorkers::request, (&asking,), request),
    ensures
        r is Err <==> variables_in(job.config.env_vars@) is Err,
        r matches Err(e) ==> e is FatalError,
        r is Ok ==> request.slots == direct.slots && request.job_id@ == direct.job_id@
            && request.generation == direct.generation && request.name@ == direct.name@
            && request.program.nodes@ == direct.program.nodes@,
        r is Ok && variables_in(job.config.env_vars@)->Ok_0 == pairs_of(variables@)
            ==> environment_of(pairs_of(request.env_vars@)) == environment_of(
            pairs_of(direct.env_vars@),
        ),
{
}

} // verus!
