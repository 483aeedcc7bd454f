//! Preparing the checkpoint a job restores from, where the controller keeps the checkpoints.
//!
//! The whole checkpoint is classified before anything of it is rewritten: its own metadata is
//! loaded, every operator's metadata is loaded and checked, the commits to replay are derived
//! from what was loaded, and only then is there a rewrite to perform.

use crate::text;
use vstd::prelude::*;
use vstd::string::*;

verus! {

/// The checkpoint a job restores from.
#[derive(Clone, Debug, PartialEq, Eq)]
pub struct CheckpointInfo {
    pub epoch: u64,
    pub min_epoch: u64,
    pub id: String,
    pub needs_commits: bool,
}

/// An epoch as the store keeps it: what is left of it in 32 bits.
pub fn stored_epoch(epoch: u64) -> (r: u32)
    ensures
        r == epoch % 0x1_0000_0000,
{
    assert(epoch as u32 == epoch % 0x1_0000_0000) by (bit_vector);
    #[verifier::truncate] (epoch as u32)
}

/// Why a checkpoint could not be prepared.
#[derive(Clone, Debug, PartialEq, Eq)]
pub enum RestorePreparationError {
    /// Reading or writing metadata failed; the same attempt may succeed later.
    Retryable { message: String, source: String },
    /// The job cannot restore this checkpoint, however often it is tried.
    Fatal { message: String, source: String },
}

impl RestorePreparationError {
    pub open spec fn retryable_with(self, message: Seq<char>, source: Seq<char>) -> bool {
        self matches RestorePreparationError::Retryable { message: m, source: s } && m@ == message
            && s@ == source
    }

    pub open spec fn fatal_with(self, message: Seq<char>, source: Seq<char>) -> bool {
        self matches RestorePreparationError::Fatal { message: m, source: s } && m@ == message
            && s@ == source
    }
}

/// What kind of table an operator declared.
#[derive(Clone, Copy, Debug, PartialEq, Eq, Structural)]
pub enum TableType {
    MissingTableType,
    GlobalKeyValue,
    ExpiringKeyedTimeTable,
}

/// What one table has to commit: by subtask.
pub type CommitData = Vec<(u32, Vec<u8>)>;

/// One table of one operator's checkpoint metadata.
#[derive(Debug, PartialEq, Eq)]
pub struct TableCheckpoint {
    pub table_name: String,
    /// The table's declared type, where its configuration is there at all.
    pub config: Option<TableType>,
    /// What a global table's metadata says is to be committed, if anything.
    pub commit_data: Option<CommitData>,
}

/// One operator's checkpoint metadata.
#[derive(Debug, PartialEq, Eq)]
pub struct OperatorCheckpoint {
    pub operator_id: String,
    pub tables: Vec<TableCheckpoint>,
}

/// One operator's share of a commit replay.
#[derive(Debug, PartialEq, Eq)]
pub struct OperatorCommits {
    pub operator_id: String,
    pub parallelism: usize,
    pub tables: Vec<(String, CommitData)>,
}

/// A commit replay: which checkpoint it finishes, and what each operator commits. Every subtask
/// of a listed operator has to commit.
#[derive(Debug, PartialEq, Eq)]
pub struct CommittingState {
    pub checkpoint_id: String,
    pub operators: Vec<OperatorCommits>,
}

/// What makes a checkpoint's commits underivable.
pub enum RestoreFault {
    ConfigNotFound { table_name: Seq<char> },
    MissingTableType,
    NotInProgram { operator_id: Seq<char> },
}

/// Commit data as a value of the model.
pub open spec fn bytes_of(data: Seq<(u32, Vec<u8>)>) -> Seq<(u32, Seq<u8>)> {
    Seq::new(data.len(), |i: int| (data[i].0, data[i].1@))
}

/// One table's commits, as a value of the model.
pub struct TableCommits {
    pub table_name: Seq<char>,
    pub data: Seq<(u32, Seq<u8>)>,
}

/// The commits of some tables, as values of the model.
pub open spec fn tables_of(tables: Seq<(String, CommitData)>) -> Seq<TableCommits> {
    Seq::new(
        tables.len(),
        |i: int| TableCommits { table_name: tables[i].0@, data: bytes_of(tables[i].1@) },
    )
}

/// One operator's commits, as a value of the model.
pub struct CommitsOf {
    pub operator_id: Seq<char>,
    pub parallelism: nat,
    pub tables: Seq<TableCommits>,
}

impl View for OperatorCommits {
    type V = CommitsOf;

    open spec fn view(&self) -> CommitsOf {
        CommitsOf {
            operator_id: self.operator_id@,
            parallelism: self.parallelism as nat,
            tables: tables_of(self.tables@),
        }
    }
}

impl CommittingState {
    /// What each operator commits.
    pub open spec fn commits(self) -> Seq<CommitsOf> {
        Seq::new(self.operators@.len(), |i: int| self.operators@[i]@)
    }

    /// Every subtask that has to commit: operator by operator, subtask by subtask.
    pub fn commit_subtasks(&self) -> (r: Vec<(String, u32)>)
        ensures
            Seq::new(r@.len(), |i: int| (r@[i].0@, r@[i].1)) == subtasks_of(self.commits()),
    {
        let mut r: Vec<(String, u32)> = Vec::new();
        let mut n: usize = 0;
        assert(Seq::new(r@.len(), |i: int| (r@[i].0@, r@[i].1)) =~= Seq::empty());
        while n < self.operators.len()
            invariant
                n <= self.operators@.len(),
                Seq::new(r@.len(), |i: int| (r@[i].0@, r@[i].1)) == subtasks_of(
                    self.commits().take(n as int),
                ),
            decreases self.operators@.len() - n,
        {
            let operator = &self.operators[n];
            let ghost earlier = r@;
            let ghost earlier_model = Seq::new(earlier.len(), |i: int| (earlier[i].0@, earlier[i].1));
            let mut i: usize = 0;
            while i < operator.parallelism
                invariant
                    i <= operator.parallelism,
                    r@.len() == earlier.len() + i,
                    forall|j: int| 0 <= j < earlier.len() ==> r@[j] == earlier[j],
                    forall|j: int|
                        0 <= j < i ==> (#[trigger] r@[earlier.len() + j]).0@
                            == operator.operator_id@ && r@[earlier.len() + j].1 == j as u32,
                decreases operator.parallelism - i,
            {
                let ghost before = r@;
                r.push((operator.operator_id.clone(), #[verifier::truncate] (i as u32)));
                assert forall|j: int| 0 <= j < i + 1 implies (#[trigger] r@[earlier.len() + j]).0@
                    == operator.operator_id@ && r@[earlier.len() + j].1 == j as u32 by {
                    if j < i {
                        assert(r@[earlier.len() + j] == before[earlier.len() + j]);
                    }
                }
                i = i + 1;
            }
            proof {
                let taken = self.commits().take(n + 1);
                assert(taken.drop_last() =~= self.commits().take(n as int));
                assert(taken.last() == operator@);
                assert(Seq::new(r@.len(), |i: int| (r@[i].0@, r@[i].1)) =~= earlier_model
                    + Seq::new(
                    operator.parallelism as nat,
                    |i: int| (operator.operator_id@, i as u32),
                )) by {
                    assert forall|k: int| earlier.len() <= k < r@.len() implies (
                    #[trigger] r@[k]).0@ == operator.operator_id@ && r@[k].1 == (k
                        - earlier.len()) as u32 by {
                        assert(r@[earlier.len() + (k - earlier.len())].0@ == operator.operator_id@);
                    }
                }
            }
            n = n + 1;
        }
        assert(self.commits().take(self.operators@.len() as int) =~= self.commits());
        r
    }
}

/// Every subtask that has to commit: operator by operator, subtask by subtask.
pub open spec fn subtasks_of(commits: Seq<CommitsOf>) -> Seq<(Seq<char>, u32)>
    decreases commits.len(),
{
    if commits.len() == 0 {
        Seq::empty()
    } else {
        subtasks_of(commits.drop_last()) + Seq::new(
            commits.last().parallelism,
            |i: int| (commits.last().operator_id, i as u32),
        )
    }
}

/// The parallelism an operator is built at, if it is one of the job's.
pub open spec fn parallelism_of(restoring: Seq<(String, usize)>, operator: Seq<char>) -> Option<nat>
    decreases restoring.len(),
{
    if restoring.len() == 0 {
        None
    } else if restoring[0].0@ == operator {
        Some(restoring[0].1 as nat)
    } else {
        parallelism_of(restoring.drop_first(), operator)
    }
}

/// What one table has to commit, or why that cannot be said.
pub open spec fn table_commits(
    operator: Seq<char>,
    parallelism: Option<nat>,
    table: TableCheckpoint,
) -> Result<Option<Seq<(u32, Seq<u8>)>>, RestoreFault> {
    match table.config {
        None => Err(RestoreFault::ConfigNotFound { table_name: table.table_name@ }),
        Some(TableType::MissingTableType) => Err(RestoreFault::MissingTableType),
        Some(TableType::ExpiringKeyedTimeTable) => Ok(None),
        Some(TableType::GlobalKeyValue) => match table.commit_data {
            None => Ok(None),
            Some(data) => if parallelism is Some {
                Ok(Some(bytes_of(data@)))
            } else {
                Err(RestoreFault::NotInProgram { operator_id: operator })
            },
        },
    }
}

/// What an operator's tables have to commit, in order, or the first reason that cannot be said.
pub open spec fn tables_commits(
    operator: Seq<char>,
    parallelism: Option<nat>,
    tables: Seq<TableCheckpoint>,
) -> Result<Seq<TableCommits>, RestoreFault>
    decreases tables.len(),
{
    if tables.len() == 0 {
        Ok(Seq::empty())
    } else {
        match tables_commits(operator, parallelism, tables.drop_last()) {
            Err(fault) => Err(fault),
            Ok(done) => match table_commits(operator, parallelism, tables.last()) {
                Err(fault) => Err(fault),
                Ok(None) => Ok(done),
                Ok(Some(data)) => Ok(
                    done.push(TableCommits { table_name: tables.last().table_name@, data }),
                ),
            },
        }
    }
}

/// What all operators have to commit: those with anything to commit, in order.
pub open spec fn operators_commits(
    operators: Seq<OperatorCheckpoint>,
    restoring: Seq<(String, usize)>,
) -> Result<Seq<CommitsOf>, RestoreFault>
    decreases operators.len(),
{
    if operators.len() == 0 {
        Ok(Seq::empty())
    } else {
        let id = operators.last().operator_id@;
        let parallelism = parallelism_of(restoring, id);
        match operators_commits(operators.drop_last(), restoring) {
            Err(fault) => Err(fault),
            Ok(done) => match tables_commits(id, parallelism, operators.last().tables@) {
                Err(fault) => Err(fault),
                Ok(tables) => if tables.len() == 0 {
                    Ok(done)
                } else {
                    Ok(done.push(CommitsOf { operator_id: id, parallelism: parallelism->0, tables }))
                },
            },
        }
    }
}

/// The fault as the job reports it.
pub open spec fn reports(e: RestorePreparationError, fault: RestoreFault) -> bool {
    match fault {
        RestoreFault::ConfigNotFound { table_name } => e.fatal_with(
            "Failed to restore job; table config for "@ + table_name + " not found."@,
            "table config for "@ + table_name + " not found"@,
        ),
        RestoreFault::MissingTableType => e.fatal_with(
            "Missing table type"@,
            "table type not found"@,
        ),
        RestoreFault::NotInProgram { operator_id } => e.fatal_with(
            "Failed to restore job; operator "@ + operator_id + " is not in the job's program."@,
            "operator "@ + operator_id + " not found in program"@,
        ),
    }
}

fn surrounded(before: &str, middle: &str, after: &str) -> (r: String)
    ensures
        r@ == before@ + middle@ + after@,
{
    let mut r = before.to_owned();
    r.append(middle);
    r.append(after);
    r
}

fn find_parallelism(restoring: &Vec<(String, usize)>, operator: &String) -> (r: Option<usize>)
    ensures
        match parallelism_of(restoring@, operator@) {
            None => r is None,
            Some(parallelism) => r matches Some(n) && n == parallelism,
        },
{
    let mut i: usize = 0;
    assert(restoring@.skip(0) =~= restoring@);
    while i < restoring.len()
        invariant
            i <= restoring@.len(),
            parallelism_of(restoring@, operator@) == parallelism_of(
                restoring@.skip(i as int),
                operator@,
            ),
        decreases restoring@.len() - i,
    {
        assert(restoring@.skip(i as int).drop_first() =~= restoring@.skip(i + 1));
        if restoring[i].0 == *operator {
            return Some(restoring[i].1);
        }
        i = i + 1;
    }
    None
}

fn copied_data(data: &CommitData) -> (r: CommitData)
    ensures
        bytes_of(r@) == bytes_of(data@),
{
    let mut r: CommitData = Vec::new();
    let mut i: usize = 0;
    while i < data.len()
        invariant
            i <= data@.len(),
            r@.len() == i,
            forall|j: int|
                0 <= j < i ==> (#[trigger] r@[j]).0 == data@[j].0 && r@[j].1@ == data@[j].1@,
        decreases data@.len() - i,
    {
        let bytes = data[i].1.clone();
        assert(bytes@ =~= data@[i as int].1@);
        r.push((data[i].0, bytes));
        i = i + 1;
    }
    assert(bytes_of(r@) =~= bytes_of(data@));
    r
}

/// Derives what one operator's tables have to commit.
fn derive_tables(
    operator: &OperatorCheckpoint,
    parallelism: Option<usize>,
) -> (r: Result<Vec<(String, CommitData)>, RestorePreparationError>)
    ensures
        match tables_commits(
            operator.operator_id@,
            match parallelism {
                Some(n) => Some(n as nat),
                None => None,
            },
            operator.tables@,
        ) {
            Err(fault) => r matches Err(e) && reports(e, fault),
            Ok(tables) => r matches Ok(derived) && tables_of(derived@) == tables,
        },
{
    let ghost known: Option<nat> = match parallelism {
        Some(n) => Some(n as nat),
        None => None,
    };
    let ghost id = operator.operator_id@;
    let mut derived: Vec<(String, CommitData)> = Vec::new();
    let mut i: usize = 0;
    assert(tables_of(derived@) =~= Seq::empty());
    while i < operator.tables.len()
        invariant
            i <= operator.tables@.len(),
            id == operator.operator_id@,
            known == (match parallelism {
                Some(n) => Some(n as nat),
                None => None,
            }),
            tables_commits(id, known, operator.tables@.take(i as int)) == Ok::<_, RestoreFault>(
                tables_of(derived@),
            ),
        decreases operator.tables@.len() - i,
    {
        let table = &operator.tables[i];
        let ghost taken = operator.tables@.take(i + 1);
        let ghost done = tables_of(derived@);
        proof {
            assert(taken.drop_last() =~= operator.tables@.take(i as int));
            assert(taken.last() == *table);
            if table_commits(id, known, *table) is Err {
                stays_faulty(id, known, operator.tables@, i + 1);
            }
        }
        match table.config {
            None => {
                return Err(
                    RestorePreparationError::Fatal {
                        message: surrounded(
                            "Failed to restore job; table config for ",
                            table.table_name.as_str(),
                            " not found.",
                        ),
                        source: surrounded(
                            "table config for ",
                            table.table_name.as_str(),
                            " not found",
                        ),
                    },
                );
            },
            Some(TableType::MissingTableType) => {
                return Err(
                    RestorePreparationError::Fatal {
                        message: "Missing table type".to_owned(),
                        source: "table type not found".to_owned(),
                    },
                );
            },
            Some(TableType::ExpiringKeyedTimeTable) => {},
            Some(TableType::GlobalKeyValue) => {
                if let Some(data) = &table.commit_data {
                    if parallelism.is_none() {
                        return Err(
                            RestorePreparationError::Fatal {
                                message: surrounded(
                                    "Failed to restore job; operator ",
                                    operator.operator_id.as_str(),
                                    " is not in the job's program.",
                                ),
                                source: surrounded(
                                    "operator ",
                                    operator.operator_id.as_str(),
                                    " not found in program",
                                ),
                            },
                        );
                    }
                    let copied = copied_data(data);
                    derived.push((table.table_name.clone(), copied));
                    assert(tables_of(derived@) =~= done.push(
                        TableCommits { table_name: table.table_name@, data: bytes_of(data@) },
                    ));
                }
            },
        }
        i = i + 1;
    }
    assert(operator.tables@.take(operator.tables@.len() as int) =~= operator.tables@);
    Ok(derived)
}

/// Once a prefix of the tables is faulty, all of them are, with the same fault.
proof fn stays_faulty(
    operator: Seq<char>,
    parallelism: Option<nat>,
    tables: Seq<TableCheckpoint>,
    n: int,
)
    requires
        0 <= n <= tables.len(),
        tables_commits(operator, parallelism, tables.take(n)) is Err,
    ensures
        tables_commits(operator, parallelism, tables) == tables_commits(
            operator,
            parallelism,
            tables.take(n),
        ),
    decreases tables.len() - n,
{
    if n == tables.len() {
        assert(tables.take(n) =~= tables);
    } else {
        assert(tables.take(n + 1).drop_last() =~= tables.take(n));
        stays_faulty(operator, parallelism, tables, n + 1);
    }
}

proof fn operators_stay_faulty(
    operators: Seq<OperatorCheckpoint>,
    restoring: Seq<(String, usize)>,
    n: int,
)
    requires
        0 <= n <= operators.len(),
        operators_commits(operators.take(n), restoring) is Err,
    ensures
        operators_commits(operators, restoring) == operators_commits(operators.take(n), restoring),
    decreases operators.len() - n,
{
    if n == operators.len() {
        assert(operators.take(n) =~= operators);
    } else {
        assert(operators.take(n + 1).drop_last() =~= operators.take(n));
        operators_stay_faulty(operators, restoring, n + 1);
    }
}

/// An operator with something to commit is one of the job's.
proof fn committing_operators_are_known(
    operator: Seq<char>,
    parallelism: Option<nat>,
    tables: Seq<TableCheckpoint>,
)
    requires
        tables_commits(operator, parallelism, tables) matches Ok(done) && done.len() > 0,
    ensures
        parallelism is Some,
    decreases tables.len(),
{
    if tables.len() > 0 {
        if tables_commits(operator, parallelism, tables.drop_last()) matches Ok(done)
            && done.len() > 0 {
            committing_operators_are_known(operator, parallelism, tables.drop_last());
        }
    }
}

/// Commits are replayed only for operators the job's workers build, and for each of them at the
/// parallelism they build it at.
pub proof fn only_the_jobs_operators_commit(
    operators: Seq<OperatorCheckpoint>,
    restoring: Seq<(String, usize)>,
)
    ensures
        operators_commits(operators, restoring) matches Ok(commits) ==> forall|i: int|
            0 <= i < commits.len() ==> parallelism_of(
                restoring,
                (#[trigger] commits[i]).operator_id,
            ) == Some(commits[i].parallelism),
    decreases operators.len(),
{
    if operators.len() > 0 {
        only_the_jobs_operators_commit(operators.drop_last(), restoring);
        let last = operators.last();
        let parallelism = parallelism_of(restoring, last.operator_id@);
        if tables_commits(last.operator_id@, parallelism, last.tables@) matches Ok(tables)
            && tables.len() > 0 {
            committing_operators_are_known(last.operator_id@, parallelism, last.tables@);
        }
    }
}

/// Derives what every operator has to commit, from the metadata already loaded and checked.
pub fn derive_commits(
    operators: &Vec<OperatorCheckpoint>,
    restoring: &Vec<(String, usize)>,
) -> (r: Result<Vec<OperatorCommits>, RestorePreparationError>)
    ensures
        match operators_commits(operators@, restoring@) {
            Err(fault) => r matches Err(e) && reports(e, fault),
            Ok(commits) => r matches Ok(derived) && Seq::new(derived@.len(), |i: int| derived@[i]@)
                == commits,
        },
{
    let mut derived: Vec<OperatorCommits> = Vec::new();
    let mut i: usize = 0;
    assert(Seq::new(derived@.len(), |i: int| derived@[i]@) =~= Seq::empty());
    while i < operators.len()
        invariant
            i <= operators@.len(),
            operators_commits(operators@.take(i as int), restoring@) == Ok::<_, RestoreFault>(
                Seq::new(derived@.len(), |i: int| derived@[i]@),
            ),
        decreases operators@.len() - i,
    {
        let operator = &operators[i];
        let ghost taken = operators@.take(i + 1);
        let ghost done = Seq::new(derived@.len(), |i: int| derived@[i]@);
        proof {
            assert(taken.drop_last() =~= operators@.take(i as int));
            assert(taken.last() == *operator);
        }
        let parallelism = find_parallelism(restoring, &operator.operator_id);
        let ghost known = parallelism_of(restoring@, operator.operator_id@);
        assert(known == (match parallelism {
            Some(n) => Some(n as nat),
            None => None,
        }));
        match derive_tables(operator, parallelism) {
            Err(e) => {
                proof {
                    operators_stay_faulty(operators@, restoring@, i + 1);
                }
                return Err(e);
            },
            Ok(tables) => {
                if tables.len() > 0 {
                    proof {
                        assert(tables_of(tables@).len() > 0);
                        committing_operators_are_known(
                            operator.operator_id@,
                            known,
                            operator.tables@,
                        );
                    }
                    if let Some(parallelism) = parallelism {
                        derived.push(
                            OperatorCommits {
                                operator_id: operator.operator_id.clone(),
                                parallelism,
                                tables,
                            },
                        );
                    }
                    assert(Seq::new(derived@.len(), |i: int| derived@[i]@) =~= done.push(
                        CommitsOf {
                            operator_id: operator.operator_id@,
                            parallelism: known->0,
                            tables: tables_of(tables@),
                        },
                    ));
                } else {
                    assert(tables_of(tables@).len() == 0);
                }
            },
        }
        i = i + 1;
    }
    assert(operators@.take(operators@.len() as int) =~= operators@);
    Ok(derived)
}

/// What loading and checking every operator's metadata can fail with.
#[derive(Debug, PartialEq, Eq)]
pub enum PreflightFailure {
    /// An operator's tables were written by another backend than the job's.
    StateBackend(String),
    /// The checkpoint does not cover exactly the job's operators.
    Incomplete(String),
    /// A read failed.
    Other(String),
}

/// A checkpoint whose own metadata has been loaded.
#[derive(Debug)]
pub struct LoadedCheckpoint {
    checkpoint: CheckpointInfo,
}

/// A checkpoint whose every operator has been checked and whose commits have been derived. Only
/// such a checkpoint has a rewrite to perform.
#[derive(Debug)]
pub struct PreflightedCheckpoint {
    epoch: u64,
    min_epoch: u64,
    committing: Option<CommittingState>,
}

impl View for LoadedCheckpoint {
    type V = CheckpointInfo;

    closed spec fn view(&self) -> CheckpointInfo {
        self.checkpoint
    }
}

impl LoadedCheckpoint {
    /// The first step: the checkpoint's own metadata was loaded, or was not.
    pub fn loaded(
        checkpoint: CheckpointInfo,
        result: Result<(), String>,
    ) -> (r: Result<Self, RestorePreparationError>)
        ensures
            match result {
                Ok(()) => r matches Ok(loaded) && loaded@ == checkpoint,
                Err(source) => r matches Err(e) && e.retryable_with(
                    "Failed to load checkpoint metadata for epoch "@ + text::decimal_digits(
                        checkpoint.epoch as nat,
                    ),
                    source@,
                ),
            },
    {
        match result {
            Ok(()) => Ok(LoadedCheckpoint { checkpoint }),
            Err(source) => {
                let mut message = "Failed to load checkpoint metadata for epoch ".to_owned();
                let epoch = text::decimal(checkpoint.epoch);
                message.append(epoch.as_str());
                Err(RestorePreparationError::Retryable { message, source })
            },
        }
    }

    /// The second step: every operator's metadata was loaded and checked, or was not. Where the
    /// checkpoint was in its committing phase, the commits to replay are derived here.
    pub fn preflighted(
        self,
        operators: Result<Vec<OperatorCheckpoint>, PreflightFailure>,
        restoring: &Vec<(String, usize)>,
    ) -> (r: Result<PreflightedCheckpoint, RestorePreparationError>)
        ensures
            match operators {
                Err(PreflightFailure::StateBackend(source)) => r matches Err(e) && e.fatal_with(
                    "cannot restore a checkpoint written with a different state backend"@,
                    source@,
                ),
                Err(PreflightFailure::Incomplete(source)) => r matches Err(e) && e.fatal_with(
                    "cannot restore a checkpoint that does not cover the job's operators"@,
                    source@,
                ),
                Err(PreflightFailure::Other(source)) => r matches Err(e) && e.retryable_with(
                    "Failed to load operator metadata for epoch "@ + text::decimal_digits(
                        self@.epoch as nat,
                    ),
                    source@,
                ),
                Ok(operators) => if !self@.needs_commits {
                    r matches Ok(checked) && checked.epochs() == (self@.epoch, self@.min_epoch)
                        && checked.replay() is None
                } else {
                    match operators_commits(operators@, restoring@) {
                        Err(fault) => r matches Err(e) && reports(e, fault),
                        Ok(commits) => r matches Ok(checked) && checked.epochs() == (
                            self@.epoch,
                            self@.min_epoch,
                        ) && (checked.replay() matches Some(replay) && replay.checkpoint_id@
                            == self@.id@ && replay.commits() == commits),
                    }
                },
            },
    {
        let CheckpointInfo { epoch, min_epoch, id, needs_commits } = self.checkpoint;
        match operators {
            Err(PreflightFailure::StateBackend(source)) => Err(
                RestorePreparationError::Fatal {
                    message:
                        "cannot restore a checkpoint written with a different state backend".to_owned(),
                    source,
                },
            ),
            Err(PreflightFailure::Incomplete(source)) => Err(
                RestorePreparationError::Fatal {
                    message:
                        "cannot restore a checkpoint that does not cover the job's operators".to_owned(),
                    source,
                },
            ),
            Err(PreflightFailure::Other(source)) => {
                let mut message = "Failed to load operator metadata for epoch ".to_owned();
                let digits = text::decimal(epoch);
                message.append(digits.as_str());
                Err(RestorePreparationError::Retryable { message, source })
            },
            Ok(operators) => {
                if !needs_commits {
                    return Ok(PreflightedCheckpoint { epoch, min_epoch, committing: None });
                }
                match derive_commits(&operators, restoring) {
                    Err(e) => Err(e),
                    Ok(operators) => Ok(
                        PreflightedCheckpoint {
                            epoch,
                            min_epoch,
                            committing: Some(CommittingState { checkpoint_id: id, operators }),
                        },
                    ),
                }
            },
        }
    }
}

impl PreflightedCheckpoint {
    /// The epoch whose metadata is rewritten, and the minimum epoch it is rewritten with.
    pub closed spec fn epochs(self) -> (u64, u64) {
        (self.epoch, self.min_epoch)
    }

    /// The commits to replay, if the checkpoint was in its committing phase.
    pub closed spec fn replay(self) -> Option<CommittingState> {
        self.committing
    }

    /// The epoch whose metadata is rewritten, as the store keeps it.
    pub fn epoch(&self) -> (r: u32)
        ensures
            r == self.epochs().0 % 0x1_0000_0000,
    {
        stored_epoch(self.epoch)
    }

    /// The minimum epoch the checkpoint's metadata is rewritten with, as the store keeps it.
    pub fn min_epoch(&self) -> (r: u32)
        ensures
            r == self.epochs().1 % 0x1_0000_0000,
    {
        stored_epoch(self.min_epoch)
    }

    /// The last step: the rewrite was refused, failed, or is done.
    pub fn rewritten(self, result: Result<(), RewriteFailure>) -> (r: Result<
        Option<CommittingState>,
        RestorePreparationError,
    >)
        ensures
            match result {
                Ok(()) => r == Ok::<_, RestorePreparationError>(self.replay()),
                Err(RewriteFailure::NotValidated(source)) => r matches Err(e) && e.fatal_with(
                    "cannot rewrite a checkpoint's metadata for operators that were not validated"@,
                    source@,
                ),
                Err(RewriteFailure::NotWritten(source)) => r matches Err(e) && e.retryable_with(
                    "Failed to write checkpoint metadata for epoch "@ + text::decimal_digits(
                        self.epochs().0 as nat,
                    ),
                    source@,
                ),
            },
    {
        match result {
            Ok(()) => Ok(self.committing),
            Err(RewriteFailure::NotValidated(source)) => Err(
                RestorePreparationError::Fatal {
                    message:
                        "cannot rewrite a checkpoint's metadata for operators that were not validated".to_owned(),
                    source,
                },
            ),
            Err(RewriteFailure::NotWritten(source)) => {
                let mut message = "Failed to write checkpoint metadata for epoch ".to_owned();
                let digits = text::decimal(self.epoch);
                message.append(digits.as_str());
                Err(RestorePreparationError::Retryable { message, source })
            },
        }
    }
}

/// What rewriting a checkpoint's metadata can fail with.
#[derive(Debug, PartialEq, Eq)]
pub enum RewriteFailure {
    /// The rewrite covers operators that were not checked.
    NotValidated(String),
    /// The write failed.
    NotWritten(String),
}

/// Whether a table has something to commit: a global one whose metadata holds commit data.
pub open spec fn commits_something(table: TableCheckpoint) -> bool {
    table.config == Some(TableType::GlobalKeyValue) && table.commit_data is Some
}

/// Whether `at` lists the places of the tables that have something to commit: each once, in order,
/// and no others.
pub open spec fn lists_committing_tables(at: Seq<int>, tables: Seq<TableCheckpoint>) -> bool {
    &&& forall|k: int|
        0 <= k < at.len() ==> 0 <= #[trigger] at[k] < tables.len() && commits_something(
            tables[at[k]],
        )
    &&& forall|k: int, l: int| 0 <= k < l < at.len() ==> (#[trigger] at[k]) < (#[trigger] at[l])
    &&& forall|t: int|
        0 <= t < tables.len() && commits_something(#[trigger] tables[t]) ==> at.contains(t)
}

/// Whether `at` lists the places of the operators of which a table has something to commit: each
/// once, in order, and no others.
pub open spec fn lists_committing_operators(
    at: Seq<int>,
    operators: Seq<OperatorCheckpoint>,
) -> bool {
    &&& forall|k: int|
        0 <= k < at.len() ==> 0 <= #[trigger] at[k] < operators.len() && has_commits(
            operators[at[k]],
        )
    &&& forall|k: int, l: int| 0 <= k < l < at.len() ==> (#[trigger] at[k]) < (#[trigger] at[l])
    &&& forall|o: int|
        0 <= o < operators.len() && has_commits(#[trigger] operators[o]) ==> at.contains(o)
}

/// Whether a table of an operator has something to commit.
pub open spec fn has_commits(operator: OperatorCheckpoint) -> bool {
    exists|t: int|
        0 <= t < operator.tables@.len() && commits_something(#[trigger] operator.tables@[t])
}

/// Whether a replayed table is `table`: under its name, with all of its commit data, subtask by
/// subtask and byte for byte.
pub open spec fn replays_table(entry: (String, CommitData), table: TableCheckpoint) -> bool {
    &&& entry.0@ == table.table_name@
    &&& table.commit_data is Some
    &&& entry.1@.len() == table.commit_data->0@.len()
    &&& forall|j: int|
        0 <= j < entry.1@.len() ==> (#[trigger] entry.1@[j]).0 == table.commit_data->0@[j].0
            && entry.1@[j].1@ == table.commit_data->0@[j].1@
}

/// Whether what an operator replays is what its tables have to commit, each table once and in order.
pub open spec fn replays_operator(entry: OperatorCommits, operator: OperatorCheckpoint) -> bool {
    &&& entry.operator_id@ == operator.operator_id@
    &&& exists|at: Seq<int>| #[trigger]
        lists_committing_tables(at, operator.tables@) && at.len() == entry.tables@.len() && forall|
            k: int,
        |
            0 <= k < at.len() ==> replays_table(#[trigger] entry.tables@[k], operator.tables@[at[k]])
}

/// Whether an operator of `restoring` is built with this parallelism.
pub open spec fn is_built_at(restoring: Seq<(String, usize)>, id: Seq<char>, n: usize) -> bool {
    exists|i: int|
        0 <= i < restoring.len() && (#[trigger] restoring[i]).0@ == id && restoring[i].1 == n
            && forall|j: int| 0 <= j < i ==> (#[trigger] restoring[j]).0@ != id
}

/// Whether the commits of an operator's tables can be derived: each table is configured with a type
/// there is, and none has something to commit that the job's program does not build an operator for.
pub open spec fn derivable(
    operator: OperatorCheckpoint,
    restoring: Seq<(String, usize)>,
) -> bool {
    forall|t: int|
        0 <= t < operator.tables@.len() ==> {
            let table = #[trigger] operator.tables@[t];
            &&& table.config is Some
            &&& table.config != Some(TableType::MissingTableType)
            &&& commits_something(table) ==> exists|i: int|
                0 <= i < restoring.len() && (#[trigger] restoring[i]).0@ == operator.operator_id@
        }
}

proof fn parallelism_is_the_first_listed(restoring: Seq<(String, usize)>, id: Seq<char>)
    ensures
        parallelism_of(restoring, id) is Some <==> exists|i: int|
            0 <= i < restoring.len() && (#[trigger] restoring[i]).0@ == id,
        parallelism_of(restoring, id) matches Some(n) ==> n <= usize::MAX && is_built_at(
            restoring,
            id,
            n as usize,
        ),
    decreases restoring.len(),
{
    if restoring.len() > 0 {
        let rest = restoring.drop_first();
        parallelism_is_the_first_listed(rest, id);
        if restoring[0].0@ == id {
            assert(is_built_at(restoring, id, restoring[0].1)) by {
                assert(restoring[0].0@ == id);
            }
        } else {
            if parallelism_of(rest, id) is Some {
                let n = parallelism_of(rest, id)->0 as usize;
                let i = choose|i: int|
                    0 <= i < rest.len() && (#[trigger] rest[i]).0@ == id && rest[i].1 == n
                        && forall|j: int| 0 <= j < i ==> (#[trigger] rest[j]).0@ != id;
                assert(restoring[i + 1] == rest[i]);
                assert forall|j: int| 0 <= j < i + 1 implies (#[trigger] restoring[j]).0@ != id by {
                    if j > 0 {
                        assert(restoring[j] == rest[j - 1]);
                    }
                }
                assert(is_built_at(restoring, id, n));
            }
            if exists|i: int| 0 <= i < restoring.len() && (#[trigger] restoring[i]).0@ == id {
                let i = choose|i: int| 0 <= i < restoring.len() && (#[trigger] restoring[i]).0@ == id;
                assert(rest[i - 1] == restoring[i]);
            }
        }
    }
}

/// The tables of an operator that have something to commit, found among what was derived of them.
proof fn derived_tables_are_the_committing_ones(
    id: Seq<char>,
    parallelism: Option<nat>,
    tables: Seq<TableCheckpoint>,
) -> (at: Seq<int>)
    ensures
        tables_commits(id, parallelism, tables) is Ok <==> forall|t: int|
            0 <= t < tables.len() ==> (#[trigger] tables[t]).config is Some && tables[t].config
                != Some(TableType::MissingTableType) && (commits_something(tables[t]) ==> parallelism is Some),
        tables_commits(id, parallelism, tables) matches Ok(done) ==> {
            &&& lists_committing_tables(at, tables)
            &&& at.len() == done.len()
            &&& forall|k: int|
                0 <= k < at.len() ==> (#[trigger] done[k]).table_name == tables[at[k]].table_name@
                    && done[k].data.len() == tables[at[k]].commit_data->0@.len() && forall|j: int|
                    0 <= j < done[k].data.len() ==> (#[trigger] done[k].data[j]).0
                        == tables[at[k]].commit_data->0@[j].0 && done[k].data[j].1
                        == tables[at[k]].commit_data->0@[j].1@
        },
    decreases tables.len(),
{
    if tables.len() == 0 {
        Seq::empty()
    } else {
        let earlier = tables.drop_last();
        let last = tables.last();
        let before = derived_tables_are_the_committing_ones(id, parallelism, earlier);
        assert(forall|t: int| 0 <= t < earlier.len() ==> #[trigger] earlier[t] == tables[t]);
        assert(tables[tables.len() - 1] == last);
        if tables_commits(id, parallelism, tables) is Ok {
            assert forall|t: int| 0 <= t < tables.len() implies (
            #[trigger] tables[t]).config is Some && tables[t].config != Some(
                TableType::MissingTableType,
            ) && (commits_something(tables[t]) ==> parallelism is Some) by {
                if t < earlier.len() {
                    assert(earlier[t] == tables[t]);
                }
            }
        }
        let at = if commits_something(last) {
            before.push(tables.len() - 1)
        } else {
            before
        };
        if tables_commits(id, parallelism, tables) is Ok {
            let done = tables_commits(id, parallelism, tables)->Ok_0;
            let so_far = tables_commits(id, parallelism, earlier)->Ok_0;
            assert(lists_committing_tables(at, tables)) by {
                assert forall|t: int|
                    0 <= t < tables.len() && commits_something(#[trigger] tables[t]) implies at.contains(
                    t,
                ) by {
                    if t < earlier.len() {
                        assert(commits_something(earlier[t]));
                        assert(before.contains(t));
                        let k = choose|k: int| 0 <= k < before.len() && before[k] == t;
                        assert(at[k] == t);
                    } else {
                        assert(at[at.len() - 1] == t);
                    }
                }
                assert forall|k: int| 0 <= k < at.len() implies 0 <= #[trigger] at[k] < tables.len()
                    && commits_something(tables[at[k]]) by {
                    if k < before.len() {
                        assert(at[k] == before[k]);
                        assert(earlier[before[k]] == tables[at[k]]);
                    }
                }
                assert forall|k: int, l: int| 0 <= k < l < at.len() implies (#[trigger] at[k]) < (
                #[trigger] at[l]) by {
                    assert(at[k] == before[k]);
                    if l < before.len() {
                        assert(at[l] == before[l]);
                    }
                }
            }
            assert forall|k: int| 0 <= k < at.len() implies (#[trigger] done[k]).table_name
                == tables[at[k]].table_name@ && done[k].data.len()
                == tables[at[k]].commit_data->0@.len() && (forall|j: int|
                0 <= j < done[k].data.len() ==> (#[trigger] done[k].data[j]).0
                    == tables[at[k]].commit_data->0@[j].0 && done[k].data[j].1
                    == tables[at[k]].commit_data->0@[j].1@) by {
                if k < before.len() {
                    assert(done[k] == so_far[k]);
                    assert(at[k] == before[k]);
                    assert(earlier[before[k]] == tables[at[k]]);
                }
            }
        }
        at
    }
}

/// The operators of which a table has something to commit, found among what was derived of them.
proof fn derived_operators_are_the_committing_ones(
    operators: Seq<OperatorCheckpoint>,
    restoring: Seq<(String, usize)>,
) -> (at: Seq<int>)
    ensures
        operators_commits(operators, restoring) is Ok <==> forall|o: int|
            0 <= o < operators.len() ==> derivable(#[trigger] operators[o], restoring),
        operators_commits(operators, restoring) matches Ok(done) ==> {
            &&& lists_committing_operators(at, operators)
            &&& at.len() == done.len()
            &&& forall|k: int|
                0 <= k < at.len() ==> {
                    let operator = operators[at[k]];
                    &&& (#[trigger] done[k]).operator_id == operator.operator_id@
                    &&& parallelism_of(restoring, operator.operator_id@) == Some(
                        done[k].parallelism,
                    )
                    &&& tables_commits(
                        operator.operator_id@,
                        Some(done[k].parallelism),
                        operator.tables@,
                    ) == Ok::<_, RestoreFault>(done[k].tables)
                }
        },
    decreases operators.len(),
{
    if operators.len() == 0 {
        Seq::empty()
    } else {
        let earlier = operators.drop_last();
        let last = operators.last();
        let id = last.operator_id@;
        let parallelism = parallelism_of(restoring, id);
        let before = derived_operators_are_the_committing_ones(earlier, restoring);
        let tables = derived_tables_are_the_committing_ones(id, parallelism, last.tables@);
        parallelism_is_the_first_listed(restoring, id);
        assert(forall|o: int| 0 <= o < earlier.len() ==> #[trigger] earlier[o] == operators[o]);
        assert(operators[operators.len() - 1] == last);
        assert(derivable(last, restoring) <==> tables_commits(id, parallelism, last.tables@) is Ok);
        if operators_commits(operators, restoring) is Ok {
            assert forall|o: int| 0 <= o < operators.len() implies derivable(
                #[trigger] operators[o],
                restoring,
            ) by {
                if o < earlier.len() {
                    assert(derivable(earlier[o], restoring));
                }
            }
        } else if forall|o: int|
            0 <= o < operators.len() ==> derivable(#[trigger] operators[o], restoring) {
            assert forall|o: int| 0 <= o < earlier.len() implies derivable(
                #[trigger] earlier[o],
                restoring,
            ) by {
                assert(earlier[o] == operators[o]);
            }
            assert(derivable(operators[operators.len() - 1], restoring));
        }
        let at = if has_commits(last) {
            before.push(operators.len() - 1)
        } else {
            before
        };
        if operators_commits(operators, restoring) is Ok {
            let done = operators_commits(operators, restoring)->Ok_0;
            let so_far = operators_commits(earlier, restoring)->Ok_0;
            let derived = tables_commits(id, parallelism, last.tables@)->Ok_0;
            assert(has_commits(last) <==> derived.len() > 0) by {
                if has_commits(last) {
                    let t = choose|t: int|
                        0 <= t < last.tables@.len() && commits_something(#[trigger] last.tables@[t]);
                    assert(tables.contains(t));
                }
                if derived.len() > 0 {
                    assert(commits_something(last.tables@[tables[0]]));
                }
            }
            if derived.len() > 0 {
                committing_operators_are_known(id, parallelism, last.tables@);
            }
            assert(lists_committing_operators(at, operators)) by {
                assert forall|o: int|
                    0 <= o < operators.len() && has_commits(#[trigger] operators[o]) implies at.contains(
                    o,
                ) by {
                    if o < earlier.len() {
                        assert(has_commits(earlier[o]));
                        let k = choose|k: int| 0 <= k < before.len() && before[k] == o;
                        assert(at[k] == o);
                    } else {
                        assert(at[at.len() - 1] == o);
                    }
                }
                assert forall|k: int| 0 <= k < at.len() implies 0 <= #[trigger] at[k]
                    < operators.len() && has_commits(operators[at[k]]) by {
                    if k < before.len() {
                        assert(at[k] == before[k]);
                        assert(earlier[before[k]] == operators[at[k]]);
                    }
                }
                assert forall|k: int, l: int| 0 <= k < l < at.len() implies (#[trigger] at[k]) < (
                #[trigger] at[l]) by {
                    assert(at[k] == before[k]);
                    if l < before.len() {
                        assert(at[l] == before[l]);
                    }
                }
            }
            assert forall|k: int| 0 <= k < at.len() implies {
                let operator = operators[at[k]];
                &&& (#[trigger] done[k]).operator_id == operator.operator_id@
                &&& parallelism_of(restoring, operator.operator_id@) == Some(done[k].parallelism)
                &&& tables_commits(
                    operator.operator_id@,
                    Some(done[k].parallelism),
                    operator.tables@,
                ) == Ok::<_, RestoreFault>(done[k].tables)
            } by {
                if k < before.len() {
                    assert(done[k] == so_far[k]);
                    assert(at[k] == before[k]);
                    assert(earlier[before[k]] == operators[at[k]]);
                }
            }
        }
        at
    }
}

/// Commits that read as the model's are replayed whole.
proof fn what_reads_as_derived_is_replayed(
    commits: Seq<OperatorCommits>,
    operators: Seq<OperatorCheckpoint>,
    restoring: Seq<(String, usize)>,
) -> (at: Seq<int>)
    requires
        operators_commits(operators, restoring) == Ok::<_, RestoreFault>(
            Seq::new(commits.len(), |i: int| commits[i]@),
        ),
    ensures
        lists_committing_operators(at, operators),
        at.len() == commits.len(),
        forall|k: int|
            0 <= k < at.len() ==> replays_operator(#[trigger] commits[k], operators[at[k]])
                && is_built_at(restoring, commits[k].operator_id@, commits[k].parallelism),
{
    let at = derived_operators_are_the_committing_ones(operators, restoring);
    let done = operators_commits(operators, restoring)->Ok_0;
    assert forall|k: int| 0 <= k < at.len() implies replays_operator(
        #[trigger] commits[k],
        operators[at[k]],
    ) && is_built_at(restoring, commits[k].operator_id@, commits[k].parallelism) by {
        let operator = operators[at[k]];
        let entry = commits[k];
        assert(done[k] == entry@);
        parallelism_is_the_first_listed(restoring, operator.operator_id@);
        let tables = derived_tables_are_the_committing_ones(
            operator.operator_id@,
            Some(done[k].parallelism),
            operator.tables@,
        );
        assert forall|l: int| 0 <= l < tables.len() implies replays_table(
            #[trigger] entry.tables@[l],
            operator.tables@[tables[l]],
        ) by {
            let model = done[k].tables[l];
            assert(model == TableCommits {
                table_name: entry.tables@[l].0@,
                data: bytes_of(entry.tables@[l].1@),
            });
            assert(commits_something(operator.tables@[tables[l]]));
            assert forall|j: int| 0 <= j < entry.tables@[l].1@.len() implies (
            #[trigger] entry.tables@[l].1@[j]).0 == operator.tables@[tables[l]].commit_data->0@[j].0
                && entry.tables@[l].1@[j].1@
                == operator.tables@[tables[l]].commit_data->0@[j].1@ by {
                assert(model.data[j] == (entry.tables@[l].1@[j].0, entry.tables@[l].1@[j].1@));
            }
        }
        assert(lists_committing_tables(tables, operator.tables@));
    }
    at
}

/// No commit a checkpoint prepared is lost, and none is invented. Where the commits can be derived,
/// those that are derived are exactly the tables with something to commit, operator by operator and
/// table by table, in order and once each; each holds the table's commit data whole, and each
/// operator commits at the parallelism the job's program builds it with. They can be derived exactly
/// where every table's type is known and every operator with something to commit is one of the
/// job's.
pub proof fn every_prepared_commit_is_derived(
    operators: &Vec<OperatorCheckpoint>,
    restoring: &Vec<(String, usize)>,
    r: Result<Vec<OperatorCommits>, RestorePreparationError>,
)
    requires
        call_ensures(derive_commits, (operators, restoring), r),
    ensures
        r is Ok <==> forall|o: int|
            0 <= o < operators@.len() ==> derivable(#[trigger] operators@[o], restoring@),
        r matches Err(e) ==> e is Fatal,
        r matches Ok(derived) ==> exists|at: Seq<int>| #[trigger]
            lists_committing_operators(at, operators@) && at.len() == derived@.len() && forall|
                k: int,
            |
                0 <= k < at.len() ==> replays_operator(#[trigger] derived@[k], operators@[at[k]])
                    && is_built_at(
                    restoring@,
                    derived@[k].operator_id@,
                    derived@[k].parallelism,
                ),
{
    let at = derived_operators_are_the_committing_ones(operators@, restoring@);
    if r is Ok {
        let derived = r->Ok_0;
        let at = what_reads_as_derived_is_replayed(derived@, operators@, restoring@);
    }
}

/// The replay of a restored checkpoint is what its metadata prepared and nothing else: a checkpoint
/// that was in its committing phase is replayed whole, under its own id, and any other is not
/// replayed at all. The metadata is rewritten at its own epoch with its own oldest epoch.
pub proof fn a_restored_checkpoint_replays_what_it_prepared(
    checkpoint: CheckpointInfo,
    loaded: LoadedCheckpoint,
    operators: Vec<OperatorCheckpoint>,
    restoring: &Vec<(String, usize)>,
    checked: PreflightedCheckpoint,
    epoch: u32,
    min_epoch: u32,
    replayed: Option<CommittingState>,
)
    requires
        call_ensures(LoadedCheckpoint::loaded, (checkpoint, Ok(())), Ok(loaded)),
        call_ensures(LoadedCheckpoint::preflighted, (loaded, Ok(operators), restoring), Ok(checked)),
        call_ensures(PreflightedCheckpoint::epoch, (&checked,), epoch),
        call_ensures(PreflightedCheckpoint::min_epoch, (&checked,), min_epoch),
        call_ensures(PreflightedCheckpoint::rewritten, (checked, Ok(())), Ok(replayed)),
    ensures
        replayed is Some <==> checkpoint.needs_commits,
        replayed matches Some(replay) ==> replay.checkpoint_id@ == checkpoint.id@ && exists|
            at: Seq<int>,
        | #[trigger]
            lists_committing_operators(at, operators@) && at.len() == replay.operators@.len()
                && forall|k: int|
                0 <= k < at.len() ==> replays_operator(
                    #[trigger] replay.operators@[k],
                    operators@[at[k]],
                ) && is_built_at(
                    restoring@,
                    replay.operators@[k].operator_id@,
                    replay.operators@[k].parallelism,
                ),
        epoch == checkpoint.epoch % 0x1_0000_0000,
        min_epoch == checkpoint.min_epoch % 0x1_0000_0000,
{
    if checkpoint.needs_commits {
        let replay = checked.replay()->0;
        let at = what_reads_as_derived_is_replayed(replay.operators@, operators@, restoring@);
    }
}

/// A checkpoint is rewritten only once its own metadata was loaded and its every operator was loaded
/// and checked, and where it is to be replayed only once its commits were derived: any failure on
/// the way ends the preparation with what failed. What another attempt may read better is retried;
/// what the checkpoint itself does not allow is fatal.
pub proof fn a_checkpoint_is_classified_before_it_is_rewritten(
    checkpoint: CheckpointInfo,
    loading: Result<(), String>,
    loaded: Result<LoadedCheckpoint, RestorePreparationError>,
    known: LoadedCheckpoint,
    failure: PreflightFailure,
    restoring: &Vec<(String, usize)>,
    refused: Result<PreflightedCheckpoint, RestorePreparationError>,
    checked: PreflightedCheckpoint,
    rewriting: RewriteFailure,
    r: Result<Option<CommittingState>, RestorePreparationError>,
)
    requires
        call_ensures(LoadedCheckpoint::loaded, (checkpoint, loading), loaded),
        call_ensures(LoadedCheckpoint::preflighted, (known, Err(failure), restoring), refused),
        call_ensures(PreflightedCheckpoint::rewritten, (checked, Err(rewriting)), r),
    ensures
        loaded is Ok <==> loading is Ok,
        loaded matches Err(e) ==> e is Retryable && e->Retryable_source@ == loading->Err_0@,
        refused is Err,
        refused->Err_0 is Retryable <==> failure is Other,
        failure matches PreflightFailure::StateBackend(told) ==> refused->Err_0->Fatal_source@
            == told@,
        failure matches PreflightFailure::Incomplete(told) ==> refused->Err_0->Fatal_source@
            == told@,
        failure matches PreflightFailure::Other(told) ==> refused->Err_0->Retryable_source@
            == told@,
        r is Err,
        r->Err_0 is Retryable <==> rewriting is NotWritten,
        rewriting matches RewriteFailure::NotWritten(told) ==> r->Err_0->Retryable_source@ == told@,
        rewriting matches RewriteFailure::NotValidated(told) ==> r->Err_0->Fatal_source@ == told@,
{
}

/// Whether `of` lists every subtask of every operator that is replayed, operator by operator and
/// subtask by subtask: each once, and no others.
pub open spec fn lists_subtasks(of: Seq<(int, int)>, operators: Seq<OperatorCommits>) -> bool {
    &&& forall|i: int|
        0 <= i < of.len() ==> 0 <= (#[trigger] of[i]).0 < operators.len() && 0 <= of[i].1
            < operators[of[i].0].parallelism
    &&& forall|i: int, j: int|
        0 <= i < j < of.len() ==> (#[trigger] of[i]).0 < (#[trigger] of[j]).0 || (of[i].0 == of[j].0
            && of[i].1 < of[j].1)
    &&& forall|o: int, s: int|
        0 <= o < operators.len() && 0 <= s < operators[o].parallelism ==> #[trigger] of.contains(
            (o, s),
        )
}

proof fn subtasks_are_listed(commits: Seq<CommitsOf>) -> (of: Seq<(int, int)>)
    ensures
        forall|i: int|
            0 <= i < of.len() ==> 0 <= (#[trigger] of[i]).0 < commits.len() && 0 <= of[i].1
                < commits[of[i].0].parallelism,
        forall|i: int, j: int|
            0 <= i < j < of.len() ==> (#[trigger] of[i]).0 < (#[trigger] of[j]).0 || (of[i].0
                == of[j].0 && of[i].1 < of[j].1),
        forall|o: int, s: int|
            0 <= o < commits.len() && 0 <= s < commits[o].parallelism ==> #[trigger] of.contains(
                (o, s),
            ),
        of.len() == subtasks_of(commits).len(),
        forall|i: int|
            0 <= i < of.len() ==> (#[trigger] subtasks_of(commits)[i]).0
                == commits[of[i].0].operator_id && subtasks_of(commits)[i].1 == of[i].1 as u32,
    decreases commits.len(),
{
    if commits.len() == 0 {
        Seq::empty()
    } else {
        let earlier = commits.drop_last();
        let before = subtasks_are_listed(earlier);
        let n = commits.len() - 1;
        let width = commits.last().parallelism;
        let of = before + Seq::new(width, |s: int| (n, s));
        assert(forall|o: int| 0 <= o < n ==> #[trigger] earlier[o] == commits[o]);
        assert forall|i: int| 0 <= i < of.len() implies 0 <= (#[trigger] of[i]).0 < commits.len()
            && 0 <= of[i].1 < commits[of[i].0].parallelism by {
            if i < before.len() {
                assert(of[i] == before[i]);
                assert(earlier[before[i].0] == commits[before[i].0]);
            }
        }
        assert forall|o: int, s: int|
            0 <= o < commits.len() && 0 <= s < commits[o].parallelism implies #[trigger] of.contains(
            (o, s),
        ) by {
            if o < n {
                assert(earlier[o] == commits[o]);
                assert(before.contains((o, s)));
                let i = choose|i: int| 0 <= i < before.len() && before[i] == (o, s);
                assert(of[i] == (o, s));
            } else {
                assert(of[before.len() + s] == (o, s));
            }
        }
        assert forall|i: int, j: int| 0 <= i < j < of.len() implies (#[trigger] of[i]).0 < (
        #[trigger] of[j]).0 || (of[i].0 == of[j].0 && of[i].1 < of[j].1) by {
            if j < before.len() {
                assert(of[i] == before[i] && of[j] == before[j]);
            } else if i < before.len() {
                assert(of[i] == before[i]);
            }
        }
        assert forall|i: int| 0 <= i < of.len() implies (#[trigger] subtasks_of(commits)[i]).0
            == commits[of[i].0].operator_id && subtasks_of(commits)[i].1 == of[i].1 as u32 by {
            if i < before.len() {
                assert(of[i] == before[i]);
                assert(subtasks_of(commits)[i] == subtasks_of(earlier)[i]);
                assert(earlier[before[i].0] == commits[of[i].0]);
            }
        }
        of
    }
}

/// Every subtask of every operator that is replayed has to commit, and no other: each once, in
/// order, as many of an operator's as it is built with.
pub proof fn every_subtask_of_a_replayed_operator_commits(
    replay: &CommittingState,
    subtasks: Vec<(String, u32)>,
)
    requires
        call_ensures(CommittingState::commit_subtasks, (replay,), subtasks),
    ensures
        exists|of: Seq<(int, int)>| #[trigger]
            lists_subtasks(of, replay.operators@) && of.len() == subtasks@.len() && forall|i: int|
                0 <= i < of.len() ==> (#[trigger] subtasks@[i]).0@
                    == replay.operators@[of[i].0].operator_id@ && subtasks@[i].1
                    == of[i].1 as u32,
{
    let commits = replay.commits();
    let of = subtasks_are_listed(commits);
    assert(forall|o: int|
        0 <= o < commits.len() ==> (#[trigger] commits[o]).parallelism
            == replay.operators@[o].parallelism && commits[o].operator_id
            == replay.operators@[o].operator_id@);
    assert(lists_subtasks(of, replay.operators@));
    let told = Seq::new(subtasks@.len(), |i: int| (subtasks@[i].0@, subtasks@[i].1));
    assert forall|i: int| 0 <= i < of.len() implies (#[trigger] subtasks@[i]).0@
        == replay.operators@[of[i].0].operator_id@ && subtasks@[i].1 == of[i].1 as u32 by {
        assert(told[i] == subtasks_of(commits)[i]);
    }
}

/// An epoch is stored as what is left of it in thirty-two bits: as it is where it fits, one higher
/// for the next one, and from zero again after the highest.
pub proof fn an_epoch_is_stored_as_it_is_where_it_fits(epoch: u64, r: u32, next: u64, other: u32)
    requires
        call_ensures(stored_epoch, (epoch,), r),
        call_ensures(stored_epoch, (next,), other),
    ensures
        epoch <= u32::MAX ==> r == epoch,
        next == epoch + 0x1_0000_0000 ==> other == r,
        next == epoch + 1 ==> other == (if r == u32::MAX {
            0int
        } else {
            r + 1
        }),
{
}

/// Whether a table's own metadata, or where its operator is built, keeps its commits from being
/// derived.
pub open spec fn is_faulty(
    table: TableCheckpoint,
    operator: OperatorCheckpoint,
    restoring: Seq<(String, usize)>,
) -> bool {
    ||| table.config is None
    ||| table.config == Some(TableType::MissingTableType)
    ||| commits_something(table) && forall|i: int|
        0 <= i < restoring.len() ==> (#[trigger] restoring[i]).0@ != operator.operator_id@
}

/// What is told of commits that cannot be derived is told of the first table that keeps them from
/// being derived, in the first operator that has one: that its configuration is missing, that its
/// type is, or that the job's program has no such operator.
pub proof fn the_first_fault_is_told(
    operators: &Vec<OperatorCheckpoint>,
    restoring: &Vec<(String, usize)>,
    r: Result<Vec<OperatorCommits>, RestorePreparationError>,
    o: int,
    t: int,
)
    requires
        call_ensures(derive_commits, (operators, restoring), r),
        0 <= o < operators@.len(),
        0 <= t < operators@[o].tables@.len(),
        forall|k: int| 0 <= k < o ==> derivable(#[trigger] operators@[k], restoring@),
        forall|k: int|
            0 <= k < t ==> !is_faulty(
                #[trigger] operators@[o].tables@[k],
                operators@[o],
                restoring@,
            ),
        is_faulty(operators@[o].tables@[t], operators@[o], restoring@),
    ensures
        r is Err,
        r->Err_0 is Fatal,
        ({
            let table = operators@[o].tables@[t];
            &&& table.config is None ==> r->Err_0->Fatal_source@ == "table config for "@
                + table.table_name@ + " not found"@
            &&& table.config == Some(TableType::MissingTableType) ==> r->Err_0->Fatal_source@
                == "table type not found"@
            &&& table.config == Some(TableType::GlobalKeyValue) ==> r->Err_0->Fatal_source@
                == "operator "@ + operators@[o].operator_id@ + " not found in program"@
        }),
{
    let operator = operators@[o];
    let id = operator.operator_id@;
    let tables = operator.tables@;
    let parallelism = parallelism_of(restoring@, id);
    parallelism_is_the_first_listed(restoring@, id);
    let earlier_tables = tables.take(t);
    let _ = derived_tables_are_the_committing_ones(id, parallelism, earlier_tables);
    assert forall|k: int| 0 <= k < earlier_tables.len() implies (
    #[trigger] earlier_tables[k]).config is Some && earlier_tables[k].config != Some(
        TableType::MissingTableType,
    ) && (commits_something(earlier_tables[k]) ==> parallelism is Some) by {
        assert(earlier_tables[k] == tables[k]);
        assert(!is_faulty(tables[k], operator, restoring@));
    }
    assert(tables.take(t + 1).drop_last() =~= earlier_tables);
    assert(tables.take(t + 1).last() == tables[t]);
    stays_faulty(id, parallelism, tables, t + 1);
    let earlier = operators@.take(o);
    let _ = derived_operators_are_the_committing_ones(earlier, restoring@);
    assert forall|k: int| 0 <= k < earlier.len() implies derivable(
        #[trigger] earlier[k],
        restoring@,
    ) by {
        assert(earlier[k] == operators@[k]);
    }
    assert(operators@.take(o + 1).drop_last() =~= earlier);
    assert(operators@.take(o + 1).last() == operator);
    operators_stay_faulty(operators@, restoring@, o + 1);
}

} // verus!
