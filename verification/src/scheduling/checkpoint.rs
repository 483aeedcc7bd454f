//! Which checkpoint a job restores from, in both controller topologies.

use crate::scheduling::restore::{CheckpointInfo, CommittingState, RestorePreparationError};
use crate::states::{fatal, retryable, StateError, StateName};
use vstd::prelude::*;
use vstd::string::*;

verus! {

/// A row of the job's checkpoints.
#[derive(Clone, Debug, PartialEq, Eq)]
pub struct CheckpointRow {
    pub pub_id: String,
    pub epoch: i32,
    pub min_epoch: i32,
    pub needs_commits: bool,
    pub state_backend: String,
}

/// What reaching the job's checkpoint rows can fail with.
#[derive(Debug, PartialEq, Eq)]
pub enum DatabaseFailure {
    Client(String),
    Query(String),
}

/// Whether a checkpoint of this epoch is restored under the job's threshold, if it has one.
pub open spec fn restores(threshold: Option<i32>, epoch: i32) -> bool {
    threshold matches Some(t) ==> epoch >= t
}

/// The checkpoint a row describes.
pub open spec fn described_by(info: CheckpointInfo, row: CheckpointRow) -> bool {
    &&& info.id@ == row.pub_id@
    &&& info.epoch == row.epoch as u64
    &&& info.min_epoch == row.min_epoch as u64
    &&& info.needs_commits == row.needs_commits
}

/// The checkpoint a job restores from, picked but not looked into: the first step of preparing a
/// recovery where the controller keeps the checkpoints.
#[derive(Debug)]
pub struct SelectedCheckpoint {
    row: Option<CheckpointRow>,
}

/// A selected checkpoint that was written by the job's own backend.
#[derive(Debug)]
pub struct ValidatedCheckpoint {
    info: Option<CheckpointInfo>,
    /// The epoch that is restored, or zero.
    restored: i32,
}

/// A validated checkpoint after which every checkpoint that was in progress is marked failed.
#[derive(Debug)]
pub struct ReadyCheckpoint {
    info: Option<CheckpointInfo>,
}

impl View for SelectedCheckpoint {
    type V = Option<CheckpointRow>;

    closed spec fn view(&self) -> Option<CheckpointRow> {
        self.row
    }
}

impl View for ValidatedCheckpoint {
    type V = Option<CheckpointInfo>;

    closed spec fn view(&self) -> Option<CheckpointInfo> {
        self.info
    }
}

impl View for ReadyCheckpoint {
    type V = Option<CheckpointInfo>;

    closed spec fn view(&self) -> Option<CheckpointInfo> {
        self.info
    }
}

impl SelectedCheckpoint {
    /// Picks the row the job restores from: the newest one, unless the job's threshold skips it.
    /// Nothing is restored in its place.
    pub fn among(
        rows: Result<Vec<CheckpointRow>, DatabaseFailure>,
        ignore_state_before_epoch: Option<i32>,
    ) -> (r: Result<Self, StateError>)
        ensures
            match rows {
                Err(DatabaseFailure::Client(source)) => r matches Err(e) && e.retryable_with(
                    StateName::Scheduling,
                    "failed to get db client"@,
                    source@,
                    10,
                ),
                Err(DatabaseFailure::Query(source)) => r matches Err(e) && e.retryable_with(
                    StateName::Scheduling,
                    "failed to fetch last checkpoint"@,
                    source@,
                    10,
                ),
                Ok(rows) => r matches Ok(selected) && selected@ == (if rows@.len() > 0 && restores(
                    ignore_state_before_epoch,
                    rows@[0].epoch,
                ) {
                    Some(rows@[0])
                } else {
                    None
                }),
            },
    {
        match rows {
            Err(DatabaseFailure::Client(source)) => Err(
                retryable(StateName::Scheduling, "failed to get db client", source, 10),
            ),
            Err(DatabaseFailure::Query(source)) => Err(
                retryable(StateName::Scheduling, "failed to fetch last checkpoint", source, 10),
            ),
            Ok(rows) => {
                let mut rows = rows;
                if rows.len() == 0 {
                    return Ok(SelectedCheckpoint { row: None });
                }
                let row = rows.remove(0);
                let should_restore = match ignore_state_before_epoch {
                    Some(threshold) => row.epoch >= threshold,
                    None => true,
                };
                if should_restore {
                    Ok(SelectedCheckpoint { row: Some(row) })
                } else {
                    Ok(SelectedCheckpoint { row: None })
                }
            },
        }
    }

    /// The row whose backend is to be compared with the job's own, if there is one.
    pub fn row(&self) -> (r: Option<&CheckpointRow>)
        ensures
            match self@ {
                Some(row) => r == Some(&row),
                None => r is None,
            },
    {
        self.row.as_ref()
    }

    /// What comparing them came to. A disagreement fails the job: the same row is read again on
    /// every attempt. Without a row there is nothing to compare.
    pub fn validated(self, verdict: Result<(), String>) -> (r: Result<
        ValidatedCheckpoint,
        StateError,
    >)
        ensures
            match self@ {
                None => r matches Ok(validated) && validated@ is None && validated.restored() == 0,
                Some(row) => match verdict {
                    Err(source) => r matches Err(e) && e.fatal_with(
                        "cannot restore a checkpoint written with a different state backend"@,
                        source@,
                    ),
                    Ok(()) => r matches Ok(validated) && validated.restored() == row.epoch && (
                    validated@ matches Some(info) && described_by(info, row)),
                },
            },
    {
        match self.row {
            None => Ok(ValidatedCheckpoint { info: None, restored: 0 }),
            Some(row) => match verdict {
                Err(source) => Err(
                    fatal(
                        "cannot restore a checkpoint written with a different state backend",
                        source,
                    ),
                ),
                Ok(()) => {
                    let restored: i32 = row.epoch;
                    Ok(
                        ValidatedCheckpoint {
                            info: Some(
                                CheckpointInfo {
                                    id: row.pub_id,
                                    epoch: #[verifier::truncate] (row.epoch as u64),
                                    min_epoch: #[verifier::truncate] (row.min_epoch as u64),
                                    needs_commits: row.needs_commits,
                                },
                            ),
                            restored,
                        },
                    )
                },
            },
        }
    }
}

impl ValidatedCheckpoint {
    /// The epoch that is restored, or zero where nothing is.
    pub closed spec fn restored(self) -> i32 {
        self.restored
    }

    /// The first epoch whose checkpoints are marked failed: the one after what is restored.
    pub fn mark_failed_from(&self) -> (r: i32)
        requires
            self.restored() < i32::MAX,
        ensures
            r == self.restored() + 1,
    {
        self.restored + 1
    }

    /// What marking them came to.
    pub fn marked_failed(self, result: Result<(), DatabaseFailure>) -> (r: Result<
        ReadyCheckpoint,
        StateError,
    >)
        ensures
            match result {
                Ok(()) => r matches Ok(ready) && ready@ == self@,
                Err(DatabaseFailure::Client(source)) => r matches Err(e) && e.retryable_with(
                    StateName::Scheduling,
                    "failed to get db client for mark_failed"@,
                    source@,
                    10,
                ),
                Err(DatabaseFailure::Query(source)) => r matches Err(e) && e.retryable_with(
                    StateName::Scheduling,
                    "failed to mark in-progress checkpoints as failed"@,
                    source@,
                    10,
                ),
            },
    {
        match result {
            Ok(()) => Ok(ReadyCheckpoint { info: self.info }),
            Err(DatabaseFailure::Client(source)) => Err(
                retryable(
                    StateName::Scheduling,
                    "failed to get db client for mark_failed",
                    source,
                    10,
                ),
            ),
            Err(DatabaseFailure::Query(source)) => Err(
                retryable(
                    StateName::Scheduling,
                    "failed to mark in-progress checkpoints as failed",
                    source,
                    10,
                ),
            ),
        }
    }
}

impl ReadyCheckpoint {
    /// The checkpoint that is to be prepared, if there is one.
    pub fn to_prepare(&self) -> (r: Option<&CheckpointInfo>)
        ensures
            match self@ {
                Some(info) => r == Some(&info),
                None => r is None,
            },
    {
        self.info.as_ref()
    }

    /// What preparing it came to, or nothing where there was none to prepare: the checkpoint the
    /// job restores from and the commits it replays.
    pub fn prepared(
        self,
        result: Option<Result<Option<CommittingState>, RestorePreparationError>>,
    ) -> (r: Result<(Option<CheckpointInfo>, Option<CommittingState>), StateError>)
        requires
            result is Some <==> self@ is Some,
        ensures
            match result {
                None => r == Ok::<_, StateError>(
                    (None::<CheckpointInfo>, None::<CommittingState>),
                ),
                Some(Ok(committing)) => r == Ok::<_, StateError>((self@, committing)),
                Some(Err(RestorePreparationError::Retryable { message, source })) => r matches Err(
                    e,
                ) && e.retryable_with(StateName::Scheduling, message@, source@, 10),
                Some(Err(RestorePreparationError::Fatal { message, source })) => r matches Err(e)
                    && e.fatal_with(message@, source@),
            },
    {
        match result {
            None => Ok((None, None)),
            Some(Ok(committing)) => Ok((self.info, committing)),
            Some(Err(RestorePreparationError::Retryable { message, source })) => Err(
                retryable(StateName::Scheduling, message.as_str(), source, 10),
            ),
            Some(Err(RestorePreparationError::Fatal { message, source })) => Err(
                fatal(message.as_str(), source),
            ),
        }
    }
}

/// The recovery manifest of a worker-led generation.
#[derive(Clone, Copy, Debug, PartialEq, Eq, Structural)]
pub struct RecoveryManifest {
    pub epoch: u64,
    pub min_epoch: u64,
    pub needs_commit: bool,
}

/// What initializing a worker-led generation came to.
#[derive(Debug, PartialEq, Eq)]
pub enum GenerationInitialization {
    /// There is no checkpoint to recover from.
    NoCheckpoint,
    /// The generation recovers from the referenced checkpoint, whether or not commits are to be
    /// replayed; the manifest is what was read and validated.
    Recovers { checkpoint_ref: String, manifest: Option<RecoveryManifest> },
    /// The recovered checkpoint is orphaned, with its canonical reference as it prints.
    StopOrphaned { canonical_ref: String },
    /// The recovery checkpoint did not resolve, with the failure as it prints.
    Failed { failure: String },
}

/// Whether a worker-led generation starts without state: the job's threshold names it.
pub fn ignores_state(ignore_state_before_epoch: Option<i32>, generation: u64) -> (r: bool)
    ensures
        r == (ignore_state_before_epoch matches Some(named) && named == generation),
{
    match ignore_state_before_epoch {
        Some(named) => if named >= 0 {
            named as u64 == generation
        } else {
            false
        },
        None => false,
    }
}

/// What a worker-led generation restores from.
pub fn leader_checkpoint(initialized: GenerationInitialization) -> (r: Result<
    Option<CheckpointInfo>,
    String,
>)
    ensures
        match initialized {
            GenerationInitialization::NoCheckpoint => r
                == Ok::<Option<CheckpointInfo>, String>(None),
            GenerationInitialization::Recovers { checkpoint_ref, manifest: Some(manifest) } => {
                r matches Ok(Some(info)) && info.id@ == checkpoint_ref@ && info.epoch
                    == manifest.epoch && info.min_epoch == manifest.min_epoch && info.needs_commits
                    == manifest.needs_commit
            },
            GenerationInitialization::Recovers { checkpoint_ref, manifest: None } => r matches Err(
                report,
            ) && report@ == "recovery checkpoint manifest "@ + checkpoint_ref@ + " is missing!"@,
            GenerationInitialization::StopOrphaned { canonical_ref } => r matches Err(report)
                && report@
                == "somehow ended up with an orphaned checkpoint during recovery... should not happencanonical_ref = "@
                + canonical_ref@,
            GenerationInitialization::Failed { failure } => r matches Err(report) && report@
                == "failed while resolving restoration checkpoint: "@ + failure@,
        },
{
    match initialized {
        GenerationInitialization::NoCheckpoint => Ok(None),
        GenerationInitialization::Recovers { checkpoint_ref, manifest: Some(manifest) } => Ok(
            Some(
                CheckpointInfo {
                    epoch: manifest.epoch,
                    min_epoch: manifest.min_epoch,
                    id: checkpoint_ref,
                    needs_commits: manifest.needs_commit,
                },
            ),
        ),
        GenerationInitialization::Recovers { checkpoint_ref, manifest: None } => {
            let mut report = "recovery checkpoint manifest ".to_owned();
            report.append(checkpoint_ref.as_str());
            report.append(" is missing!");
            Err(report)
        },
        GenerationInitialization::StopOrphaned { canonical_ref } => {
            let mut report =
                "somehow ended up with an orphaned checkpoint during recovery... should not happencanonical_ref = ".to_owned();
            report.append(canonical_ref.as_str());
            Err(report)
        },
        GenerationInitialization::Failed { failure } => {
            let mut report = "failed while resolving restoration checkpoint: ".to_owned();
            report.append(failure.as_str());
            Err(report)
        },
    }
}

/// What preparing a worker-led generation's recovery can fail with.
#[derive(Debug, PartialEq, Eq)]
pub enum LeaderRecoveryFailure {
    /// The recovery checkpoint was written by another backend than the job's.
    StateBackend(String),
    Other(String),
}

/// What preparing a worker-led generation's recovery comes to for the job. A rejected backend is
/// not transient: every attempt resolves the same manifest.
pub fn leader_prepared(result: Result<Option<CheckpointInfo>, LeaderRecoveryFailure>) -> (r: Result<
    Option<CheckpointInfo>,
    StateError,
>)
    ensures
        match result {
            Ok(info) => r == Ok::<_, StateError>(info),
            Err(LeaderRecoveryFailure::StateBackend(source)) => r matches Err(e) && e.fatal_with(
                "cannot restore a checkpoint written with a different state backend"@,
                source@,
            ),
            Err(LeaderRecoveryFailure::Other(source)) => r matches Err(e) && e.retryable_with(
                StateName::Scheduling,
                "failed to load checkpoint metadata"@,
                source@,
                20,
            ),
        },
{
    match result {
        Ok(info) => Ok(info),
        Err(LeaderRecoveryFailure::StateBackend(source)) => Err(
            fatal("cannot restore a checkpoint written with a different state backend", source),
        ),
        Err(LeaderRecoveryFailure::Other(source)) => Err(
            retryable(StateName::Scheduling, "failed to load checkpoint metadata", source, 20),
        ),
    }
}

/// The epoch a job without a checkpoint starts from. Where workers lead, the job's threshold
/// names a generation and not an epoch, so it says nothing here.
pub open spec fn default_epoch(leader_mode: bool, threshold: Option<i32>) -> u64 {
    match threshold {
        Some(t) => if !leader_mode && t > 0 {
            (t - 1) as u64
        } else {
            0
        },
        None => 0,
    }
}

/// The epoch a job starts from and the oldest one it keeps.
pub fn epochs(
    leader_mode: bool,
    ignore_state_before_epoch: Option<i32>,
    info: &Option<CheckpointInfo>,
) -> (r: (u64, u64))
    ensures
        r == (match *info {
            Some(info) => (info.epoch, info.min_epoch),
            None => (
                default_epoch(leader_mode, ignore_state_before_epoch),
                default_epoch(leader_mode, ignore_state_before_epoch),
            ),
        }),
{
    let default_epoch: u64 = match ignore_state_before_epoch {
        Some(t) => if !leader_mode && t > 0 {
            (t - 1) as u64
        } else {
            0
        },
        None => 0,
    };
    match info {
        Some(info) => (info.epoch, info.min_epoch),
        None => (default_epoch, default_epoch),
    }
}

/// A job that skips every checkpoint below its threshold takes its first one at the threshold:
/// the epoch it starts from is the one before.
pub proof fn a_skipped_checkpoint_is_below_the_starting_epoch(threshold: i32, epoch: i32)
    requires
        threshold > 0,
        epoch >= 0,
        !restores(Some(threshold), epoch),
    ensures
        epoch <= default_epoch(false, Some(threshold)),
        default_epoch(false, Some(threshold)) + 1 == threshold,
{
}

/// A job restores the newest of its checkpoints or none: the first row, exactly where the job's
/// threshold does not skip it. Nothing older is restored in its place, and rows that could not be
/// read are never taken for none.
pub proof fn a_job_restores_its_newest_checkpoint_or_none(
    rows: Vec<CheckpointRow>,
    threshold: Option<i32>,
    selected: Result<SelectedCheckpoint, StateError>,
    row: Option<&CheckpointRow>,
    failure: DatabaseFailure,
    failed: Result<SelectedCheckpoint, StateError>,
)
    requires
        call_ensures(SelectedCheckpoint::among, (Ok(rows), threshold), selected),
        selected is Ok ==> call_ensures(SelectedCheckpoint::row, (&selected->Ok_0,), row),
        call_ensures(SelectedCheckpoint::among, (Err(failure), threshold), failed),
    ensures
        selected is Ok,
        row matches Some(restored) ==> rows@.len() > 0 && *restored == rows@[0] && (
        threshold is None || rows@[0].epoch >= threshold->0),
        row is None ==> rows@.len() == 0 || (threshold is Some && rows@[0].epoch < threshold->0),
        failed is Err,
        failed->Err_0 is RetryableError,
        failed->Err_0->retries == 10,
        failed->Err_0->RetryableError_source@ == (match failure {
            DatabaseFailure::Client(told) => told@,
            DatabaseFailure::Query(told) => told@,
        }),
{
}

/// What a job restores is the row that was selected for it, unchanged, and every checkpoint after it
/// is marked failed, none before it: a checkpoint that another backend wrote is never restored.
pub proof fn what_is_restored_is_what_was_selected(
    selected: SelectedCheckpoint,
    row: Option<&CheckpointRow>,
    verdict: Result<(), String>,
    validated: Result<ValidatedCheckpoint, StateError>,
    from: i32,
    marked: Result<ReadyCheckpoint, StateError>,
    to_prepare: Option<&CheckpointInfo>,
)
    requires
        call_ensures(SelectedCheckpoint::row, (&selected,), row),
        call_ensures(SelectedCheckpoint::validated, (selected, verdict), validated),
        validated is Ok ==> call_ensures(
            ValidatedCheckpoint::mark_failed_from,
            (&validated->Ok_0,),
            from,
        ) && call_ensures(ValidatedCheckpoint::marked_failed, (validated->Ok_0, Ok(())), marked),
        marked is Ok ==> call_ensures(ReadyCheckpoint::to_prepare, (&marked->Ok_0,), to_prepare),
    ensures
        validated is Err <==> row is Some && verdict is Err,
        validated matches Err(e) ==> e is FatalError && e->FatalError_source@ == verdict->Err_0@,
        validated is Ok ==> marked is Ok,
        validated is Ok ==> (to_prepare is Some <==> row is Some),
        validated is Ok && row is Some ==> {
            &&& to_prepare->0.id@ == row->0.pub_id@
            &&& to_prepare->0.epoch == row->0.epoch as u64
            &&& to_prepare->0.min_epoch == row->0.min_epoch as u64
            &&& to_prepare->0.needs_commits == row->0.needs_commits
            &&& from == row->0.epoch + 1
        },
        validated is Ok && row is None ==> from == 1,
{
}

/// Preparing a checkpoint keeps it: what is prepared is handed on with the commits it replays, and
/// where preparing failed nothing is restored at all. A failure is retried exactly where the
/// preparation may be tried again, and keeps its texts either way.
pub proof fn a_prepared_checkpoint_is_handed_on_whole(
    ready: ReadyCheckpoint,
    to_prepare: Option<&CheckpointInfo>,
    result: Option<Result<Option<CommittingState>, RestorePreparationError>>,
    r: Result<(Option<CheckpointInfo>, Option<CommittingState>), StateError>,
)
    requires
        call_ensures(ReadyCheckpoint::to_prepare, (&ready,), to_prepare),
        result is Some <==> to_prepare is Some,
        call_ensures(ReadyCheckpoint::prepared, (ready, result), r),
    ensures
        r is Err <==> result is Some && result->0 is Err,
        r matches Ok((info, committing)) ==> (info is Some <==> to_prepare is Some) && (
        info is Some ==> info->0 == *to_prepare->0 && committing == result->0->Ok_0) && (info is None
            ==> committing is None),
        r matches Err(e) ==> match result->0->Err_0 {
            RestorePreparationError::Retryable { message, source } => e is RetryableError
                && e->RetryableError_message@ == message@ && e->RetryableError_source@ == source@
                && e->retries == 10 && e->state == StateName::Scheduling,
            RestorePreparationError::Fatal { message, source } => e is FatalError
                && e->FatalError_message@ == message@ && e->FatalError_source@ == source@,
        },
{
}

/// Checkpoints that were in progress are marked failed before anything is restored: where that could
/// not be done the attempt is retried, with the reason.
pub proof fn nothing_is_restored_before_the_rest_is_marked_failed(
    validated: ValidatedCheckpoint,
    failure: DatabaseFailure,
    r: Result<ReadyCheckpoint, StateError>,
)
    requires
        call_ensures(ValidatedCheckpoint::marked_failed, (validated, Err(failure)), r),
    ensures
        r is Err,
        r->Err_0 is RetryableError,
        r->Err_0->retries == 10,
        r->Err_0->state == StateName::Scheduling,
        r->Err_0->RetryableError_source@ == (match failure {
            DatabaseFailure::Client(told) => told@,
            DatabaseFailure::Query(told) => told@,
        }),
{
}

/// A worker-led generation recovers from the checkpoint its initialization names, with what the
/// manifest says of it, and starts without one only where there is none: a checkpoint that is
/// orphaned, missing its manifest or unresolved is a failure.
pub proof fn a_generation_recovers_from_what_it_was_initialized_with(
    initialized: GenerationInitialization,
    r: Result<Option<CheckpointInfo>, String>,
)
    requires
        call_ensures(leader_checkpoint, (initialized,), r),
    ensures
        r matches Ok(info) ==> (info is None <==> initialized is NoCheckpoint),
        r is Ok <==> initialized is NoCheckpoint || (initialized is Recovers
            && initialized->manifest is Some),
        r matches Ok(Some(info)) ==> {
            &&& info.id@ == initialized->checkpoint_ref@
            &&& info.epoch == initialized->manifest->0.epoch
            &&& info.min_epoch == initialized->manifest->0.min_epoch
            &&& info.needs_commits == initialized->manifest->0.needs_commit
        },
{
}

/// A worker-led generation is started without state exactly where the job's threshold is its own
/// number, and a recovery that failed is retried unless another backend wrote the checkpoint, which
/// no retry changes.
pub proof fn a_recovery_is_retried_unless_no_retry_helps(
    threshold: Option<i32>,
    generation: u64,
    ignores: bool,
    result: Result<Option<CheckpointInfo>, LeaderRecoveryFailure>,
    r: Result<Option<CheckpointInfo>, StateError>,
)
    requires
        call_ensures(ignores_state, (threshold, generation), ignores),
        call_ensures(leader_prepared, (result,), r),
    ensures
        ignores <==> threshold is Some && threshold->0 == generation,
        r is Ok <==> result is Ok,
        r is Ok ==> r->Ok_0 == result->Ok_0,
        r matches Err(e) ==> (e is FatalError <==> result->Err_0 is StateBackend),
        r matches Err(e) ==> match result->Err_0 {
            LeaderRecoveryFailure::StateBackend(told) => e->FatalError_source@ == told@,
            LeaderRecoveryFailure::Other(told) => e->RetryableError_source@ == told@ && e->retries
                == 20 && e->state == StateName::Scheduling,
        },
{
}

/// A job that restores starts from its checkpoint's own epochs; one that does not starts so that its
/// first epoch is the threshold, where the threshold is an epoch, and from the beginning otherwise.
pub proof fn a_job_starts_from_its_checkpoint_or_its_threshold(
    leader_mode: bool,
    threshold: Option<i32>,
    info: &Option<CheckpointInfo>,
    r: (u64, u64),
)
    requires
        call_ensures(epochs, (leader_mode, threshold, info), r),
    ensures
        *info matches Some(restored) ==> r.0 == restored.epoch && r.1 == restored.min_epoch,
        *info is None ==> r.0 == r.1,
        *info is None && !leader_mode && threshold is Some && threshold->0 > 0 ==> r.0 + 1
            == threshold->0,
        *info is None && (leader_mode || threshold is None || threshold->0 <= 0) ==> r.0 == 0,
{
}

} // verus!
