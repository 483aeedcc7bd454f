//! Who may do what during a fenced scheduling attempt.

use arroyo_controller::admission::{Admission, AdmissionLock};
use arroyo_controller::job::{JobContext, JobStatus};
use arroyo_controller::lifecycle::fence::{FenceProtocol, LifecycleAuthority};
use arroyo_controller::lifecycle::intent::{
    IntentMailbox, LifecycleActor, LifecycleIntent, ObservedIntent,
};
use arroyo_controller::lifecycle::root::candidate::{InstallableCandidate, PutOutcome};
use arroyo_controller::lifecycle::settlement::JobSettlementOwner;
use arroyo_controller::lifecycle::waiting::JobWait;
use arroyo_controller::lifecycle::witness::{FenceAcknowledgement, ObservedTermination};
use arroyo_controller::messages::{JobMessage, RunningMessage, TaskFailure};
use arroyo_controller::scheduling::checkpoint::LeaderRecoveryFailure;
use arroyo_controller::scheduling::context::{
    AuthorityOutcome, Interrupted, PhaseContext, RecoveryPreparation, StatusPublication,
};
use arroyo_controller::scheduling::discharge::Discharge;
use arroyo_controller::scheduling::execution::{
    JobFailure, JobState, LeaderStatus, LeaderVerdict, WaitStep,
};
use arroyo_controller::scheduling::fanout::settlement::{
    Obligation, SettlementBundle, SettlementOutcome, SettlementOwner,
};
use arroyo_controller::scheduling::fanout::{Accounting, IssuedAttempts};
use arroyo_controller::scheduling::observation::{
    stop_transition, AdmissionStep, Admitted, FencedIntent, PhaseWait,
};
use arroyo_controller::scheduling::phases::{
    AwaitingTasks, AwaitingWorkers, CommitPublish, HandedOver, Leaving, Preamble, PreambleEffect,
    StartFanOut,
};
use arroyo_controller::scheduling::plan::AddressStep;
use arroyo_controller::scheduling::restore::{CheckpointInfo, CommittingState};
use arroyo_controller::scheduling::rooting::RootInstallation;
use arroyo_controller::scheduling::start_execution::{
    start_request, StartExecutionOutcome, StartReply, StartSettlement, TransportSettlement,
};
use arroyo_controller::scheduling::workers::WorkerState;
use arroyo_controller::scheduling::Scheduling;
use arroyo_controller::states::{
    ErrorDomain, FatalProvenance, NextState, StateError, StateName, StopBehavior, Transition,
};
use arroyo_controller::types::{
    JobConfig, LogicalProgram, ProgramNode, RestartMode, StateBackendSelector, StopMode, WorkerId,
};

fn config() -> JobConfig {
    JobConfig {
        id: "job_abc".to_string(),
        organization_id: "org".to_string(),
        pipeline_name: "pipeline".to_string(),
        pipeline_id: 1,
        stop_mode: StopMode::none,
        checkpoint_interval: 10_000_000,
        ttl: None,
        parallelism_overrides: vec![],
        restart_nonce: 0,
        restart_mode: RestartMode::safe,
        ignore_state_before_epoch: None,
        env_vars: "{}".to_string(),
        scheduler_config: "{}".to_string(),
        state_backend: StateBackendSelector::Parquet,
    }
}

fn program() -> LogicalProgram {
    LogicalProgram {
        nodes: vec![
            ProgramNode { node_id: 1, parallelism: 3 },
            ProgramNode { node_id: 2, parallelism: 2 },
        ],
        task_count: 5,
        hash: "program".to_string(),
    }
}

fn job() -> JobContext {
    JobContext {
        config: config(),
        status: JobStatus {
            generation: 4,
            restarts: 0,
            restart_nonce: 0,
            tasks: None,
            leader: None,
        },
        program: program(),
        pipeline_id: "pl_1".to_string(),
        pipeline_tags: vec![("team".to_string(), "data".to_string())],
        execution_selector: StateBackendSelector::Parquet,
    }
}

fn context() -> PhaseContext {
    PhaseContext::new(job(), false)
}

fn granted() -> (AdmissionLock, Admission) {
    let lock = AdmissionLock::for_job("job_abc".to_string());
    let admission = lock.try_admit().expect("nobody else holds the lock");
    (lock, admission)
}

fn connect(worker: u64, generation: u64, slots: usize) -> JobMessage {
    JobMessage::WorkerConnect {
        worker_id: WorkerId(worker),
        machine_id: format!("machine_{worker}"),
        generation,
        rpc_address: format!("http://10.0.0.{worker}:1"),
        data_address: format!("10.0.0.{worker}:2"),
        slots,
        reconciles_start_execution: true,
    }
}

fn preamble() -> (AdmissionLock, Preamble) {
    let (lock, admission) = granted();
    (lock, Preamble::enter(context(), admission))
}

fn authority() -> LifecycleAuthority {
    LifecycleAuthority::from_parts("job_abc", 3, "epoch")
}

/// A candidate of `phase` that was published and agrees with the authority it was minted under.
fn installable(phase: &Preamble) -> InstallableCandidate {
    let candidate = phase.knows().root_candidate(&authority(), Ok(())).expect("nameable");
    candidate
        .published(PutOutcome::Written)
        .expect("written")
        .installable(&authority(), phase.knows().job.status.generation)
        .expect("minted under this authority")
}

fn applied_root(phase: &Preamble) -> RootInstallation {
    RootInstallation::Attempted(installable(phase), Ok(AuthorityOutcome::Applied))
}

/// Performs every effect before `effect`, or all of them.
fn performed_before(
    context: PhaseContext,
    effect: Option<PreambleEffect>,
) -> (AdmissionLock, Preamble) {
    let (lock, admission) = granted();
    let mut phase = Preamble::enter(context, admission);
    while phase.next_effect() != effect {
        let due = phase.next_effect().expect("the effect is one of a preamble");
        phase = match due {
            PreambleEffect::AdoptAuthority => {
                phase.adopt_lifecycle_authority(Ok(AuthorityOutcome::Applied), 0).ok()
            }
            PreambleEffect::DischargeFencing => {
                phase.discharge_recovered_fencing(Discharge::NothingRecorded, 0).ok()
            }
            PreambleEffect::RaiseGeneration => Some(phase.raise_generation()),
            PreambleEffect::PersistGeneration => {
                phase.persist_generation(Ok(StatusPublication::Published), 0).ok()
            }
            PreambleEffect::TearDownCluster => phase.tear_down_existing_cluster(Ok(())).ok(),
            PreambleEffect::SizeCluster => {
                let (phase, slots) = phase.size_cluster(program());
                assert_eq!(slots, 3);
                Some(phase)
            }
            PreambleEffect::StartWorkers => phase.start_replacement_workers(Ok(()), 0).ok(),
            PreambleEffect::PrepareRecovery => phase
                .prepare_recovery_checkpoint(RecoveryPreparation::Controller(Ok((None, None))), 0)
                .ok(),
            PreambleEffect::PublishRoot => {
                let installed = applied_root(&phase);
                phase.publish_metadata_root(installed, 0).ok().map(|(phase, _)| phase)
            }
            PreambleEffect::NameGeneration => phase.name_current_generation(Ok(()), 0).ok(),
        }
        .expect("every effect succeeds");
    }
    (lock, phase)
}

fn due(effect: PreambleEffect) -> (AdmissionLock, Preamble) {
    performed_before(context(), Some(effect))
}

/// The wait for workers of an attempt that was raised to the fourth generation.
fn awaiting_workers() -> AwaitingWorkers {
    let mut context = context();
    context.job.status.generation = 3;
    let (_, preamble) = performed_before(context, None);
    preamble.release()
}

/// Takes the place of an effect a phase does not have.
trait HasNoEffect {
    fn persist_generation(&self) -> &'static str {
        "absent"
    }
    fn tear_down_existing_cluster(&self) -> &'static str {
        "absent"
    }
    fn publish_metadata_root(&self) -> &'static str {
        "absent"
    }
    fn issue(&self) -> &'static str {
        "absent"
    }
    fn publish_restored_commits(&self) -> &'static str {
        "absent"
    }
}

impl HasNoEffect for AwaitingWorkers {}
impl HasNoEffect for AwaitingTasks {}
impl HasNoEffect for Leaving {}

/// Takes the place of a wait a phase does not have.
trait HasNoWait {
    fn await_message(&self) -> &'static str {
        "absent"
    }
}

impl HasNoWait for Preamble {}
impl HasNoWait for StartFanOut {}
impl HasNoWait for CommitPublish {}

/// Takes the place of a copy that cannot be made.
trait CannotBeCopied {
    fn clone(&self) -> &'static str {
        "absent"
    }
}

impl CannotBeCopied for Admission {}
impl CannotBeCopied for Preamble {}

/// Takes the place of a separation nobody outside may perform.
trait CannotBeTakenApart {
    fn into_parts(&self) -> &'static str {
        "absent"
    }
    fn keep(&self) -> &'static str {
        "absent"
    }
}

impl CannotBeTakenApart for SettlementBundle {}

#[test]
fn irreversible_phases_consume_admission() {
    let (lock, preamble) = due(PreambleEffect::PersistGeneration);
    assert!(!lock.is_free());
    let preamble = preamble
        .persist_generation(Ok(StatusPublication::Published), 0)
        .ok()
        .expect("the generation was published");
    let preamble = preamble.tear_down_existing_cluster(Ok(())).ok().expect("torn down");
    assert!(!lock.is_free());
    drop(preamble);
    let (lock, preamble) = performed_before(context(), None);
    assert!(!lock.is_free());
    let awaiting = preamble.release();
    assert!(lock.is_free());

    // Each effect takes the phase by value, and with it the authority inside.
    let _: fn(Preamble, Result<StatusPublication, String>, u64) -> Result<Preamble, Interrupted> =
        Preamble::persist_generation;
    let _: fn(Preamble, Result<(), String>) -> Result<Preamble, Interrupted> =
        Preamble::tear_down_existing_cluster;
    let _: fn(Preamble, Result<AuthorityOutcome, String>, u64) -> Result<Preamble, Interrupted> =
        Preamble::adopt_lifecycle_authority;
    let _: fn(Preamble, Discharge, u64) -> Result<Preamble, Interrupted> =
        Preamble::discharge_recovered_fencing;
    let _: fn(CommitPublish) -> Leaving = CommitPublish::publish_restored_commits;
    let (_lock, admission) = granted();
    assert_eq!(CannotBeCopied::clone(&admission), "absent");
    assert_eq!(admission.clone(), "absent");

    // A phase without authority has no irreversible effect at all.
    assert_eq!(awaiting.persist_generation(), "absent");
    assert_eq!(awaiting.tear_down_existing_cluster(), "absent");
    assert_eq!(awaiting.publish_metadata_root(), "absent");
    assert_eq!(awaiting.issue(), "absent");
    assert_eq!(awaiting.publish_restored_commits(), "absent");
}

#[test]
fn token_owning_phase_cannot_recv() {
    let mut awaiting = awaiting_workers();
    assert!(matches!(
        awaiting.await_message(connect(1, 4, 1), Ok(())),
        Ok(WaitStep::Dial { .. })
    ));
    assert!(!awaiting.workers_are_sufficient());

    let (_lock, preamble) = preamble();
    assert_eq!(preamble.await_message(), "absent");
    let (_lock, admission) = granted();
    let fan_out = started_on(&[(1, 3)]).admitted(admission);
    assert_eq!(fan_out.await_message(), "absent");
}

#[test]
fn an_owner_cannot_keep_half_an_obligation() {
    struct KeepingOwner {
        held: Option<SettlementBundle>,
    }
    impl SettlementOwner for KeepingOwner {
        fn declines(&self, _offered: Obligation) -> bool {
            unreachable!("stated of an owner, and never asked of one")
        }

        fn speaks_for(&self) -> Option<Obligation> {
            unreachable!("stated of an owner, and never asked of one")
        }

        fn speaks_for_after(&self, _offered: Obligation) -> Option<Obligation> {
            unreachable!("stated of an owner, and never asked of one")
        }

        fn take_over(&mut self, bundle: SettlementBundle) -> Result<(), SettlementBundle> {
            let _outstanding = bundle.issued().outstanding_count();
            self.held = Some(bundle);
            Ok(())
        }
    }
    let (lock, admission) = granted();
    let bundle = SettlementBundle::new(admission, IssuedAttempts::issued_under(4, 1));
    assert_eq!(bundle.into_parts(), "absent");
    assert_eq!(bundle.keep(), "absent");
    let mut owner = KeepingOwner { held: None };
    let receipt = bundle.transfer_to(&mut owner).ok().expect("the whole obligation was kept");
    assert_eq!(receipt.outstanding(), 0);
    assert!(owner.held.is_some());
    assert!(!lock.is_free());
}

#[test]
fn the_preamble_begins_with_adoption_and_ends_with_the_root() {
    let mut effects = vec![PreambleEffect::first()];
    while let Some(next) = effects.last().and_then(|e| e.following()) {
        effects.push(next);
    }
    assert_eq!(
        effects,
        vec![
            PreambleEffect::AdoptAuthority,
            PreambleEffect::DischargeFencing,
            PreambleEffect::RaiseGeneration,
            PreambleEffect::PersistGeneration,
            PreambleEffect::TearDownCluster,
            PreambleEffect::SizeCluster,
            PreambleEffect::StartWorkers,
            PreambleEffect::PrepareRecovery,
            PreambleEffect::PublishRoot,
            PreambleEffect::NameGeneration,
        ]
    );
}

#[test]
fn a_controller_that_lost_the_job_stands_down() {
    let stands_down = |left: Interrupted| {
        assert_eq!(
            left.reason,
            StateError::FatalError {
                message: "another controller holds this job's durable lifecycle authority"
                    .to_string(),
                domain: ErrorDomain::Internal,
                source: "fence 9".to_string(),
                provenance: arroyo_controller::states::FatalProvenance::Unrelated,
            }
        );
        assert_eq!(left.fencing.superseded.as_deref(), Some("fence 9"));
    };
    let (lock, p) = preamble();
    let left = p
        .adopt_lifecycle_authority(Ok(AuthorityOutcome::Stale("fence 9".to_string())), 0)
        .err()
        .expect("lost");
    assert!(lock.is_free());
    stands_down(left);
    let (_, p) = due(PreambleEffect::PersistGeneration);
    stands_down(
        p.persist_generation(Ok(StatusPublication::Superseded("fence 9".to_string())), 0)
            .err()
            .expect("lost"),
    );
    let (_, p) = due(PreambleEffect::DischargeFencing);
    stands_down(
        p.discharge_recovered_fencing(Discharge::Superseded("fence 9".to_string()), 0)
            .err()
            .expect("lost"),
    );
}

fn retried(e: &StateError) -> (&str, &str, usize) {
    match e {
        StateError::RetryableError { state: StateName::Scheduling, message, source, retries } => {
            (message.as_str(), source.as_str(), *retries)
        }
        other => panic!("expected a retry of scheduling, got {other:?}"),
    }
}

fn failed(e: &StateError) -> (&str, &str) {
    match e {
        StateError::FatalError { message, source, .. } => (message.as_str(), source.as_str()),
        other => panic!("expected a fatal error, got {other:?}"),
    }
}

#[test]
fn an_obligation_that_is_still_owed_is_retried_before_a_generation_is_persisted() {
    for discharge in [Discharge::Inactive, Discharge::NothingRecorded, Discharge::Settled] {
        let (_, p) = due(PreambleEffect::DischargeFencing);
        assert!(p.discharge_recovered_fencing(discharge, 0).is_ok());
    }
    let (_, p) = due(PreambleEffect::DischargeFencing);
    let left = p
        .discharge_recovered_fencing(
            Discharge::StillPending { pending: 2, outstanding_attempts: 1 },
            7,
        )
        .err()
        .expect("owed");
    assert_eq!(
        retried(&left.reason),
        (
            "this job still owes a worker generation an acknowledged fence",
            "2 target worker generation(s) and 1 issued StartExecution identifier(s) of an earlier scheduling attempt have neither acknowledged a superseding lifecycle fence nor been observed terminated; this job stays in token-free fencing and admits no replacement generation until one of those is observed",
            10
        )
    );
    assert_eq!(left.fencing.addressed_fence, 7);
    let (_, p) = due(PreambleEffect::DischargeFencing);
    let left = p
        .discharge_recovered_fencing(Discharge::Unusable("bad row".to_string()), 0)
        .err()
        .expect("unusable");
    assert_eq!(
        retried(&left.reason),
        ("this job's recovered fencing obligation could not be discharged", "bad row", 10)
    );
}

#[test]
fn every_effect_of_the_preamble_reports_its_own_failure() {
    let (_, p) = preamble();
    let left = p.adopt_lifecycle_authority(Err("db".to_string()), 0).err().unwrap();
    assert_eq!(
        retried(&left.reason),
        ("failed to adopt the job's durable lifecycle authority", "db", 10)
    );
    let (_, p) = due(PreambleEffect::PersistGeneration);
    let left = p.persist_generation(Err("db".to_string()), 0).err().unwrap();
    assert_eq!(
        retried(&left.reason),
        ("failed to advance generation for scheduling retry", "db", 10)
    );
    let (_, p) = due(PreambleEffect::TearDownCluster);
    assert!(p.tear_down_existing_cluster(Err("gone".to_string())).is_ok());
    let (_, p) = due(PreambleEffect::PrepareRecovery);
    let left = p
        .prepare_recovery_checkpoint(
            RecoveryPreparation::Leader(Err(LeaderRecoveryFailure::StateBackend(
                "mismatch".to_string(),
            ))),
            0,
        )
        .err()
        .unwrap();
    assert_eq!(
        failed(&left.reason),
        ("cannot restore a checkpoint written with a different state backend", "mismatch")
    );
    let (_, p) = due(PreambleEffect::PrepareRecovery);
    let left = p
        .prepare_recovery_checkpoint(
            RecoveryPreparation::Leader(Err(LeaderRecoveryFailure::Other("io".to_string()))),
            0,
        )
        .err()
        .unwrap();
    assert_eq!(retried(&left.reason), ("failed to load checkpoint metadata", "io", 20));
    let (_, p) = due(PreambleEffect::RaiseGeneration);
    let raised = p.raise_generation();
    assert_eq!(raised.knows().job.status.generation, 5);
}

fn info(id: &str) -> CheckpointInfo {
    CheckpointInfo { epoch: 9, min_epoch: 6, id: id.to_string(), needs_commits: false }
}

#[test]
fn a_root_is_installed_before_the_current_generation_is_named() {
    let with_pointer = || {
        let mut context = context();
        context.deferred_current_generation = Some("pointer".to_string());
        performed_before(context, Some(PreambleEffect::PublishRoot)).1
    };
    let (p, candidate) = with_pointer().root_candidate(&authority(), Ok(()), 3).ok().expect("named");
    let installed = applied_root(&p);
    let (p, pointer) = p.publish_metadata_root(installed, 3).ok().expect("installed");
    assert_eq!(pointer.as_deref(), Some("pointer"));
    assert_eq!(p.knows().deferred_current_generation, None);
    assert_eq!(p.next_effect(), Some(PreambleEffect::NameGeneration));
    let p = p.name_current_generation(Ok(()), 3).ok().expect("written");
    assert_eq!(p.next_effect(), None);
    assert_eq!(
        retried(&p.knows().current_generation_published(Err("io".to_string())).unwrap_err()),
        ("failed to publish the generation's canonical current-generation pointer", "io", 20)
    );
    let unnamed = with_pointer();
    let installed = applied_root(&unnamed);
    let (unnamed, _) = unnamed.publish_metadata_root(installed, 3).ok().expect("installed");
    let left = unnamed.name_current_generation(Err("io".to_string()), 3).err().expect("unwritten");
    assert_eq!(
        retried(&left.reason),
        ("failed to publish the generation's canonical current-generation pointer", "io", 20)
    );
    assert!(left.released.is_some());

    // Without a pointer there is nothing to name.
    let (_lock, p) = due(PreambleEffect::PublishRoot);
    let installed = applied_root(&p);
    let (p, pointer) = p.publish_metadata_root(installed, 3).ok().expect("installed");
    assert_eq!((pointer, p.next_effect()), (None, None));

    let unpublished = candidate.published(PutOutcome::Failed("denied".to_string())).unwrap_err();
    let not_published = unpublished.report();
    for (installation, message, source) in [
        (
            RootInstallation::StoreUnreachable("io".to_string()),
            "failed to reach the job's state store",
            "io",
        ),
        (
            RootInstallation::NotPublished(unpublished),
            "failed to publish the generation's candidate metadata object",
            not_published.as_str(),
        ),
        (
            RootInstallation::Attempted(installable(&with_pointer()), Err("io".to_string())),
            "failed to install the generation's authoritative metadata root",
            "io",
        ),
    ] {
        let left = with_pointer()
            .publish_metadata_root(installation, 3)
            .err()
            .expect("not installed");
        assert_eq!(retried(&left.reason), (message, source, 20));
        assert_eq!(
            left.fencing.context.deferred_current_generation.as_deref(),
            Some("pointer")
        );
    }

    let left = with_pointer()
        .root_candidate(&authority(), Err("the epoch is too long".to_string()), 3)
        .err()
        .expect("unnameable");
    assert_eq!(
        failed(&left.reason),
        (
            "no candidate metadata object can be named for this scheduling attempt",
            "no candidate object can be named for this attempt: the epoch is too long"
        )
    );
    assert!(left.released.is_some());

    let refusal = candidate.agrees_with(&authority(), 9).unwrap_err();
    let report = refusal.report();
    let left = with_pointer()
        .publish_metadata_root(RootInstallation::Refused(refusal), 3)
        .err()
        .expect("refused");
    assert_eq!(
        failed(&left.reason),
        (
            "this generation's candidate cannot be rooted under this controller's authority",
            report.as_str()
        )
    );

    let left = with_pointer()
        .publish_metadata_root(
            RootInstallation::Attempted(
                installable(&with_pointer()),
                Ok(AuthorityOutcome::Stale("fence 9".to_string())),
            ),
            3,
        )
        .err()
        .expect("lost");
    assert_eq!(left.fencing.unrooted_candidate, Some(candidate.key()));
    assert_eq!(left.fencing.superseded.as_deref(), Some("fence 9"));
    assert_eq!(left.fencing.context.unrooted_candidate, None);
}

#[test]
fn a_candidate_is_named_only_for_metadata_that_describes_the_attempt() {
    let authority = LifecycleAuthority::from_parts("job_abc", 3, "epoch");
    let mut leading = PhaseContext::new(job(), true);
    leading.checkpoint_info = Some(info("pl_1/other/x.pb"));
    let e = leading.root_candidate(&authority, Ok(())).unwrap_err();
    assert_eq!(
        failed(&e).0,
        "this scheduling attempt's generation metadata does not describe it"
    );
    leading.checkpoint_info = Some(info("pl_1/job_abc/x.pb"));
    assert!(leading.root_candidate(&authority, Ok(())).is_ok());

    let mut own = context();
    own.checkpoint_info = Some(info("41"));
    let candidate = own.root_candidate(&authority, Ok(())).unwrap();
    assert!(candidate.body().contains("\"controller_checkpoint_row\":\"41\""));
    let e = own.root_candidate(&LifecycleAuthority::unadopted("job_abc"), Ok(())).unwrap_err();
    assert_eq!(
        failed(&e),
        (
            "no candidate metadata object can be named for this scheduling attempt",
            "no candidate object can be named for this attempt: lifecycle fence 0 is not one an adoption installs"
        )
    );
}

/// What an attempt installs is named for its own pipeline, job and generation.
#[test]
fn an_attempt_tells_its_own_candidate_from_anothers() {
    let (_lock, phase) = due(PreambleEffect::PublishRoot);
    assert!(phase.knows().is_own_candidate(&installable(&phase)));
    let generation = phase.knows().job.status.generation;
    let mut same = context();
    same.job.status.generation = generation;
    assert!(same.is_own_candidate(&installable(&phase)));
    same.job.status.generation = generation + 1;
    assert!(!same.is_own_candidate(&installable(&phase)));
    same.job.status.generation = generation;
    same.job.pipeline_id = "pl_2".to_string();
    assert!(!same.is_own_candidate(&installable(&phase)));
    same.job.pipeline_id = phase.knows().job.pipeline_id.clone();
    same.job.config.id = "job_xyz".to_string();
    assert!(!same.is_own_candidate(&installable(&phase)));
}

fn started_on(workers: &[(u64, usize)]) -> AwaitingWorkers {
    let mut awaiting = awaiting_workers();
    for (worker, slots) in workers {
        awaiting.await_message(connect(*worker, 4, *slots), Ok(())).expect("registered");
        awaiting.await_worker_channels(Some(Ok(()))).expect("reached");
    }
    assert!(awaiting.workers_are_sufficient());
    awaiting
}

fn applied() -> StartReply {
    StartReply::Response(Ok(StartSettlement {
        outcome: StartExecutionOutcome::Applied,
        observed_fence: Some(3),
    }))
}

fn acknowledged(workers: &[u64]) -> Vec<FenceAcknowledgement> {
    workers.iter().map(|w| FenceAcknowledgement::reported(WorkerId(*w), 4, 3)).collect()
}

fn running_tasks() -> AwaitingTasks {
    let (lock, admission) = granted();
    let awaiting = started_on(&[(2, 2), (1, 1)])
        .require_reconciling_workers(3)
        .ok()
        .expect("every worker reconciles");
    assert!(!awaiting.knows().every_worker_acknowledged(3, &acknowledged(&[1])));
    assert!(awaiting.knows().every_worker_acknowledged(3, &acknowledged(&[1, 2])));
    assert!(!awaiting.knows().every_worker_acknowledged(4, &acknowledged(&[1, 2])));
    let issued = awaiting
        .admitted(admission)
        .issue(3, Ok(acknowledged(&[1, 2])), false)
        .ok()
        .expect("issued");
    assert!(!lock.is_free());
    assert_eq!(
        issued.attempts.iter().map(|a| a.worker().0).collect::<Vec<_>>(),
        vec![1, 2]
    );
    assert_eq!(
        issued
            .plan
            .assignments
            .iter()
            .map(|a| (a.task_id, a.subtask_idx, a.worker_id))
            .collect::<Vec<_>>(),
        vec![(1, 0, 1), (1, 1, 2), (1, 2, 2), (2, 0, 1), (2, 1, 2)]
    );
    let mut fanning = issued.fanning;
    for attempt in issued.attempts {
        assert_eq!(attempt.start_execution_id().len(), 32);
        assert!(!fanning.is_settled() && !lock.is_free());
        assert!(fanning.read(attempt, applied()).is_none());
    }
    assert!(fanning.is_settled());
    let tasks = fanning.settled(3, None).ok().expect("every worker started");
    assert!(lock.is_free());
    tasks
}

#[test]
fn a_fan_out_asks_every_worker_and_then_waits_for_its_tasks() {
    let tasks = running_tasks();
    assert_eq!(tasks.knows().started_workers, vec![WorkerId(1), WorkerId(2)]);
    assert_eq!(
        tasks.knows().workers.get(WorkerId(1)).map(|w| w.state),
        Some(WorkerState::Initializing)
    );
    assert_eq!(tasks.knows().observed_acknowledgements.len(), 2);
    let left = tasks.fence(
        arroyo_controller::states::fatal("interrupted", "test".to_string()),
        3,
    );
    assert_eq!(left.fencing.targets, vec![1, 2]);
    assert_eq!(left.fencing.outstanding.issued_count(), 2);
    assert_eq!(left.fencing.outstanding.outstanding_count(), 0);
}

/// A fan-out whose one worker never settles anything hands what it owes over once it has given up.
#[test]
fn a_failed_fan_out_hands_its_obligation_over() {
    let fail = |owner: Option<&mut dyn SettlementOwner>| {
        let (lock, admission) = granted();
        let issued = started_on(&[(1, 3)])
            .admitted(admission)
            .issue(3, Ok(acknowledged(&[1])), owner.is_some())
            .ok()
            .expect("issued");
        let mut fanning = issued.fanning;
        let mut offered = issued.attempts.into_iter().next();
        let id = offered.as_ref().expect("one worker").start_execution_id().to_string();
        while let Some(attempt) = offered {
            assert!(!fanning.is_settled() && !lock.is_free());
            let unanswered = StartReply::Failure {
                settlement: TransportSettlement::Ambiguous,
                status: "timed out".to_string(),
            };
            offered = fanning.read(attempt, unanswered);
        }
        assert!(fanning.is_settled());
        let left = fanning.settled(3, owner).err().expect("failed");
        assert_eq!(
            retried(&left.reason),
            (
                "failed to initialize workers",
                format!(
                    "worker WorkerId(1) never settled StartExecution {id} after 9 attempts: timed \
                     out"
                )
                .as_str(),
                10
            )
        );
        (lock, left)
    };
    let (lock, left) = fail(None);
    assert!(lock.is_free());
    assert_eq!(left.fencing.outstanding.outstanding_count(), 1);
    assert_eq!((left.fencing.transferred, left.fencing.abandoned), (0, 0));

    let mut owner = JobSettlementOwner::for_job("job_abc".to_string());
    let (lock, left) = fail(Some(&mut owner));
    assert!(!lock.is_free());
    assert_eq!(left.fencing.outstanding.issued_count(), 0);
    assert_eq!((left.fencing.transferred, left.fencing.abandoned), (1, 0));
    assert_eq!(owner.outstanding(), Some(1));
}

#[test]
fn workers_that_cannot_be_addressed_are_issued_nothing() {
    let (lock, admission) = granted();
    let awaiting = started_on(&[(1, 3)]);
    let refusal = awaiting.knows().fence_advanced(Err("worker 1 refused".to_string()));
    assert_eq!(
        retried(refusal.as_ref().unwrap_err()),
        (
            "worker generations did not acknowledge the job's lifecycle fence",
            "worker 1 refused",
            10
        )
    );
    assert_eq!(
        awaiting.knows().address_every_worker(Ok(FenceProtocol::Legacy)),
        Ok(AddressStep::WithoutAHandshake)
    );
    assert_eq!(
        awaiting
            .knows()
            .address_every_worker(Ok(FenceProtocol::Fenced { generation: 4, fence: 3 })),
        Ok(AddressStep::AdvanceFence { generation: 4, fence: 3 })
    );
    let e = awaiting.knows().address_every_worker(Err("unadopted".to_string())).unwrap_err();
    assert_eq!(
        retried(&e),
        ("the job's lifecycle fence cannot address its worker generations", "unadopted", 10)
    );
    let left = awaiting.admitted(admission).issue(3, refusal, false).err().expect("refused");
    assert!(lock.is_free());
    assert_eq!(left.fencing.outstanding.issued_count(), 0);
    assert_eq!(left.fencing.outstanding.generation(), 4);
    assert_eq!(left.fencing.outstanding.fence(), 3);
}

#[test]
fn workers_that_do_not_reconcile_are_refused_before_any_authority_is_taken() {
    let mut awaiting = awaiting_workers();
    for worker in [12, 5] {
        let mut msg = connect(worker, 4, 2);
        if let JobMessage::WorkerConnect { reconciles_start_execution, .. } = &mut msg {
            *reconciles_start_execution = false;
        }
        awaiting.await_message(msg, Ok(())).unwrap();
    }
    let left = awaiting.require_reconciling_workers(0).err().expect("refused");
    assert_eq!(
        retried(&left.reason),
        (
            "workers predating the StartExecution reconciliation contract",
            "workers [5, 12] did not advertise `reconciles_start_execution`; upgrade the worker image to at least this controller's version before scheduling this job",
            10
        )
    );
}

#[test]
fn tasks_are_waited_for_until_every_one_has_started() {
    let mut tasks = running_tasks();
    for (task_id, subtask_idx) in [(1, 0), (1, 1), (1, 1), (1, 2), (2, 0)] {
        assert_eq!(
            tasks.await_message(JobMessage::TaskStarted { task_id, subtask_idx }, Ok(())),
            Ok(WaitStep::Wait(PhaseWait::Continue))
        );
        assert!(!tasks.tasks_are_all_started());
    }
    tasks
        .await_message(JobMessage::TaskStarted { task_id: 2, subtask_idx: 1 }, Ok(()))
        .unwrap();
    assert!(tasks.tasks_are_all_started());

    let (handed_over, plan) = tasks
        .hand_over(Ok(FenceProtocol::Fenced { generation: 4, fence: 3 }), 3)
        .ok()
        .expect("handed over");
    let plan = plan.expect("this process runs the controller");
    assert_eq!(plan.generation, 4);
    assert_eq!((plan.start_epoch, plan.min_epoch), (0, 0));
    assert_eq!(plan.workers, vec![WorkerId(1), WorkerId(2)]);
    let HandedOver::Ready(leaving) = handed_over else {
        panic!("there are no commits to publish");
    };
    let (job, transition) = leaving.into_transition(Ok(()), 3).ok().expect("left");
    assert_eq!(job.status.tasks, Some(5));
    assert!(matches!(transition, Transition::Advance(NextState::Running(_))));
}

#[test]
fn restored_commits_are_published_under_an_authority_of_their_own() {
    let committing = CommittingState { checkpoint_id: "c1".to_string(), operators: vec![] };
    let mut restored = context();
    restored.job.status.generation = 3;
    let (lock, p) = performed_before(restored, Some(PreambleEffect::PrepareRecovery));
    let recovered = RecoveryPreparation::Controller(Ok((Some(info("41")), Some(committing))));
    let p = p.prepare_recovery_checkpoint(recovered, 0).ok().expect("prepared");
    let installed = applied_root(&p);
    let (p, _) = p.publish_metadata_root(installed, 0).ok().expect("installed");
    let mut awaiting = p.release();
    awaiting.await_message(connect(1, 4, 3), Ok(())).expect("registered");
    awaiting.await_worker_channels(Some(Ok(()))).expect("reached");
    let issued = awaiting
        .admitted(lock.try_admit().expect("the preamble released it"))
        .issue(0, Ok(vec![]), false)
        .ok()
        .expect("issued");
    let mut fanning = issued.fanning;
    for attempt in issued.attempts {
        assert!(fanning.read(attempt, applied()).is_none());
    }
    let mut tasks = fanning.settled(0, None).ok().expect("started");
    for (task_id, subtask_idx) in [(1, 0), (1, 1), (1, 2), (2, 0), (2, 1)] {
        tasks.await_message(JobMessage::TaskStarted { task_id, subtask_idx }, Ok(())).unwrap();
    }
    let (handed_over, plan) =
        tasks.hand_over(Ok(FenceProtocol::Legacy), 0).ok().expect("handed over");
    let plan = plan.expect("a controller is built");
    assert_eq!(plan.committing_state.map(|c| c.checkpoint_id), Some("c1".to_string()));
    let HandedOver::CommitsPending(pending) = handed_over else {
        panic!("there are commits to publish");
    };
    assert!(pending.knows().needs_restored_commits());
    assert!(pending.knows().committing_state.is_none());
    assert!(pending.knows().controller_built);
    assert!(lock.is_free());
    let publishing =
        pending.admit_commit_publish(lock.try_admit().expect("nobody else holds the lock"));
    assert!(!lock.is_free());
    let leaving = publishing.publish_restored_commits();
    assert!(lock.is_free());
    let (job, transition) = leaving.into_transition(Ok(()), 0).ok().expect("left");
    assert_eq!(job.status.tasks, Some(5));
    assert!(matches!(transition, Transition::Advance(NextState::Running(_))));
}

#[test]
fn a_worker_that_leads_is_connected_to_before_the_job_leaves() {
    let mut leading = PhaseContext::new(job(), true);
    assert_eq!(leading.leader_endpoint(), None);
    for worker in [9, 3, 5] {
        leading.handle_worker_wait_message(connect(worker, 4, 1), Ok(())).unwrap();
    }
    assert_eq!(
        leading.leader_endpoint(),
        Some((WorkerId(3), "http://10.0.0.3:1".to_string()))
    );
    assert!(leading.prepare_handover(Err("unused".to_string())).unwrap().is_none());
    assert!(!leading.controller_built);
    let (leading, e) = leading.into_transition(Err("refused".to_string())).unwrap_err();
    assert_eq!(retried(&e), ("failed to connect to worker leader", "refused", 10));
    let (job, transition) = leading.into_transition(Ok(())).unwrap();
    assert_eq!(transition, Transition::Advance(NextState::LeaderRunning));
    let leader = job.status.leader.expect("the row names the leader");
    assert_eq!((leader.worker_id, leader.generation), (WorkerId(3), 4));
    assert_eq!(leader.rpc_address, "http://10.0.0.3:1");
}

#[test]
fn the_handover_fails_where_the_fence_cannot_address_the_generation() {
    let mut context = context();
    let e = context.prepare_handover(Err("unadopted".to_string())).unwrap_err();
    assert_eq!(
        retried(&e),
        ("the job's lifecycle fence cannot address its worker generations", "unadopted", 10)
    );
    assert_eq!(context.job.status.tasks, Some(5));
    assert!(!context.controller_built);
}

#[test]
fn a_message_during_the_wait_for_workers_is_read_by_its_kind() {
    let mut awaiting = awaiting_workers();
    assert_eq!(
        awaiting.await_message(connect(1, 3, 4), Ok(())),
        Ok(WaitStep::Wait(PhaseWait::Continue)),
        "a worker of another generation is not recorded"
    );
    assert!(awaiting.knows().workers.get(WorkerId(1)).is_none());
    assert_eq!(
        awaiting.await_message(connect(1, 4, 2), Ok(())),
        Ok(WaitStep::Dial {
            worker_id: WorkerId(1),
            rpc_address: "http://10.0.0.1:1".to_string()
        })
    );
    assert_eq!(
        awaiting.await_message(JobMessage::Other(3), Ok(())),
        Ok(WaitStep::HandOn(JobMessage::Other(3)))
    );
    let mut stopping = config();
    stopping.stop_mode = StopMode::checkpoint;
    let refused = || arroyo_controller::states::fatal("selector", "changed".to_string());
    assert_eq!(
        awaiting.await_message(JobMessage::ConfigUpdate(stopping), Err(refused())),
        Ok(WaitStep::Wait(PhaseWait::Leave(Transition::Advance(NextState::Stopping {
            stop_mode: StopBehavior::StopJobImmediate
        }))))
    );
    assert_eq!(
        awaiting.await_message(JobMessage::ConfigUpdate(config()), Err(refused())),
        Err(refused())
    );
    assert_eq!(
        awaiting.await_message(JobMessage::ConfigUpdate(config()), Ok(())),
        Ok(WaitStep::Wait(PhaseWait::Continue))
    );
    assert_eq!(awaiting.knows().dialling, 1);
    assert_eq!(awaiting.await_worker_channels(None), Ok(PhaseWait::Continue));
    assert!(!awaiting.knows().worker_channels_are_open());
    let e = awaiting.await_worker_channels(Some(Err("panicked".to_string()))).unwrap_err();
    assert_eq!(retried(&e), ("Failed to start cluster for pipeline", "panicked", 10));
    assert!(awaiting.knows().worker_channels_are_open());
}

#[test]
fn a_message_during_the_wait_for_tasks_is_read_by_its_kind() {
    let mut tasks = running_tasks();
    let done = |worker: u64, success: bool, error: Option<&str>| {
        JobMessage::WorkerInitializationComplete {
            worker_id: WorkerId(worker),
            success,
            error_message: error.map(|e| e.to_string()),
        }
    };
    assert_eq!(
        tasks.await_message(done(77, false, None), Ok(())),
        Ok(WaitStep::Wait(PhaseWait::Continue))
    );
    assert_eq!(
        tasks.await_message(done(1, true, None), Ok(())),
        Ok(WaitStep::Wait(PhaseWait::Continue))
    );
    assert_eq!(
        tasks.knows().workers.get(WorkerId(1)).map(|w| w.state),
        Some(WorkerState::Ready)
    );
    let e = tasks.await_message(done(2, false, None), Ok(())).unwrap_err();
    assert_eq!(
        retried(&e),
        ("worker initialization failed", "worker 2 initialization failed: Unknown error", 5)
    );
    let e = tasks.await_message(done(2, false, Some("oom")), Ok(())).unwrap_err();
    assert_eq!(retried(&e).1, "worker 2 initialization failed: oom");
    assert_eq!(
        tasks.knows().workers.get(WorkerId(2)).map(|w| w.state),
        Some(WorkerState::Failed)
    );
    let event = TaskFailure {
        operator_id: "op".to_string(),
        subtask_idx: 0,
        reason: "boom".to_string(),
        error_domain: ErrorDomain::User,
    };
    assert_eq!(
        tasks.await_message(
            JobMessage::RunningMessage(RunningMessage::TaskFailed(event.clone())),
            Ok(())
        ),
        Ok(WaitStep::TaskFailed(event))
    );
    assert_eq!(
        tasks.await_message(JobMessage::RunningMessage(RunningMessage::Other(1)), Ok(())),
        Ok(WaitStep::HandOn(JobMessage::RunningMessage(RunningMessage::Other(1))))
    );
}

#[test]
fn a_startup_that_timed_out_is_explained_by_the_leader_where_it_can_be() {
    let failure = JobFailure {
        task_failure: TaskFailure {
            operator_id: "op".to_string(),
            subtask_idx: 0,
            reason: "boom".to_string(),
            error_domain: ErrorDomain::User,
        },
    };
    let status = |job_state, job_failure| Some(LeaderStatus { job_state, job_failure });
    let context = context();
    for state in [JobState::JobFailing, JobState::JobFailed] {
        assert_eq!(
            context.task_startup_timeout(status(Some(state), Some(failure.clone())), "1s"),
            Ok(failure.clone())
        );
        let e = context.task_startup_timeout(status(Some(state), None), "1s").unwrap_err();
        assert_eq!(
            retried(&e),
            (
                "leader reported failing status without failure payload",
                "missing job failure",
                10
            )
        );
    }
    for unexplained in
        [None, status(None, Some(failure.clone())), status(Some(JobState::JobRunning), Some(failure))]
    {
        assert_eq!(
            context.leader_startup_verdict(unexplained.clone()),
            LeaderVerdict::NoFailure
        );
        let e = context.task_startup_timeout(unexplained, "600s").unwrap_err();
        assert_eq!(
            retried(&e),
            (
                "timed out while waiting for tasks to start",
                "timed out after 600s while waiting for worker startup",
                3
            )
        );
    }
    assert_eq!(
        retried(&context.worker_startup_timeout("600s")),
        (
            "timed out while waiting for workers to start",
            "timed out after 600s while waiting for worker startup",
            3
        )
    );
}

#[test]
fn a_wait_lasts_no_longer_than_the_job_may_live() {
    let mut context = context();
    assert_eq!(context.remaining(600, 100), 500);
    assert_eq!(context.remaining(600, 700), 0);
    context.job.config.ttl = Some(60);
    assert_eq!(context.remaining(600, 20), 40);
    context.job.config.ttl = Some(6_000);
    assert_eq!(context.remaining(600, 20), 580);
}

#[test]
fn a_standing_stop_is_answered_wherever_the_writer_is_read() {
    let stop = Transition::Advance(NextState::Stopping {
        stop_mode: StopBehavior::StopJobImmediate,
    });
    let refusal = || arroyo_controller::states::fatal("refused", "row".to_string());
    let mut context = context();
    for observed in [ObservedIntent::Continue, ObservedIntent::Stop] {
        assert_eq!(
            context.observe_intent_in_wait(Ok(observed.clone())),
            Ok(PhaseWait::Continue)
        );
        assert_eq!(context.observe_before_phase(Ok(observed)), Ok(PhaseWait::Continue));
    }
    assert_eq!(context.observe_intent_in_wait(Err(refusal())), Err(refusal()));
    assert_eq!(context.observe_intent_in_fencing(Ok(None)), Ok(FencedIntent::Unchanged));
    assert_eq!(
        context.observe_intent_in_fencing(Ok(Some(ObservedIntent::Continue))),
        Ok(FencedIntent::Superseded)
    );
    assert_eq!(context.observe_intent_in_fencing(Err(refusal())), Err(refusal()));
    let (lock, admission) = granted();
    let mut issued = IssuedAttempts::issued_under(4, 1);
    issued.issued(WorkerId(1), "id-1".to_string());
    let mut owner = JobSettlementOwner::for_job("job_abc".to_string());
    assert!(owner.take_over(SettlementBundle::new(admission, issued)).is_ok());
    // A refused configuration is answered before anything is asked back.
    let refused = context.take_admission(Err(refusal()), Some(&mut owner));
    assert_eq!(refused.err(), Some(refusal()));
    assert_eq!(owner.outstanding(), Some(1));
    let step = context.take_admission(Ok(ObservedIntent::Continue), Some(&mut owner));
    let Ok(AdmissionStep::Decided {
        admitted: Admitted::Region(admission),
        reclaimed: Some(issued),
    }) = step
    else {
        panic!("what the owner held comes back");
    };
    assert_eq!((owner.outstanding(), issued.outstanding_count()), (None, 1));
    assert!(!lock.is_free());
    drop(admission);
    assert!(lock.is_free());
    assert!(matches!(
        context.take_admission(Ok(ObservedIntent::Continue), Some(&mut owner)),
        Ok(AdmissionStep::AwaitLock)
    ));
    assert!(matches!(
        context.take_admission(Ok(ObservedIntent::Continue), None),
        Ok(AdmissionStep::AwaitLock)
    ));
    let (lock, admission) = granted();
    assert!(owner.take_over(SettlementBundle::new(admission, issued)).is_ok());

    context.job.config.stop_mode = StopMode::graceful;
    assert_eq!(stop_transition(&context.job.config), Some(stop.clone()));
    assert_eq!(
        context.observe_intent_in_wait(Ok(ObservedIntent::Continue)),
        Ok(PhaseWait::Leave(stop.clone()))
    );
    assert_eq!(
        context.observe_intent_in_fencing(Ok(None)),
        Ok(FencedIntent::Leave(stop))
    );
    assert!(matches!(
        context.take_admission(Ok(ObservedIntent::Continue), Some(&mut owner)),
        Ok(AdmissionStep::Decided { admitted: Admitted::Leave(_), reclaimed: None })
    ));
    assert_eq!(owner.outstanding(), Some(1));
    assert!(!lock.is_free());
}

#[test]
fn observations_are_drained_once() {
    let mut context = context();
    context.record_observed_acknowledgements(vec![FenceAcknowledgement::reported(
        WorkerId(1),
        4,
        3,
    )]);
    assert_eq!(context.observed_fence_acknowledgements().len(), 1);
    assert_eq!(context.observed_fence_acknowledgements().len(), 0);
    context.observe_generation_teardown(Ok(vec![ObservedTermination::observed(WorkerId(1), 4)]));
    context.observe_generation_teardown(Err("untracked".to_string()));
    assert_eq!(context.observed_generation_terminations().len(), 1);
    assert_eq!(context.observed_generation_terminations().len(), 0);
    assert!(context.teardown_targets().is_empty());
    assert_eq!(context.addressed_generation(), 4);
    assert_eq!(context.addressed_fence(&Ok(FenceProtocol::Legacy)), 0);
    assert_eq!(context.addressed_fence(&Err("unadopted".to_string())), 0);
    assert_eq!(
        context.addressed_fence(&Ok(FenceProtocol::Fenced { generation: 4, fence: 8 })),
        8
    );
    context.handle_worker_wait_message(connect(2, 4, 1), Ok(())).unwrap();
    assert_eq!(
        context.target_addresses(),
        vec![(2, "http://10.0.0.2:1".to_string())]
    );
}

#[test]
fn the_leader_alone_is_told_that_it_leads() {
    let mut leading = PhaseContext::new(job(), true);
    leading.checkpoint_info = Some(info("pl_1/job_abc/x.pb"));
    for worker in [9, 3] {
        leading.handle_worker_wait_message(connect(worker, 4, 2), Ok(())).unwrap();
    }
    let plan = leading.execution_plan();
    assert_eq!(plan.restore_epoch, Some(9));
    assert_eq!((plan.start_epoch, plan.min_epoch), (9, 6));
    assert_eq!(plan.checkpoint_manifest_ref.as_deref(), Some("pl_1/job_abc/x.pb"));
    let to_leader = start_request(&plan, WorkerId(3), "id-3".to_string());
    let to_other = start_request(&plan, WorkerId(9), "id-9".to_string());
    assert!(to_leader.is_leader && to_leader.wait_for_leader);
    assert!(!to_other.is_leader && to_other.wait_for_leader);
    assert_eq!(to_other.job_controller_addr.as_deref(), Some("http://10.0.0.3:1"));
    assert_eq!(to_other.state_backend, "parquet");
    assert_eq!(to_other.tasks.len(), 5);
    assert_eq!((&to_leader.program, &to_other.program), (&leading.job.program, &plan.program));
    assert_eq!(to_other.start_execution_id, "id-9");
}

#[test]
fn an_outcome_says_whether_an_obligation_moved() {
    let (_lock, admission) = granted();
    let mut issued = IssuedAttempts::issued_under(4, 1);
    issued.issued(WorkerId(1), "id-1".to_string());
    let outcome = SettlementOutcome::SettledInPlace(admission, issued);
    let (issued, _, released) = outcome.into_fencing_record();
    assert!(released.is_some());
    assert_eq!(issued.record(WorkerId(1)).and_then(|r| r.accounted), None::<Accounting>);
}

#[test]
fn a_stop_the_writer_decides_during_a_wait_ends_the_attempt() {
    let mut mailbox = IntentMailbox::new();
    let mut wait = JobWait::new(Some(LifecycleActor::new(
        "job_abc".to_string(),
        StateBackendSelector::Parquet,
    )));
    let mut awaiting = awaiting_workers();

    let decided = wait.decide(&mailbox, &mut awaiting.job_mut().config);
    assert_eq!(decided, Ok(None));
    assert_eq!(awaiting.observe(Ok(ObservedIntent::Continue)), Ok(PhaseWait::Continue));

    let mut stopping = job().config;
    stopping.stop_mode = StopMode::checkpoint;
    mailbox.submit(LifecycleIntent::Adopt(Box::new(stopping.clone())));
    let decided = wait
        .decide(&mailbox, &mut awaiting.job_mut().config)
        .expect("a row that is not refused")
        .expect("a row that changed");
    assert_eq!(decided, ObservedIntent::Stop);
    assert_eq!(
        awaiting.observe(Ok(decided)),
        Ok(PhaseWait::Leave(Transition::Advance(NextState::Stopping {
            stop_mode: StopBehavior::StopJobImmediate,
        })))
    );
    assert_eq!(awaiting.into_job().config, stopping);
}

#[test]
fn no_authority_is_granted_without_the_locks_guard() {
    let lock = AdmissionLock::for_job("job_abc".to_string());
    assert!(lock.granted(None).is_none());
    let guard = lock.mutex().try_lock_owned().expect("nobody else holds the lock");
    let admission = lock.granted(Some(guard)).expect("the guard is there");
    assert!(!lock.is_free());
    assert!(lock.try_admit().is_none());
    let _released = admission.release();
    assert!(lock.is_free());
}

#[test]
fn an_interrupted_phase_has_released_its_authority() {
    let (lock, preamble) = due(PreambleEffect::StartWorkers);
    let reason = StateError::RetryableError {
        state: StateName::Scheduling,
        message: "m".to_string(),
        source: "s".to_string(),
        retries: 1,
    };
    let left =
        preamble.start_replacement_workers(Err(reason.clone()), 0).err().expect("interrupted");
    assert!(left.released.is_some());
    assert!(lock.is_free());
    let (job, result) = left.reconcile_and_report(Ok(FencedIntent::Unchanged));
    assert_eq!(job.status.generation, 5);
    assert_eq!(result, Err(reason));
}

/// A controller that lost the job stops, whatever its writer says; a refused configuration is
/// answered by a new one; anything else reports what interrupted the attempt.
#[test]
fn an_interrupted_attempt_is_reported_once_its_writer_was_read_again() {
    let lost = || {
        let (_, p) = preamble();
        p.adopt_lifecycle_authority(Ok(AuthorityOutcome::Stale("fence 9".to_string())), 0)
            .err()
            .expect("lost")
    };
    let refusal = || arroyo_controller::states::fatal("refused", "row".to_string());
    let leave = || Transition::Advance(NextState::LeaderRunning);
    for intent in [
        Ok(FencedIntent::Unchanged),
        Ok(FencedIntent::Superseded),
        Ok(FencedIntent::Leave(leave())),
        Err(refusal()),
    ] {
        assert_eq!(lost().reconcile_and_report(intent).1, Ok(Transition::Stop));
    }

    let interrupted = |provenance| {
        awaiting_workers().fence(
            StateError::FatalError {
                message: "m".to_string(),
                domain: ErrorDomain::Internal,
                source: "s".to_string(),
                provenance,
            },
            0,
        )
    };
    let report = |provenance, intent| interrupted(provenance).reconcile_and_report(intent).1;
    assert_eq!(
        report(FatalProvenance::Configuration, Ok(FencedIntent::Superseded)),
        Ok(Transition::Advance(NextState::Scheduling(Scheduling {})))
    );
    assert_eq!(
        report(FatalProvenance::Unrelated, Ok(FencedIntent::Superseded)),
        Err(interrupted(FatalProvenance::Unrelated).reason)
    );
    assert_eq!(
        report(FatalProvenance::Configuration, Ok(FencedIntent::Unchanged)),
        Err(interrupted(FatalProvenance::Configuration).reason)
    );
    assert_eq!(report(FatalProvenance::Unrelated, Ok(FencedIntent::Leave(leave()))), Ok(leave()));
    assert_eq!(report(FatalProvenance::Unrelated, Err(refusal())), Err(refusal()));
}
