//! Generation metadata, the candidate object it is published at, and what makes it the root.

use arroyo_controller::lifecycle::fence::{FenceProtocol, LifecycleAuthority};
use arroyo_controller::lifecycle::root::candidate::{
    MetadataRootError, PutOutcome, RootCandidate, RootIdentity,
};
use arroyo_controller::lifecycle::root::{
    GenerationRoot, RecoveryReference, RootContext, RootRefusal, Validated,
};
use arroyo_controller::types::StateBackendSelector;
use std::collections::BTreeMap;

const JOB: &str = "job_abc";
const PIPELINE: &str = "pl_1";
const GENERATION: u64 = 7;
const EPOCH: &str = "0123456789abcdef0123456789abcdef";

fn leader_recovery() -> RecoveryReference {
    RecoveryReference::LeaderObject(format!(
        "{PIPELINE}/{JOB}/generations/6/checkpoints/checkpoint-0000004/checkpoint-manifest.pb"
    ))
}

fn metadata() -> GenerationRoot {
    GenerationRoot::describing(
        PIPELINE,
        JOB,
        GENERATION,
        StateBackendSelector::Parquet,
        Some(leader_recovery()),
    )
}

fn context() -> RootContext<'static> {
    RootContext {
        job_id: JOB,
        pipeline_id: PIPELINE,
        generation: GENERATION,
        execution_selector: StateBackendSelector::Parquet,
        leader_mode: true,
    }
}

fn validated_metadata() -> Validated {
    Validated::validate(metadata(), context()).expect("the metadata describes the attempt")
}

fn authority(fence: u64, epoch: &str) -> LifecycleAuthority {
    LifecycleAuthority::from_parts(JOB, fence, epoch)
}

/// Mints a candidate whose identifiers the durable record carries.
fn mint(authority: &LifecycleAuthority, metadata: &Validated) -> Result<RootCandidate, RootRefusal> {
    RootCandidate::mint(authority, metadata, Ok(()))
}

fn candidate() -> RootCandidate {
    mint(&authority(3, EPOCH), &validated_metadata()).expect("a nameable candidate")
}

#[test]
fn metadata_that_describes_the_attempt_produces_a_token() {
    let token = validated_metadata();
    assert_eq!(token.get().job_id(), JOB);
    assert_eq!(token.get().pipeline_id(), PIPELINE);
    assert_eq!(token.get().generation(), GENERATION);
    assert_eq!(token.get(), &metadata());
}

#[test]
fn one_disagreeing_identity_refuses_the_whole_object() {
    for (case, metadata, expected) in [
        (
            "another job",
            GenerationRoot::describing(
                PIPELINE,
                "job_xyz",
                GENERATION,
                StateBackendSelector::Parquet,
                Some(leader_recovery()),
            ),
            RootRefusal::JobMismatch { found: "job_xyz".to_string(), expected: JOB.to_string() },
        ),
        (
            "another pipeline",
            GenerationRoot::describing(
                "pl_2",
                JOB,
                GENERATION,
                StateBackendSelector::Parquet,
                Some(leader_recovery()),
            ),
            RootRefusal::PipelineMismatch {
                found: "pl_2".to_string(),
                expected: PIPELINE.to_string(),
            },
        ),
        (
            "another generation of this job",
            GenerationRoot::describing(
                PIPELINE,
                JOB,
                GENERATION + 1,
                StateBackendSelector::Parquet,
                Some(leader_recovery()),
            ),
            RootRefusal::GenerationMismatch { found: GENERATION + 1, expected: GENERATION },
        ),
        (
            "another state backend",
            GenerationRoot::describing(
                PIPELINE,
                JOB,
                GENERATION,
                StateBackendSelector::StateEngine,
                Some(leader_recovery()),
            ),
            RootRefusal::SelectorMismatch {
                found: "stateengine".to_string(),
                expected: StateBackendSelector::Parquet,
            },
        ),
        (
            "a recovery checkpoint in another job's namespace",
            GenerationRoot::describing(
                PIPELINE,
                JOB,
                GENERATION,
                StateBackendSelector::Parquet,
                Some(RecoveryReference::LeaderObject(
                    "pl_1/job_xyz/generations/6/checkpoints/checkpoint-0000004/x.pb".to_string(),
                )),
            ),
            RootRefusal::ForeignRecoveryCheckpoint {
                found: "pl_1/job_xyz/generations/6/checkpoints/checkpoint-0000004/x.pb".to_string(),
                namespace: format!("{PIPELINE}/{JOB}/"),
            },
        ),
        (
            "a recovery checkpoint named the way the other topology names one",
            GenerationRoot::describing(
                PIPELINE,
                JOB,
                GENERATION,
                StateBackendSelector::Parquet,
                Some(RecoveryReference::ControllerCheckpointRow("41".to_string())),
            ),
            RootRefusal::RecoveryKindMismatch {
                found: "a checkpoints row",
                expected: "an object-store reference",
            },
        ),
    ] {
        assert_eq!(Validated::validate(metadata, context()).err(), Some(expected), "{case}");
    }
}

#[test]
fn the_controller_topology_names_its_recovery_checkpoint_its_own_way() {
    let controller_context = RootContext { leader_mode: false, ..context() };
    let row = GenerationRoot::describing(
        PIPELINE,
        JOB,
        GENERATION,
        StateBackendSelector::Parquet,
        Some(RecoveryReference::ControllerCheckpointRow("41".to_string())),
    );
    assert!(Validated::validate(row, controller_context).is_ok());

    assert_eq!(
        Validated::validate(metadata(), controller_context).err(),
        Some(RootRefusal::RecoveryKindMismatch {
            found: "an object-store reference",
            expected: "a checkpoints row",
        })
    );

    assert_eq!(
        Validated::validate(
            GenerationRoot::describing(
                PIPELINE,
                JOB,
                GENERATION,
                StateBackendSelector::Parquet,
                Some(RecoveryReference::ControllerCheckpointRow(String::new())),
            ),
            controller_context,
        )
        .err(),
        Some(RootRefusal::EmptyRecoveryCheckpoint)
    );
}

#[test]
fn a_generation_with_nothing_to_restore_from_still_roots() {
    let fresh = GenerationRoot::describing(
        PIPELINE,
        JOB,
        GENERATION,
        StateBackendSelector::Parquet,
        None,
    );
    let token =
        Validated::validate(fresh.clone(), context()).expect("no recovery is a valid statement");
    assert_eq!(token.get(), &fresh);
    assert!(mint(&authority(3, EPOCH), &token).is_ok());
}

#[test]
fn an_authority_over_another_job_cannot_mint_this_jobs_candidate() {
    assert_eq!(
        mint(
            &LifecycleAuthority::from_parts("job_xyz", 3, EPOCH),
            &validated_metadata()
        ),
        Err(RootRefusal::AuthorityJobMismatch {
            job: JOB.to_string(),
            authority: "job_xyz".to_string(),
        })
    );
}

#[test]
fn an_unadopted_authority_names_no_candidate() {
    let refusal = mint(&LifecycleAuthority::unadopted(JOB), &validated_metadata())
        .expect_err("an unadopted authority cannot scope a candidate");
    assert!(matches!(refusal, RootRefusal::Unnameable(_)), "{}", refusal.report());
    assert!(refusal.report().contains("lifecycle fence 0"), "{}", refusal.report());
}

#[test]
fn generation_zero_names_no_candidate() {
    let token = Validated::validate(
        GenerationRoot::describing(PIPELINE, JOB, 0, StateBackendSelector::Parquet, None),
        RootContext { generation: 0, ..context() },
    )
    .unwrap();
    assert_eq!(
        mint(&authority(3, EPOCH), &token).err(),
        Some(RootRefusal::Unnameable(MetadataRootError::UnusedGeneration))
    );
}

/// An identifier the durable record cannot carry names nothing; what is wrong with the fence or the
/// generation is said first.
#[test]
fn an_identity_the_record_cannot_carry_names_no_candidate() {
    let too_long = || Err("the epoch is too long".to_string());
    let refusal = RootCandidate::mint(&authority(3, EPOCH), &validated_metadata(), too_long())
        .expect_err("the record cannot carry it");
    assert_eq!(
        refusal,
        RootRefusal::Unnameable(MetadataRootError::Unrecordable(
            "the epoch is too long".to_string()
        ))
    );
    assert_eq!(
        refusal.report(),
        "no candidate object can be named for this attempt: the epoch is too long"
    );
    let unadopted = LifecycleAuthority::unadopted(JOB);
    assert_eq!(
        RootCandidate::mint(&unadopted, &validated_metadata(), too_long()).err(),
        Some(RootRefusal::Unnameable(MetadataRootError::UnadoptedFence))
    );
}

#[test]
fn two_controllers_duelling_over_one_generation_name_two_objects() {
    let first = mint(&authority(3, EPOCH), &validated_metadata()).unwrap();
    let second = mint(
        &authority(4, "fedcba9876543210fedcba9876543210"),
        &validated_metadata(),
    )
    .unwrap();
    assert_ne!(first.key(), second.key());
    assert!(first.key().contains("fence-00000000000000000003"));
    assert!(second.key().contains("fence-00000000000000000004"));
    assert_eq!(first.body(), second.body());
}

#[test]
fn a_candidates_key_and_body_spell_its_identity_out() {
    let candidate = candidate();
    assert_eq!(
        candidate.key(),
        "pl_1/job_abc/generations/7/candidates/fence-00000000000000000003-epoch-0123456789abcdef0123456789abcdef.json"
    );
    assert_eq!(
        candidate.body(),
        "{\"version\":1,\"pipeline_id\":\"pl_1\",\"job_id\":\"job_abc\",\"generation\":7,\"execution_selector\":\"parquet\",\"recovery_checkpoint\":{\"leader_object\":\"pl_1/job_abc/generations/6/checkpoints/checkpoint-0000004/checkpoint-manifest.pb\"}}"
    );

    let row = Validated::validate(
        GenerationRoot::describing(
            "pl \"1\"\n",
            JOB,
            GENERATION,
            StateBackendSelector::StateEngine,
            Some(RecoveryReference::ControllerCheckpointRow("41".to_string())),
        ),
        RootContext {
            pipeline_id: "pl \"1\"\n",
            execution_selector: StateBackendSelector::StateEngine,
            leader_mode: false,
            ..context()
        },
    )
    .unwrap();
    let body = mint(&authority(3, EPOCH), &row).unwrap();
    assert_eq!(
        body.body(),
        "{\"version\":1,\"pipeline_id\":\"pl \\\"1\\\"\\n\",\"job_id\":\"job_abc\",\"generation\":7,\"execution_selector\":\"stateengine\",\"recovery_checkpoint\":{\"controller_checkpoint_row\":\"41\"}}"
    );
    let decoded: serde_json::Value = serde_json::from_str(body.body()).expect("a JSON object");
    assert_eq!(decoded.get("pipeline_id").and_then(|v| v.as_str()), Some("pl \"1\"\n"));
}

#[test]
fn one_disagreeing_identity_refuses_the_install() {
    let held = authority(5, "epoch-held");
    let good = mint(&held, &validated_metadata()).unwrap();
    let for_generation = |generation: u64| {
        Validated::validate(
            GenerationRoot::describing(
                PIPELINE,
                JOB,
                generation,
                StateBackendSelector::Parquet,
                None,
            ),
            RootContext { generation, ..context() },
        )
        .unwrap()
    };
    for (case, candidate, identity) in [
        (
            "a candidate for another job",
            mint(
                &LifecycleAuthority::from_parts("job_xyz", 5, "epoch-held"),
                &Validated::validate(
                    GenerationRoot::describing(
                        PIPELINE,
                        "job_xyz",
                        GENERATION,
                        StateBackendSelector::Parquet,
                        None,
                    ),
                    RootContext { job_id: "job_xyz", ..context() },
                )
                .unwrap(),
            )
            .unwrap(),
            RootIdentity::JobId,
        ),
        (
            "a candidate scoped to another fence",
            mint(&authority(6, "epoch-held"), &validated_metadata()).unwrap(),
            RootIdentity::Fence,
        ),
        (
            "a candidate scoped to another epoch",
            mint(&authority(5, EPOCH), &validated_metadata()).unwrap(),
            RootIdentity::Epoch,
        ),
        (
            "a candidate for another generation",
            mint(&held, &for_generation(GENERATION + 1)).unwrap(),
            RootIdentity::Generation,
        ),
    ] {
        let refusal =
            candidate.agrees_with(&held, GENERATION).expect_err("the install must be refused");
        assert_eq!(refusal.identity, identity, "{case}");
        assert_eq!(refusal.job_id, candidate.root().job_id(), "{case}");
        assert!(
            refusal.report().contains(&format!("its {} is", identity.as_str())),
            "{case}: {}",
            refusal.report()
        );
    }
    assert!(good.agrees_with(&held, GENERATION).is_ok());
    assert_eq!(
        mint(&authority(6, "epoch-held"), &validated_metadata())
            .unwrap()
            .agrees_with(&held, GENERATION)
            .unwrap_err()
            .report(),
        "a candidate for job job_abc cannot be installed under this status: its lifecycle fence is \"6\" and the status presents \"5\""
    );
}

#[test]
fn each_install_time_identity_names_itself() {
    let named: Vec<&str> = [
        RootIdentity::JobId,
        RootIdentity::Fence,
        RootIdentity::Epoch,
        RootIdentity::Generation,
    ]
    .into_iter()
    .map(RootIdentity::as_str)
    .collect();
    assert_eq!(
        named,
        vec!["job id", "lifecycle fence", "controller epoch", "scheduling generation"]
    );
    let mut distinct = named.clone();
    distinct.sort_unstable();
    distinct.dedup();
    assert_eq!(distinct.len(), named.len());
}

#[test]
fn a_candidate_body_of_an_unknown_version_is_refused_before_any_identity_is_compared() {
    let decoded = |version: u32| {
        GenerationRoot::decoded(
            version,
            PIPELINE.to_string(),
            JOB.to_string(),
            GENERATION,
            "parquet".to_string(),
            None,
        )
    };
    assert_eq!(
        Validated::validate(decoded(2), context()).err(),
        Some(RootRefusal::UnknownVersion { found: 2 })
    );
    assert!(Validated::validate(decoded(1), context()).is_ok());
    let elsewhere = GenerationRoot::decoded(
        2,
        "pl_9".to_string(),
        "job_xyz".to_string(),
        1,
        "rocks".to_string(),
        None,
    );
    assert_eq!(
        Validated::validate(elsewhere, context()).err(),
        Some(RootRefusal::UnknownVersion { found: 2 })
    );
}

#[test]
fn a_refusal_quotes_what_it_found() {
    assert_eq!(
        RootRefusal::JobMismatch { found: "a\"b\n".to_string(), expected: JOB.to_string() }
            .report(),
        format!(
            "generation metadata names job {:?}, and this attempt is for job {:?}",
            "a\"b\n", JOB
        )
    );
}

#[test]
fn only_an_object_that_is_there_already_reads_as_published() {
    let candidate = candidate();
    for there in [PutOutcome::Written, PutOutcome::AlreadyExists] {
        let published = candidate.published(there).expect("the object is there");
        let authority = LifecycleAuthority::from_parts(
            candidate.root().job_id(),
            candidate.root().fence(),
            candidate.root().epoch(),
        );
        let generation = candidate.root().generation();
        let installable =
            published.installable(&authority, generation).ok().expect("minted under it");
        assert_eq!(installable.get(), &candidate);
    }
    let published = candidate.published(PutOutcome::Written).expect("the object is there");
    let readopted = LifecycleAuthority::from_parts(
        candidate.root().job_id(),
        candidate.root().fence() + 1,
        candidate.root().epoch(),
    );
    let refusal = published
        .installable(&readopted, candidate.root().generation())
        .expect_err("minted under an earlier adoption");
    assert_eq!(refusal.identity, RootIdentity::Fence);
    let failure = candidate
        .published(PutOutcome::Failed("permission denied".to_string()))
        .expect_err("a store that will not take the object is a failure");
    assert_eq!(failure.key, candidate.key());
    assert_eq!(
        failure.report(),
        format!(
            "failed to publish the candidate metadata object {:?}: permission denied",
            candidate.key()
        )
    );
}

#[test]
fn a_published_candidate_lives_in_its_own_generation() {
    let key = candidate().key();
    assert!(key.starts_with("pl_1/job_abc/generations/7/"), "{key}");
}

#[test]
fn the_protocol_says_which_fence_directives_carry() {
    assert_eq!(FenceProtocol::Legacy.fence(), 0);
    assert_eq!(FenceProtocol::Fenced { generation: 4, fence: 9 }.fence(), 9);
}

/// Publishing writes exactly one object, at the key the identity derives; publishing again writes
/// nothing new, and a rival's candidate is a second object.
#[test]
fn publishing_a_candidate_writes_one_immutable_object() {
    fn publish(store: &mut BTreeMap<String, String>, candidate: &RootCandidate) {
        let outcome = if store.contains_key(&candidate.key()) {
            PutOutcome::AlreadyExists
        } else {
            store.insert(candidate.key(), candidate.body().to_string());
            PutOutcome::Written
        };
        assert!(candidate.published(outcome).is_ok());
    }
    let keys = |store: &BTreeMap<String, String>| store.keys().cloned().collect::<Vec<_>>();
    let mut store = BTreeMap::new();
    let candidate = candidate();
    publish(&mut store, &candidate);
    assert_eq!(keys(&store), vec![candidate.key()]);

    publish(&mut store, &candidate);
    assert_eq!(keys(&store), vec![candidate.key()]);
    assert_eq!(store[&candidate.key()], candidate.body());

    let rival = mint(
        &authority(4, "fedcba9876543210fedcba9876543210"),
        &validated_metadata(),
    )
    .unwrap();
    publish(&mut store, &rival);
    let mut expected = vec![candidate.key(), rival.key()];
    expected.sort();
    assert_eq!(keys(&store), expected);
    assert_eq!(store[&candidate.key()], candidate.body());
}

/// What a body holds of a text is its JSON string literal, with every escape JSON has.
#[test]
fn a_body_escapes_what_json_escapes() {
    let named = "pl_1/job_abc/\"\\\u{8}\t\n\u{c}\r\u{1}\u{1f}\u{7f}/\u{e9}";
    let metadata = GenerationRoot::describing(
        PIPELINE,
        JOB,
        7,
        StateBackendSelector::Parquet,
        Some(RecoveryReference::LeaderObject(named.to_string())),
    );
    let validated = Validated::validate(metadata, context()).expect("its own object");
    let candidate = mint(&authority(3, EPOCH), &validated).expect("nameable");
    assert!(
        candidate.body().contains(
            "{\"leader_object\":\"pl_1/job_abc/\\\"\\\\\\b\\t\\n\\f\\r\\u0001\\u001f\u{7f}/\u{e9}\"}"
        ),
        "{}",
        candidate.body()
    );
}
