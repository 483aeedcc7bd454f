//! Making a generation's metadata the job's authoritative root.
//!
//! The candidate object is published first, under a name nobody else can write. Then the row is
//! made to point at it, if the row still carries this controller's authority. Only then may the
//! pointer that names the job's current generation be written.

use crate::lifecycle::fence::LifecycleAuthority;
use crate::lifecycle::root::candidate::{
    CandidatePublishError, InstallableCandidate, MetadataRoot, PublishedCandidate, PutOutcome,
    RootCandidate, RootIdentityOf, RootInstallRefusal,
};
use crate::lifecycle::root::{GenerationRoot, RecoveryReference, Reference, Root, RootContext};
use crate::lifecycle::root::{Refusal, Validated};
use crate::scheduling::context::{AuthorityOutcome, PhaseContext};
use crate::states::{fatal, retryable, StateError, StateName};
use crate::text;
use vstd::prelude::*;
use vstd::string::*;

verus! {

/// How far publishing and installing a candidate came. An install was attempted only of a candidate
/// that was published before.
#[derive(Debug)]
pub enum RootInstallation {
    /// The job's store could not be reached.
    StoreUnreachable(String),
    /// The candidate object could not be written.
    NotPublished(CandidatePublishError),
    /// The candidate does not agree with the status that was to install it.
    Refused(RootInstallRefusal),
    /// The conditional write of the row, which would make this candidate the job's root.
    Attempted(InstallableCandidate, Result<AuthorityOutcome, String>),
}

/// What an attempt's metadata restores from, as a value of the model.
pub open spec fn recovers_from(context: PhaseContext) -> Option<Reference> {
    match context.checkpoint_info {
        None => None,
        Some(info) => Some(
            if context.leader_mode {
                Reference::LeaderObject(info.id@)
            } else {
                Reference::ControllerCheckpointRow(info.id@)
            },
        ),
    }
}

/// The metadata an attempt states of itself.
pub open spec fn stated_root(context: PhaseContext) -> Root {
    Root {
        version: crate::lifecycle::root::CANDIDATE_BODY_VERSION,
        pipeline_id: context.job.pipeline_id@,
        job_id: context.job.config.id@,
        generation: context.job.status.generation,
        execution_selector: context.job.execution_selector.name(),
        recovery_checkpoint: recovers_from(context),
    }
}

/// Why an attempt's metadata does not describe it, if it does not. Everything but what it restores
/// from is the job's own by construction.
pub open spec fn misdescribes(context: PhaseContext) -> Option<Refusal> {
    stated_root(context).recovery_refusal(context.leader_mode)
}

/// What publishing and installing a candidate does to an attempt.
pub open spec fn rooted(
    before: PhaseContext,
    after: PhaseContext,
    installed: RootInstallation,
    r: Result<Option<String>, StateError>,
) -> bool {
    match installed {
        RootInstallation::StoreUnreachable(source) => {
            &&& after == before
            &&& r matches Err(e) && e.retryable_with(
                StateName::Scheduling,
                "failed to reach the job's state store"@,
                source@,
                20,
            )
        },
        RootInstallation::NotPublished(failure) => {
            &&& after == before
            &&& r matches Err(e) && e.retryable_with(
                StateName::Scheduling,
                "failed to publish the generation's candidate metadata object"@,
                failure.text(),
                20,
            )
        },
        RootInstallation::Refused(refusal) => {
            &&& after == before
            &&& r matches Err(e) && e.fatal_with(
                "this generation's candidate cannot be rooted under this controller's authority"@,
                refusal.text(),
            )
        },
        RootInstallation::Attempted(_, Err(source)) => {
            &&& after == before
            &&& r matches Err(e) && e.retryable_with(
                StateName::Scheduling,
                "failed to install the generation's authoritative metadata root"@,
                source@,
                20,
            )
        },
        RootInstallation::Attempted(candidate, Ok(AuthorityOutcome::Stale(stale))) => {
            &&& r matches Err(e) && crate::scheduling::context::stands_down(e, stale@)
            &&& after.superseded matches Some(holder) && holder@ == stale@
            &&& after.unrooted_candidate matches Some(key) && key@
                == candidate.identity().key()
            &&& after == (PhaseContext {
                superseded: after.superseded,
                unrooted_candidate: after.unrooted_candidate,
                ..before
            })
        },
        RootInstallation::Attempted(_, Ok(AuthorityOutcome::Applied)) => {
            &&& r == Ok::<_, StateError>(before.deferred_current_generation)
            &&& after == (PhaseContext {
                deferred_current_generation: None,
                ..before
            })
        },
    }
}

/// Whether `identity` is one of this attempt's pipeline, job and generation.
pub open spec fn names_attempt(context: PhaseContext, identity: RootIdentityOf) -> bool {
    &&& identity.pipeline_id == context.job.pipeline_id@
    &&& identity.job_id == context.job.config.id@
    &&& identity.generation == context.job.status.generation
}

/// Whether the candidate whose install was attempted, if one was, is this attempt's own.
pub open spec fn attempts_own(context: PhaseContext, installed: RootInstallation) -> bool {
    installed matches RootInstallation::Attempted(candidate, _) ==> names_attempt(
        context,
        candidate.identity(),
    )
}

impl PhaseContext {
    /// How this attempt names the checkpoint it restores from: an object where a worker leads, and
    /// a row of the controller's own otherwise.
    pub fn recovery_reference(&self) -> (r: Option<RecoveryReference>)
        ensures
            match recovers_from(*self) {
                Some(reference) => r matches Some(named) && named@ == reference,
                None => r is None,
            },
    {
        match &self.checkpoint_info {
            None => None,
            Some(info) => Some(
                if self.leader_mode {
                    RecoveryReference::LeaderObject(info.id.clone())
                } else {
                    RecoveryReference::ControllerCheckpointRow(info.id.clone())
                },
            ),
        }
    }

    /// The candidate this attempt would publish under `authority`. `carried` is what the durable
    /// record says of carrying its identifiers. Nothing has been written when it is refused.
    pub fn root_candidate(
        &self,
        authority: &LifecycleAuthority,
        carried: Result<(), String>,
    ) -> (r: Result<RootCandidate, StateError>)
        ensures
            names_candidate(*self, authority, carried, r),
    {
        let metadata = GenerationRoot::describing(
            self.job.pipeline_id.as_str(),
            self.job.config.id.as_str(),
            self.job.status.generation,
            self.job.execution_selector,
            self.recovery_reference(),
        );
        assert(metadata@ == stated_root(*self));
        let context = RootContext {
            job_id: self.job.config.id.as_str(),
            pipeline_id: self.job.pipeline_id.as_str(),
            generation: self.job.status.generation,
            execution_selector: self.job.execution_selector,
            leader_mode: self.leader_mode,
        };
        match Validated::validate(metadata, context) {
            Err(refusal) => Err(
                fatal(
                    "this scheduling attempt's generation metadata does not describe it",
                    refusal.report(),
                ),
            ),
            Ok(validated) => match RootCandidate::mint(authority, &validated, carried) {
                Err(refusal) => Err(
                    fatal(
                        "no candidate metadata object can be named for this scheduling attempt",
                        refusal.report(),
                    ),
                ),
                Ok(candidate) => Ok(candidate),
            },
        }
    }

    /// Whether `candidate` is named for this attempt's own pipeline, job and generation.
    pub fn is_own_candidate(&self, candidate: &InstallableCandidate) -> (r: bool)
        ensures
            r == names_attempt(*self, candidate.identity()),
    {
        let root = candidate.get().root();
        text::same(root.pipeline_id(), self.job.pipeline_id.as_str()) && text::same(
            root.job_id(),
            self.job.config.id.as_str(),
        ) && root.generation() == self.job.status.generation
    }

    /// What publishing and installing this attempt's own candidate came to. Where the root was
    /// installed, which takes a candidate that was published, the pointer that waited for it may be
    /// written now, and is handed out.
    pub fn publish_metadata_root(&mut self, installed: RootInstallation) -> (r: Result<
        Option<String>,
        StateError,
    >)
        requires
            attempts_own(*old(self), installed),
        ensures
            r is Ok <==> (installed matches RootInstallation::Attempted(_, outcome) && outcome
                == Ok::<_, String>(AuthorityOutcome::Applied)),
            rooted(*old(self), *final(self), installed, r),
    {
        match installed {
            RootInstallation::StoreUnreachable(source) => Err(
                retryable(
                    StateName::Scheduling,
                    "failed to reach the job's state store",
                    source,
                    20,
                ),
            ),
            RootInstallation::NotPublished(failure) => Err(
                retryable(
                    StateName::Scheduling,
                    "failed to publish the generation's candidate metadata object",
                    failure.report(),
                    20,
                ),
            ),
            RootInstallation::Refused(refusal) => Err(
                fatal(
                    "this generation's candidate cannot be rooted under this controller's authority",
                    refusal.report(),
                ),
            ),
            RootInstallation::Attempted(_, Err(source)) => Err(
                retryable(
                    StateName::Scheduling,
                    "failed to install the generation's authoritative metadata root",
                    source,
                    20,
                ),
            ),
            RootInstallation::Attempted(candidate, Ok(AuthorityOutcome::Stale(stale))) => {
                self.unrooted_candidate = Some(candidate.get().key());
                Err(self.stand_down_from(stale))
            },
            RootInstallation::Attempted(_, Ok(AuthorityOutcome::Applied)) => Ok(
                self.deferred_current_generation.take(),
            ),
        }
    }

    /// What writing the current-generation pointer came to. The root stays installed either way.
    pub fn current_generation_published(&self, written: Result<(), String>) -> (r: Result<
        (),
        StateError,
    >)
        ensures
            generation_named(written, r),
    {
        match written {
            Ok(()) => Ok(()),
            Err(source) => Err(
                retryable(
                    StateName::Scheduling,
                    "failed to publish the generation's canonical current-generation pointer",
                    source,
                    20,
                ),
            ),
        }
    }
}

/// What writing the pointer that names the current generation comes to.
pub open spec fn generation_named(
    written: Result<(), String>,
    r: Result<(), StateError>,
) -> bool {
    match written {
        Ok(()) => r is Ok,
        Err(source) => r matches Err(e) && e.retryable_with(
            StateName::Scheduling,
            "failed to publish the generation's canonical current-generation pointer"@,
            source@,
            20,
        ),
    }
}

/// What naming a candidate for an attempt comes to.
pub open spec fn names_candidate(
    context: PhaseContext,
    authority: &LifecycleAuthority,
    carried: Result<(), String>,
    r: Result<RootCandidate, StateError>,
) -> bool {
    match misdescribes(context) {
        Some(refusal) => r matches Err(e) && e.fatal_with(
            "this scheduling attempt's generation metadata does not describe it"@,
            refusal.text(),
        ),
        None => candidate_of(context, authority, carried, r),
    }
}

/// What naming a candidate for an attempt whose metadata describes it comes to.
pub open spec fn candidate_of(
    context: PhaseContext,
    authority: &LifecycleAuthority,
    carried: Result<(), String>,
    r: Result<RootCandidate, StateError>,
) -> bool {
    exists|named: Result<RootCandidate, crate::lifecycle::root::RootRefusal>|
        #![trigger crate::lifecycle::root::candidate::minted(
            authority,
            stated_root(context),
            carried,
            named,
        )]
        crate::lifecycle::root::candidate::minted(authority, stated_root(context), carried, named)
            && match named {
            Ok(candidate) => r == Ok::<_, StateError>(candidate),
            Err(refusal) => r matches Err(e) && e.fatal_with(
                "no candidate metadata object can be named for this scheduling attempt"@,
                refusal@.text(),
            ),
        }
}

/// The candidate an attempt names is its own, and stays so through being published and through the
/// check that lets it be installed: what an attempt has named may always be what it installs.
pub proof fn a_named_candidate_is_the_attempts_own(
    context: PhaseContext,
    authority: &LifecycleAuthority,
    carried: Result<(), String>,
    candidate: RootCandidate,
    put: PutOutcome,
    published: PublishedCandidate,
    presented: &LifecycleAuthority,
    generation: u64,
    installable: InstallableCandidate,
)
    requires
        names_candidate(context, authority, carried, Ok(candidate)),
        call_ensures(RootCandidate::published, (&candidate, put), Ok(published)),
        call_ensures(
            PublishedCandidate::installable,
            (published, presented, generation),
            Ok(installable),
        ),
    ensures
        names_attempt(context, candidate.identity()),
        names_attempt(context, installable.identity()),
        installable.text() == crate::lifecycle::root::candidate::body_of(stated_root(context)),
{
}

/// An attempt restores from the checkpoint it has, named as an object where a worker leads and as a
/// row of the controller's own otherwise.
pub proof fn a_recovery_is_named_by_who_keeps_it(
    context: &PhaseContext,
    r: Option<RecoveryReference>,
)
    requires
        call_ensures(PhaseContext::recovery_reference, (context,), r),
    ensures
        r is Some <==> context.checkpoint_info is Some,
        r matches Some(RecoveryReference::LeaderObject(object)) ==> context.leader_mode && object@
            == context.checkpoint_info->0.id@,
        r matches Some(RecoveryReference::ControllerCheckpointRow(id)) ==> !context.leader_mode
            && id@ == context.checkpoint_info->0.id@,
{
}

/// A candidate is named for an attempt exactly where the attempt restores from nothing or from what
/// is its job's own, and where its authority is over its job, under a fence that was adopted, for a
/// generation that is used, and recordable. It is of the attempt's own pipeline, job and generation
/// and of the authority's fence and epoch. Where no candidate is named, the job fails.
pub proof fn a_candidate_is_named_for_an_attempt_that_describes_itself(
    context: &PhaseContext,
    authority: &LifecycleAuthority,
    carried: Result<(), String>,
    r: Result<RootCandidate, StateError>,
    job_of_authority: &str,
    fence: u64,
    epoch: &str,
)
    requires
        call_ensures(PhaseContext::root_candidate, (context, authority, carried), r),
        call_ensures(LifecycleAuthority::job_id, (authority,), job_of_authority),
        call_ensures(LifecycleAuthority::fence, (authority,), fence),
        call_ensures(LifecycleAuthority::epoch, (authority,), epoch),
    ensures
        r is Ok <==> (context.checkpoint_info is None || (if context.leader_mode {
            (context.job.pipeline_id@ + "/"@ + context.job.config.id@ + "/"@).is_prefix_of(
                context.checkpoint_info->0.id@,
            )
        } else {
            context.checkpoint_info->0.id@.len() > 0
        })) && job_of_authority@ == context.job.config.id@ && fence != 0
            && context.job.status.generation != 0 && carried is Ok,
        r matches Ok(candidate) ==> candidate.identity().pipeline_id == context.job.pipeline_id@
            && candidate.identity().job_id == context.job.config.id@
            && candidate.identity().generation == context.job.status.generation
            && candidate.identity().fence == fence && candidate.identity().epoch == epoch@,
        r matches Err(e) ==> e is FatalError,
{
}

/// The pointer that waited for the root is handed out, once, exactly where the root was installed. A
/// row under another controller's authority has the attempt stand down, and notes whose it is and
/// which candidate was left; only a candidate that disagrees with the status fails the job
/// otherwise, and everything else is tried again with the reason as it was given.
pub proof fn a_generation_is_named_only_once_its_root_is_installed(
    context: &mut PhaseContext,
    installed: RootInstallation,
    r: Result<Option<String>, StateError>,
    candidate: &RootCandidate,
    key: String,
    written: Result<(), String>,
    named: Result<(), StateError>,
)
    requires
        call_ensures(PhaseContext::publish_metadata_root, (context, installed), r),
        installed is Attempted ==> call_ensures(
            InstallableCandidate::get,
            (&installed->Attempted_0,),
            candidate,
        ) && call_ensures(RootCandidate::key, (candidate,), key),
        call_ensures(PhaseContext::current_generation_published, (&*final(context), written), named),
    ensures
        r is Ok <==> installed is Attempted && installed->Attempted_1 is Ok
            && installed->Attempted_1->Ok_0 is Applied,
        r matches Ok(pointer) ==> pointer == old(context).deferred_current_generation && final(
            context).deferred_current_generation is None && final(context).superseded == old(
            context).superseded && final(context).unrooted_candidate == old(
            context).unrooted_candidate,
        installed is Attempted && installed->Attempted_1 is Ok && installed->Attempted_1->Ok_0
            is Stale ==> r is Err && r->Err_0 is FatalError && final(context).superseded is Some
            && final(context).superseded->0@ == installed->Attempted_1->Ok_0->Stale_0@ && final(
            context).unrooted_candidate is Some && final(context).unrooted_candidate->0@ == key@
            && final(context).deferred_current_generation == old(
            context).deferred_current_generation,
        r is Err && !(installed is Attempted && installed->Attempted_1 is Ok) ==> *final(context)
            == *old(context),
        r is Err ==> (r->Err_0 is FatalError <==> installed is Refused || (installed is Attempted
            && installed->Attempted_1 is Ok)),
        r is Err && r->Err_0 is RetryableError ==> r->Err_0->retries == 20 && r->Err_0->state
            == StateName::Scheduling,
        installed is StoreUnreachable ==> r->Err_0->RetryableError_source@
            == installed->StoreUnreachable_0@,
        installed is Attempted && installed->Attempted_1 is Err
            ==> r->Err_0->RetryableError_source@ == installed->Attempted_1->Err_0@,
        final(context).job == old(context).job,
        final(context).workers == old(context).workers,
        final(context).checkpoint_info == old(context).checkpoint_info,
        named is Ok <==> written is Ok,
        named matches Err(e) ==> e is RetryableError && e->retries == 20
            && e->RetryableError_source@ == written->Err_0@,
{
}

/// A candidate is an attempt's own exactly where it is named for the attempt's pipeline, job and
/// generation.
pub proof fn an_own_candidate_names_the_attempt(
    context: &PhaseContext,
    installable: &InstallableCandidate,
    own: bool,
    candidate: &RootCandidate,
    root: &MetadataRoot,
    pipeline_id: &str,
    job_id: &str,
    generation: u64,
)
    requires
        call_ensures(PhaseContext::is_own_candidate, (context, installable), own),
        call_ensures(InstallableCandidate::get, (installable,), candidate),
        call_ensures(RootCandidate::root, (candidate,), root),
        call_ensures(MetadataRoot::pipeline_id, (root,), pipeline_id),
        call_ensures(MetadataRoot::job_id, (root,), job_id),
        call_ensures(MetadataRoot::generation, (root,), generation),
    ensures
        own <==> pipeline_id@ == context.job.pipeline_id@ && job_id@ == context.job.config.id@
            && generation == context.job.status.generation,
{
}

} // verus!
