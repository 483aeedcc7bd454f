//! The metadata one scheduling attempt would make authoritative, and the check that it describes
//! the attempt.

use crate::text;
use crate::types::StateBackendSelector;
use vstd::prelude::*;
use vstd::string::*;

pub mod candidate;

verus! {

/// The version this build writes into a candidate object's body.
pub const CANDIDATE_BODY_VERSION: u32 = 1;

/// A text as `Debug` prints it: quoted, with what needs escaping escaped.
pub uninterp spec fn quoted(text: Seq<char>) -> Seq<char>;

/// `<str as Debug>::fmt`: the quoted text, which is a function of the text alone.
#[verifier::external_body]
pub(crate) fn quote(text: &str) -> (r: String)
    ensures
        r@ == quoted(text@),
{
    format!("{:?}", text)
}

/// How a scheduling attempt names the checkpoint its generation restores from.
#[derive(Clone, Debug, PartialEq, Eq)]
pub enum RecoveryReference {
    /// Where workers lead: the object the generation restores from.
    LeaderObject(String),
    /// Where the controller keeps the checkpoints: the row the generation restores from.
    ControllerCheckpointRow(String),
}

/// A recovery reference as a value of the model.
pub enum Reference {
    LeaderObject(Seq<char>),
    ControllerCheckpointRow(Seq<char>),
}

impl View for RecoveryReference {
    type V = Reference;

    open spec fn view(&self) -> Reference {
        match *self {
            RecoveryReference::LeaderObject(reference) => Reference::LeaderObject(reference@),
            RecoveryReference::ControllerCheckpointRow(id) => Reference::ControllerCheckpointRow(
                id@,
            ),
        }
    }
}

/// How a topology names a recovery checkpoint.
pub open spec fn kind_in(leader_mode: bool) -> Seq<char> {
    if leader_mode {
        "an object-store reference"@
    } else {
        "a checkpoints row"@
    }
}

impl Reference {
    /// Whether this is how workers that lead name one.
    pub open spec fn is_leader_object(self) -> bool {
        self is LeaderObject
    }
}

impl RecoveryReference {
    /// The kind's name, as a mismatch reports it.
    pub fn kind(&self) -> (r: &'static str)
        ensures
            r@ == kind_in(self@.is_leader_object()),
    {
        match self {
            RecoveryReference::LeaderObject(_) => "an object-store reference",
            RecoveryReference::ControllerCheckpointRow(_) => "a checkpoints row",
        }
    }
}

/// The generation metadata one scheduling attempt would make authoritative, whole: which
/// generation of which job in which pipeline, running which backend, restoring from what.
#[derive(Clone, Debug, PartialEq, Eq)]
pub struct GenerationRoot {
    version: u32,
    pipeline_id: String,
    job_id: String,
    generation: u64,
    execution_selector: String,
    recovery_checkpoint: Option<RecoveryReference>,
}

/// Generation metadata as a value of the model.
#[verifier::ext_equal]
pub struct Root {
    pub version: u32,
    pub pipeline_id: Seq<char>,
    pub job_id: Seq<char>,
    pub generation: u64,
    pub execution_selector: Seq<char>,
    pub recovery_checkpoint: Option<Reference>,
}

impl View for GenerationRoot {
    type V = Root;

    closed spec fn view(&self) -> Root {
        Root {
            version: self.version,
            pipeline_id: self.pipeline_id@,
            job_id: self.job_id@,
            generation: self.generation,
            execution_selector: self.execution_selector@,
            recovery_checkpoint: match self.recovery_checkpoint {
                Some(reference) => Some(reference@),
                None => None,
            },
        }
    }
}

/// What the job itself says about the identities its metadata claims.
#[derive(Clone, Copy, Debug)]
pub struct RootContext<'a> {
    pub job_id: &'a str,
    pub pipeline_id: &'a str,
    pub generation: u64,
    pub execution_selector: StateBackendSelector,
    pub leader_mode: bool,
}

/// Why a generation's metadata cannot become a root: the first identity that does not agree.
#[allow(inconsistent_fields)]
#[derive(Clone, Debug, PartialEq, Eq)]
pub enum RootRefusal {
    JobMismatch { found: String, expected: String },
    PipelineMismatch { found: String, expected: String },
    GenerationMismatch { found: u64, expected: u64 },
    SelectorMismatch { found: String, expected: StateBackendSelector },
    ForeignRecoveryCheckpoint { found: String, namespace: String },
    RecoveryKindMismatch { found: &'static str, expected: &'static str },
    EmptyRecoveryCheckpoint,
    UnknownVersion { found: u32 },
    AuthorityJobMismatch { job: String, authority: String },
    Unnameable(candidate::MetadataRootError),
}

/// A refusal as a value of the model.
#[allow(inconsistent_fields)]
pub enum Refusal {
    JobMismatch { found: Seq<char>, expected: Seq<char> },
    PipelineMismatch { found: Seq<char>, expected: Seq<char> },
    GenerationMismatch { found: u64, expected: u64 },
    SelectorMismatch { found: Seq<char>, expected: StateBackendSelector },
    ForeignRecoveryCheckpoint { found: Seq<char>, namespace: Seq<char> },
    RecoveryKindMismatch { found: Seq<char>, expected: Seq<char> },
    EmptyRecoveryCheckpoint,
    UnknownVersion { found: u32 },
    AuthorityJobMismatch { job: Seq<char>, authority: Seq<char> },
    Unnameable(candidate::Unnamed),
}

impl View for RootRefusal {
    type V = Refusal;

    open spec fn view(&self) -> Refusal {
        match *self {
            RootRefusal::JobMismatch { found, expected } => Refusal::JobMismatch {
                found: found@,
                expected: expected@,
            },
            RootRefusal::PipelineMismatch { found, expected } => Refusal::PipelineMismatch {
                found: found@,
                expected: expected@,
            },
            RootRefusal::GenerationMismatch { found, expected } => Refusal::GenerationMismatch {
                found,
                expected,
            },
            RootRefusal::SelectorMismatch { found, expected } => Refusal::SelectorMismatch {
                found: found@,
                expected,
            },
            RootRefusal::ForeignRecoveryCheckpoint { found, namespace } => {
                Refusal::ForeignRecoveryCheckpoint { found: found@, namespace: namespace@ }
            },
            RootRefusal::RecoveryKindMismatch { found, expected } => Refusal::RecoveryKindMismatch {
                found: found@,
                expected: expected@,
            },
            RootRefusal::EmptyRecoveryCheckpoint => Refusal::EmptyRecoveryCheckpoint,
            RootRefusal::UnknownVersion { found } => Refusal::UnknownVersion { found },
            RootRefusal::AuthorityJobMismatch { job, authority } => Refusal::AuthorityJobMismatch {
                job: job@,
                authority: authority@,
            },
            RootRefusal::Unnameable(error) => Refusal::Unnameable(error@),
        }
    }
}

impl Refusal {
    /// The refusal as an operator reads it.
    pub open spec fn text(self) -> Seq<char> {
        match self {
            Refusal::JobMismatch { found, expected } => "generation metadata names job "@ + quoted(
                found,
            ) + ", and this attempt is for job "@ + quoted(expected),
            Refusal::PipelineMismatch { found, expected } => "generation metadata names pipeline "@
                + quoted(found) + ", and this attempt is for pipeline "@ + quoted(expected),
            Refusal::GenerationMismatch { found, expected } => {
                "generation metadata names generation "@ + text::decimal_digits(found as nat)
                    + ", and this attempt raised the job to "@ + text::decimal_digits(
                    expected as nat,
                )
            },
            Refusal::SelectorMismatch { found, expected } => {
                "generation metadata names state backend "@ + quoted(found)
                    + ", and this execution runs "@ + expected.name()
            },
            Refusal::ForeignRecoveryCheckpoint { found, namespace } => {
                "generation metadata names recovery checkpoint "@ + quoted(found)
                    + ", which is not inside "@ + quoted(namespace)
            },
            Refusal::RecoveryKindMismatch { found, expected } => {
                "generation metadata names its recovery checkpoint as "@ + found
                    + ", and this attempt resolves "@ + expected
            },
            Refusal::EmptyRecoveryCheckpoint => {
                "generation metadata names an empty recovery checkpoint"@
            },
            Refusal::UnknownVersion { found } => "generation metadata is version "@
                + text::decimal_digits(found as nat) + ", and this build reads only version "@
                + text::decimal_digits(CANDIDATE_BODY_VERSION as nat),
            Refusal::AuthorityJobMismatch { job, authority } => "a candidate for job "@ + quoted(
                job,
            ) + " cannot be minted under an authority over job "@ + quoted(authority),
            Refusal::Unnameable(error) => {
                "no candidate object can be named for this attempt: "@ + error.text()
            },
        }
    }
}

fn two_parts(before: &str, first: &str, between: &str, second: &str) -> (r: String)
    ensures
        r@ == before@ + first@ + between@ + second@,
{
    let mut r = before.to_owned();
    r.append(first);
    r.append(between);
    r.append(second);
    r
}

impl RootRefusal {
    /// The refusal as an operator reads it.
    pub fn report(&self) -> (r: String)
        ensures
            r@ == self@.text(),
    {
        match self {
            RootRefusal::JobMismatch { found, expected } => {
                let found = quote(found.as_str());
                let expected = quote(expected.as_str());
                two_parts(
                    "generation metadata names job ",
                    found.as_str(),
                    ", and this attempt is for job ",
                    expected.as_str(),
                )
            },
            RootRefusal::PipelineMismatch { found, expected } => {
                let found = quote(found.as_str());
                let expected = quote(expected.as_str());
                two_parts(
                    "generation metadata names pipeline ",
                    found.as_str(),
                    ", and this attempt is for pipeline ",
                    expected.as_str(),
                )
            },
            RootRefusal::GenerationMismatch { found, expected } => {
                let found = text::decimal(*found);
                let expected = text::decimal(*expected);
                two_parts(
                    "generation metadata names generation ",
                    found.as_str(),
                    ", and this attempt raised the job to ",
                    expected.as_str(),
                )
            },
            RootRefusal::SelectorMismatch { found, expected } => {
                let found = quote(found.as_str());
                two_parts(
                    "generation metadata names state backend ",
                    found.as_str(),
                    ", and this execution runs ",
                    expected.as_str(),
                )
            },
            RootRefusal::ForeignRecoveryCheckpoint { found, namespace } => {
                let found = quote(found.as_str());
                let namespace = quote(namespace.as_str());
                two_parts(
                    "generation metadata names recovery checkpoint ",
                    found.as_str(),
                    ", which is not inside ",
                    namespace.as_str(),
                )
            },
            RootRefusal::RecoveryKindMismatch { found, expected } => two_parts(
                "generation metadata names its recovery checkpoint as ",
                found,
                ", and this attempt resolves ",
                expected,
            ),
            RootRefusal::EmptyRecoveryCheckpoint => {
                "generation metadata names an empty recovery checkpoint".to_owned()
            },
            RootRefusal::UnknownVersion { found } => {
                let found = text::decimal(*found as u64);
                let known = text::decimal(CANDIDATE_BODY_VERSION as u64);
                two_parts(
                    "generation metadata is version ",
                    found.as_str(),
                    ", and this build reads only version ",
                    known.as_str(),
                )
            },
            RootRefusal::AuthorityJobMismatch { job, authority } => {
                let job = quote(job.as_str());
                let authority = quote(authority.as_str());
                two_parts(
                    "a candidate for job ",
                    job.as_str(),
                    " cannot be minted under an authority over job ",
                    authority.as_str(),
                )
            },
            RootRefusal::Unnameable(error) => {
                let mut r = "no candidate object can be named for this attempt: ".to_owned();
                r.append(error.report());
                r
            },
        }
    }
}

impl Root {
    /// The prefix every object of this job lives under.
    pub open spec fn namespace(self) -> Seq<char> {
        self.pipeline_id + "/"@ + self.job_id + "/"@
    }

    /// Why the recovery checkpoint is not one this attempt could restore from, if it is not.
    pub open spec fn recovery_refusal(self, leader_mode: bool) -> Option<Refusal> {
        match self.recovery_checkpoint {
            None => None,
            Some(reference) => if reference.is_leader_object() != leader_mode {
                Some(
                    Refusal::RecoveryKindMismatch {
                        found: kind_in(!leader_mode),
                        expected: kind_in(leader_mode),
                    },
                )
            } else {
                match reference {
                    Reference::LeaderObject(object) => if self.namespace().is_prefix_of(object) {
                        None
                    } else {
                        Some(
                            Refusal::ForeignRecoveryCheckpoint {
                                found: object,
                                namespace: self.namespace(),
                            },
                        )
                    },
                    Reference::ControllerCheckpointRow(id) => if id.len() == 0 {
                        Some(Refusal::EmptyRecoveryCheckpoint)
                    } else {
                        None
                    },
                }
            },
        }
    }

    /// Why this metadata does not describe the attempt, if it does not. The version is compared
    /// before any identity.
    pub open spec fn refusal(self, context: RootContext<'_>) -> Option<Refusal> {
        if self.version != CANDIDATE_BODY_VERSION {
            Some(Refusal::UnknownVersion { found: self.version })
        } else if self.job_id != context.job_id@ {
            Some(Refusal::JobMismatch { found: self.job_id, expected: context.job_id@ })
        } else if self.pipeline_id != context.pipeline_id@ {
            Some(
                Refusal::PipelineMismatch {
                    found: self.pipeline_id,
                    expected: context.pipeline_id@,
                },
            )
        } else if self.generation != context.generation {
            Some(
                Refusal::GenerationMismatch {
                    found: self.generation,
                    expected: context.generation,
                },
            )
        } else if self.execution_selector != context.execution_selector.name() {
            Some(
                Refusal::SelectorMismatch {
                    found: self.execution_selector,
                    expected: context.execution_selector,
                },
            )
        } else {
            self.recovery_refusal(context.leader_mode)
        }
    }
}

impl GenerationRoot {
    /// The metadata a scheduling attempt states of itself.
    pub fn describing(
        pipeline_id: &str,
        job_id: &str,
        generation: u64,
        execution_selector: StateBackendSelector,
        recovery_checkpoint: Option<RecoveryReference>,
    ) -> (r: Self)
        ensures
            r@ == (Root {
                version: CANDIDATE_BODY_VERSION,
                pipeline_id: pipeline_id@,
                job_id: job_id@,
                generation,
                execution_selector: execution_selector.name(),
                recovery_checkpoint: match recovery_checkpoint {
                    Some(reference) => Some(reference@),
                    None => None,
                },
            }),
    {
        GenerationRoot {
            version: CANDIDATE_BODY_VERSION,
            pipeline_id: pipeline_id.to_owned(),
            job_id: job_id.to_owned(),
            generation,
            execution_selector: execution_selector.as_str().to_owned(),
            recovery_checkpoint,
        }
    }

    /// The metadata a body states, whichever build wrote it.
    pub fn decoded(
        version: u32,
        pipeline_id: String,
        job_id: String,
        generation: u64,
        execution_selector: String,
        recovery_checkpoint: Option<RecoveryReference>,
    ) -> (r: Self)
        ensures
            r@ == (Root {
                version,
                pipeline_id: pipeline_id@,
                job_id: job_id@,
                generation,
                execution_selector: execution_selector@,
                recovery_checkpoint: match recovery_checkpoint {
                    Some(reference) => Some(reference@),
                    None => None,
                },
            }),
    {
        GenerationRoot {
            version,
            pipeline_id,
            job_id,
            generation,
            execution_selector,
            recovery_checkpoint,
        }
    }

    pub fn job_id(&self) -> (r: &str)
        ensures
            r@ == self@.job_id,
    {
        self.job_id.as_str()
    }

    pub fn pipeline_id(&self) -> (r: &str)
        ensures
            r@ == self@.pipeline_id,
    {
        self.pipeline_id.as_str()
    }

    pub fn generation(&self) -> (r: u64)
        ensures
            r == self@.generation,
    {
        self.generation
    }

    pub fn version(&self) -> (r: u32)
        ensures
            r == self@.version,
    {
        self.version
    }

    pub fn execution_selector(&self) -> (r: &str)
        ensures
            r@ == self@.execution_selector,
    {
        self.execution_selector.as_str()
    }

    pub fn recovery_checkpoint(&self) -> (r: Option<&RecoveryReference>)
        ensures
            match self@.recovery_checkpoint {
                Some(reference) => r matches Some(named) && named@ == reference,
                None => r is None,
            },
    {
        self.recovery_checkpoint.as_ref()
    }

    /// The prefix every object of this job lives under.
    pub fn namespace(&self) -> (r: String)
        ensures
            r@ == self@.namespace(),
    {
        let mut r = self.pipeline_id.clone();
        r.append("/");
        r.append(self.job_id.as_str());
        r.append("/");
        r
    }

    /// Checks the whole statement against what the job itself says, and names the first identity
    /// that disagrees.
    pub fn check_whole(&self, context: RootContext<'_>) -> (r: Result<(), RootRefusal>)
        ensures
            match self@.refusal(context) {
                None => r is Ok,
                Some(refusal) => r matches Err(e) && e@ == refusal,
            },
    {
        if self.version != CANDIDATE_BODY_VERSION {
            return Err(RootRefusal::UnknownVersion { found: self.version });
        }
        if !text::same(self.job_id.as_str(), context.job_id) {
            return Err(
                RootRefusal::JobMismatch {
                    found: self.job_id.clone(),
                    expected: context.job_id.to_owned(),
                },
            );
        }
        if !text::same(self.pipeline_id.as_str(), context.pipeline_id) {
            return Err(
                RootRefusal::PipelineMismatch {
                    found: self.pipeline_id.clone(),
                    expected: context.pipeline_id.to_owned(),
                },
            );
        }
        if self.generation != context.generation {
            return Err(
                RootRefusal::GenerationMismatch {
                    found: self.generation,
                    expected: context.generation,
                },
            );
        }
        if !text::same(self.execution_selector.as_str(), context.execution_selector.as_str()) {
            return Err(
                RootRefusal::SelectorMismatch {
                    found: self.execution_selector.clone(),
                    expected: context.execution_selector,
                },
            );
        }
        match &self.recovery_checkpoint {
            None => Ok(()),
            Some(RecoveryReference::LeaderObject(reference)) => {
                if !context.leader_mode {
                    return Err(
                        RootRefusal::RecoveryKindMismatch {
                            found: "an object-store reference",
                            expected: "a checkpoints row",
                        },
                    );
                }
                let namespace = self.namespace();
                if !text::begins_with(reference.as_str(), namespace.as_str()) {
                    return Err(
                        RootRefusal::ForeignRecoveryCheckpoint {
                            found: reference.clone(),
                            namespace,
                        },
                    );
                }
                Ok(())
            },
            Some(RecoveryReference::ControllerCheckpointRow(id)) => {
                if context.leader_mode {
                    return Err(
                        RootRefusal::RecoveryKindMismatch {
                            found: "a checkpoints row",
                            expected: "an object-store reference",
                        },
                    );
                }
                if id.as_str().is_empty() {
                    return Err(RootRefusal::EmptyRecoveryCheckpoint);
                }
                Ok(())
            },
        }
    }
}

/// Metadata that has been checked as a whole. There is no other way to make one than the check.
#[derive(Clone, Debug, PartialEq, Eq)]
pub struct Validated {
    root: GenerationRoot,
}

impl View for Validated {
    type V = Root;

    closed spec fn view(&self) -> Root {
        self.root@
    }
}

impl Validated {
    /// The token for metadata that describes the attempt, or why it does not.
    pub fn validate(root: GenerationRoot, context: RootContext<'_>) -> (r: Result<Self, RootRefusal>)
        ensures
            match root@.refusal(context) {
                None => r matches Ok(token) && token@ == root@,
                Some(refusal) => r matches Err(e) && e@ == refusal,
            },
    {
        match root.check_whole(context) {
            Ok(()) => Ok(Validated { root }),
            Err(refusal) => Err(refusal),
        }
    }

    pub fn get(&self) -> (r: &GenerationRoot)
        ensures
            r@ == self@,
    {
        &self.root
    }
}

/// Metadata is accepted only where every identity it claims is the job's own, and whatever it
/// restores from is the job's own too.
pub proof fn accepted_metadata_describes_the_attempt(root: Root, context: RootContext<'_>)
    requires
        root.refusal(context) is None,
    ensures
        root.version == CANDIDATE_BODY_VERSION,
        root.job_id == context.job_id@,
        root.pipeline_id == context.pipeline_id@,
        root.generation == context.generation,
        root.execution_selector == context.execution_selector.name(),
        root.recovery_checkpoint matches Some(reference) ==> reference.is_leader_object()
            == context.leader_mode,
        root.recovery_checkpoint matches Some(Reference::LeaderObject(object)) ==> (
        context.pipeline_id@ + "/"@ + context.job_id@ + "/"@).is_prefix_of(object),
        root.recovery_checkpoint matches Some(Reference::ControllerCheckpointRow(id)) ==> id.len()
            > 0,
{
}

/// The metadata an attempt states of itself, with nothing to restore from, describes the attempt
/// in either topology.
pub proof fn stated_metadata_without_recovery_is_accepted(root: Root, context: RootContext<'_>)
    requires
        root == (Root {
            version: CANDIDATE_BODY_VERSION,
            pipeline_id: context.pipeline_id@,
            job_id: context.job_id@,
            generation: context.generation,
            execution_selector: context.execution_selector.name(),
            recovery_checkpoint: None,
        }),
    ensures
        root.refusal(context) is None,
{
}

/// Metadata is accepted exactly where it is of the version this build writes, names the job, the
/// pipeline, the generation and the state backend of the attempt, and restores from nothing, from an
/// object of the job's own where a worker leads, or from a named row where the controller keeps the
/// checkpoints. What is accepted is what was stated.
pub proof fn metadata_is_accepted_exactly_where_it_describes_the_attempt(
    version: u32,
    pipeline_id: String,
    job_id: String,
    generation: u64,
    execution_selector: String,
    recovery_checkpoint: Option<RecoveryReference>,
    root: GenerationRoot,
    context: RootContext<'_>,
    r: Result<Validated, RootRefusal>,
    checked: Result<(), RootRefusal>,
)
    requires
        call_ensures(
            GenerationRoot::decoded,
            (version, pipeline_id, job_id, generation, execution_selector, recovery_checkpoint),
            root,
        ),
        call_ensures(Validated::validate, (root, context), r),
        call_ensures(GenerationRoot::check_whole, (&root, context), checked),
    ensures
        r is Ok <==> version == 1 && job_id@ == context.job_id@ && pipeline_id@
            == context.pipeline_id@ && generation == context.generation && execution_selector@ == (
        match context.execution_selector {
            StateBackendSelector::Parquet => "parquet"@,
            StateBackendSelector::StateEngine => "stateengine"@,
        }) && (match recovery_checkpoint {
            None => true,
            Some(RecoveryReference::LeaderObject(object)) => context.leader_mode && (pipeline_id@
                + "/"@ + job_id@ + "/"@).is_prefix_of(object@),
            Some(RecoveryReference::ControllerCheckpointRow(id)) => !context.leader_mode && id@.len()
                > 0,
        }),
        r matches Ok(token) ==> token@ == root@,
        checked is Ok <==> r is Ok,
        r matches Err(e) ==> (e is UnknownVersion <==> version != 1),
        r matches Err(e) ==> (e is JobMismatch <==> version == 1 && job_id@ != context.job_id@),
        r matches Err(e) ==> (e is PipelineMismatch <==> version == 1 && job_id@ == context.job_id@
            && pipeline_id@ != context.pipeline_id@),
        r matches Err(e) ==> (e is GenerationMismatch <==> version == 1 && job_id@
            == context.job_id@ && pipeline_id@ == context.pipeline_id@ && generation
            != context.generation),
        r matches Err(RootRefusal::JobMismatch { found, expected }) ==> found@ == job_id@
            && expected@ == context.job_id@,
        r matches Err(RootRefusal::PipelineMismatch { found, expected }) ==> found@ == pipeline_id@
            && expected@ == context.pipeline_id@,
        r matches Err(RootRefusal::GenerationMismatch { found, expected }) ==> found == generation
            && expected == context.generation,
        r matches Err(RootRefusal::SelectorMismatch { found, expected }) ==> found@
            == execution_selector@ && expected == context.execution_selector,
        r matches Err(RootRefusal::UnknownVersion { found }) ==> found == version,
        r matches Err(e) ==> (e is ForeignRecoveryCheckpoint ==> recovery_checkpoint is Some
            && recovery_checkpoint->0 is LeaderObject && context.leader_mode),
        r matches Err(e) ==> (e is EmptyRecoveryCheckpoint ==> recovery_checkpoint is Some
            && recovery_checkpoint->0 is ControllerCheckpointRow && !context.leader_mode),
        r matches Err(e) ==> (e is RecoveryKindMismatch ==> recovery_checkpoint is Some && (
        recovery_checkpoint->0 is LeaderObject <==> !context.leader_mode)),
        r matches Err(e) ==> !(e is AuthorityJobMismatch) && !(e is Unnameable),
{
}

/// The metadata an attempt states of itself is read back as it was stated, in the version this build
/// writes and with the backend's persisted name.
pub proof fn stated_metadata_is_read_back(
    pipeline_id: &str,
    job_id: &str,
    generation: u64,
    execution_selector: StateBackendSelector,
    recovery_checkpoint: Option<RecoveryReference>,
    root: GenerationRoot,
    pipeline: &str,
    job: &str,
    of_generation: u64,
    version: u32,
    selector: &str,
    recovery: Option<&RecoveryReference>,
    namespace: String,
)
    requires
        call_ensures(
            GenerationRoot::describing,
            (pipeline_id, job_id, generation, execution_selector, recovery_checkpoint),
            root,
        ),
        call_ensures(GenerationRoot::pipeline_id, (&root,), pipeline),
        call_ensures(GenerationRoot::job_id, (&root,), job),
        call_ensures(GenerationRoot::generation, (&root,), of_generation),
        call_ensures(GenerationRoot::version, (&root,), version),
        call_ensures(GenerationRoot::execution_selector, (&root,), selector),
        call_ensures(GenerationRoot::recovery_checkpoint, (&root,), recovery),
        call_ensures(GenerationRoot::namespace, (&root,), namespace),
    ensures
        pipeline@ == pipeline_id@,
        job@ == job_id@,
        of_generation == generation,
        version == 1,
        selector@ == (match execution_selector {
            StateBackendSelector::Parquet => "parquet"@,
            StateBackendSelector::StateEngine => "stateengine"@,
        }),
        recovery is Some <==> recovery_checkpoint is Some,
        recovery is Some ==> recovery->0@ == recovery_checkpoint->0@,
        namespace@ == pipeline_id@ + "/"@ + job_id@ + "/"@,
{
}

/// A refusal tells what was found and what was expected, in that order and in its own words.
pub proof fn a_refusal_tells_what_was_found_and_what_was_expected(refusal: &RootRefusal, r: String)
    requires
        call_ensures(RootRefusal::report, (refusal,), r),
    ensures
        *refusal matches RootRefusal::JobMismatch { found, expected } ==> r@
            == "generation metadata names job "@ + quoted(found@) + ", and this attempt is for job "@
            + quoted(expected@),
        *refusal matches RootRefusal::PipelineMismatch { found, expected } ==> r@
            == "generation metadata names pipeline "@ + quoted(found@)
            + ", and this attempt is for pipeline "@ + quoted(expected@),
        *refusal matches RootRefusal::GenerationMismatch { found, expected } ==> r@
            == "generation metadata names generation "@ + text::decimal_digits(found as nat)
            + ", and this attempt raised the job to "@ + text::decimal_digits(expected as nat),
        *refusal matches RootRefusal::SelectorMismatch { found, expected } ==> r@
            == "generation metadata names state backend "@ + quoted(found@)
            + ", and this execution runs "@ + (match expected {
            StateBackendSelector::Parquet => "parquet"@,
            StateBackendSelector::StateEngine => "stateengine"@,
        }),
        *refusal matches RootRefusal::ForeignRecoveryCheckpoint { found, namespace } ==> r@
            == "generation metadata names recovery checkpoint "@ + quoted(found@)
            + ", which is not inside "@ + quoted(namespace@),
        *refusal matches RootRefusal::RecoveryKindMismatch { found, expected } ==> r@
            == "generation metadata names its recovery checkpoint as "@ + found@
            + ", and this attempt resolves "@ + expected@,
        *refusal is EmptyRecoveryCheckpoint ==> r@
            == "generation metadata names an empty recovery checkpoint"@,
        *refusal matches RootRefusal::UnknownVersion { found } ==> r@
            == "generation metadata is version "@ + text::decimal_digits(found as nat)
            + ", and this build reads only version "@ + text::decimal_digits(1),
        *refusal matches RootRefusal::AuthorityJobMismatch { job, authority } ==> r@
            == "a candidate for job "@ + quoted(job@)
            + " cannot be minted under an authority over job "@ + quoted(authority@),
{
}

/// A recovery that is of the other topology's kind is told as what it is.
pub proof fn a_recovery_is_told_as_what_it_is(reference: &RecoveryReference, r: &'static str)
    requires
        call_ensures(RecoveryReference::kind, (reference,), r),
    ensures
        reference is LeaderObject ==> r@ == "an object-store reference"@,
        reference is ControllerCheckpointRow ==> r@ == "a checkpoints row"@,
{
}

} // verus!
