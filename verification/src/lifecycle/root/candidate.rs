//! The candidate object a generation's metadata is published at, and what it takes to make it
//! authoritative.

use crate::lifecycle::fence::LifecycleAuthority;
use crate::lifecycle::root::{quote, RecoveryReference, Reference, Refusal, Root, RootRefusal};
use crate::lifecycle::root::{GenerationRoot, Validated};
use crate::text;
use vstd::prelude::*;
use vstd::string::*;

verus! {

/// Why an identity names no candidate object.
#[derive(Clone, Debug, PartialEq, Eq)]
pub enum MetadataRootError {
    /// No adoption installs fence zero.
    UnadoptedFence,
    /// No worker runs under generation zero.
    UnusedGeneration,
    /// The durable record cannot carry an identifier, for this reason.
    Unrecordable(String),
}

/// Why an identity names no candidate object, as a value of the model.
pub enum Unnamed {
    UnadoptedFence,
    UnusedGeneration,
    Unrecordable(Seq<char>),
}

impl View for MetadataRootError {
    type V = Unnamed;

    open spec fn view(&self) -> Unnamed {
        match *self {
            MetadataRootError::UnadoptedFence => Unnamed::UnadoptedFence,
            MetadataRootError::UnusedGeneration => Unnamed::UnusedGeneration,
            MetadataRootError::Unrecordable(report) => Unnamed::Unrecordable(report@),
        }
    }
}

impl Unnamed {
    pub open spec fn text(self) -> Seq<char> {
        match self {
            Unnamed::UnadoptedFence => "lifecycle fence 0 is not one an adoption installs"@,
            Unnamed::UnusedGeneration => "generation 0 is not one a worker runs under"@,
            Unnamed::Unrecordable(report) => report,
        }
    }
}

impl MetadataRootError {
    pub fn report(&self) -> (r: &str)
        ensures
            r@ == self@.text(),
    {
        match self {
            MetadataRootError::UnadoptedFence => "lifecycle fence 0 is not one an adoption installs",
            MetadataRootError::UnusedGeneration => "generation 0 is not one a worker runs under",
            MetadataRootError::Unrecordable(report) => report.as_str(),
        }
    }
}

/// A character as it is written inside a JSON string literal: a quote, a backslash and the control
/// characters are escaped, the latter by name where JSON has one, and nothing else is.
pub open spec fn json_escaped(c: char) -> Seq<char> {
    if c == '"' {
        seq!['\\', '"']
    } else if c == '\\' {
        seq!['\\', '\\']
    } else if c == '\u{8}' {
        seq!['\\', 'b']
    } else if c == '\t' {
        seq!['\\', 't']
    } else if c == '\n' {
        seq!['\\', 'n']
    } else if c == '\u{c}' {
        seq!['\\', 'f']
    } else if c == '\r' {
        seq!['\\', 'r']
    } else if (c as nat) <= 31 {
        seq!['\\', 'u'] + text::padded_digits(c as nat, 16, 4)
    } else {
        seq![c]
    }
}

/// A text as it is written inside a JSON string literal.
pub open spec fn json_contents(text: Seq<char>) -> Seq<char>
    decreases text.len(),
{
    if text.len() == 0 {
        Seq::empty()
    } else {
        json_contents(text.drop_last()) + json_escaped(text.last())
    }
}

/// A text as a JSON string literal.
pub open spec fn json_string(text: Seq<char>) -> Seq<char> {
    seq!['"'] + json_contents(text) + seq!['"']
}

/// `serde_json::to_string` of a text: its JSON string literal. It fails on no text.
#[verifier::external_body]
fn json_text(text: &str) -> (r: String)
    ensures
        r@ == json_string(text@),
{
    serde_json::to_string(text).expect("a text always serializes")
}

/// The identity a candidate object is named by: the record that makes it authoritative.
#[derive(Clone, Debug, PartialEq, Eq)]
pub struct MetadataRoot {
    pipeline_id: String,
    job_id: String,
    generation: u64,
    fence: u64,
    epoch: String,
}

/// A candidate's identity as a value of the model.
#[verifier::ext_equal]
pub struct RootIdentityOf {
    pub pipeline_id: Seq<char>,
    pub job_id: Seq<char>,
    pub generation: u64,
    pub fence: u64,
    pub epoch: Seq<char>,
}

impl View for MetadataRoot {
    type V = RootIdentityOf;

    closed spec fn view(&self) -> RootIdentityOf {
        RootIdentityOf {
            pipeline_id: self.pipeline_id@,
            job_id: self.job_id@,
            generation: self.generation,
            fence: self.fence,
            epoch: self.epoch@,
        }
    }
}

impl RootIdentityOf {
    /// Why this identity names no object, if it names none. `carried` is what the durable record
    /// says of carrying it.
    pub open spec fn unnameable(self, carried: Result<(), String>) -> Option<Unnamed> {
        if self.fence == 0 {
            Some(Unnamed::UnadoptedFence)
        } else if self.generation == 0 {
            Some(Unnamed::UnusedGeneration)
        } else {
            match carried {
                Ok(()) => None,
                Err(report) => Some(Unnamed::Unrecordable(report@)),
            }
        }
    }

    /// The prefix every object of this generation lives under.
    pub open spec fn generation_prefix(self) -> Seq<char> {
        self.pipeline_id + "/"@ + self.job_id + "/generations/"@ + text::decimal_digits(
            self.generation as nat,
        ) + "/"@
    }

    /// The object's key: the whole identity is in the name.
    pub open spec fn key(self) -> Seq<char> {
        self.generation_prefix() + "candidates/fence-"@ + text::padded_digits(
            self.fence as nat,
            10,
            20,
        ) + "-epoch-"@ + self.epoch + ".json"@
    }
}

impl MetadataRoot {
    fn mint(
        pipeline_id: &str,
        job_id: &str,
        generation: u64,
        fence: u64,
        epoch: &str,
        carried: Result<(), String>,
    ) -> (r: Result<Self, MetadataRootError>)
        ensures
            ({
                let identity = RootIdentityOf {
                    pipeline_id: pipeline_id@,
                    job_id: job_id@,
                    generation,
                    fence,
                    epoch: epoch@,
                };
                match identity.unnameable(carried) {
                    Some(error) => r matches Err(e) && e@ == error,
                    None => r matches Ok(root) && root@ == identity,
                }
            }),
    {
        if fence == 0 {
            return Err(MetadataRootError::UnadoptedFence);
        }
        if generation == 0 {
            return Err(MetadataRootError::UnusedGeneration);
        }
        if let Err(report) = carried {
            return Err(MetadataRootError::Unrecordable(report));
        }
        Ok(
            MetadataRoot {
                pipeline_id: pipeline_id.to_owned(),
                job_id: job_id.to_owned(),
                generation,
                fence,
                epoch: epoch.to_owned(),
            },
        )
    }

    pub fn pipeline_id(&self) -> (r: &str)
        ensures
            r@ == self@.pipeline_id,
    {
        self.pipeline_id.as_str()
    }

    pub fn job_id(&self) -> (r: &str)
        ensures
            r@ == self@.job_id,
    {
        self.job_id.as_str()
    }

    pub fn fence(&self) -> (r: u64)
        ensures
            r == self@.fence,
    {
        self.fence
    }

    pub fn epoch(&self) -> (r: &str)
        ensures
            r@ == self@.epoch,
    {
        self.epoch.as_str()
    }

    pub fn generation(&self) -> (r: u64)
        ensures
            r == self@.generation,
    {
        self.generation
    }

    /// The key of the object this identity names.
    pub fn object(&self) -> (r: String)
        ensures
            r@ == self@.key(),
    {
        let mut r = self.pipeline_id.clone();
        r.append("/");
        r.append(self.job_id.as_str());
        r.append("/generations/");
        let generation = text::decimal(self.generation);
        r.append(generation.as_str());
        r.append("/");
        r.append("candidates/fence-");
        let fence = text::padded(self.fence, 10, 20);
        r.append(fence.as_str());
        r.append("-epoch-");
        r.append(self.epoch.as_str());
        r.append(".json");
        r
    }
}

/// An immutable candidate object: the metadata, and the name it is published at.
#[derive(Clone, Debug, PartialEq, Eq)]
pub struct RootCandidate {
    root: MetadataRoot,
    body: String,
}

/// A recovery reference as a candidate's body writes it.
pub open spec fn reference_body(reference: Option<Reference>) -> Seq<char> {
    match reference {
        None => "null"@,
        Some(Reference::LeaderObject(object)) => "{\"leader_object\":"@ + json_string(object)
            + "}"@,
        Some(Reference::ControllerCheckpointRow(id)) => "{\"controller_checkpoint_row\":"@
            + json_string(id) + "}"@,
    }
}

/// Generation metadata as a candidate's body writes it: one JSON object.
pub open spec fn body_of(root: Root) -> Seq<char> {
    "{\"version\":"@ + text::decimal_digits(root.version as nat) + ",\"pipeline_id\":"@
        + json_string(root.pipeline_id) + ",\"job_id\":"@ + json_string(root.job_id)
        + ",\"generation\":"@ + text::decimal_digits(root.generation as nat)
        + ",\"execution_selector\":"@ + json_string(root.execution_selector)
        + ",\"recovery_checkpoint\":"@ + reference_body(root.recovery_checkpoint) + "}"@
}

fn written(root: &GenerationRoot) -> (r: String)
    ensures
        r@ == body_of(root@),
{
    let mut r = "{\"version\":".to_owned();
    let version = text::decimal(root.version() as u64);
    r.append(version.as_str());
    r.append(",\"pipeline_id\":");
    let pipeline_id = json_text(root.pipeline_id());
    r.append(pipeline_id.as_str());
    r.append(",\"job_id\":");
    let job_id = json_text(root.job_id());
    r.append(job_id.as_str());
    r.append(",\"generation\":");
    let generation = text::decimal(root.generation());
    r.append(generation.as_str());
    r.append(",\"execution_selector\":");
    let selector = json_text(root.execution_selector());
    r.append(selector.as_str());
    r.append(",\"recovery_checkpoint\":");
    let reference = match root.recovery_checkpoint() {
        None => "null".to_owned(),
        Some(RecoveryReference::LeaderObject(object)) => {
            let mut t = "{\"leader_object\":".to_owned();
            let object = json_text(object.as_str());
            t.append(object.as_str());
            t.append("}");
            t
        },
        Some(RecoveryReference::ControllerCheckpointRow(id)) => {
            let mut t = "{\"controller_checkpoint_row\":".to_owned();
            let id = json_text(id.as_str());
            t.append(id.as_str());
            t.append("}");
            t
        },
    };
    r.append(reference.as_str());
    r.append("}");
    r
}

impl RootCandidate {
    /// The identity the candidate is named by.
    pub closed spec fn identity(self) -> RootIdentityOf {
        self.root@
    }

    /// The text published at that name.
    pub closed spec fn text(self) -> Seq<char> {
        self.body@
    }

    /// Mints the candidate `authority` would publish for `metadata`. The two are compared on the
    /// job they are both about. `carried` is what the durable record says of carrying the
    /// identifiers the candidate is named by.
    pub fn mint(
        authority: &LifecycleAuthority,
        metadata: &Validated,
        carried: Result<(), String>,
    ) -> (r: Result<Self, RootRefusal>)
        ensures
            minted(authority, metadata@, carried, r),
    {
        let metadata = metadata.get();
        if !text::same(authority.job_id(), metadata.job_id()) {
            return Err(
                RootRefusal::AuthorityJobMismatch {
                    job: metadata.job_id().to_owned(),
                    authority: authority.job_id().to_owned(),
                },
            );
        }
        match MetadataRoot::mint(
            metadata.pipeline_id(),
            metadata.job_id(),
            metadata.generation(),
            authority.fence(),
            authority.epoch(),
            carried,
        ) {
            Err(error) => Err(RootRefusal::Unnameable(error)),
            Ok(root) => {
                let body = written(metadata);
                Ok(RootCandidate { root, body })
            },
        }
    }

    /// The key this candidate is published at.
    pub fn key(&self) -> (r: String)
        ensures
            r@ == self.identity().key(),
    {
        self.root.object()
    }

    pub fn root(&self) -> (r: &MetadataRoot)
        ensures
            r@ == self.identity(),
    {
        &self.root
    }

    /// The text this candidate publishes.
    pub fn body(&self) -> (r: &str)
        ensures
            r@ == self.text(),
    {
        self.body.as_str()
    }
}

/// What minting a candidate under `authority` for `metadata` comes to, `carried` being what the
/// durable record says of its identifiers.
pub open spec fn minted(
    authority: &LifecycleAuthority,
    metadata: Root,
    carried: Result<(), String>,
    r: Result<RootCandidate, RootRefusal>,
) -> bool {
    if authority.of_job() != metadata.job_id {
        r matches Err(e) && e@ == (Refusal::AuthorityJobMismatch {
            job: metadata.job_id,
            authority: authority.of_job(),
        })
    } else {
        let identity = RootIdentityOf {
            pipeline_id: metadata.pipeline_id,
            job_id: metadata.job_id,
            generation: metadata.generation,
            fence: authority.of_fence(),
            epoch: authority.of_epoch(),
        };
        match identity.unnameable(carried) {
            Some(error) => r matches Err(e) && e@ == Refusal::Unnameable(error),
            None => r matches Ok(candidate) && candidate.identity() == identity && candidate.text()
                == body_of(metadata),
        }
    }
}

/// Which identity a candidate and a row's authority disagree about.
#[derive(Clone, Copy, Debug, PartialEq, Eq, Structural)]
pub enum RootIdentity {
    JobId,
    Fence,
    Epoch,
    Generation,
}

impl RootIdentity {
    pub open spec fn name(self) -> Seq<char> {
        match self {
            RootIdentity::JobId => "job id"@,
            RootIdentity::Fence => "lifecycle fence"@,
            RootIdentity::Epoch => "controller epoch"@,
            RootIdentity::Generation => "scheduling generation"@,
        }
    }

    pub fn as_str(self) -> (r: &'static str)
        ensures
            r@ == self.name(),
    {
        match self {
            RootIdentity::JobId => "job id",
            RootIdentity::Fence => "lifecycle fence",
            RootIdentity::Epoch => "controller epoch",
            RootIdentity::Generation => "scheduling generation",
        }
    }
}

/// No two identities share a name.
pub proof fn identity_names_are_distinct(left: RootIdentity, right: RootIdentity)
    requires
        left != right,
    ensures
        left.name() != right.name(),
{
    reveal_strlit("job id");
    reveal_strlit("lifecycle fence");
    reveal_strlit("controller epoch");
    reveal_strlit("scheduling generation");
    assert(RootIdentity::JobId.name().len() == 6);
    assert(RootIdentity::Fence.name().len() == 15);
    assert(RootIdentity::Epoch.name().len() == 16);
    assert(RootIdentity::Generation.name().len() == 21);
}

/// Why a candidate cannot be installed: it and the authority describe different things.
#[derive(Clone, Debug, PartialEq, Eq)]
pub struct RootInstallRefusal {
    pub job_id: String,
    pub identity: RootIdentity,
    pub candidate: String,
    pub presented: String,
}

impl RootInstallRefusal {
    /// Whether this refuses a candidate of `job` for `identity`, which is `candidate` there and
    /// `presented` at the row.
    pub open spec fn refuses(
        self,
        job: Seq<char>,
        identity: RootIdentity,
        candidate: Seq<char>,
        presented: Seq<char>,
    ) -> bool {
        &&& self.job_id@ == job
        &&& self.identity == identity
        &&& self.candidate@ == candidate
        &&& self.presented@ == presented
    }

    /// The refusal as an operator reads it.
    pub open spec fn text(self) -> Seq<char> {
        "a candidate for job "@ + self.job_id@ + " cannot be installed under this status: its "@
            + self.identity.name() + " is "@ + crate::lifecycle::root::quoted(self.candidate@)
            + " and the status presents "@ + crate::lifecycle::root::quoted(self.presented@)
    }

    pub fn report(&self) -> (r: String)
        ensures
            r@ == self.text(),
    {
        let mut r = "a candidate for job ".to_owned();
        r.append(self.job_id.as_str());
        r.append(" cannot be installed under this status: its ");
        r.append(self.identity.as_str());
        r.append(" is ");
        let candidate = quote(self.candidate.as_str());
        r.append(candidate.as_str());
        r.append(" and the status presents ");
        let presented = quote(self.presented.as_str());
        r.append(presented.as_str());
        r
    }
}

/// What comparing a candidate with the authority and generation a status presents comes to: the
/// first identity that disagrees refuses it.
pub open spec fn agrees(
    root: RootIdentityOf,
    authority: &LifecycleAuthority,
    generation: u64,
    r: Result<(), RootInstallRefusal>,
) -> bool {
    if root.job_id != authority.of_job() {
        r matches Err(e) && e.refuses(
            root.job_id,
            RootIdentity::JobId,
            root.job_id,
            authority.of_job(),
        )
    } else if root.fence != authority.of_fence() {
        r matches Err(e) && e.refuses(
            root.job_id,
            RootIdentity::Fence,
            text::decimal_digits(root.fence as nat),
            text::decimal_digits(authority.of_fence() as nat),
        )
    } else if root.epoch != authority.of_epoch() {
        r matches Err(e) && e.refuses(
            root.job_id,
            RootIdentity::Epoch,
            root.epoch,
            authority.of_epoch(),
        )
    } else if root.generation != generation {
        r matches Err(e) && e.refuses(
            root.job_id,
            RootIdentity::Generation,
            text::decimal_digits(root.generation as nat),
            text::decimal_digits(generation as nat),
        )
    } else {
        r is Ok
    }
}

impl RootCandidate {
    /// Checks the candidate against the authority and generation a status presents now, which may
    /// not be those it was minted under. The first identity that disagrees refuses it.
    pub fn agrees_with(&self, authority: &LifecycleAuthority, generation: u64) -> (r: Result<
        (),
        RootInstallRefusal,
    >)
        ensures
            agrees(self.identity(), authority, generation, r),
    {
        if !text::same(self.root.job_id(), authority.job_id()) {
            return Err(
                self.refuse(
                    RootIdentity::JobId,
                    self.root.job_id().to_owned(),
                    authority.job_id().to_owned(),
                ),
            );
        }
        if self.root.fence() != authority.fence() {
            return Err(
                self.refuse(
                    RootIdentity::Fence,
                    text::decimal(self.root.fence()),
                    text::decimal(authority.fence()),
                ),
            );
        }
        if !text::same(self.root.epoch(), authority.epoch()) {
            return Err(
                self.refuse(
                    RootIdentity::Epoch,
                    self.root.epoch().to_owned(),
                    authority.epoch().to_owned(),
                ),
            );
        }
        if self.root.generation() != generation {
            return Err(
                self.refuse(
                    RootIdentity::Generation,
                    text::decimal(self.root.generation()),
                    text::decimal(generation),
                ),
            );
        }
        Ok(())
    }

    fn refuse(&self, identity: RootIdentity, candidate: String, presented: String) -> (r:
        RootInstallRefusal)
        ensures
            r.refuses(self.identity().job_id, identity, candidate@, presented@),
    {
        RootInstallRefusal {
            job_id: self.root.job_id().to_owned(),
            identity,
            candidate,
            presented,
        }
    }
}

/// A candidate object that could not be written.
#[derive(Clone, Debug, PartialEq, Eq)]
pub struct CandidatePublishError {
    pub key: String,
    pub report: String,
}

impl CandidatePublishError {
    /// The failure as an operator reads it.
    pub open spec fn text(self) -> Seq<char> {
        "failed to publish the candidate metadata object "@ + crate::lifecycle::root::quoted(
            self.key@,
        ) + ": "@ + self.report@
    }

    pub fn report(&self) -> (r: String)
        ensures
            r@ == self.text(),
    {
        let mut r = "failed to publish the candidate metadata object ".to_owned();
        let key = quote(self.key.as_str());
        r.append(key.as_str());
        r.append(": ");
        r.append(self.report.as_str());
        r
    }
}

/// What writing an object that must not exist yet came to.
#[derive(Debug, PartialEq, Eq)]
pub enum PutOutcome {
    Written,
    AlreadyExists,
    Failed(String),
}

/// A candidate whose object is in the store. There is no other way to make one than to have
/// written the object, or to have found it written.
#[derive(Debug, PartialEq, Eq)]
pub struct PublishedCandidate {
    candidate: RootCandidate,
}

/// A published candidate that agrees with the authority and the generation it is to be installed
/// under. There is no other way to make one than that check.
#[derive(Debug, PartialEq, Eq)]
pub struct InstallableCandidate {
    candidate: RootCandidate,
}

impl RootCandidate {
    /// The same candidate again.
    fn copied(&self) -> (r: Self)
        ensures
            r.identity() == self.identity(),
            r.text() == self.text(),
    {
        RootCandidate {
            root: MetadataRoot {
                pipeline_id: self.root.pipeline_id.clone(),
                job_id: self.root.job_id.clone(),
                generation: self.root.generation,
                fence: self.root.fence,
                epoch: self.root.epoch.clone(),
            },
            body: self.body.clone(),
        }
    }

    /// What writing the candidate came to. The key holds the whole identity, so an object that is
    /// there already is this attempt's own.
    pub fn published(&self, outcome: PutOutcome) -> (r: Result<
        PublishedCandidate,
        CandidatePublishError,
    >)
        ensures
            match outcome {
                PutOutcome::Written | PutOutcome::AlreadyExists => r matches Ok(published)
                    && published.identity() == self.identity() && published.text() == self.text(),
                PutOutcome::Failed(report) => r matches Err(e) && e.key@ == self.identity().key()
                    && e.report@ == report@,
            },
    {
        match outcome {
            PutOutcome::Written | PutOutcome::AlreadyExists => Ok(
                PublishedCandidate { candidate: self.copied() },
            ),
            PutOutcome::Failed(report) => Err(CandidatePublishError { key: self.key(), report }),
        }
    }
}

impl PublishedCandidate {
    /// The identity the published object is named by.
    pub closed spec fn identity(self) -> RootIdentityOf {
        self.candidate.identity()
    }

    /// The text that was published.
    pub closed spec fn text(self) -> Seq<char> {
        self.candidate.text()
    }

    /// Whether the candidate may be installed under the authority and generation a status presents
    /// now.
    pub fn installable(self, authority: &LifecycleAuthority, generation: u64) -> (r: Result<
        InstallableCandidate,
        RootInstallRefusal,
    >)
        ensures
            agrees(self.identity(), authority, generation, match r {
                Ok(_) => Ok(()),
                Err(refusal) => Err(refusal),
            }),
            r matches Ok(candidate) ==> candidate.identity() == self.identity()
                && candidate.text() == self.text(),
    {
        match self.candidate.agrees_with(authority, generation) {
            Ok(()) => Ok(InstallableCandidate { candidate: self.candidate }),
            Err(refusal) => Err(refusal),
        }
    }
}

impl InstallableCandidate {
    /// The identity the published object is named by.
    pub closed spec fn identity(self) -> RootIdentityOf {
        self.candidate.identity()
    }

    /// The text that was published.
    pub closed spec fn text(self) -> Seq<char> {
        self.candidate.text()
    }

    pub fn get(&self) -> (r: &RootCandidate)
        ensures
            r.identity() == self.identity(),
            r.text() == self.text(),
    {
        &self.candidate
    }
}

/// What writing `body` at `key`, where nothing may be overwritten, does to a store and answers.
pub open spec fn puts(
    store: Map<Seq<char>, Seq<char>>,
    key: Seq<char>,
    body: Seq<char>,
    after: Map<Seq<char>, Seq<char>>,
    outcome: PutOutcome,
) -> bool {
    match outcome {
        PutOutcome::Written => !store.contains_key(key) && after == store.insert(key, body),
        PutOutcome::AlreadyExists => store.contains_key(key) && after == store,
        PutOutcome::Failed(_) => after == store,
    }
}

/// Publishing a candidate leaves exactly one object more than there was, at the candidate's key and
/// with its text, and only where nothing was there; whatever is there is never overwritten, and a
/// store that refuses is left as it was.
pub proof fn publishing_leaves_one_immutable_object(
    store: Map<Seq<char>, Seq<char>>,
    candidate: RootCandidate,
    after: Map<Seq<char>, Seq<char>>,
    outcome: PutOutcome,
    r: Result<PublishedCandidate, CandidatePublishError>,
)
    requires
        puts(store, candidate.identity().key(), candidate.text(), after, outcome),
        call_ensures(RootCandidate::published, (&candidate, outcome), r),
    ensures
        r is Ok ==> after == (if store.contains_key(candidate.identity().key()) {
            store
        } else {
            store.insert(candidate.identity().key(), candidate.text())
        }),
        r is Err ==> after == store && r->Err_0.key@ == candidate.identity().key(),
        forall|key: Seq<char>| #[trigger]
            store.contains_key(key) ==> after.contains_key(key) && after[key] == store[key],
{
}

/// Publishing a candidate twice leaves what publishing it once left.
pub proof fn publishing_again_changes_nothing(
    store: Map<Seq<char>, Seq<char>>,
    candidate: RootCandidate,
    once: Map<Seq<char>, Seq<char>>,
    first: PutOutcome,
    published: Result<PublishedCandidate, CandidatePublishError>,
    twice: Map<Seq<char>, Seq<char>>,
    second: PutOutcome,
)
    requires
        puts(store, candidate.identity().key(), candidate.text(), once, first),
        call_ensures(RootCandidate::published, (&candidate, first), published),
        published is Ok,
        puts(once, candidate.identity().key(), candidate.text(), twice, second),
    ensures
        twice == once,
        !(second is Written),
{
}

/// Two controllers that hold a job under different fences or epochs name two objects for one
/// generation: neither can overwrite the other's.
pub proof fn rival_authorities_name_different_objects(left: RootIdentityOf, right: RootIdentityOf)
    requires
        left.pipeline_id == right.pipeline_id,
        left.job_id == right.job_id,
        left.generation == right.generation,
        left.fence != right.fence || left.epoch != right.epoch,
    ensures
        left.key() != right.key(),
{
    let prefix = left.generation_prefix() + "candidates/fence-"@;
    let left_fence = text::padded_digits(left.fence as nat, 10, 20);
    let right_fence = text::padded_digits(right.fence as nat, 10, 20);
    text::padded_width(left.fence as nat, 10, 20);
    text::padded_width(right.fence as nat, 10, 20);
    let left_rest = "-epoch-"@ + left.epoch + ".json"@;
    let right_rest = "-epoch-"@ + right.epoch + ".json"@;
    assert(left.key() =~= prefix + left_fence + left_rest);
    assert(right.key() =~= prefix + right_fence + right_rest);
    if left.key() == right.key() {
        assert(left_fence =~= right_fence) by {
            assert forall|i: int| 0 <= i < 20 implies left_fence[i] == right_fence[i] by {
                assert(left.key()[prefix.len() + i] == left_fence[i]);
                assert(right.key()[prefix.len() + i] == right_fence[i]);
            }
        }
        text::every_number_fits(left.fence);
        text::every_number_fits(right.fence);
        text::padded_is_injective(left.fence as nat, right.fence as nat, 10, 20);
        assert(left_rest =~= right_rest) by {
            assert(left_rest.len() == right_rest.len());
            assert forall|i: int| 0 <= i < left_rest.len() implies left_rest[i]
                == right_rest[i] by {
                assert(left.key()[prefix.len() + 20 + i] == left_rest[i]);
                assert(right.key()[prefix.len() + 20 + i] == right_rest[i]);
            }
        }
        assert(left.epoch =~= right.epoch) by {
            assert forall|i: int| 0 <= i < left.epoch.len() implies left.epoch[i]
                == right.epoch[i] by {
                assert(left_rest["-epoch-"@.len() + i] == left.epoch[i]);
                assert(right_rest["-epoch-"@.len() + i] == right.epoch[i]);
            }
        }
    }
}

/// A candidate lives among its generation's own objects.
pub proof fn a_candidate_lives_in_its_generation(identity: RootIdentityOf)
    ensures
        identity.generation_prefix().is_prefix_of(identity.key()),
{
    let prefix = identity.generation_prefix();
    assert(identity.key().subrange(0, prefix.len() as int) =~= prefix);
}

/// The candidate an authority mints for metadata agrees with that authority and that generation:
/// only a later adoption or a later generation keeps it from being installed.
pub proof fn a_fresh_candidate_can_be_installed(
    authority: &LifecycleAuthority,
    metadata: Root,
    carried: Result<(), String>,
    candidate: RootCandidate,
)
    requires
        minted(authority, metadata, carried, Ok(candidate)),
    ensures
        candidate.identity().job_id == authority.of_job(),
        candidate.identity().fence == authority.of_fence(),
        candidate.identity().epoch == authority.of_epoch(),
        candidate.identity().generation == metadata.generation,
{
}

/// A candidate is minted exactly under an authority over the job its metadata names, under a fence
/// an adoption installs and for a generation a worker runs under, where the durable record carries
/// its identifiers. It is named by that pipeline, job and generation and by that authority's fence
/// and epoch, and it says what the metadata says.
pub proof fn a_candidate_is_named_by_its_metadata_and_its_authority(
    authority: &LifecycleAuthority,
    metadata: &Validated,
    root: &GenerationRoot,
    carried: Result<(), String>,
    r: Result<RootCandidate, RootRefusal>,
    job_of_authority: &str,
    fence: u64,
    epoch: &str,
    job_id: &str,
    pipeline_id: &str,
    generation: u64,
    version: u32,
    selector: &str,
    named: &MetadataRoot,
    identity: (&str, &str, u64, u64, &str),
    key: String,
    body: &str,
)
    requires
        call_ensures(RootCandidate::mint, (authority, metadata, carried), r),
        call_ensures(Validated::get, (metadata,), root),
        call_ensures(LifecycleAuthority::job_id, (authority,), job_of_authority),
        call_ensures(LifecycleAuthority::fence, (authority,), fence),
        call_ensures(LifecycleAuthority::epoch, (authority,), epoch),
        call_ensures(GenerationRoot::job_id, (root,), job_id),
        call_ensures(GenerationRoot::pipeline_id, (root,), pipeline_id),
        call_ensures(GenerationRoot::generation, (root,), generation),
        call_ensures(GenerationRoot::version, (root,), version),
        call_ensures(GenerationRoot::execution_selector, (root,), selector),
        r matches Ok(candidate) ==> call_ensures(RootCandidate::root, (&candidate,), named)
            && call_ensures(RootCandidate::key, (&candidate,), key) && call_ensures(
            RootCandidate::body,
            (&candidate,),
            body,
        ) && call_ensures(MetadataRoot::pipeline_id, (named,), identity.0) && call_ensures(
            MetadataRoot::job_id,
            (named,),
            identity.1,
        ) && call_ensures(MetadataRoot::generation, (named,), identity.2) && call_ensures(
            MetadataRoot::fence,
            (named,),
            identity.3,
        ) && call_ensures(MetadataRoot::epoch, (named,), identity.4),
    ensures
        r is Ok <==> job_of_authority@ == job_id@ && fence != 0 && generation != 0 && carried is Ok,
        r matches Err(e) ==> (e is AuthorityJobMismatch <==> job_of_authority@ != job_id@),
        r matches Err(RootRefusal::AuthorityJobMismatch { job, authority: over }) ==> job@
            == job_id@ && over@ == job_of_authority@,
        r matches Err(e) ==> (e is Unnameable <==> job_of_authority@ == job_id@),
        r matches Err(RootRefusal::Unnameable(error)) ==> (error is UnadoptedFence <==> fence == 0),
        r matches Err(RootRefusal::Unnameable(error)) ==> (error is UnusedGeneration <==> fence != 0
            && generation == 0),
        r is Ok ==> identity.0@ == pipeline_id@ && identity.1@ == job_id@ && identity.2
            == generation && identity.3 == fence && identity.4@ == epoch@,
        r is Ok ==> key@ == pipeline_id@ + "/"@ + job_id@ + "/generations/"@ + text::decimal_digits(
            generation as nat,
        ) + "/"@ + "candidates/fence-"@ + text::padded_digits(fence as nat, 10, 20) + "-epoch-"@
            + epoch@ + ".json"@,
        r is Ok ==> body@ == "{\"version\":"@ + text::decimal_digits(version as nat)
            + ",\"pipeline_id\":"@ + json_string(pipeline_id@) + ",\"job_id\":"@ + json_string(
            job_id@,
        ) + ",\"generation\":"@ + text::decimal_digits(generation as nat)
            + ",\"execution_selector\":"@ + json_string(selector@) + ",\"recovery_checkpoint\":"@ + (
        match metadata@.recovery_checkpoint {
            None => "null"@,
            Some(Reference::LeaderObject(object)) => "{\"leader_object\":"@ + json_string(object)
                + "}"@,
            Some(Reference::ControllerCheckpointRow(id)) => "{\"controller_checkpoint_row\":"@
                + json_string(id) + "}"@,
        }) + "}"@,
{
}

/// A candidate may be installed exactly under the authority and for the generation it is named by:
/// the job, the fence, the epoch and the generation all agree. Otherwise the first of them that does
/// not is named. A candidate that was published is checked like any, and stays what it was.
pub proof fn a_candidate_is_installed_only_under_what_it_is_named_by(
    candidate: &RootCandidate,
    named: &MetadataRoot,
    job_id: &str,
    fence: u64,
    epoch: &str,
    of_generation: u64,
    authority: &LifecycleAuthority,
    job_of_authority: &str,
    authority_fence: u64,
    authority_epoch: &str,
    generation: u64,
    r: Result<(), RootInstallRefusal>,
    put: PutOutcome,
    published: Result<PublishedCandidate, CandidatePublishError>,
    installable: Result<InstallableCandidate, RootInstallRefusal>,
    key: String,
)
    requires
        call_ensures(RootCandidate::root, (candidate,), named),
        call_ensures(RootCandidate::key, (candidate,), key),
        call_ensures(MetadataRoot::job_id, (named,), job_id),
        call_ensures(MetadataRoot::fence, (named,), fence),
        call_ensures(MetadataRoot::epoch, (named,), epoch),
        call_ensures(MetadataRoot::generation, (named,), of_generation),
        call_ensures(LifecycleAuthority::job_id, (authority,), job_of_authority),
        call_ensures(LifecycleAuthority::fence, (authority,), authority_fence),
        call_ensures(LifecycleAuthority::epoch, (authority,), authority_epoch),
        call_ensures(RootCandidate::agrees_with, (candidate, authority, generation), r),
        call_ensures(RootCandidate::published, (candidate, put), published),
        published matches Ok(object) ==> call_ensures(
            PublishedCandidate::installable,
            (object, authority, generation),
            installable,
        ),
    ensures
        r is Ok <==> job_id@ == job_of_authority@ && fence == authority_fence && epoch@
            == authority_epoch@ && of_generation == generation,
        r matches Err(e) ==> e.job_id@ == job_id@,
        r matches Err(e) ==> (e.identity == RootIdentity::JobId <==> job_id@ != job_of_authority@),
        r matches Err(e) ==> (e.identity == RootIdentity::Fence <==> job_id@ == job_of_authority@
            && fence != authority_fence),
        r matches Err(e) ==> (e.identity == RootIdentity::Epoch <==> job_id@ == job_of_authority@
            && fence == authority_fence && epoch@ != authority_epoch@),
        r matches Err(e) ==> (e.identity == RootIdentity::Generation ==> of_generation
            != generation),
        published is Ok <==> !(put is Failed),
        published matches Err(e) ==> e.key@ == key@ && e.report@ == put->Failed_0@,
        published matches Ok(object) ==> object.identity() == candidate.identity() && object.text()
            == candidate.text() && (installable is Ok <==> r is Ok),
        published is Ok && installable is Ok ==> installable->Ok_0.identity()
            == candidate.identity() && installable->Ok_0.text() == candidate.text(),
        published is Ok && installable is Err ==> installable->Err_0.identity == r->Err_0.identity,
{
}

} // verus!
