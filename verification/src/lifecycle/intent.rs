//! What the configuration poll wants of a job, and the one slot it leaves that in.

use crate::lifecycle::root::quote;
use crate::types::{ConfigView, JobConfig, StateBackendSelector, StopMode};
use vstd::prelude::*;
use vstd::string::*;

verus! {

/// Why a polled row is refused.
#[derive(Clone, Debug, PartialEq, Eq)]
pub enum StateBackendError {
    /// The row asks for another backend than the job's execution runs with.
    JobSelectorChanged {
        label: String,
        running: StateBackendSelector,
        requested: StateBackendSelector,
    },
}

/// A refusal as a value of the model.
pub struct BackendRefusal {
    pub label: Seq<char>,
    pub running: StateBackendSelector,
    pub requested: StateBackendSelector,
}

impl View for StateBackendError {
    type V = BackendRefusal;

    open spec fn view(&self) -> BackendRefusal {
        match *self {
            StateBackendError::JobSelectorChanged { label, running, requested } => BackendRefusal {
                label: label@,
                running,
                requested,
            },
        }
    }
}

/// The refusal of a change of `job`'s state backend.
pub open spec fn selector_changed(
    job: Seq<char>,
    running: StateBackendSelector,
    requested: StateBackendSelector,
) -> BackendRefusal {
    BackendRefusal {
        label: "job "@ + crate::lifecycle::root::quoted(job),
        running,
        requested,
    }
}

impl StateBackendError {
    /// The refusal of a change of `job`'s state backend.
    fn job_selector_changed(
        job: &str,
        running: StateBackendSelector,
        requested: StateBackendSelector,
    ) -> (r: Self)
        ensures
            r@ == selector_changed(job@, running, requested),
    {
        let mut label = "job ".to_owned();
        let job = quote(job);
        label.append(job.as_str());
        StateBackendError::JobSelectorChanged { label, running, requested }
    }

    /// Whether two refusals say the same.
    pub fn same(&self, other: &StateBackendError) -> (r: bool)
        ensures
            r == (self@ == other@),
    {
        match (self, other) {
            (
                StateBackendError::JobSelectorChanged { label, running, requested },
                StateBackendError::JobSelectorChanged {
                    label: other_label,
                    running: other_running,
                    requested: other_requested,
                },
            ) => *label == *other_label && *running == *other_running && *requested
                == *other_requested,
        }
    }

    /// The same refusal again.
    pub fn copied(&self) -> (r: Self)
        ensures
            r@ == self@,
    {
        match self {
            StateBackendError::JobSelectorChanged { label, running, requested } => {
                StateBackendError::JobSelectorChanged {
                    label: label.clone(),
                    running: *running,
                    requested: *requested,
                }
            },
        }
    }
}

/// A polled row, already compared with the job's execution: its configuration, why its own backend
/// was refused, if it was, and the backend the execution is recorded with.
#[derive(Clone, Debug, PartialEq, Eq)]
pub struct PolledJob {
    pub config: JobConfig,
    pub refusal: Option<StateBackendError>,
    pub execution_selector: StateBackendSelector,
}

/// What the poll wants of a job.
#[derive(Clone, Debug, PartialEq, Eq)]
pub enum LifecycleIntent {
    /// The job runs under this configuration.
    Adopt(Box<JobConfig>),
    /// The job fails: its row was refused.
    Refuse(StateBackendError),
    /// The row was refused, and asks the job to stop. The stop is all of it that counts.
    RefusedButStopping { error: StateBackendError, stop_mode: StopMode },
}

/// An intent as a value of the model.
pub enum Intent {
    Adopt(ConfigView),
    Refuse(BackendRefusal),
    RefusedButStopping { error: BackendRefusal, stop_mode: StopMode },
}

impl View for LifecycleIntent {
    type V = Intent;

    open spec fn view(&self) -> Intent {
        match *self {
            LifecycleIntent::Adopt(config) => Intent::Adopt((*config)@),
            LifecycleIntent::Refuse(error) => Intent::Refuse(error@),
            LifecycleIntent::RefusedButStopping { error, stop_mode } => Intent::RefusedButStopping {
                error: error@,
                stop_mode,
            },
        }
    }
}

/// Why a row is refused, where the job runs with `running`, if it is: a row that was refused stays
/// refused, and one that would change the job's backend is refused too.
pub open spec fn refused(running: StateBackendSelector, polled: PolledJob) -> Option<
    BackendRefusal,
> {
    match polled.refusal {
        Some(error) => Some(error@),
        None => if polled.config.state_backend != running {
            Some(selector_changed(polled.config.id@, running, polled.config.state_backend))
        } else if polled.execution_selector != running {
            Some(selector_changed(polled.config.id@, running, polled.execution_selector))
        } else {
            None
        },
    }
}

/// What a polled row comes to, where the job runs with `running`, as a value of the model.
pub open spec fn classified(running: StateBackendSelector, polled: PolledJob) -> Intent {
    match refused(running, polled) {
        None => Intent::Adopt(polled.config@),
        Some(error) => if polled.config.stop_mode == StopMode::none {
            Intent::Refuse(error)
        } else {
            Intent::RefusedButStopping { error, stop_mode: polled.config.stop_mode }
        },
    }
}

impl LifecycleIntent {
    /// What a polled row comes to, where the job runs with `running`. A row that would change the
    /// job's backend is refused; a refused row that asks for a stop is a stop, and nothing else of
    /// it travels.
    pub fn classify(running: StateBackendSelector, polled: PolledJob) -> (r: Self)
        ensures
            r@ == classified(running, polled),
    {
        let refusal = match polled.refusal {
            Some(error) => Some(error),
            None => if polled.config.state_backend != running {
                Some(
                    StateBackendError::job_selector_changed(
                        polled.config.id.as_str(),
                        running,
                        polled.config.state_backend,
                    ),
                )
            } else if polled.execution_selector != running {
                Some(
                    StateBackendError::job_selector_changed(
                        polled.config.id.as_str(),
                        running,
                        polled.execution_selector,
                    ),
                )
            } else {
                None
            },
        };
        match refusal {
            None => LifecycleIntent::Adopt(Box::new(polled.config)),
            Some(error) => match polled.config.stop_mode {
                StopMode::none => LifecycleIntent::Refuse(error),
                stop_mode => LifecycleIntent::RefusedButStopping { error, stop_mode },
            },
        }
    }

    /// Whether two intents want the same.
    pub fn same(&self, other: &LifecycleIntent) -> (r: bool)
        ensures
            r == (self@ == other@),
    {
        match (self, other) {
            (LifecycleIntent::Adopt(config), LifecycleIntent::Adopt(other)) => (**config).same(
                &**other,
            ),
            (LifecycleIntent::Refuse(error), LifecycleIntent::Refuse(other)) => error.same(other),
            (
                LifecycleIntent::RefusedButStopping { error, stop_mode },
                LifecycleIntent::RefusedButStopping { error: other, stop_mode: other_mode },
            ) => error.same(other) && *stop_mode == *other_mode,
            _ => false,
        }
    }
}

/// How many different intents a mailbox has held up to one of them. Zero is none.
#[derive(Clone, Copy, Debug, PartialEq, Eq, Structural)]
pub struct IntentVersion(u64);

impl IntentVersion {
    pub closed spec fn number(self) -> u64 {
        self.0
    }

    /// The version before any intent.
    pub fn none() -> (r: Self)
        ensures
            r.number() == 0,
    {
        IntentVersion(0)
    }

    pub fn as_u64(self) -> (r: u64)
        ensures
            r == self.number(),
    {
        self.0
    }
}

/// One job's slot for what the poll wants of it: the newest intent, and its version.
#[derive(Debug)]
pub struct IntentMailbox {
    standing: Option<LifecycleIntent>,
    version: u64,
}

/// A mailbox as a value of the model.
pub struct Mailbox {
    pub standing: Option<Intent>,
    pub version: u64,
}

impl View for IntentMailbox {
    type V = Mailbox;

    closed spec fn view(&self) -> Mailbox {
        Mailbox {
            standing: match self.standing {
                Some(intent) => Some(intent@),
                None => None,
            },
            version: self.version,
        }
    }
}

/// The mailbox after `intent` was submitted: replaced where it is new, untouched where it is what
/// stands already.
pub open spec fn submitted(mailbox: Mailbox, intent: Intent) -> Mailbox {
    if mailbox.standing == Some(intent) {
        mailbox
    } else {
        Mailbox { standing: Some(intent), version: (mailbox.version + 1) as u64 }
    }
}

impl IntentMailbox {
    /// A mailbox nothing was left in.
    pub fn new() -> (r: Self)
        ensures
            r@ == (Mailbox { standing: None, version: 0 }),
    {
        IntentMailbox { standing: None, version: 0 }
    }

    /// Leaves an intent in place of the one that stands, if it wants something else. Says which
    /// version stands now, and whether there is something new to look at.
    pub fn submit(&mut self, intent: LifecycleIntent) -> (r: (IntentVersion, bool))
        requires
            old(self)@.version < u64::MAX,
        ensures
            final(self)@ == submitted(old(self)@, intent@),
            r.0.number() == final(self)@.version,
            r.1 == (old(self)@.standing != Some(intent@)),
    {
        let unchanged = match &self.standing {
            Some(standing) => standing.same(&intent),
            None => false,
        };
        if !unchanged {
            self.standing = Some(intent);
            self.version = self.version + 1;
        }
        (IntentVersion(self.version), !unchanged)
    }

    /// What stands, if it is newer than `seen`.
    pub fn newer_than(&self, seen: IntentVersion) -> (r: Option<(IntentVersion, &LifecycleIntent)>)
        ensures
            match self@.standing {
                Some(intent) => if self@.version > seen.number() {
                    r matches Some((version, standing)) && version.number() == self@.version
                        && standing@ == intent
                } else {
                    r is None
                },
                None => r is None,
            },
    {
        match &self.standing {
            Some(standing) => if self.version > seen.0 {
                Some((IntentVersion(self.version), standing))
            } else {
                None
            },
            None => None,
        }
    }
}

/// What a job's writer decided about an intent.
#[derive(Debug, PartialEq, Eq)]
pub enum LifecycleDecision {
    /// The job runs under this configuration from here on.
    Adopt(Box<JobConfig>),
    /// The job stops, under the configuration it runs with.
    StopUnderRunningConfig(StopMode),
    /// The job fails.
    Refuse(StateBackendError),
}

/// A decision as a value of the model.
pub enum Decision {
    Adopt(ConfigView),
    StopUnderRunningConfig(StopMode),
    Refuse(BackendRefusal),
}

impl View for LifecycleDecision {
    type V = Decision;

    open spec fn view(&self) -> Decision {
        match *self {
            LifecycleDecision::Adopt(config) => Decision::Adopt((*config)@),
            LifecycleDecision::StopUnderRunningConfig(mode) => Decision::StopUnderRunningConfig(
                mode,
            ),
            LifecycleDecision::Refuse(error) => Decision::Refuse(error@),
        }
    }
}

/// What the writer of `job`, which runs with `running`, decides about an intent. A configuration that
/// would change the job's backend is never adopted.
pub open spec fn decision_on(
    job: Seq<char>,
    running: StateBackendSelector,
    intent: Intent,
) -> Decision {
    match intent {
        Intent::Adopt(config) => if config.state_backend == running {
            Decision::Adopt(config)
        } else if config.stop_mode == StopMode::none {
            Decision::Refuse(selector_changed(job, running, config.state_backend))
        } else {
            Decision::StopUnderRunningConfig(config.stop_mode)
        },
        Intent::Refuse(error) => Decision::Refuse(error),
        Intent::RefusedButStopping { stop_mode, .. } => Decision::StopUnderRunningConfig(stop_mode),
    }
}

/// The one party that decides a job's lifecycle: it decides on each standing intent once.
#[derive(Debug)]
pub struct LifecycleActor {
    job_id: String,
    running: StateBackendSelector,
    decided: IntentVersion,
}

/// A job's writer as a value of the model: whose it is, the backend its execution runs with, and
/// the version of the last intent it decided on.
pub struct Writer {
    pub job: Seq<char>,
    pub running: StateBackendSelector,
    pub decided: u64,
}

impl View for LifecycleActor {
    type V = Writer;

    closed spec fn view(&self) -> Writer {
        Writer {
            job: self.job_id@,
            running: self.running,
            decided: self.decided.number(),
        }
    }
}

impl LifecycleActor {
    /// The writer of `job_id`, whose execution runs with `running`. It has decided nothing.
    pub fn new(job_id: String, running: StateBackendSelector) -> (r: Self)
        ensures
            r@ == (Writer { job: job_id@, running, decided: 0 }),
    {
        LifecycleActor { job_id, running, decided: IntentVersion::none() }
    }

    /// Decides on what stands in the mailbox, unless that has been decided already.
    pub fn observe(&mut self, mailbox: &IntentMailbox) -> (r: Option<LifecycleDecision>)
        ensures
            match mailbox@.standing {
                Some(intent) => if mailbox@.version > old(self)@.decided {
                    &&& r matches Some(decision) && decision@ == decision_on(
                        old(self)@.job,
                        old(self)@.running,
                        intent,
                    )
                    &&& final(self)@ == (Writer { decided: mailbox@.version, ..old(self)@ })
                } else {
                    r is None && final(self)@ == old(self)@
                },
                None => r is None && final(self)@ == old(self)@,
            },
    {
        match mailbox.newer_than(self.decided) {
            None => None,
            Some((version, intent)) => {
                self.decided = version;
                Some(
                    match intent {
                        LifecycleIntent::Adopt(config) => self.adopting(&**config),
                        LifecycleIntent::Refuse(error) => LifecycleDecision::Refuse(error.copied()),
                        LifecycleIntent::RefusedButStopping { stop_mode, .. } => {
                            LifecycleDecision::StopUnderRunningConfig(*stop_mode)
                        },
                    },
                )
            },
        }
    }

    /// What is decided about a configuration that was not refused.
    fn adopting(&self, config: &JobConfig) -> (r: LifecycleDecision)
        ensures
            r@ == decision_on(self@.job, self@.running, Intent::Adopt(config@)),
    {
        if config.state_backend == self.running {
            return LifecycleDecision::Adopt(Box::new(config.copied()));
        }
        match config.stop_mode {
            StopMode::none => LifecycleDecision::Refuse(
                StateBackendError::job_selector_changed(
                    self.job_id.as_str(),
                    self.running,
                    config.state_backend,
                ),
            ),
            stop_mode => LifecycleDecision::StopUnderRunningConfig(stop_mode),
        }
    }
}

/// What a read of the job's writer found.
#[derive(Clone, Debug, PartialEq, Eq)]
pub enum ObservedIntent {
    /// Nothing new.
    Continue,
    /// A configuration was adopted; this is the one it replaced.
    Adopted(Box<JobConfig>),
    /// The job's configuration now asks it to stop.
    Stop,
}

impl ObservedIntent {
    pub fn stops(&self) -> (r: bool)
        ensures
            r == (self is Stop),
    {
        matches!(self, ObservedIntent::Stop)
    }
}

/// What a decision does to the job's configuration, and what it is observed as: a job whose
/// configuration asks it to stop once the decision stands in it stops, whatever the decision was.
/// A refusal is no configuration, and leaves the job's own alone.
pub open spec fn applies(
    decision: Decision,
    before: JobConfig,
    after: JobConfig,
    r: Result<ObservedIntent, StateBackendError>,
) -> bool {
    match decision {
        Decision::Adopt(config) => {
            &&& after@ == config
            &&& r == Ok::<_, StateBackendError>(
                if config.stop_mode != StopMode::none {
                    ObservedIntent::Stop
                } else {
                    ObservedIntent::Adopted(Box::new(before))
                },
            )
        },
        Decision::StopUnderRunningConfig(stop_mode) => {
            &&& after == (JobConfig { stop_mode, ..before })
            &&& r == Ok::<_, StateBackendError>(
                if stop_mode != StopMode::none {
                    ObservedIntent::Stop
                } else {
                    ObservedIntent::Continue
                },
            )
        },
        Decision::Refuse(error) => {
            &&& after == before
            &&& r matches Err(e) && e@ == error
        },
    }
}

impl LifecycleDecision {
    /// Publishes the decision into the job's configuration, which is where every state reads it.
    pub fn apply(self, config: &mut JobConfig) -> (r: Result<ObservedIntent, StateBackendError>)
        ensures
            applies(self@, *old(config), *final(config), r),
    {
        match self {
            LifecycleDecision::Adopt(adopted) => {
                let mut superseded = *adopted;
                std::mem::swap(&mut superseded, config);
                Ok(
                    match config.stop_mode {
                        StopMode::none => ObservedIntent::Adopted(Box::new(superseded)),
                        _ => ObservedIntent::Stop,
                    },
                )
            },
            LifecycleDecision::StopUnderRunningConfig(stop_mode) => {
                config.stop_mode = stop_mode;
                Ok(
                    match stop_mode {
                        StopMode::none => ObservedIntent::Continue,
                        _ => ObservedIntent::Stop,
                    },
                )
            },
            LifecycleDecision::Refuse(error) => Err(error),
        }
    }
}

/// What is observed as a stop is a configuration that asks for one, and the other way round.
pub proof fn a_stop_is_observed_where_the_configuration_asks_for_one(
    decision: Decision,
    before: JobConfig,
    after: JobConfig,
    r: Result<ObservedIntent, StateBackendError>,
)
    requires
        applies(decision, before, after, r),
        r is Ok,
    ensures
        r == Ok::<_, StateBackendError>(ObservedIntent::Stop) <==> after.stop_mode
            != StopMode::none,
{
}

/// However often one row is polled, it is one intent.
pub proof fn polling_again_changes_nothing(mailbox: Mailbox, intent: Intent)
    ensures
        submitted(submitted(mailbox, intent), intent) == submitted(mailbox, intent),
{
}

/// A row that changed replaces what stood: the slot holds the newest intent and nothing behind it.
pub proof fn a_changed_row_replaces_what_stood(mailbox: Mailbox, intent: Intent)
    requires
        mailbox.standing != Some(intent),
        mailbox.version < u64::MAX,
    ensures
        submitted(mailbox, intent).standing == Some(intent),
        submitted(mailbox, intent).version == mailbox.version + 1,
{
}

/// A row that asks for a stop stops the job, refused or not: only a row that asks for none fails
/// it, and only a row that is not refused gives it a configuration.
pub proof fn a_stop_wins_over_a_refusal(
    job: Seq<char>,
    running: StateBackendSelector,
    polled: PolledJob,
)
    ensures
        refused(running, polled) is None ==> decision_on(job, running, classified(running, polled))
            == Decision::Adopt(polled.config@),
        refused(running, polled) is Some && polled.config.stop_mode != StopMode::none
            ==> decision_on(job, running, classified(running, polled))
            == Decision::StopUnderRunningConfig(polled.config.stop_mode),
        decision_on(job, running, classified(running, polled)) is Refuse ==> polled.config.stop_mode
            == StopMode::none,
{
}

/// A change of a job's state backend is refused and never adopted, whatever stands in the mailbox
/// and however it came there.
pub proof fn a_change_of_backend_is_never_adopted(
    job: Seq<char>,
    running: StateBackendSelector,
    intent: Intent,
    polled: PolledJob,
)
    ensures
        decision_on(job, running, intent) matches Decision::Adopt(config) ==> config.state_backend
            == running,
        classified(running, polled) matches Intent::Adopt(config) ==> config.state_backend
            == running && polled.execution_selector == running,
{
}

/// A repair that lands before the writer looked is what the writer decides on; the refusal it
/// replaced is never seen.
pub proof fn a_repair_replaces_the_refusal(
    mailbox: Mailbox,
    error: BackendRefusal,
    repair: ConfigView,
)
    ensures
        submitted(submitted(mailbox, Intent::Refuse(error)), Intent::Adopt(repair)).standing == Some(
            Intent::Adopt(repair),
        ),
{
}

/// A polled row is adopted exactly where nothing refused it and both backends it names are the one
/// the job runs with, and then whole. Any other row is refused, and is a stop exactly where it asks
/// for one: then the stop is all of it that is left.
pub proof fn a_row_is_adopted_only_with_the_running_backend(
    running: StateBackendSelector,
    polled: PolledJob,
    r: LifecycleIntent,
)
    requires
        call_ensures(LifecycleIntent::classify, (running, polled), r),
    ensures
        r is Adopt <==> polled.refusal is None && polled.config.state_backend == running
            && polled.execution_selector == running,
        r matches LifecycleIntent::Adopt(config) ==> (*config)@ == polled.config@,
        r is Refuse <==> !(r is Adopt) && polled.config.stop_mode == StopMode::none,
        r is RefusedButStopping <==> !(r is Adopt) && polled.config.stop_mode != StopMode::none,
        r matches LifecycleIntent::RefusedButStopping { error: _, stop_mode } ==> stop_mode
            == polled.config.stop_mode,
        polled.refusal is Some && r is Refuse ==> r->Refuse_0@ == polled.refusal->0@,
        polled.refusal is Some && r is RefusedButStopping ==> r->error@ == polled.refusal->0@,
        polled.refusal is None && r is Refuse ==> r->Refuse_0@.running == running
            && r->Refuse_0@.requested != running && (r->Refuse_0@.requested
            == polled.config.state_backend || r->Refuse_0@.requested == polled.execution_selector),
{
}

/// Two intents are the same exactly where they want the same: the same configuration, the same
/// refusal, or the same stop of the same refusal.
pub proof fn intents_are_the_same_by_what_they_want(
    left: &LifecycleIntent,
    right: &LifecycleIntent,
    same: bool,
)
    requires
        call_ensures(LifecycleIntent::same, (left, right), same),
    ensures
        same ==> (left is Adopt <==> right is Adopt) && (left is Refuse <==> right is Refuse),
        left is Adopt && right is Adopt ==> (same <==> (*(*left)->Adopt_0)@ == (*(
        *right)->Adopt_0)@),
        left is Refuse && right is Refuse ==> (same <==> (*left)->Refuse_0@.label
            == (*right)->Refuse_0@.label && (*left)->Refuse_0@.running == (*right)->Refuse_0@.running
            && (*left)->Refuse_0@.requested == (*right)->Refuse_0@.requested),
        left is RefusedButStopping && right is RefusedButStopping && same ==> (*left)->stop_mode
            == (*right)->stop_mode,
{
}

/// What is left in a mailbox is what is found there by whoever has not seen it: once, at a version
/// one higher exactly where it is new. Leaving it again is no news, and an empty mailbox has none.
pub proof fn what_is_submitted_is_found_until_it_is_seen(
    mailbox: &mut IntentMailbox,
    intent: LifecycleIntent,
    r: (IntentVersion, bool),
    again: &mut IntentMailbox,
    repeated: LifecycleIntent,
    second: (IntentVersion, bool),
    none: IntentVersion,
    number: u64,
    later: u64,
    unseen: Option<(IntentVersion, &LifecycleIntent)>,
    seen: Option<(IntentVersion, &LifecycleIntent)>,
    fresh: IntentMailbox,
    nothing: Option<(IntentVersion, &LifecycleIntent)>,
)
    requires
        old(mailbox)@.version < u64::MAX - 1,
        call_ensures(IntentMailbox::submit, (mailbox, intent), r),
        *old(again) == *final(mailbox),
        repeated@ == intent@,
        call_ensures(IntentMailbox::submit, (again, repeated), second),
        call_ensures(IntentVersion::none, (), none),
        call_ensures(IntentVersion::as_u64, (r.0,), number),
        call_ensures(IntentVersion::as_u64, (second.0,), later),
        call_ensures(IntentMailbox::newer_than, (&*final(mailbox), none), unseen),
        call_ensures(IntentMailbox::newer_than, (&*final(mailbox), r.0), seen),
        call_ensures(IntentMailbox::new, (), fresh),
        call_ensures(IntentMailbox::newer_than, (&fresh, none), nothing),
    ensures
        nothing is None,
        r.1 ==> number == old(mailbox)@.version + 1,
        !r.1 ==> number == old(mailbox)@.version,
        r.1 ==> unseen is Some,
        unseen is Some ==> (unseen->0).1@ == intent@ && (unseen->0).0 == r.0,
        seen is None,
        !second.1,
        later == number,
{
}

/// A writer decides on what stands once. It adopts a configuration exactly where that keeps the
/// running backend, stops the job where a refused row or a changed backend asks for a stop, and
/// refuses everything else.
pub proof fn a_writer_decides_once_on_what_stands(
    job_id: String,
    running: StateBackendSelector,
    actor: &mut LifecycleActor,
    again: &mut LifecycleActor,
    mailbox: &IntentMailbox,
    standing: Option<(IntentVersion, &LifecycleIntent)>,
    none: IntentVersion,
    r: Option<LifecycleDecision>,
    second: Option<LifecycleDecision>,
)
    requires
        call_ensures(LifecycleActor::new, (job_id, running), *old(actor)),
        call_ensures(IntentVersion::none, (), none),
        call_ensures(IntentMailbox::newer_than, (mailbox, none), standing),
        call_ensures(LifecycleActor::observe, (actor, mailbox), r),
        *old(again) == *final(actor),
        call_ensures(LifecycleActor::observe, (again, mailbox), second),
    ensures
        r is Some <==> standing is Some,
        second is None,
        r is Some && r->0 is Adopt <==> standing is Some && *(standing->0).1 is Adopt && (*(*(
        standing->0).1)->Adopt_0).state_backend == running,
        r is Some && r->0 is Adopt ==> (*(r->0)->Adopt_0)@ == (*(*(standing->0).1)->Adopt_0)@,
        r is Some && r->0 is StopUnderRunningConfig ==> match *(standing->0).1 {
            LifecycleIntent::Adopt(config) => config.state_backend != running
                && config.stop_mode != StopMode::none && (r->0)->StopUnderRunningConfig_0
                == config.stop_mode,
            LifecycleIntent::Refuse(_) => false,
            LifecycleIntent::RefusedButStopping { error: _, stop_mode } => (
            r->0)->StopUnderRunningConfig_0 == stop_mode,
        },
        r is Some && r->0 is Refuse ==> match *(standing->0).1 {
            LifecycleIntent::Adopt(config) => config.state_backend != running && config.stop_mode
                == StopMode::none && (r->0)->Refuse_0@.running == running
                && (r->0)->Refuse_0@.requested == config.state_backend,
            LifecycleIntent::Refuse(error) => (r->0)->Refuse_0@ == error@,
            LifecycleIntent::RefusedButStopping { error: _, stop_mode: _ } => false,
        },
{
}

/// Publishing a decision gives the job the configuration it adopts, or its own with the stop that
/// was decided, and a refusal leaves its own alone. What is observed is a stop exactly where that
/// configuration asks for one; otherwise an adoption names the configuration it replaced.
pub proof fn a_decision_is_what_the_job_is_configured_by(
    decision: LifecycleDecision,
    config: &mut JobConfig,
    r: Result<ObservedIntent, StateBackendError>,
    stops: bool,
)
    requires
        call_ensures(LifecycleDecision::apply, (decision, config), r),
        r is Ok ==> call_ensures(ObservedIntent::stops, (&r->Ok_0,), stops),
    ensures
        r is Err <==> decision is Refuse,
        decision matches LifecycleDecision::Refuse(error) ==> r->Err_0@ == error@ && *final(config)
            == *old(config),
        decision matches LifecycleDecision::Adopt(adopted) ==> final(config)@ == (*adopted)@,
        decision matches LifecycleDecision::StopUnderRunningConfig(mode) ==> *final(config)
            == (JobConfig { stop_mode: mode, ..*old(config) }),
        r is Ok ==> (stops <==> final(config).stop_mode != StopMode::none),
        r is Ok && r->Ok_0 is Adopted <==> decision is Adopt && (*decision->Adopt_0).stop_mode
            == StopMode::none,
        r is Ok && r->Ok_0 is Adopted ==> *r->Ok_0->Adopted_0 == *old(config),
{
}

/// A writer decides on whatever is newer than what it decided on last, and on nothing else: what it
/// is told of a mailbox is what somebody who has seen as much as it has finds there, and it has seen
/// that much from then on.
pub proof fn a_writer_decides_on_whatever_is_newer(
    actor: &mut LifecycleActor,
    mailbox: &IntentMailbox,
    seen: IntentVersion,
    number: u64,
    standing: Option<(IntentVersion, &LifecycleIntent)>,
    version: u64,
    r: Option<LifecycleDecision>,
)
    requires
        call_ensures(IntentVersion::as_u64, (seen,), number),
        old(actor)@.decided == number,
        call_ensures(IntentMailbox::newer_than, (mailbox, seen), standing),
        standing is Some ==> call_ensures(IntentVersion::as_u64, ((standing->0).0,), version),
        call_ensures(LifecycleActor::observe, (actor, mailbox), r),
    ensures
        r is Some <==> standing is Some,
        standing is Some ==> version > number && final(actor)@.decided == version,
        standing is None ==> final(actor)@.decided == number,
        final(actor)@.job == old(actor)@.job,
        final(actor)@.running == old(actor)@.running,
{
}

} // verus!
