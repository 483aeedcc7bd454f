//! The one thing a job's task parks on: its channel and its writer, never one without the other.

use crate::lifecycle::intent::{Intent, Mailbox, StateBackendError, Writer};
use crate::lifecycle::intent::{
    IntentMailbox, IntentVersion, LifecycleActor, LifecycleDecision, LifecycleIntent, ObservedIntent,
    PolledJob,
};
use crate::messages::JobMessage;
use crate::types::{JobConfig, StateBackendSelector, StopMode};
use vstd::prelude::*;

verus! {

/// Why a wait ended.
#[must_use]
#[derive(Debug, PartialEq, Eq)]
pub enum Waited {
    /// A message arrived on the job's channel.
    Message(JobMessage),
    /// The job's writer decided something, which has been published into the job's configuration.
    Decided(ObservedIntent),
    /// A submission that had been decided on already. There is nothing to do but park again.
    Woken,
    /// The channel closed.
    Closed,
}

/// What ended a park.
#[derive(Debug, PartialEq, Eq)]
pub enum Received {
    Message(JobMessage),
    Closed,
    /// Something was submitted to the job's mailbox.
    Submitted,
}

/// One job's wait. A job whose lifecycle the configuration poll decides has no writer.
#[derive(Debug)]
pub struct JobWait {
    lifecycle: Option<LifecycleActor>,
}

/// What reading a job's writer comes to: it decides on what stands in the mailbox unless it has
/// done so before, and the decision is published into the job's configuration.
pub open spec fn reads(
    writer: Option<Writer>,
    mailbox: Mailbox,
    before: JobConfig,
    after: JobConfig,
    r: Result<Option<ObservedIntent>, StateBackendError>,
) -> bool {
    match news(writer, mailbox) {
        Some((writer, intent)) => exists|observed: Result<ObservedIntent, StateBackendError>| #[trigger]
            crate::lifecycle::intent::applies(
                crate::lifecycle::intent::decision_on(writer.job, writer.running, intent),
                before,
                after,
                observed,
            ) && r == (match observed {
                Ok(observed) => Ok::<_, StateBackendError>(Some(observed)),
                Err(refusal) => Err(refusal),
            }),
        None => after == before && r == Ok::<Option<ObservedIntent>, StateBackendError>(None),
    }
}

/// The writer and what stands in the mailbox, where the writer has not decided on it yet.
pub open spec fn news(writer: Option<Writer>, mailbox: Mailbox) -> Option<(Writer, Intent)> {
    match (writer, mailbox.standing) {
        (Some(writer), Some(intent)) if mailbox.version > writer.decided => Some((writer, intent)),
        _ => None,
    }
}

/// The writer once it was read.
pub open spec fn after_reading(writer: Option<Writer>, mailbox: Mailbox) -> Option<Writer> {
    match news(writer, mailbox) {
        Some((writer, _)) => Some(Writer { decided: mailbox.version, ..writer }),
        None => writer,
    }
}

impl JobWait {
    /// The job's writer, if the job has one.
    pub closed spec fn writer(self) -> Option<Writer> {
        match self.lifecycle {
            Some(actor) => Some(actor@),
            None => None,
        }
    }

    pub fn new(lifecycle: Option<LifecycleActor>) -> (r: Self)
        ensures
            r.writer() == (match lifecycle {
                Some(actor) => Some(actor@),
                None => None,
            }),
    {
        JobWait { lifecycle }
    }

    /// Reads the job's writer, and publishes what it decided. Nothing where it has said nothing
    /// new, and nothing ever for a job without one.
    pub fn decide(&mut self, mailbox: &IntentMailbox, config: &mut JobConfig) -> (r: Result<
        Option<ObservedIntent>,
        StateBackendError,
    >)
        ensures
            reads(old(self).writer(), mailbox@, *old(config), *final(config), r),
            final(self).writer() == after_reading(old(self).writer(), mailbox@),
    {
        let decision = match &mut self.lifecycle {
            Some(actor) => actor.observe(mailbox),
            None => None,
        };
        match decision {
            None => Ok(None),
            Some(decision) => match decision.apply(config) {
                Ok(observed) => Ok(Some(observed)),
                Err(refusal) => Err(refusal),
            },
        }
    }

    /// What a wait reports before it parks: a decision that stands already ends it at once, and a
    /// refusal fails it. Nothing means that it parks.
    pub fn before_parking(&mut self, mailbox: &IntentMailbox, config: &mut JobConfig) -> (r: Result<
        Option<Waited>,
        StateBackendError,
    >)
        ensures
            final(self).writer() == after_reading(old(self).writer(), mailbox@),
            exists|decided: Result<Option<ObservedIntent>, StateBackendError>| #[trigger]
                reads(old(self).writer(), mailbox@, *old(config), *final(config), decided) && r
                    == (match decided {
                    Err(refusal) => Err::<Option<Waited>, _>(refusal),
                    Ok(None) => Ok(None),
                    Ok(Some(observed)) => Ok(Some(Waited::Decided(observed))),
                }),
    {
        let decided = self.decide(mailbox, config);
        assert(reads(old(self).writer(), mailbox@, *old(config), *config, decided));
        match decided {
            Err(refusal) => Err(refusal),
            Ok(None) => Ok(None),
            Ok(Some(observed)) => Ok(Some(Waited::Decided(observed))),
        }
    }

    /// What a wait reports once its park ended. A submission has the writer read again; nothing
    /// else does.
    pub fn after_parking(
        &mut self,
        received: Received,
        mailbox: &IntentMailbox,
        config: &mut JobConfig,
    ) -> (r: Result<Waited, StateBackendError>)
        ensures
            !(received is Submitted) ==> {
                &&& final(self).writer() == old(self).writer()
                &&& *final(config) == *old(config)
            },
            match received {
                Received::Message(msg) => r == Ok::<_, StateBackendError>(Waited::Message(msg)),
                Received::Closed => r == Ok::<_, StateBackendError>(Waited::Closed),
                Received::Submitted => {
                    &&& final(self).writer() == after_reading(old(self).writer(), mailbox@)
                    &&& exists|decided: Result<Option<ObservedIntent>, StateBackendError>|
                        #[trigger] reads(
                            old(self).writer(),
                            mailbox@,
                            *old(config),
                            *final(config),
                            decided,
                        ) && r == (match decided {
                            Err(refusal) => Err::<Waited, _>(refusal),
                            Ok(None) => Ok(Waited::Woken),
                            Ok(Some(observed)) => Ok(Waited::Decided(observed)),
                        })
                },
            },
    {
        match received {
            Received::Message(msg) => Ok(Waited::Message(msg)),
            Received::Closed => Ok(Waited::Closed),
            Received::Submitted => {
                let decided = self.decide(mailbox, config);
                assert(reads(old(self).writer(), mailbox@, *old(config), *config, decided));
                match decided {
                    Err(refusal) => Err(refusal),
                    Ok(None) => Ok(Waited::Woken),
                    Ok(Some(observed)) => Ok(Waited::Decided(observed)),
                }
            },
        }
    }
}

/// Whether an intent asks the job to stop.
pub open spec fn asks_to_stop(intent: Intent) -> bool {
    match intent {
        Intent::Adopt(config) => config.stop_mode != StopMode::none,
        Intent::RefusedButStopping { stop_mode, .. } => stop_mode != StopMode::none,
        Intent::Refuse(_) => false,
    }
}

/// A stop that stands in the mailbox ends the next wait before it parks, and the job's
/// configuration asks for it from there on. It is decided on once.
pub proof fn a_wait_never_parks_on_a_standing_stop(
    writer: Writer,
    mailbox: Mailbox,
    config: JobConfig,
    after: JobConfig,
    decided: Result<Option<ObservedIntent>, StateBackendError>,
)
    requires
        mailbox.version > writer.decided,
        mailbox.standing matches Some(intent) && asks_to_stop(intent),
        reads(Some(writer), mailbox, config, after, decided),
    ensures
        decided == Ok::<_, StateBackendError>(Some(ObservedIntent::Stop)),
        after.stop_mode != StopMode::none,
        news(after_reading(Some(writer), mailbox), mailbox) is None,
{
}

/// A wait reads the writer before it parks and after a submission, and at no other time: a message
/// is reported as it came, a closed channel as closed, and neither touches the job. What a
/// submission brings is what reading before parking would have, and one that was decided on already
/// only wakes the wait.
pub proof fn a_wait_reads_the_writer_only_for_a_submission(
    wait: &mut JobWait,
    parked: &mut JobWait,
    mailbox: &IntentMailbox,
    config: &mut JobConfig,
    woken: &mut JobConfig,
    received: Received,
    before: Result<Option<Waited>, StateBackendError>,
    after: Result<Waited, StateBackendError>,
)
    requires
        *old(parked) == *old(wait),
        *old(woken) == *old(config),
        call_ensures(JobWait::before_parking, (wait, mailbox, config), before),
        call_ensures(JobWait::after_parking, (parked, received, mailbox, woken), after),
    ensures
        received matches Received::Message(msg) ==> after == Ok::<_, StateBackendError>(
            Waited::Message(msg),
        ) && *final(woken) == *old(woken) && final(parked).writer() == old(parked).writer(),
        received is Closed ==> after == Ok::<_, StateBackendError>(Waited::Closed) && *final(woken)
            == *old(woken) && final(parked).writer() == old(parked).writer(),
        received is Submitted ==> (after is Err <==> before is Err) && final(woken)@ == final(
            config)@ && final(parked).writer() == final(wait).writer(),
        received is Submitted && before is Ok ==> (after->Ok_0 is Woken <==> before->Ok_0 is None),
        received is Submitted && before is Ok && before->Ok_0 is Some ==> after->Ok_0
            == before->Ok_0->0,
        received is Submitted && before is Err ==> after->Err_0@ == before->Err_0@,
        before is Ok && before->Ok_0 is Some ==> before->Ok_0->0 is Decided,
        before is Ok && before->Ok_0 is None ==> *final(config) == *old(config),
{
}

/// A job without a writer is never decided for: its wait parks, and its configuration stays its own.
pub proof fn a_job_without_a_writer_parks(
    wait: &mut JobWait,
    mailbox: &IntentMailbox,
    config: &mut JobConfig,
    r: Result<Option<Waited>, StateBackendError>,
)
    requires
        call_ensures(JobWait::new, (None,), *old(wait)),
        call_ensures(JobWait::before_parking, (wait, mailbox, config), r),
    ensures
        r == Ok::<Option<Waited>, StateBackendError>(None),
        *final(config) == *old(config),
{
}

/// A polled row that asks a job to stop ends the job's next wait with that stop, refused or not, and
/// the job's configuration asks for it from then on.
pub proof fn a_polled_stop_ends_the_next_wait(
    job_id: String,
    running: StateBackendSelector,
    actor: LifecycleActor,
    wait: &mut JobWait,
    polled: PolledJob,
    intent: LifecycleIntent,
    empty: IntentMailbox,
    mailbox: &mut IntentMailbox,
    submitted: (IntentVersion, bool),
    config: &mut JobConfig,
    r: Result<Option<Waited>, StateBackendError>,
)
    requires
        call_ensures(LifecycleActor::new, (job_id, running), actor),
        call_ensures(JobWait::new, (Some(actor),), *old(wait)),
        polled.config.stop_mode != StopMode::none,
        call_ensures(LifecycleIntent::classify, (running, polled), intent),
        call_ensures(IntentMailbox::new, (), empty),
        *old(mailbox) == empty,
        call_ensures(IntentMailbox::submit, (mailbox, intent), submitted),
        call_ensures(JobWait::before_parking, (wait, &*final(mailbox), config), r),
    ensures
        r == Ok::<_, StateBackendError>(Some(Waited::Decided(ObservedIntent::Stop))),
        final(config).stop_mode == polled.config.stop_mode,
{
}

/// A wait reports what its job's writer decides and publishes: it ends before it parks exactly where
/// the writer decides something, with what publishing that decision is observed as, or with the
/// refusal; the job's configuration is the one that was published.
pub proof fn a_wait_reports_what_its_writer_decides(
    actor: &mut LifecycleActor,
    wait: &mut JobWait,
    mailbox: &IntentMailbox,
    decision: Option<LifecycleDecision>,
    published: &mut JobConfig,
    observed: Result<ObservedIntent, StateBackendError>,
    config: &mut JobConfig,
    r: Result<Option<Waited>, StateBackendError>,
    decided: Result<Option<ObservedIntent>, StateBackendError>,
    reading: &mut JobWait,
    read: &mut JobConfig,
)
    requires
        call_ensures(JobWait::new, (Some(*old(actor)),), *old(wait)),
        *old(reading) == *old(wait),
        *old(published) == *old(config),
        *old(read) == *old(config),
        call_ensures(LifecycleActor::observe, (actor, mailbox), decision),
        decision is Some ==> call_ensures(
            LifecycleDecision::apply,
            (decision->0, published),
            observed,
        ),
        call_ensures(JobWait::before_parking, (wait, mailbox, config), r),
        call_ensures(JobWait::decide, (reading, mailbox, read), decided),
    ensures
        decision is None ==> r == Ok::<Option<Waited>, StateBackendError>(None) && *final(config)
            == *old(config),
        decision is Some && observed is Ok ==> r == Ok::<_, StateBackendError>(
            Some(Waited::Decided(observed->Ok_0)),
        ),
        decision is Some && observed is Err ==> r is Err && r->Err_0@ == observed->Err_0@,
        decision is Some ==> final(config)@ == final(published)@,
        final(wait).writer() == Some(final(actor)@),
        decision is None ==> decided == Ok::<Option<ObservedIntent>, StateBackendError>(None),
        decision is Some && observed is Ok ==> decided == Ok::<_, StateBackendError>(
            Some(observed->Ok_0),
        ),
        decision is Some && observed is Err ==> decided is Err,
        final(read)@ == final(config)@,
{
}

} // verus!
