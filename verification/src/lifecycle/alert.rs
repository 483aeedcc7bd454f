//! What an operator sees of a job that is waiting to be fenced.

use vstd::prelude::*;

verus! {

/// Why a fencing obligation could not be carried forward.
#[derive(Clone, Copy, Debug, PartialEq, Eq, Structural)]
pub enum FencingError {
    /// It could not be recorded at all.
    Unrecordable,
    /// A target refused the fence, or never answered.
    NotAcknowledged,
    /// Nobody can say whether a target is gone.
    TerminationUnobservable,
    /// The row would not take the record.
    PublicationFailed,
}

impl FencingError {
    /// The label an operator groups by.
    pub open spec fn name(self) -> Seq<char> {
        match self {
            FencingError::Unrecordable => "unrecordable"@,
            FencingError::NotAcknowledged => "not_acknowledged"@,
            FencingError::TerminationUnobservable => "termination_unobservable"@,
            FencingError::PublicationFailed => "publication_failed"@,
        }
    }

    pub fn as_str(self) -> (r: &'static str)
        ensures
            r@ == self.name(),
    {
        match self {
            FencingError::Unrecordable => "unrecordable",
            FencingError::NotAcknowledged => "not_acknowledged",
            FencingError::TerminationUnobservable => "termination_unobservable",
            FencingError::PublicationFailed => "publication_failed",
        }
    }
}

/// No two errors share a label.
pub proof fn error_labels_are_distinct(left: FencingError, right: FencingError)
    requires
        left != right,
    ensures
        left.name() != right.name(),
{
    reveal_strlit("unrecordable");
    reveal_strlit("not_acknowledged");
    reveal_strlit("termination_unobservable");
    reveal_strlit("publication_failed");
    assert(FencingError::Unrecordable.name().len() == 12);
    assert(FencingError::NotAcknowledged.name().len() == 16);
    assert(FencingError::TerminationUnobservable.name().len() == 24);
    assert(FencingError::PublicationFailed.name().len() == 18);
}

/// What an unsettled pass reports.
#[derive(Clone, Copy, Debug, PartialEq, Eq, Structural)]
pub struct FencingReport {
    pub pending_targets: u64,
    pub outstanding_attempts: u64,
    /// How long the obligation has stood, in seconds, where that is known.
    pub age: Option<u64>,
}

/// What a report did to the job's alert.
#[derive(Clone, Copy, Debug, PartialEq, Eq, Structural)]
pub enum AlertTransition {
    /// There was none, and there is none.
    Quiet,
    Raised,
    Sustained,
    Cleared,
}

/// One job's alert, and the numbers it stands for.
#[derive(Clone, Copy, Debug, PartialEq, Eq, Structural)]
pub struct FencingAlert {
    pending_targets: u64,
    outstanding_attempts: u64,
    age: u64,
    raised: bool,
}

/// An alert's published numbers: the targets pending, the identifiers outstanding, the age in
/// seconds, and whether it is raised.
pub struct Published {
    pub pending_targets: u64,
    pub outstanding_attempts: u64,
    pub age: u64,
    pub raised: bool,
}

impl View for FencingAlert {
    type V = Published;

    closed spec fn view(&self) -> Published {
        Published {
            pending_targets: self.pending_targets,
            outstanding_attempts: self.outstanding_attempts,
            age: self.age,
            raised: self.raised,
        }
    }
}

/// The numbers of a job nobody reports on, or has nothing left to report of.
pub open spec fn nothing_published() -> Published {
    Published { pending_targets: 0, outstanding_attempts: 0, age: 0, raised: false }
}

impl FencingAlert {
    /// A job no alert was raised for.
    pub fn new() -> (r: Self)
        ensures
            r@ == nothing_published(),
    {
        FencingAlert { pending_targets: 0, outstanding_attempts: 0, age: 0, raised: false }
    }

    /// A pass that settled nothing more raises the alert, or sustains it. An age that is not known
    /// leaves the one published before.
    pub fn alert_pending(&mut self, report: FencingReport) -> (r: AlertTransition)
        ensures
            r == (if old(self)@.raised {
                AlertTransition::Sustained
            } else {
                AlertTransition::Raised
            }),
            final(self)@ == (Published {
                pending_targets: report.pending_targets,
                outstanding_attempts: report.outstanding_attempts,
                age: match report.age {
                    Some(age) => age,
                    None => old(self)@.age,
                },
                raised: true,
            }),
    {
        let raised = self.raised;
        self.pending_targets = report.pending_targets;
        self.outstanding_attempts = report.outstanding_attempts;
        if let Some(age) = report.age {
            self.age = age;
        }
        self.raised = true;
        if raised {
            AlertTransition::Sustained
        } else {
            AlertTransition::Raised
        }
    }

    /// A settled obligation clears the alert, and every number it stood for.
    pub fn alert_settled(&mut self) -> (r: AlertTransition)
        ensures
            r == (if old(self)@.raised {
                AlertTransition::Cleared
            } else {
                AlertTransition::Quiet
            }),
            final(self)@ == nothing_published(),
    {
        let raised = self.raised;
        *self = Self::new();
        if raised {
            AlertTransition::Cleared
        } else {
            AlertTransition::Quiet
        }
    }

    /// The published numbers: targets pending, identifiers outstanding, age in seconds, and one
    /// where the alert is raised.
    pub fn published(&self) -> (r: (u64, u64, u64, u64))
        ensures
            r.0 == self@.pending_targets,
            r.1 == self@.outstanding_attempts,
            r.2 == self@.age,
            r.3 == (if self@.raised {
                1u64
            } else {
                0
            }),
    {
        let alert: u64 = if self.raised {
            1
        } else {
            0
        };
        (self.pending_targets, self.outstanding_attempts, self.age, alert)
    }
}

/// How long ago `origin` was, in milliseconds. Nothing where there is no origin, where the clock
/// cannot be read, or where the origin lies ahead of it.
pub fn age_of(origin: Option<u64>, now: Option<u64>) -> (r: Option<u64>)
    ensures
        r == (match (origin, now) {
            (Some(origin), Some(now)) => if origin <= now {
                Some((now - origin) as u64)
            } else {
                None::<u64>
            },
            _ => None::<u64>,
        }),
{
    match (origin, now) {
        (Some(origin), Some(now)) => if origin <= now {
            Some(now - origin)
        } else {
            None
        },
        _ => None,
    }
}

impl FencingReport {
    /// The report of an obligation that has stood since `origin`, where `now` is what the clock
    /// reads; both are in milliseconds.
    pub fn at(
        pending_targets: u64,
        outstanding_attempts: u64,
        origin: Option<u64>,
        now: Option<u64>,
    ) -> (r: Self)
        ensures
            r == (FencingReport {
                pending_targets,
                outstanding_attempts,
                age: match (origin, now) {
                    (Some(origin), Some(now)) => if origin <= now {
                        Some(((now - origin) / 1000) as u64)
                    } else {
                        None::<u64>
                    },
                    _ => None::<u64>,
                },
            }),
    {
        let age = match age_of(origin, now) {
            Some(millis) => Some(millis / 1000),
            None => None,
        };
        FencingReport { pending_targets, outstanding_attempts, age }
    }
}

/// An alert is raised by the first pass that settled nothing more, sustained by those that follow,
/// and cleared by the one that settled; it shows what was reported last, and nothing once cleared.
/// An age nobody knows leaves the one shown before.
pub proof fn an_alert_shows_what_was_reported_last(
    pending: &mut FencingAlert,
    report: FencingReport,
    raised: AlertTransition,
    settling: &mut FencingAlert,
    cleared: AlertTransition,
    before: (u64, u64, u64, u64),
    shown: (u64, u64, u64, u64),
    gone: (u64, u64, u64, u64),
    fresh: FencingAlert,
    nothing: (u64, u64, u64, u64),
)
    requires
        call_ensures(FencingAlert::published, (&*old(pending),), before),
        call_ensures(FencingAlert::alert_pending, (pending, report), raised),
        call_ensures(FencingAlert::published, (&*final(pending),), shown),
        *old(settling) == *final(pending),
        call_ensures(FencingAlert::alert_settled, (settling,), cleared),
        call_ensures(FencingAlert::published, (&*final(settling),), gone),
        call_ensures(FencingAlert::new, (), fresh),
        call_ensures(FencingAlert::published, (&fresh,), nothing),
    ensures
        nothing == (0u64, 0u64, 0u64, 0u64),
        before.3 == 0 ==> raised == AlertTransition::Raised,
        before.3 == 1 ==> raised == AlertTransition::Sustained,
        before.3 == 0 || before.3 == 1,
        shown.0 == report.pending_targets,
        shown.1 == report.outstanding_attempts,
        shown.2 == (match report.age {
            Some(age) => age,
            None => before.2,
        }),
        shown.3 == 1,
        cleared == AlertTransition::Cleared,
        gone == (0u64, 0u64, 0u64, 0u64),
{
}

/// Settling what no alert was raised for changes nothing and says so.
pub proof fn settling_without_an_alert_is_quiet(
    alert: &mut FencingAlert,
    r: AlertTransition,
    before: (u64, u64, u64, u64),
    after: (u64, u64, u64, u64),
)
    requires
        call_ensures(FencingAlert::published, (&*old(alert),), before),
        call_ensures(FencingAlert::alert_settled, (alert,), r),
        call_ensures(FencingAlert::published, (&*final(alert),), after),
    ensures
        r == AlertTransition::Quiet <==> before.3 == 0,
        r == AlertTransition::Cleared <==> before.3 == 1,
        after == (0u64, 0u64, 0u64, 0u64),
{
}

/// An age is known exactly where there is an origin and a clock that has passed it, and it reaches
/// from the one to the other; a report gives it in whole seconds.
pub proof fn an_age_reaches_from_its_origin_to_now(
    pending_targets: u64,
    outstanding_attempts: u64,
    origin: Option<u64>,
    now: Option<u64>,
    age: Option<u64>,
    report: FencingReport,
)
    requires
        call_ensures(age_of, (origin, now), age),
        call_ensures(
            FencingReport::at,
            (pending_targets, outstanding_attempts, origin, now),
            report,
        ),
    ensures
        age is Some <==> origin is Some && now is Some && origin->0 <= now->0,
        age matches Some(millis) ==> origin->0 + millis == now->0,
        report.age is Some <==> age is Some,
        report.age matches Some(seconds) ==> seconds * 1000 <= age->0 < (seconds + 1) * 1000,
        report.pending_targets == pending_targets,
        report.outstanding_attempts == outstanding_attempts,
{
}

/// An error is grouped under its own label.
pub proof fn errors_are_grouped_under_their_labels(error: FencingError, label: &'static str)
    requires
        call_ensures(FencingError::as_str, (error,), label),
    ensures
        label@ == "unrecordable"@ <==> error == FencingError::Unrecordable,
        label@ == "not_acknowledged"@ <==> error == FencingError::NotAcknowledged,
        label@ == "termination_unobservable"@ <==> error == FencingError::TerminationUnobservable,
        label@ == "publication_failed"@ <==> error == FencingError::PublicationFailed,
{
    reveal_strlit("unrecordable");
    reveal_strlit("not_acknowledged");
    reveal_strlit("termination_unobservable");
    reveal_strlit("publication_failed");
    assert("unrecordable"@.len() == 12);
    assert("not_acknowledged"@.len() == 16);
    assert("termination_unobservable"@.len() == 24);
    assert("publication_failed"@.len() == 18);
}

} // verus!
