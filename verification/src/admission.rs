//! The job's publication lock, and the authority a phase holds while nothing may be published
//! behind it.

use std::mem::ManuallyDrop;
use std::sync::Arc;
use tokio::sync::{Mutex, OwnedMutexGuard};
use vstd::prelude::*;

verus! {

/// `tokio::sync::Mutex`, carried as it is.
#[verifier::external_type_specification]
#[verifier::external_body]
#[verifier::reject_recursive_types(T)]
pub struct ExTokioMutex<T: ?Sized>(tokio::sync::Mutex<T>);

/// `tokio::sync::OwnedMutexGuard`, carried as it is. Dropping one unlocks its mutex.
#[verifier::external_type_specification]
#[verifier::external_body]
#[verifier::reject_recursive_types(T)]
pub struct ExOwnedMutexGuard<T: ?Sized>(tokio::sync::OwnedMutexGuard<T>);

/// `tokio::sync::Mutex::new`: a fresh, unlocked mutex. Nothing is claimed of it.
#[verifier::external_body]
fn new_mutex() -> Mutex<()> {
    Mutex::new(())
}

/// `tokio::sync::OwnedMutexGuard::mutex`: the mutex that `guard` is one of. Which one is claimed only
/// where the guard is made.
#[verifier::external_body]
fn mutex_of(guard: &OwnedMutexGuard<()>) -> Arc<Mutex<()>> {
    Arc::clone(OwnedMutexGuard::mutex(guard))
}

/// `std::sync::Arc::ptr_eq`: whether the two are one mutex. What lies at one address is one value;
/// nothing is claimed of two addresses.
#[verifier::external_body]
fn same_mutex(one: &Arc<Mutex<()>>, other: &Arc<Mutex<()>>) -> (r: bool)
    ensures
        r ==> *one == *other,
{
    Arc::ptr_eq(one, other)
}

/// `tokio::sync::Mutex::try_lock_owned`: the guard, or nothing where the mutex is locked. Which
/// of the two depends on who holds it at that instant, so that is left open; a guard that comes
/// back is one of the mutex that was tried.
#[verifier::external_body]
fn try_lock(mutex: &Arc<Mutex<()>>) -> (r: Option<OwnedMutexGuard<()>>)
    ensures
        r matches Some(guard) ==> call_ensures(mutex_of, (&guard,), *mutex),
{
    Arc::clone(mutex).try_lock_owned().ok()
}

/// `std::mem::drop` of a `tokio::sync::OwnedMutexGuard`, whose destructor unlocks its mutex. That a
/// guard was given to it is what `unlocked` says; who locks the mutex next is left open.
#[verifier::external_body]
fn unlock(guard: OwnedMutexGuard<()>) {
    drop(guard)
}

/// Whether `guard` was dropped, which unlocks its mutex.
pub closed spec fn unlocked(guard: OwnedMutexGuard<()>) -> bool {
    call_ensures(unlock, (guard,), ())
}

/// One job's publication lock.
pub struct AdmissionLock {
    job_id: String,
    mutex: Arc<Mutex<()>>,
}

/// The authority to cause a job's irreversible effects. It is not cloneable, and while it lives
/// the job's publication lock is taken.
pub struct Admission {
    job_id: String,
    guard: OwnedMutexGuard<()>,
}

/// The record that a job's authority was released.
#[derive(Clone, Debug, PartialEq, Eq)]
pub struct Released {
    job_id: String,
}

/// A job's authority, kept locked for good: dropping this unlocks nothing.
pub struct Retained {
    job_id: String,
    guard: ManuallyDrop<OwnedMutexGuard<()>>,
}

impl View for AdmissionLock {
    type V = Seq<char>;

    closed spec fn view(&self) -> Seq<char> {
        self.job_id@
    }
}

impl View for Admission {
    type V = Seq<char>;

    closed spec fn view(&self) -> Seq<char> {
        self.job_id@
    }
}

impl View for Released {
    type V = Seq<char>;

    closed spec fn view(&self) -> Seq<char> {
        self.job_id@
    }
}

impl View for Retained {
    type V = Seq<char>;

    closed spec fn view(&self) -> Seq<char> {
        self.job_id@
    }
}

impl AdmissionLock {
    /// The mutex behind the lock.
    pub closed spec fn guarded_by(self) -> Arc<Mutex<()>> {
        self.mutex
    }

    /// Whether an attempt to take this lock's mutex can have ended with `guard`.
    pub closed spec fn yields(self, guard: Option<OwnedMutexGuard<()>>) -> bool {
        call_ensures(try_lock, (&self.mutex,), guard)
    }

    /// Whether `guard` is one of this lock's mutex.
    pub closed spec fn is_locked_by(self, guard: OwnedMutexGuard<()>) -> bool {
        call_ensures(mutex_of, (&guard,), self.mutex)
    }

    /// Whether comparing the mutex `guard` is one of with this lock's can have said `ours`.
    pub closed spec fn tells(self, guard: OwnedMutexGuard<()>, ours: bool) -> bool {
        exists|mutex: Arc<Mutex<()>>| #[trigger]
            call_ensures(mutex_of, (&guard,), mutex) && call_ensures(
                same_mutex,
                (&mutex, &self.mutex),
                ours,
            )
    }

    /// Whether the lock's mutex was made for it.
    pub closed spec fn is_new(self) -> bool {
        call_ensures(new_mutex, (), *self.mutex)
    }

    /// A free publication lock for `job_id`.
    pub fn for_job(job_id: String) -> (r: Self)
        ensures
            r@ == job_id@,
            r.is_new(),
    {
        let make = new_mutex;
        AdmissionLock { job_id, mutex: Arc::new(make()) }
    }

    /// Takes the lock if it is free. Whether it is depends on who holds it at that instant; it is
    /// this lock's own mutex that is tried, and the guard it yields is the authority.
    pub fn try_admit(&self) -> (r: Option<Admission>)
        ensures
            exists|guard: Option<OwnedMutexGuard<()>>| #[trigger]
                self.yields(guard) && match guard {
                    Some(guard) => r matches Some(admission) && admission@ == self@
                        && admission.holds() == guard && self.is_locked_by(guard),
                    None => r is None,
                },
    {
        let attempt = try_lock;
        let guard = attempt(&self.mutex);
        assert(self.yields(guard));
        self.granted(guard)
    }

    /// The authority that goes with an attempt to take this lock's mutex: none without its guard.
    pub fn granted(&self, guard: Option<OwnedMutexGuard<()>>) -> (r: Option<Admission>)
        requires
            guard matches Some(guard) ==> self.is_locked_by(guard),
        ensures
            r is Some <==> guard is Some,
            r matches Some(admission) ==> admission@ == self@ && Some(admission.holds()) == guard,
    {
        match guard {
            Some(guard) => Some(self.admitted(guard)),
            None => None,
        }
    }

    /// The authority that goes with a guard of this lock's mutex, however long it was waited for.
    pub fn admitted(&self, guard: OwnedMutexGuard<()>) -> (r: Admission)
        requires
            self.is_locked_by(guard),
        ensures
            r@ == self@,
            r.holds() == guard,
    {
        Admission { job_id: self.job_id.clone(), guard }
    }

    /// Whether `guard` is one of this lock's mutex.
    pub fn guards(&self, guard: &OwnedMutexGuard<()>) -> (r: bool)
        ensures
            self.tells(*guard, r),
            r ==> self.is_locked_by(*guard),
    {
        let asked = mutex_of;
        let mutex = asked(guard);
        let compared = same_mutex;
        compared(&mutex, &self.mutex)
    }

    /// The mutex itself, for a caller that waits for it.
    pub fn mutex(&self) -> (r: Arc<Mutex<()>>)
        ensures
            r == self.guarded_by(),
    {
        Arc::clone(&self.mutex)
    }

    /// Whether nobody held the lock at the instant it was asked. It is left as it was found.
    pub fn is_free(&self) -> (r: bool)
        ensures
            exists|guard: Option<OwnedMutexGuard<()>>| #[trigger]
                self.yields(guard) && match guard {
                    Some(guard) => r && unlocked(guard),
                    None => !r,
                },
    {
        let attempt = try_lock;
        let guard = attempt(&self.mutex);
        assert(self.yields(guard));
        match guard {
            Some(guard) => {
                let dropped = unlock;
                dropped(guard);
                true
            },
            None => false,
        }
    }
}

impl Admission {
    /// The guard that stands for the authority: the lock is taken for as long as it is not dropped.
    pub closed spec fn holds(self) -> OwnedMutexGuard<()> {
        self.guard
    }

    /// Releases the authority: the guard is dropped here, which unlocks the publication lock.
    pub fn release(self) -> (r: Released)
        ensures
            r@ == self@,
            unlocked(self.holds()),
    {
        let Admission { job_id, guard } = self;
        let dropped = unlock;
        dropped(guard);
        Released { job_id }
    }

    /// Retains the authority for good: the guard is never dropped.
    pub fn retain(self) -> (r: Retained)
        ensures
            r@ == self@,
            r.keeps() == self.holds(),
    {
        let Admission { job_id, guard } = self;
        Retained { job_id, guard: ManuallyDrop::new(guard) }
    }
}

impl Retained {
    /// The guard that is never dropped.
    pub closed spec fn keeps(self) -> OwnedMutexGuard<()> {
        self.guard@
    }
}

/// An authority is over the job its lock is for, and stays so through being released or retained;
/// there is none without a guard of the lock, and it is that guard it holds.
pub proof fn an_authority_is_over_its_locks_job(
    job_id: String,
    lock: AdmissionLock,
    guard: Option<OwnedMutexGuard<()>>,
    granted: Option<Admission>,
    admission: Admission,
    released: Released,
    retained: Retained,
)
    requires
        call_ensures(AdmissionLock::for_job, (job_id,), lock),
        call_ensures(AdmissionLock::granted, (&lock, guard), granted),
        granted is Some ==> granted->0 == admission,
        call_ensures(Admission::release, (admission,), released),
        call_ensures(Admission::retain, (admission,), retained),
    ensures
        granted is Some <==> guard is Some,
        granted is Some ==> admission@ == job_id@ && admission.holds() == guard->0,
        released@ == admission@,
        retained@ == admission@,
        retained.keeps() == admission.holds(),
{
}

} // verus!
