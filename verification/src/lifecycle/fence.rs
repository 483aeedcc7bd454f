//! A controller's durable authority over a job.

use vstd::prelude::*;

verus! {

/// The authority one adoption installed in a job's row: the fence it raised the row to, and the
/// epoch of the controller that raised it.
#[derive(Clone, Debug, PartialEq, Eq)]
pub struct LifecycleAuthority {
    job_id: String,
    fence: u64,
    epoch: String,
}

impl LifecycleAuthority {
    pub closed spec fn of_job(self) -> Seq<char> {
        self.job_id@
    }

    pub closed spec fn of_fence(self) -> u64 {
        self.fence
    }

    pub closed spec fn of_epoch(self) -> Seq<char> {
        self.epoch@
    }

    /// The authority a row carries.
    pub fn from_parts(job_id: &str, fence: u64, epoch: &str) -> (r: Self)
        ensures
            r.of_job() == job_id@,
            r.of_fence() == fence,
            r.of_epoch() == epoch@,
    {
        LifecycleAuthority { job_id: job_id.to_owned(), fence, epoch: epoch.to_owned() }
    }

    /// What a row carries before any controller adopted the job.
    pub fn unadopted(job_id: &str) -> (r: Self)
        ensures
            r.of_job() == job_id@,
            r.of_fence() == 0,
            r.of_epoch() == Seq::<char>::empty(),
    {
        LifecycleAuthority { job_id: job_id.to_owned(), fence: 0, epoch: String::new() }
    }

    pub fn job_id(&self) -> (r: &str)
        ensures
            r@ == self.of_job(),
    {
        self.job_id.as_str()
    }

    pub fn fence(&self) -> (r: u64)
        ensures
            r == self.of_fence(),
    {
        self.fence
    }

    pub fn epoch(&self) -> (r: &str)
        ensures
            r@ == self.of_epoch(),
    {
        self.epoch.as_str()
    }
}

/// The protocol a job's directives go out under.
#[derive(Clone, Copy, Debug, PartialEq, Eq, Structural)]
pub enum FenceProtocol {
    /// Directives carry no fence.
    Legacy,
    /// Directives carry the fence, and address one generation.
    Fenced { generation: u64, fence: u64 },
}

impl FenceProtocol {
    /// The fence directives carry; zero says that they carry none.
    pub open spec fn carries(self) -> u64 {
        match self {
            FenceProtocol::Legacy => 0,
            FenceProtocol::Fenced { fence, .. } => fence,
        }
    }

    pub fn fence(self) -> (r: u64)
        ensures
            r == self.carries(),
    {
        match self {
            FenceProtocol::Legacy => 0,
            FenceProtocol::Fenced { fence, .. } => fence,
        }
    }
}

/// An authority says what it was made of; one that nobody adopted carries no fence and no epoch.
pub proof fn an_authority_says_what_it_was_made_of(
    job_id: &str,
    fence: u64,
    epoch: &str,
    authority: LifecycleAuthority,
    unadopted: LifecycleAuthority,
    said: (&str, u64, &str),
    nothing: (&str, u64, &str),
)
    requires
        call_ensures(LifecycleAuthority::from_parts, (job_id, fence, epoch), authority),
        call_ensures(LifecycleAuthority::job_id, (&authority,), said.0),
        call_ensures(LifecycleAuthority::fence, (&authority,), said.1),
        call_ensures(LifecycleAuthority::epoch, (&authority,), said.2),
        call_ensures(LifecycleAuthority::unadopted, (job_id,), unadopted),
        call_ensures(LifecycleAuthority::job_id, (&unadopted,), nothing.0),
        call_ensures(LifecycleAuthority::fence, (&unadopted,), nothing.1),
        call_ensures(LifecycleAuthority::epoch, (&unadopted,), nothing.2),
    ensures
        said.0@ == job_id@,
        said.1 == fence,
        said.2@ == epoch@,
        nothing.0@ == job_id@,
        nothing.1 == 0,
        nothing.2@.len() == 0,
{
}

/// Directives carry the fence of their protocol; under the one without fences they carry none.
pub proof fn directives_carry_their_protocols_fence(generation: u64, fence: u64, fenced: u64, legacy: u64)
    requires
        call_ensures(FenceProtocol::fence, (FenceProtocol::Fenced { generation, fence },), fenced),
        call_ensures(FenceProtocol::fence, (FenceProtocol::Legacy,), legacy),
    ensures
        fenced == fence,
        legacy == 0,
{
}

} // verus!
