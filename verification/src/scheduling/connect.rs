//! What a worker's registration does to a scheduling attempt.

use crate::messages::JobMessage;
use crate::scheduling::workers::{Worker, WorkerState, WorkerStatus, Workers};
use crate::types::WorkerId;
use vstd::prelude::*;

verus! {

/// How often a worker's address is dialled before the attempt is given up.
pub const DIAL_ATTEMPTS: u64 = 3;

/// What is left to do about a message that may be a worker's registration.
#[derive(Debug, PartialEq, Eq)]
pub enum ConnectStep {
    /// The worker belongs to another generation of the job; nothing is done.
    WrongGeneration,
    /// The worker is recorded; its address is to be dialled.
    Dial { worker_id: WorkerId, rpc_address: String },
    /// The message is no registration; it is the job's to handle.
    NotAConnect(JobMessage),
}

/// What a failed dial is followed by.
#[derive(Clone, Copy, Debug, PartialEq, Eq, Structural)]
pub enum DialStep {
    /// Wait this many milliseconds and dial again.
    RetryAfter(u64),
    /// Wait this many milliseconds, and give the worker up.
    GiveUpAfter(u64),
}

/// What a message does to the workers of `generation`: a registration for it records the worker,
/// and nothing else changes any.
pub open spec fn registered(
    msg: JobMessage,
    generation: u64,
    before: Map<u64, Worker>,
    after: Map<u64, Worker>,
) -> bool {
    match msg {
        JobMessage::WorkerConnect {
            worker_id,
            machine_id,
            generation: run_id,
            rpc_address,
            data_address,
            slots,
            reconciles_start_execution,
        } => if run_id != generation {
            after == before
        } else {
            after == before.insert(
                worker_id.0,
                Worker {
                    id: worker_id.0,
                    machine_id: machine_id@,
                    rpc_address: rpc_address@,
                    data_address: data_address@,
                    slots,
                    state: WorkerState::Connected,
                    reconciles_start_execution,
                },
            )
        },
        _ => after == before,
    }
}

/// Records a worker's registration, if it belongs to `generation`.
pub fn handle_worker_connect(
    msg: JobMessage,
    workers: &mut Workers,
    generation: u64,
) -> (r: ConnectStep)
    ensures
        registered(msg, generation, old(workers)@, final(workers)@),
        match msg {
            JobMessage::WorkerConnect { worker_id, generation: run_id, rpc_address, .. } => if run_id
                != generation {
                r is WrongGeneration
            } else {
                r matches ConnectStep::Dial { worker_id: dialled, rpc_address: address } && dialled
                    == worker_id && address@ == rpc_address@
            },
            other => r == ConnectStep::NotAConnect(other),
        },
{
    match msg {
        JobMessage::WorkerConnect {
            worker_id,
            machine_id,
            generation: run_id,
            rpc_address,
            data_address,
            slots,
            reconciles_start_execution,
        } => {
            if generation != run_id {
                return ConnectStep::WrongGeneration;
            }
            let dialled = rpc_address.clone();
            workers.insert(
                WorkerStatus {
                    id: worker_id,
                    machine_id,
                    rpc_address,
                    data_address,
                    slots,
                    state: WorkerState::Connected,
                    reconciles_start_execution,
                },
            );
            ConnectStep::Dial { worker_id, rpc_address: dialled }
        },
        other => ConnectStep::NotAConnect(other),
    }
}

/// What follows the `failures`-th failed dial of one worker, counting from zero: each pause is a
/// tenth of a second longer than the one before, and the last is followed by giving up.
pub fn after_failed_dial(failures: u64) -> (r: DialStep)
    requires
        failures < DIAL_ATTEMPTS,
    ensures
        r == (if failures + 1 < DIAL_ATTEMPTS {
            DialStep::RetryAfter(((failures + 1) * 100) as u64)
        } else {
            DialStep::GiveUpAfter(((failures + 1) * 100) as u64)
        }),
{
    let pause: u64 = (failures + 1) * 100;
    if failures + 1 < DIAL_ATTEMPTS {
        DialStep::RetryAfter(pause)
    } else {
        DialStep::GiveUpAfter(pause)
    }
}

/// A worker that registers for the generation being scheduled is recorded as it described itself,
/// and its address is dialled; one of another generation is not recorded and not dialled. No worker
/// but the one that registers is ever touched, and any other message is handed on as it came.
pub proof fn a_worker_is_recorded_as_it_registered(
    msg: JobMessage,
    workers: &mut Workers,
    generation: u64,
    r: ConnectStep,
    asked: WorkerId,
    before: Option<&WorkerStatus>,
    after: Option<&WorkerStatus>,
)
    requires
        call_ensures(handle_worker_connect, (msg, workers, generation), r),
        call_ensures(Workers::get, (&*old(workers), asked), before),
        call_ensures(Workers::get, (&*final(workers), asked), after),
    ensures
        r is NotAConnect <==> !(msg is WorkerConnect),
        r matches ConnectStep::NotAConnect(told) ==> told == msg,
        r is Dial <==> msg is WorkerConnect && msg->WorkerConnect_generation == generation,
        r matches ConnectStep::Dial { worker_id, rpc_address } ==> worker_id
            == msg->WorkerConnect_worker_id && rpc_address@ == msg->rpc_address@,
        r is Dial && asked == msg->WorkerConnect_worker_id ==> after is Some && {
            let recorded = *after->0;
            &&& recorded.id == msg->WorkerConnect_worker_id
            &&& recorded.machine_id@ == msg->machine_id@
            &&& recorded.rpc_address@ == msg->rpc_address@
            &&& recorded.data_address@ == msg->data_address@
            &&& recorded.slots == msg->slots
            &&& recorded.state == WorkerState::Connected
            &&& recorded.reconciles_start_execution == msg->reconciles_start_execution
        },
        !(r is Dial) || asked != msg->WorkerConnect_worker_id ==> (after is Some <==> before is Some)
            && (after is Some ==> {
            &&& after->0.id == before->0.id
            &&& after->0.rpc_address@ == before->0.rpc_address@
            &&& after->0.data_address@ == before->0.data_address@
            &&& after->0.slots == before->0.slots
            &&& after->0.state == before->0.state
            &&& after->0.reconciles_start_execution == before->0.reconciles_start_execution
        }),
{
}

/// A worker's address is dialled a bounded number of times, with a longer pause after every failure:
/// a dial is given up exactly after the third.
pub proof fn every_failed_dial_is_followed_by_a_longer_pause(
    failures: u64,
    r: DialStep,
    next: DialStep,
)
    requires
        failures < 3,
        call_ensures(after_failed_dial, (failures,), r),
        failures < 2 ==> call_ensures(after_failed_dial, ((failures + 1) as u64,), next),
    ensures
        r is GiveUpAfter <==> failures == 2,
        failures == 0 ==> r == DialStep::RetryAfter(100),
        failures < 2 ==> r is RetryAfter && (match next {
            DialStep::RetryAfter(pause) => pause == r->RetryAfter_0 + 100,
            DialStep::GiveUpAfter(pause) => pause == r->RetryAfter_0 + 100,
        }),
{
}

} // verus!
