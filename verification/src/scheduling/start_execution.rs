//! Asking every worker to start executing, and reading what it answers.
//!
//! Each worker is asked under one identifier. A reply that settles nothing is followed by the
//! same request under the same identifier, a bounded number of times; a reply that settles it is
//! recorded in the fan-out's ledger. An attempt that is given up is not recorded as answered,
//! because nobody answered it. A fan-out is over once each of its attempts has an outcome, and what
//! it came to is read no earlier.

use crate::scheduling::assignments::TaskAssignment;
use crate::scheduling::fanout::{Accounting, AttemptLedger, AttemptRecord, IssuedAttempts};
use crate::text;
use crate::types::{LogicalProgram, StateBackendSelector, WorkerId};
use vstd::prelude::*;
use vstd::string::*;

verus! {

/// How many times a request that was not settled is offered again, on top of the first time.
pub const START_EXECUTION_RECONCILE_ATTEMPTS: usize = 8;

/// The pause between those, in milliseconds.
pub const START_EXECUTION_RECONCILE_DELAY_MILLIS: u64 = 250;

/// `rand::random::<u64>`: a number by chance. Nothing is claimed of it.
#[verifier::external_body]
fn random_number() -> u64 {
    rand::random::<u64>()
}

/// Whether `n` can have been drawn by chance.
pub closed spec fn drawn(n: u64) -> bool {
    call_ensures(random_number, (), n)
}

/// Whether `id` is the identifier that two numbers drawn by chance make.
pub open spec fn minted_by_chance(id: Seq<char>) -> bool {
    exists|high: u64, low: u64|
        drawn(high) && drawn(low) && id == #[trigger] identifier_of(high, low)
}

/// The identifier two numbers make: both in lowercase hexadecimal, sixteen digits each.
pub open spec fn identifier_of(high: u64, low: u64) -> Seq<char> {
    text::padded_digits(high as nat, 16, 16) + text::padded_digits(low as nat, 16, 16)
}

/// Renders the identifier two numbers make.
pub fn identifier(high: u64, low: u64) -> (r: String)
    ensures
        r@ == identifier_of(high, low),
        r@.len() == 32,
{
    let mut r = text::padded(high, 16, 16);
    let rest = text::padded(low, 16, 16);
    r.append(rest.as_str());
    proof {
        text::padded_width(high as nat, 16, 16);
        text::padded_width(low as nat, 16, 16);
    }
    r
}

/// Two pairs of numbers make the same identifier only where they are the same pair.
pub proof fn identifiers_tell_numbers_apart(
    high: u64,
    low: u64,
    other_high: u64,
    other_low: u64,
)
    requires
        identifier_of(high, low) == identifier_of(other_high, other_low),
    ensures
        high == other_high,
        low == other_low,
{
    text::padded_width(high as nat, 16, 16);
    text::padded_width(low as nat, 16, 16);
    text::padded_width(other_high as nat, 16, 16);
    text::padded_width(other_low as nat, 16, 16);
    let left = identifier_of(high, low);
    let right = identifier_of(other_high, other_low);
    assert(text::padded_digits(high as nat, 16, 16) =~= left.subrange(0, 16));
    assert(text::padded_digits(other_high as nat, 16, 16) =~= right.subrange(0, 16));
    assert(text::padded_digits(low as nat, 16, 16) =~= left.subrange(16, 32));
    assert(text::padded_digits(other_low as nat, 16, 16) =~= right.subrange(16, 32));
    text::every_number_fits(high);
    text::every_number_fits(other_high);
    text::every_number_fits(low);
    text::every_number_fits(other_low);
    text::padded_is_injective(high as nat, other_high as nat, 16, 16);
    text::padded_is_injective(low as nat, other_low as nat, 16, 16);
}

/// Mints the identifier one worker's attempt carries, by chance.
pub fn mint_start_execution_id() -> (r: String)
    ensures
        minted_by_chance(r@),
        r@.len() == 32,
{
    let draw = random_number;
    let high: u64 = draw();
    let low: u64 = draw();
    assert(drawn(high) && drawn(low));
    identifier(high, low)
}

/// Everything every worker's request shares.
#[derive(Debug)]
pub struct ExecutionPlan {
    pub program: LogicalProgram,
    pub assignments: Vec<TaskAssignment>,
    pub restore_epoch: Option<u64>,
    pub start_epoch: u64,
    pub min_epoch: u64,
    /// The worker that runs the job controller, and its address, where one does.
    pub leader: Option<(WorkerId, String)>,
    pub checkpoint_manifest_ref: Option<String>,
    pub checkpoint_interval_micros: u64,
    /// The job's own selector, given to every worker of this execution.
    pub state_backend: StateBackendSelector,
}

/// What one worker is asked.
#[derive(Debug)]
pub struct StartRequest {
    pub program: LogicalProgram,
    pub restore_epoch: Option<u64>,
    pub start_epoch: u64,
    pub min_epoch: u64,
    pub tasks: Vec<TaskAssignment>,
    pub job_controller_addr: Option<String>,
    pub is_leader: bool,
    pub wait_for_leader: bool,
    pub checkpoint_interval_micros: u64,
    pub checkpoint_manifest_ref: Option<String>,
    pub state_backend: &'static str,
    pub start_execution_id: String,
}

fn copied(tasks: &Vec<TaskAssignment>) -> (r: Vec<TaskAssignment>)
    ensures
        r@.len() == tasks@.len(),
        forall|i: int| 0 <= i < r@.len() ==> (#[trigger] r@[i])@ == tasks@[i]@,
{
    let mut r: Vec<TaskAssignment> = Vec::new();
    let mut i: usize = 0;
    while i < tasks.len()
        invariant
            i <= tasks@.len(),
            r@.len() == i,
            forall|j: int| 0 <= j < i ==> (#[trigger] r@[j])@ == tasks@[j]@,
        decreases tasks@.len() - i,
    {
        let task = &tasks[i];
        r.push(
            TaskAssignment {
                task_id: task.task_id,
                subtask_idx: task.subtask_idx,
                worker_id: task.worker_id,
                worker_addr: task.worker_addr.clone(),
                worker_rpc: task.worker_rpc.clone(),
            },
        );
        i = i + 1;
    }
    r
}

/// What `worker` is asked under `start_execution_id`. Only the leader is told it leads; where
/// there is one, everybody waits for it and is told its address.
pub fn start_request(
    plan: &ExecutionPlan,
    worker: WorkerId,
    start_execution_id: String,
) -> (r: StartRequest)
    ensures
        plan.program.same_as(r.program),
        r.restore_epoch == plan.restore_epoch,
        r.start_epoch == plan.start_epoch,
        r.min_epoch == plan.min_epoch,
        r.tasks@.len() == plan.assignments@.len(),
        forall|i: int|
            0 <= i < r.tasks@.len() ==> (#[trigger] r.tasks@[i])@ == plan.assignments@[i]@,
        match plan.leader {
            Some((leader, address)) => {
                &&& r.job_controller_addr matches Some(told) && told@ == address@
                &&& r.is_leader == (leader == worker)
                &&& r.wait_for_leader
            },
            None => r.job_controller_addr is None && !r.is_leader && !r.wait_for_leader,
        },
        r.checkpoint_interval_micros == plan.checkpoint_interval_micros,
        r.checkpoint_manifest_ref is Some <==> plan.checkpoint_manifest_ref is Some,
        r.checkpoint_manifest_ref matches Some(manifest) ==> manifest@
            == plan.checkpoint_manifest_ref->0@,
        r.state_backend@ == plan.state_backend.name(),
        r.start_execution_id@ == start_execution_id@,
{
    let (job_controller_addr, is_leader, wait_for_leader) = match &plan.leader {
        Some((leader, address)) => (Some(address.clone()), *leader == worker, true),
        None => (None, false, false),
    };
    let checkpoint_manifest_ref = match &plan.checkpoint_manifest_ref {
        Some(manifest) => Some(manifest.clone()),
        None => None,
    };
    StartRequest {
        program: plan.program.copied(),
        restore_epoch: plan.restore_epoch,
        start_epoch: plan.start_epoch,
        min_epoch: plan.min_epoch,
        tasks: copied(&plan.assignments),
        job_controller_addr,
        is_leader,
        wait_for_leader,
        checkpoint_interval_micros: plan.checkpoint_interval_micros,
        checkpoint_manifest_ref,
        state_backend: plan.state_backend.as_str(),
        start_execution_id,
    }
}

/// What a worker says it did about a request.
#[derive(Clone, Copy, Debug, PartialEq, Eq, Structural)]
pub enum StartExecutionOutcome {
    Applied,
    FenceAcknowledged,
    Revoked,
}

impl StartExecutionOutcome {
    pub open spec fn name(self) -> Seq<char> {
        match self {
            StartExecutionOutcome::Applied => "Applied"@,
            StartExecutionOutcome::FenceAcknowledged => "FenceAcknowledged"@,
            StartExecutionOutcome::Revoked => "Revoked"@,
        }
    }

    pub fn as_str(self) -> (r: &'static str)
        ensures
            r@ == self.name(),
    {
        match self {
            StartExecutionOutcome::Applied => "Applied",
            StartExecutionOutcome::FenceAcknowledged => "FenceAcknowledged",
            StartExecutionOutcome::Revoked => "Revoked",
        }
    }
}

/// A response read whole: what the worker did, and the fence it reports having observed.
#[derive(Clone, Copy, Debug, PartialEq, Eq, Structural)]
pub struct StartSettlement {
    pub outcome: StartExecutionOutcome,
    pub observed_fence: Option<u64>,
}

/// Whether a transport failure says anything about what the worker did.
#[derive(Clone, Copy, Debug, PartialEq, Eq, Structural)]
pub enum TransportSettlement {
    /// It is the worker's own decision about the request.
    Definitive,
    /// The request may or may not have been applied.
    Ambiguous,
}

/// What came back from one request.
#[derive(Debug, PartialEq, Eq)]
pub enum StartReply {
    /// A response, as it reads, or why it does not.
    Response(Result<StartSettlement, String>),
    /// A failed call, and whether it settles the request.
    Failure { settlement: TransportSettlement, status: String },
}

impl StartReply {
    /// Whether the worker has answered the request one way or the other.
    pub open spec fn is_answer(self) -> bool {
        match self {
            StartReply::Response(_) => true,
            StartReply::Failure { settlement, .. } => settlement == TransportSettlement::Definitive,
        }
    }
}

/// What is reported of a response that starts nothing.
pub open spec fn starts_nothing(outcome: StartExecutionOutcome) -> Seq<char> {
    "it answered "@ + outcome.name()
        + ", which acknowledges a fence rather than starting the execution"@
}

/// Reads a response as "the worker applied the request". Only that starts a worker: one that
/// acknowledged a fence has run nothing, and a response that does not read is no evidence.
pub fn applied_start(response: &Result<StartSettlement, String>) -> (r: Result<Option<u64>, String>)
    ensures
        match *response {
            Err(report) => r matches Err(e) && e@ == report@,
            Ok(settlement) => if settlement.outcome == StartExecutionOutcome::Applied {
                r == Ok::<Option<u64>, String>(settlement.observed_fence)
            } else {
                r matches Err(e) && e@ == starts_nothing(settlement.outcome)
            },
        },
{
    match response {
        Err(report) => Err(report.clone()),
        Ok(settlement) => match settlement.outcome {
            StartExecutionOutcome::Applied => Ok(settlement.observed_fence),
            outcome => {
                let mut report = "it answered ".to_owned();
                report.append(outcome.as_str());
                report.append(", which acknowledges a fence rather than starting the execution");
                Err(report)
            },
        },
    }
}

/// One worker's attempt: the identifier it carries, and how many replies settled nothing.
#[derive(Debug)]
pub struct StartAttempt {
    worker: WorkerId,
    start_execution_id: String,
    unsettled: usize,
}

/// An attempt as a value of the model.
pub struct StartAttemptView {
    pub worker: u64,
    pub id: Seq<char>,
    pub unsettled: nat,
}

impl View for StartAttempt {
    type V = StartAttemptView;

    closed spec fn view(&self) -> StartAttemptView {
        StartAttemptView {
            worker: self.worker.0,
            id: self.start_execution_id@,
            unsettled: self.unsettled as nat,
        }
    }
}

/// The outcome of one worker's attempt. Reading the reply that ends the attempt is the only way to
/// make one.
#[derive(Debug, PartialEq, Eq)]
pub struct SettledAttempt {
    worker: WorkerId,
    start_execution_id: String,
    /// Why the worker did not start, if it did not.
    failure: Option<String>,
}

/// An outcome as a value of the model.
pub struct SettledView {
    pub worker: u64,
    pub id: Seq<char>,
    pub failure: Option<Seq<char>>,
}

impl View for SettledAttempt {
    type V = SettledView;

    closed spec fn view(&self) -> SettledView {
        SettledView {
            worker: self.worker.0,
            id: self.start_execution_id@,
            failure: match self.failure {
                Some(report) => Some(report@),
                None => None,
            },
        }
    }
}

impl SettledAttempt {
    pub fn worker(&self) -> (r: WorkerId)
        ensures
            r.0 == self@.worker,
    {
        self.worker
    }

    /// Why the worker did not start, if it did not.
    pub fn failure(&self) -> (r: Option<&str>)
        ensures
            match self@.failure {
                Some(report) => r matches Some(told) && told@ == report,
                None => r is None,
            },
    {
        match &self.failure {
            Some(report) => Some(report.as_str()),
            None => None,
        }
    }
}

/// What is left to do about an attempt.
#[derive(Debug)]
pub enum StartStep {
    /// The attempt is over.
    Settled(SettledAttempt),
    /// The same request is to be offered again, after the reconciliation pause.
    Retry(StartAttempt),
}

/// A worker as reports name it.
pub open spec fn worker_name(worker: u64) -> Seq<char> {
    "WorkerId("@ + text::decimal_digits(worker as nat) + ")"@
}

pub open spec fn not_applied_report(worker: u64, id: Seq<char>, report: Seq<char>) -> Seq<char> {
    "worker "@ + worker_name(worker) + " did not apply StartExecution "@ + id + ": "@ + report
}

pub open spec fn never_settled_report(
    worker: u64,
    id: Seq<char>,
    unsettled: nat,
    status: Seq<char>,
) -> Seq<char> {
    "worker "@ + worker_name(worker) + " never settled StartExecution "@ + id + " after "@
        + text::decimal_digits(unsettled) + " attempts: "@ + status
}

pub open spec fn failed_report(worker: u64, status: Seq<char>) -> Seq<char> {
    "failed to start execution on worker "@ + worker_name(worker) + ": "@ + status
}

fn named(worker: WorkerId) -> (r: String)
    ensures
        r@ == worker_name(worker.0),
{
    let mut r = "WorkerId(".to_owned();
    let digits = text::decimal(worker.0);
    r.append(digits.as_str());
    r.append(")");
    r
}

/// What an attempt comes to with a reply, or nothing where it is offered again. Only a response
/// that says the request was applied starts the worker.
pub open spec fn concluded(attempt: StartAttemptView, reply: StartReply) -> Option<SettledView> {
    let ended = |failure: Option<Seq<char>>|
        Some(SettledView { worker: attempt.worker, id: attempt.id, failure });
    match reply {
        StartReply::Response(Err(report)) => ended(
            Some(not_applied_report(attempt.worker, attempt.id, report@)),
        ),
        StartReply::Response(Ok(settlement)) => if settlement.outcome
            == StartExecutionOutcome::Applied {
            ended(None)
        } else {
            ended(
                Some(
                    not_applied_report(
                        attempt.worker,
                        attempt.id,
                        starts_nothing(settlement.outcome),
                    ),
                ),
            )
        },
        StartReply::Failure { settlement: TransportSettlement::Definitive, status } => ended(
            Some(failed_report(attempt.worker, status@)),
        ),
        StartReply::Failure { settlement: TransportSettlement::Ambiguous, status } => {
            if gives_up_after(attempt.unsettled + 1) {
                ended(
                    Some(
                        never_settled_report(
                            attempt.worker,
                            attempt.id,
                            attempt.unsettled + 1,
                            status@,
                        ),
                    ),
                )
            } else {
                None
            }
        },
    }
}

impl StartAttempt {
    #[verifier::type_invariant]
    closed spec fn within_budget(self) -> bool {
        self.unsettled <= START_EXECUTION_RECONCILE_ATTEMPTS
    }

    /// The attempt of `worker` under `start_execution_id`, before its first request.
    fn first(worker: WorkerId, start_execution_id: String) -> (r: Self)
        ensures
            r@ == (StartAttemptView { worker: worker.0, id: start_execution_id@, unsettled: 0 }),
    {
        StartAttempt { worker, start_execution_id, unsettled: 0 }
    }

    pub fn worker(&self) -> (r: WorkerId)
        ensures
            r.0 == self@.worker,
    {
        self.worker
    }

    pub fn start_execution_id(&self) -> (r: &str)
        ensures
            r@ == self@.id,
    {
        self.start_execution_id.as_str()
    }

    pub fn unsettled(&self) -> (r: usize)
        ensures
            r == self@.unsettled,
    {
        self.unsettled
    }

    /// The attempt is over.
    fn settled(self, failure: Option<String>) -> (r: StartStep)
        ensures
            r matches StartStep::Settled(settled) && settled@ == (SettledView {
                worker: self@.worker,
                id: self@.id,
                failure: match failure {
                    Some(report) => Some(report@),
                    None => None,
                },
            }),
    {
        StartStep::Settled(
            SettledAttempt {
                worker: self.worker,
                start_execution_id: self.start_execution_id,
                failure,
            },
        )
    }

    /// Reads one reply. An answer is recorded in the ledger, however it reads; a reply that
    /// settles nothing is not, not even where it is the last one the budget allows.
    pub fn on_reply(self, reply: StartReply, ledger: &mut AttemptLedger) -> (r: StartStep)
        ensures
            final(ledger)@ == (if reply.is_answer() {
                old(ledger)@.after(old(ledger)@.answer(self@.worker, self@.id))
            } else {
                old(ledger)@
            }),
            final(ledger).has_owner() == old(ledger).has_owner(),
            match concluded(self@, reply) {
                Some(outcome) => r matches StartStep::Settled(settled) && settled@ == outcome,
                None => r matches StartStep::Retry(again) && again@ == (StartAttemptView {
                    unsettled: self@.unsettled + 1,
                    ..self@
                }),
            },
    {
        proof {
            use_type_invariant(&self);
        }
        match reply {
            StartReply::Response(response) => {
                let _ = ledger.answered(self.worker, self.start_execution_id.as_str());
                match applied_start(&response) {
                    Ok(_observed) => self.settled(None),
                    Err(report) => {
                        let mut e = "worker ".to_owned();
                        let name = named(self.worker);
                        e.append(name.as_str());
                        e.append(" did not apply StartExecution ");
                        e.append(self.start_execution_id.as_str());
                        e.append(": ");
                        e.append(report.as_str());
                        self.settled(Some(e))
                    },
                }
            },
            StartReply::Failure { settlement: TransportSettlement::Ambiguous, status } => {
                let unsettled: usize = self.unsettled + 1;
                if unsettled > START_EXECUTION_RECONCILE_ATTEMPTS {
                    let mut e = "worker ".to_owned();
                    let name = named(self.worker);
                    e.append(name.as_str());
                    e.append(" never settled StartExecution ");
                    e.append(self.start_execution_id.as_str());
                    e.append(" after ");
                    let count = text::decimal(unsettled as u64);
                    e.append(count.as_str());
                    e.append(" attempts: ");
                    e.append(status.as_str());
                    self.settled(Some(e))
                } else {
                    let StartAttempt { worker, start_execution_id, unsettled: _ } = self;
                    StartStep::Retry(StartAttempt { worker, start_execution_id, unsettled })
                }
            },
            StartReply::Failure { settlement: TransportSettlement::Definitive, status } => {
                let _ = ledger.answered(self.worker, self.start_execution_id.as_str());
                let mut e = "failed to start execution on worker ".to_owned();
                let name = named(self.worker);
                e.append(name.as_str());
                e.append(": ");
                e.append(status.as_str());
                self.settled(Some(e))
            },
        }
    }
}

/// Whether an attempt ends once this many replies have settled nothing.
pub open spec fn gives_up_after(unsettled: nat) -> bool {
    unsettled > START_EXECUTION_RECONCILE_ATTEMPTS
}

/// How many unsettled replies an attempt stands at after `replies` of them in a row, or nothing
/// where it has ended.
pub open spec fn still_offered(replies: nat) -> Option<nat>
    decreases replies,
{
    if replies == 0 {
        Some(0)
    } else {
        match still_offered((replies - 1) as nat) {
            Some(unsettled) => if gives_up_after(unsettled + 1) {
                None
            } else {
                Some(unsettled + 1)
            },
            None => None,
        }
    }
}

/// A worker that never settles anything is asked once and then exactly as many times again as
/// the budget allows.
pub proof fn an_unsettled_attempt_ends_with_its_budget(replies: nat)
    ensures
        still_offered(replies) is Some <==> replies <= START_EXECUTION_RECONCILE_ATTEMPTS,
        still_offered(replies) matches Some(unsettled) ==> unsettled == replies,
    decreases replies,
{
    if replies > 0 {
        an_unsettled_attempt_ends_with_its_budget((replies - 1) as nat);
    }
}

/// A reply that is no answer leaves the identifier unaccounted for; an answer accounts for it,
/// whatever it says.
pub proof fn only_an_answer_accounts_for_an_attempt(
    inventory: crate::scheduling::fanout::Inventory,
    worker: u64,
    id: Seq<char>,
)
    requires
        inventory.attempts.contains_key(worker),
        inventory.attempts[worker].id == id,
        inventory.attempts[worker].accounted is None,
    ensures
        inventory.outstanding().contains(worker),
        !inventory.after(inventory.answer(worker, id)).outstanding().contains(worker),
{
}

/// Issues one attempt per worker, recording each identifier before anything is sent under it.
pub fn issue_all(workers: &Vec<WorkerId>, ledger: &mut AttemptLedger) -> (r: Vec<StartAttempt>)
    ensures
        r@.len() == workers@.len(),
        forall|i: int|
            0 <= i < r@.len() ==> {
                &&& (#[trigger] r@[i])@.worker == workers@[i].0
                &&& r@[i]@.unsettled == 0
                &&& minted_by_chance(r@[i]@.id)
            },
        final(ledger)@ == issued_all(old(ledger)@, Seq::new(r@.len(), |i: int| r@[i]@)),
        final(ledger).has_owner() == old(ledger).has_owner(),
{
    let mut r: Vec<StartAttempt> = Vec::new();
    let mut i: usize = 0;
    while i < workers.len()
        invariant
            i <= workers@.len(),
            r@.len() == i,
            forall|j: int|
                0 <= j < i ==> {
                    &&& (#[trigger] r@[j])@.worker == workers@[j].0
                    &&& r@[j]@.unsettled == 0
                    &&& minted_by_chance(r@[j]@.id)
                },
            ledger@ == issued_all(old(ledger)@, Seq::new(r@.len(), |i: int| r@[i]@)),
            ledger.has_owner() == old(ledger).has_owner(),
        decreases workers@.len() - i,
    {
        let worker = workers[i];
        let id = mint_start_execution_id();
        let ghost before = Seq::new(r@.len(), |i: int| r@[i]@);
        ledger.issued(worker, id.as_str());
        r.push(StartAttempt::first(worker, id));
        proof {
            let now = Seq::new(r@.len(), |i: int| r@[i]@);
            assert(now.drop_last() =~= before);
        }
        i = i + 1;
    }
    r
}

/// A ledger after each attempt's identifier was issued, in order.
pub open spec fn issued_all(
    inventory: crate::scheduling::fanout::Inventory,
    attempts: Seq<StartAttemptView>,
) -> crate::scheduling::fanout::Inventory
    decreases attempts.len(),
{
    if attempts.len() == 0 {
        inventory
    } else {
        issued_all(inventory, attempts.drop_last()).with_issued(
            attempts.last().worker,
            attempts.last().id,
        )
    }
}

/// After every attempt of a fan-out has been issued to a worker of its own, the ledger lists each
/// worker's identifier, and every one of them is outstanding.
pub proof fn every_issued_attempt_is_outstanding(
    inventory: crate::scheduling::fanout::Inventory,
    attempts: Seq<StartAttemptView>,
    i: int,
)
    requires
        0 <= i < attempts.len(),
        forall|j: int, k: int|
            0 <= j < k < attempts.len() ==> (#[trigger] attempts[j]).worker != (
            #[trigger] attempts[k]).worker,
    ensures
        issued_all(inventory, attempts).attempts.contains_key(attempts[i].worker),
        issued_all(inventory, attempts).attempts[attempts[i].worker].id == attempts[i].id,
        issued_all(inventory, attempts).outstanding().contains(attempts[i].worker),
    decreases attempts.len(),
{
    if i < attempts.len() - 1 {
        let earlier = attempts.drop_last();
        assert forall|j: int, k: int| 0 <= j < k < earlier.len() implies (
        #[trigger] earlier[j]).worker != (#[trigger] earlier[k]).worker by {
            assert(earlier[j] == attempts[j]);
            assert(earlier[k] == attempts[k]);
        }
        every_issued_attempt_is_outstanding(inventory, earlier, i);
        assert(earlier[i] == attempts[i]);
        assert(attempts[i].worker != attempts[attempts.len() - 1].worker);
    }
}

/// Whether `outcomes` is one outcome for each attempt of `inventory`, under the identifier that was
/// issued to its worker, and nothing else.
pub open spec fn settles_every_attempt(
    inventory: crate::scheduling::fanout::Inventory,
    outcomes: Seq<SettledView>,
) -> bool {
    &&& forall|i: int|
        0 <= i < outcomes.len() ==> {
            &&& inventory.attempts.contains_key((#[trigger] outcomes[i]).worker)
            &&& inventory.attempts[outcomes[i].worker].id == outcomes[i].id
        }
    &&& forall|i: int, j: int|
        0 <= i < j < outcomes.len() ==> (#[trigger] outcomes[i]).worker != (
        #[trigger] outcomes[j]).worker
    &&& outcomes.len() == inventory.attempts.dom().len()
}

/// What the outcomes of a fan-out come to, in the order they came in: the first failure, or every
/// worker that started.
pub open spec fn fan_out_of(outcomes: Seq<SettledView>) -> Result<Seq<u64>, Seq<char>>
    decreases outcomes.len(),
{
    if outcomes.len() == 0 {
        Ok(Seq::empty())
    } else {
        match fan_out_of(outcomes.drop_last()) {
            Err(report) => Err(report),
            Ok(started) => match outcomes.last().failure {
                Some(report) => Err(report),
                None => Ok(started.push(outcomes.last().worker)),
            },
        }
    }
}

/// A fan-out while its requests are out: its ledger, and the outcomes that have come in.
#[derive(Debug)]
pub struct Collection {
    ledger: AttemptLedger,
    outcomes: Vec<SettledAttempt>,
}

impl Collection {
    /// What the fan-out issued, and what has accounted for each identifier.
    pub closed spec fn inventory(self) -> crate::scheduling::fanout::Inventory {
        self.ledger@
    }

    /// Whether the fan-out was issued for a job with a settlement owner.
    pub closed spec fn has_owner(self) -> bool {
        self.ledger.has_owner()
    }

    /// The outcomes that have come in, in that order.
    pub closed spec fn outcomes(self) -> Seq<SettledView> {
        self.outcomes@.map_values(|o: SettledAttempt| o@)
    }

    /// Whether every request of the fan-out has an outcome.
    pub open spec fn complete(self) -> bool {
        settles_every_attempt(self.inventory(), self.outcomes())
    }

    /// A fan-out whose requests have just been issued.
    pub fn begin(ledger: AttemptLedger) -> (r: Self)
        ensures
            r.inventory() == ledger@,
            r.has_owner() == ledger.has_owner(),
            r.outcomes() == Seq::<SettledView>::empty(),
    {
        let r = Collection { ledger, outcomes: Vec::new() };
        assert(r.outcomes() =~= Seq::<SettledView>::empty());
        r
    }

    /// Reads one reply: an answer is recorded in the ledger, and the outcome of an attempt that is
    /// over is kept. Otherwise the attempt is handed back, to be offered again.
    pub fn read(&mut self, attempt: StartAttempt, reply: StartReply) -> (r: Option<StartAttempt>)
        ensures
            final(self).inventory() == (if reply.is_answer() {
                old(self).inventory().after(
                    old(self).inventory().answer(attempt@.worker, attempt@.id),
                )
            } else {
                old(self).inventory()
            }),
            final(self).has_owner() == old(self).has_owner(),
            match concluded(attempt@, reply) {
                Some(outcome) => r is None && final(self).outcomes() == old(self).outcomes().push(
                    outcome,
                ),
                None => {
                    &&& r matches Some(again) && again@ == (StartAttemptView {
                        unsettled: attempt@.unsettled + 1,
                        ..attempt@
                    })
                    &&& final(self).outcomes() == old(self).outcomes()
                },
            },
    {
        match attempt.on_reply(reply, &mut self.ledger) {
            StartStep::Settled(outcome) => {
                let ghost settled = outcome@;
                self.outcomes.push(outcome);
                assert(self.outcomes() =~= old(self).outcomes().push(settled));
                None
            },
            StartStep::Retry(again) => Some(again),
        }
    }

    /// Whether every request of the fan-out has an outcome.
    pub fn is_complete(&self) -> (r: bool)
        ensures
            r == self.complete(),
    {
        let ghost outcomes = self.outcomes();
        let ghost inventory = self.inventory();
        let issued: usize = self.ledger.attempts().issued_count();
        if self.outcomes.len() != issued {
            return false;
        }
        let mut i: usize = 0;
        while i < self.outcomes.len()
            invariant
                i <= self.outcomes@.len(),
                outcomes == self.outcomes(),
                inventory == self.inventory(),
                outcomes.len() == self.outcomes@.len(),
                forall|k: int|
                    0 <= k < outcomes.len() ==> #[trigger] outcomes[k] == self.outcomes@[k]@,
                forall|k: int|
                    0 <= k < i ==> {
                        &&& inventory.attempts.contains_key((#[trigger] outcomes[k]).worker)
                        &&& inventory.attempts[outcomes[k].worker].id == outcomes[k].id
                    },
                forall|k: int, l: int|
                    0 <= k < l < i ==> (#[trigger] outcomes[k]).worker != (
                    #[trigger] outcomes[l]).worker,
            decreases self.outcomes@.len() - i,
        {
            let outcome = &self.outcomes[i];
            assert(outcomes[i as int] == outcome@);
            let issued_here = match self.ledger.attempts().record(outcome.worker) {
                Some(record) => text::same(
                    record.attempt_id.as_str(),
                    outcome.start_execution_id.as_str(),
                ),
                None => false,
            };
            if !issued_here {
                return false;
            }
            let mut j: usize = 0;
            while j < i
                invariant
                    j <= i < self.outcomes@.len(),
                    outcome == self.outcomes@[i as int],
                    outcomes.len() == self.outcomes@.len(),
                    forall|k: int|
                        0 <= k < outcomes.len() ==> #[trigger] outcomes[k] == self.outcomes@[k]@,
                    forall|k: int| 0 <= k < j ==> (#[trigger] outcomes[k]).worker != outcome@.worker,
                    inventory == self.inventory(),
                    outcomes == self.outcomes(),
                decreases i - j,
            {
                assert(outcomes[j as int] == self.outcomes@[j as int]@);
                assert(outcomes[i as int] == outcome@);
                if self.outcomes[j].worker.0 == outcome.worker.0 {
                    return false;
                }
                j = j + 1;
            }
            i = i + 1;
        }
        true
    }

    /// The first failure that came in, or every worker that started.
    pub fn came_to(&self) -> (r: Result<Vec<WorkerId>, String>)
        ensures
            came_to(self.outcomes(), r),
    {
        let ghost outcomes = self.outcomes();
        let mut started: Vec<WorkerId> = Vec::new();
        let mut i: usize = 0;
        proof {
            assert(outcomes.take(0) =~= Seq::empty());
            assert(started@.map_values(|w: WorkerId| w.0) =~= Seq::empty());
        }
        while i < self.outcomes.len()
            invariant
                i <= self.outcomes@.len(),
                outcomes == self.outcomes(),
                outcomes.len() == self.outcomes@.len(),
                forall|k: int|
                    0 <= k < outcomes.len() ==> #[trigger] outcomes[k] == self.outcomes@[k]@,
                fan_out_of(outcomes.take(i as int)) == Ok::<Seq<u64>, Seq<char>>(
                    started@.map_values(|w: WorkerId| w.0),
                ),
            decreases self.outcomes@.len() - i,
        {
            let outcome = &self.outcomes[i];
            assert(outcomes[i as int] == outcome@);
            assert(outcomes.take(i + 1).drop_last() =~= outcomes.take(i as int));
            assert(outcomes.take(i + 1).last() == outcome@);
            match &outcome.failure {
                Some(report) => {
                    let first = report.clone();
                    proof {
                        the_first_failure_stands(outcomes, i + 1);
                    }
                    return Err(first);
                },
                None => {
                    let ghost before = started@;
                    started.push(outcome.worker);
                    assert(started@.map_values(|w: WorkerId| w.0) =~= before.map_values(
                        |w: WorkerId| w.0,
                    ).push(outcome@.worker));
                },
            }
            i = i + 1;
        }
        assert(outcomes.take(outcomes.len() as int) =~= outcomes);
        Ok(started)
    }

    /// What the fan-out issued, as it stands.
    pub fn issued(&self) -> (r: crate::scheduling::fanout::IssuedAttempts)
        ensures
            r@ == self.inventory(),
    {
        self.ledger.snapshot()
    }
}

/// Whether `r` is what a fan-out with these outcomes comes to.
pub open spec fn came_to(outcomes: Seq<SettledView>, r: Result<Vec<WorkerId>, String>) -> bool {
    match fan_out_of(outcomes) {
        Ok(workers) => r matches Ok(started) && started@.map_values(|w: WorkerId| w.0) == workers,
        Err(report) => r matches Err(told) && told@ == report,
    }
}

/// A failure among the first outcomes is what the fan-out comes to, whatever comes in afterwards.
pub proof fn the_first_failure_stands(outcomes: Seq<SettledView>, n: int)
    requires
        0 <= n <= outcomes.len(),
        fan_out_of(outcomes.take(n)) is Err,
    ensures
        fan_out_of(outcomes) == fan_out_of(outcomes.take(n)),
    decreases outcomes.len(),
{
    if n < outcomes.len() {
        let earlier = outcomes.drop_last();
        assert(earlier.take(n) =~= outcomes.take(n));
        the_first_failure_stands(earlier, n);
    } else {
        assert(outcomes.take(n) =~= outcomes);
    }
}

/// A fan-out started exactly where every outcome is a start, and then the workers that started are
/// those whose attempts came in, in that order.
pub proof fn a_fan_out_starts_where_every_attempt_does(outcomes: Seq<SettledView>)
    ensures
        fan_out_of(outcomes) is Ok <==> forall|i: int|
            0 <= i < outcomes.len() ==> (#[trigger] outcomes[i]).failure is None,
        fan_out_of(outcomes) matches Ok(started) ==> started == outcomes.map_values(
            |o: SettledView| o.worker,
        ),
    decreases outcomes.len(),
{
    if outcomes.len() > 0 {
        let earlier = outcomes.drop_last();
        a_fan_out_starts_where_every_attempt_does(earlier);
        assert(forall|i: int| 0 <= i < earlier.len() ==> #[trigger] earlier[i] == outcomes[i]);
        if fan_out_of(outcomes) is Ok {
            assert forall|i: int| 0 <= i < outcomes.len() implies (
            #[trigger] outcomes[i]).failure is None by {
                if i < earlier.len() {
                    assert(earlier[i].failure is None);
                }
            }
            assert(fan_out_of(outcomes)->Ok_0 =~= outcomes.map_values(|o: SettledView| o.worker));
        } else if fan_out_of(earlier) is Err {
            let i = choose|i: int|
                0 <= i < earlier.len() && !((#[trigger] earlier[i]).failure is None);
            assert(outcomes[i].failure is Some);
        } else {
            assert(outcomes[outcomes.len() - 1].failure is Some);
        }
    } else {
        assert(outcomes.map_values(|o: SettledView| o.worker) =~= Seq::empty());
    }
}

/// Once every request has an outcome and none of them failed, the workers that started are the
/// workers that were asked: each of them, once.
pub proof fn a_fan_out_that_started_started_every_target(
    inventory: crate::scheduling::fanout::Inventory,
    outcomes: Seq<SettledView>,
)
    requires
        inventory.attempts.dom().finite(),
        settles_every_attempt(inventory, outcomes),
        fan_out_of(outcomes) is Ok,
    ensures
        fan_out_of(outcomes)->Ok_0.no_duplicates(),
        fan_out_of(outcomes)->Ok_0.to_set() == inventory.attempts.dom(),
{
    a_fan_out_starts_where_every_attempt_does(outcomes);
    let started = fan_out_of(outcomes)->Ok_0;
    assert(forall|i: int| 0 <= i < started.len() ==> #[trigger] started[i] == outcomes[i].worker);
    assert(started.no_duplicates()) by {
        assert forall|i: int, j: int| 0 <= i < started.len() && 0 <= j < started.len() && i
            != j implies started[i] != started[j] by {
            if i < j {
                assert(outcomes[i].worker != outcomes[j].worker);
            } else {
                assert(outcomes[j].worker != outcomes[i].worker);
            }
        }
    }
    started.unique_seq_to_set();
    assert(started.to_set().subset_of(inventory.attempts.dom())) by {
        assert forall|w: u64| started.to_set().contains(w) implies inventory.attempts.dom().contains(
            w,
        ) by {
            let i = choose|i: int| 0 <= i < started.len() && started[i] == w;
            assert(outcomes[i].worker == w);
        }
    }
    vstd::set_lib::lemma_subset_equality(started.to_set(), inventory.attempts.dom());
}

/// Every worker is asked for the same execution, the plan's: its program, its epochs, its tasks in
/// their places, its checkpoint and its state backend. Where somebody leads, everybody waits and is
/// told the leader's address, and exactly the leader is told to lead.
pub proof fn every_worker_is_asked_for_the_plans_execution(
    plan: &ExecutionPlan,
    worker: WorkerId,
    start_execution_id: String,
    r: StartRequest,
)
    requires
        call_ensures(start_request, (plan, worker, start_execution_id), r),
    ensures
        r.start_execution_id@ == start_execution_id@,
        r.program.nodes@ == plan.program.nodes@,
        r.program.task_count == plan.program.task_count,
        r.program.hash@ == plan.program.hash@,
        r.restore_epoch == plan.restore_epoch,
        r.start_epoch == plan.start_epoch,
        r.min_epoch == plan.min_epoch,
        r.checkpoint_interval_micros == plan.checkpoint_interval_micros,
        r.checkpoint_manifest_ref is Some <==> plan.checkpoint_manifest_ref is Some,
        r.checkpoint_manifest_ref is Some ==> r.checkpoint_manifest_ref->0@
            == plan.checkpoint_manifest_ref->0@,
        r.state_backend@ == (match plan.state_backend {
            StateBackendSelector::Parquet => "parquet"@,
            StateBackendSelector::StateEngine => "stateengine"@,
        }),
        r.tasks@.len() == plan.assignments@.len(),
        forall|i: int|
            0 <= i < r.tasks@.len() ==> (#[trigger] r.tasks@[i]).task_id
                == plan.assignments@[i].task_id && r.tasks@[i].subtask_idx
                == plan.assignments@[i].subtask_idx && r.tasks@[i].worker_id
                == plan.assignments@[i].worker_id && r.tasks@[i].worker_addr@
                == plan.assignments@[i].worker_addr@ && r.tasks@[i].worker_rpc@
                == plan.assignments@[i].worker_rpc@,
        r.is_leader <==> plan.leader is Some && (plan.leader->0).0 == worker,
        r.wait_for_leader <==> plan.leader is Some,
        r.job_controller_addr is Some <==> plan.leader is Some,
        r.job_controller_addr is Some ==> r.job_controller_addr->0@ == (plan.leader->0).1@,
{
    assert forall|i: int| 0 <= i < r.tasks@.len() implies {
        &&& (#[trigger] r.tasks@[i]).task_id == plan.assignments@[i].task_id
        &&& r.tasks@[i].subtask_idx == plan.assignments@[i].subtask_idx
        &&& r.tasks@[i].worker_id == plan.assignments@[i].worker_id
        &&& r.tasks@[i].worker_addr@ == plan.assignments@[i].worker_addr@
        &&& r.tasks@[i].worker_rpc@ == plan.assignments@[i].worker_rpc@
    } by {
        assert(r.tasks@[i]@ == plan.assignments@[i]@);
    }
}

/// A worker counts as started exactly where its response reads and says the request was applied.
pub proof fn only_an_applied_request_starts_a_worker(
    response: &Result<StartSettlement, String>,
    r: Result<Option<u64>, String>,
)
    requires
        call_ensures(applied_start, (response,), r),
    ensures
        r is Ok <==> *response is Ok && (*response)->Ok_0.outcome == StartExecutionOutcome::Applied,
        r matches Ok(fence) ==> fence == (*response)->Ok_0.observed_fence,
        *response is Err ==> r->Err_0@ == (*response)->Err_0@,
{
}

/// A request is offered again exactly where its reply settled nothing and fewer than eight replies
/// before it settled nothing either: under the same identifier, to the same worker, one reply
/// later. Any other reply ends the attempt, and only a response that says the request was applied
/// ends it with a start.
pub proof fn a_request_is_offered_again_until_it_is_settled(
    attempt: StartAttempt,
    reply: StartReply,
    ledger: &mut AttemptLedger,
    r: StartStep,
    worker: WorkerId,
    id: &str,
    unsettled: usize,
    again: (WorkerId, &str, usize),
    ended: (WorkerId, Option<&str>),
)
    requires
        call_ensures(StartAttempt::on_reply, (attempt, reply, ledger), r),
        call_ensures(StartAttempt::worker, (&attempt,), worker),
        call_ensures(StartAttempt::start_execution_id, (&attempt,), id),
        call_ensures(StartAttempt::unsettled, (&attempt,), unsettled),
        r matches StartStep::Retry(next) ==> call_ensures(StartAttempt::worker, (&next,), again.0)
            && call_ensures(StartAttempt::start_execution_id, (&next,), again.1) && call_ensures(
            StartAttempt::unsettled,
            (&next,),
            again.2,
        ),
        r matches StartStep::Settled(outcome) ==> call_ensures(
            SettledAttempt::worker,
            (&outcome,),
            ended.0,
        ) && call_ensures(SettledAttempt::failure, (&outcome,), ended.1),
    ensures
        r is Retry <==> reply is Failure && reply->settlement == TransportSettlement::Ambiguous
            && unsettled < 8,
        r is Retry ==> again.0 == worker && again.1@ == id@ && again.2 == unsettled + 1,
        r is Settled ==> ended.0 == worker,
        r is Settled ==> (ended.1 is None <==> reply is Response && reply->Response_0 is Ok
            && reply->Response_0->Ok_0.outcome == StartExecutionOutcome::Applied),
{
}

/// An answer accounts for the identifier it answers, whatever it says, while a reply that settles
/// nothing accounts for nothing; no reply changes any other worker's attempt.
pub proof fn only_an_answer_is_recorded(
    attempt: StartAttempt,
    reply: StartReply,
    ledger: &mut AttemptLedger,
    r: StartStep,
    worker: WorkerId,
    id: &str,
    earlier: &IssuedAttempts,
    later: &IssuedAttempts,
    issued: Option<&AttemptRecord>,
    asked: WorkerId,
    before: Option<&AttemptRecord>,
    after: Option<&AttemptRecord>,
)
    requires
        call_ensures(StartAttempt::on_reply, (attempt, reply, ledger), r),
        call_ensures(StartAttempt::worker, (&attempt,), worker),
        call_ensures(StartAttempt::start_execution_id, (&attempt,), id),
        call_ensures(AttemptLedger::attempts, (&*old(ledger),), earlier),
        call_ensures(AttemptLedger::attempts, (&*final(ledger),), later),
        call_ensures(IssuedAttempts::record, (earlier, worker), issued),
        call_ensures(IssuedAttempts::record, (earlier, asked), before),
        call_ensures(IssuedAttempts::record, (later, asked), after),
    ensures
        after is Some <==> before is Some,
        before is Some ==> after->0.attempt_id@ == before->0.attempt_id@ && after->0.accounted == (
        if asked == worker && issued->0.attempt_id@ == id@ && issued->0.accounted is None && (reply
            is Response || reply->settlement == TransportSettlement::Definitive) {
            Some(Accounting::AuthoritativeResponse)
        } else {
            before->0.accounted
        }),
{
}

proof fn every_issued_attempt_is_on_record(
    inventory: crate::scheduling::fanout::Inventory,
    attempts: Seq<StartAttemptView>,
    w: u64,
)
    ensures
        issued_all(inventory, attempts).attempts.contains_key(w) <==> inventory.attempts.contains_key(
            w,
        ) || exists|i: int| 0 <= i < attempts.len() && (#[trigger] attempts[i]).worker == w,
        (forall|i: int| 0 <= i < attempts.len() ==> (#[trigger] attempts[i]).worker != w)
            ==> issued_all(inventory, attempts).attempts[w] == inventory.attempts[w],
    decreases attempts.len(),
{
    if attempts.len() > 0 {
        let earlier = attempts.drop_last();
        every_issued_attempt_is_on_record(inventory, earlier, w);
        assert(attempts[attempts.len() - 1] == attempts.last());
        assert(forall|i: int| 0 <= i < earlier.len() ==> #[trigger] earlier[i] == attempts[i]);
        if exists|i: int| 0 <= i < earlier.len() && (#[trigger] earlier[i]).worker == w {
            let i = choose|i: int| 0 <= i < earlier.len() && (#[trigger] earlier[i]).worker == w;
            assert(attempts[i].worker == w);
        }
        if exists|i: int| 0 <= i < attempts.len() && (#[trigger] attempts[i]).worker == w {
            let i = choose|i: int| 0 <= i < attempts.len() && (#[trigger] attempts[i]).worker == w;
            if i < earlier.len() {
                assert(earlier[i].worker == w);
            }
        }
    }
}

/// Every worker is issued an attempt of its own, in order, and it is on record before anything is
/// sent: under the identifier the attempt carries, with nothing accounting for it. What other
/// workers were issued stays as it was.
pub proof fn every_attempt_is_on_record_before_it_is_sent(
    workers: &Vec<WorkerId>,
    ledger: &mut AttemptLedger,
    r: Vec<StartAttempt>,
    earlier: &IssuedAttempts,
    later: &IssuedAttempts,
    i: int,
    carried: (WorkerId, &str, usize),
    record: Option<&AttemptRecord>,
    asked: WorkerId,
    before: Option<&AttemptRecord>,
    after: Option<&AttemptRecord>,
)
    requires
        call_ensures(issue_all, (workers, ledger), r),
        forall|j: int, k: int|
            0 <= j < k < workers@.len() ==> (#[trigger] workers@[j]).0 != (#[trigger] workers@[k]).0,
        call_ensures(AttemptLedger::attempts, (&*old(ledger),), earlier),
        call_ensures(AttemptLedger::attempts, (&*final(ledger),), later),
        0 <= i < workers@.len(),
        call_ensures(StartAttempt::worker, (&r@[i],), carried.0),
        call_ensures(StartAttempt::start_execution_id, (&r@[i],), carried.1),
        call_ensures(StartAttempt::unsettled, (&r@[i],), carried.2),
        call_ensures(IssuedAttempts::record, (later, workers@[i]), record),
        call_ensures(IssuedAttempts::record, (earlier, asked), before),
        call_ensures(IssuedAttempts::record, (later, asked), after),
    ensures
        r@.len() == workers@.len(),
        carried.0 == workers@[i],
        carried.1@.len() == 32,
        carried.2 == 0,
        record is Some,
        record->0.attempt_id@ == carried.1@,
        record->0.accounted is None,
        after is Some <==> before is Some || workers@.contains(asked),
        before is Some && !workers@.contains(asked) ==> after->0.attempt_id@
            == before->0.attempt_id@ && after->0.accounted == before->0.accounted,
{
    let views = Seq::new(r@.len(), |k: int| r@[k]@);
    assert forall|j: int, k: int| 0 <= j < k < views.len() implies (#[trigger] views[j]).worker != (
    #[trigger] views[k]).worker by {
        assert(r@[j]@.worker == workers@[j].0);
        assert(r@[k]@.worker == workers@[k].0);
    }
    assert(views[i] == r@[i]@);
    every_issued_attempt_is_outstanding(old(ledger)@, views, i);
    every_issued_attempt_is_on_record(old(ledger)@, views, asked.0);
    assert forall|k: int| 0 <= k < views.len() implies (#[trigger] views[k]).worker
        == workers@[k].0 by {
        assert(r@[k]@.worker == workers@[k].0);
    }
    if workers@.contains(asked) {
        let k = choose|k: int| 0 <= k < workers@.len() && workers@[k] == asked;
        assert(views[k].worker == asked.0);
    }
    if exists|k: int| 0 <= k < views.len() && (#[trigger] views[k]).worker == asked.0 {
        let k = choose|k: int| 0 <= k < views.len() && (#[trigger] views[k]).worker == asked.0;
        assert(workers@[k] == asked);
    }
    let (high, low) = choose|high: u64, low: u64|
        drawn(high) && drawn(low) && carried.1@ == #[trigger] identifier_of(high, low);
    text::padded_width(high as nat, 16, 16);
    text::padded_width(low as nat, 16, 16);
}

/// Two identifiers are the same exactly where both of their numbers are, and each is thirty-two
/// digits long.
pub proof fn an_identifier_is_its_two_numbers(
    high: u64,
    low: u64,
    other_high: u64,
    other_low: u64,
    left: String,
    right: String,
)
    requires
        call_ensures(identifier, (high, low), left),
        call_ensures(identifier, (other_high, other_low), right),
    ensures
        left@ == right@ <==> high == other_high && low == other_low,
        left@.len() == 32,
{
    if left@ == right@ {
        identifiers_tell_numbers_apart(high, low, other_high, other_low);
    }
}

/// What a fan-out comes to grows with what comes in: a start adds its worker, the first failure is
/// what it comes to from then on, and a request that is offered again changes nothing. An attempt is
/// handed back exactly where its reply settled nothing and the budget allows another.
pub proof fn what_a_fan_out_comes_to_grows_with_its_outcomes(
    collection: &mut Collection,
    attempt: StartAttempt,
    reply: StartReply,
    r: Option<StartAttempt>,
    worker: WorkerId,
    unsettled: usize,
    before: Result<Vec<WorkerId>, String>,
    after: Result<Vec<WorkerId>, String>,
)
    requires
        call_ensures(Collection::read, (collection, attempt, reply), r),
        call_ensures(StartAttempt::worker, (&attempt,), worker),
        call_ensures(StartAttempt::unsettled, (&attempt,), unsettled),
        call_ensures(Collection::came_to, (&*old(collection),), before),
        call_ensures(Collection::came_to, (&*final(collection),), after),
    ensures
        r is Some <==> reply is Failure && reply->settlement == TransportSettlement::Ambiguous
            && unsettled < 8,
        before is Err ==> after is Err && after->Err_0@ == before->Err_0@,
        before is Ok && r is Some ==> after is Ok && after->Ok_0@ == before->Ok_0@,
        before is Ok && r is None ==> (after is Ok <==> reply is Response && reply->Response_0
            is Ok && reply->Response_0->Ok_0.outcome == StartExecutionOutcome::Applied),
        before is Ok && r is None && after is Ok ==> after->Ok_0@ == before->Ok_0@.push(worker),
{
    let was = old(collection).outcomes();
    let now = final(collection).outcomes();
    if r is None {
        assert(now.drop_last() =~= was);
    }
    if before is Ok && after is Ok {
        let ids = |w: WorkerId| w.0;
        let started = before->Ok_0@;
        let finished = after->Ok_0@;
        assert(started.map_values(ids) == fan_out_of(was)->Ok_0);
        assert(finished.map_values(ids) == fan_out_of(now)->Ok_0);
        let expected = if r is None {
            started.push(worker)
        } else {
            started
        };
        assert(expected.map_values(ids) =~= finished.map_values(ids));
        assert(finished.len() == expected.len());
        assert forall|i: int| 0 <= i < finished.len() implies finished[i] == expected[i] by {
            assert(finished.map_values(ids)[i] == finished[i].0);
            assert(expected.map_values(ids)[i] == expected[i].0);
        }
        assert(finished =~= expected);
    }
}

/// A fan-out that has just begun came to nothing yet, and is over exactly where it issued nothing.
/// One that is over and came to a start has started every worker it issued an attempt to, each
/// once, and no other.
pub proof fn a_finished_fan_out_started_every_worker_it_asked(
    ledger: AttemptLedger,
    fresh: Collection,
    nothing: Result<Vec<WorkerId>, String>,
    over: bool,
    kept: &IssuedAttempts,
    issued: usize,
    collection: &Collection,
    complete: bool,
    started: Vec<WorkerId>,
    attempts: IssuedAttempts,
    asked: WorkerId,
    record: Option<&AttemptRecord>,
)
    requires
        call_ensures(Collection::begin, (ledger,), fresh),
        call_ensures(Collection::came_to, (&fresh,), nothing),
        call_ensures(Collection::is_complete, (&fresh,), over),
        call_ensures(AttemptLedger::attempts, (&ledger,), kept),
        call_ensures(IssuedAttempts::issued_count, (kept,), issued),
        call_ensures(Collection::is_complete, (collection,), complete),
        complete,
        call_ensures(Collection::came_to, (collection,), Ok(started)),
        call_ensures(Collection::issued, (collection,), attempts),
        call_ensures(IssuedAttempts::record, (&attempts, asked), record),
    ensures
        nothing is Ok && nothing->Ok_0@.len() == 0,
        over <==> issued == 0,
        started@.contains(asked) <==> record is Some,
        started@.no_duplicates(),
{
    let ids = |w: WorkerId| w.0;
    assert(nothing->Ok_0@.map_values(ids).len() == nothing->Ok_0@.len());
    let inventory = collection.inventory();
    attempts.is_finite();
    a_fan_out_that_started_started_every_target(inventory, collection.outcomes());
    let workers = started@.map_values(ids);
    assert(workers == fan_out_of(collection.outcomes())->Ok_0);
    assert(forall|i: int| 0 <= i < started@.len() ==> #[trigger] workers[i] == started@[i].0);
    if started@.contains(asked) {
        let i = choose|i: int| 0 <= i < started@.len() && started@[i] == asked;
        assert(workers[i] == asked.0);
        assert(workers.to_set().contains(asked.0));
    }
    if record is Some {
        assert(workers.to_set().contains(asked.0));
        let i = choose|i: int| 0 <= i < workers.len() && workers[i] == asked.0;
        assert(started@[i] == asked);
    }
    assert forall|i: int, j: int|
        0 <= i < started@.len() && 0 <= j < started@.len() && i != j implies started@[i]
        != started@[j] by {
        assert(workers[i] != workers[j]);
    }
}

/// A fan-out is over exactly where every worker it issued an attempt to has one outcome, under the
/// identifier it was issued, and nobody else has any.
pub proof fn a_fan_out_is_over_when_every_attempt_has_one_outcome(
    collection: &Collection,
    over: bool,
    attempts: IssuedAttempts,
)
    requires
        call_ensures(Collection::is_complete, (collection,), over),
        call_ensures(Collection::issued, (collection,), attempts),
    ensures
        over <==> {
            &&& forall|w: u64| #[trigger]
                attempts@.attempts.contains_key(w) <==> exists|i: int|
                    0 <= i < collection.outcomes().len() && (
                    #[trigger] collection.outcomes()[i]).worker == w
            &&& forall|i: int|
                0 <= i < collection.outcomes().len() ==> (#[trigger] collection.outcomes()[i]).id
                    == attempts@.attempts[collection.outcomes()[i].worker].id
            &&& forall|i: int, j: int|
                0 <= i < j < collection.outcomes().len() ==> (
                #[trigger] collection.outcomes()[i]).worker != (
                #[trigger] collection.outcomes()[j]).worker
        },
{
    let outcomes = collection.outcomes();
    let issued = attempts@.attempts;
    attempts.is_finite();
    let workers = outcomes.map_values(|o: SettledView| o.worker);
    assert(forall|i: int| 0 <= i < outcomes.len() ==> #[trigger] workers[i] == outcomes[i].worker);
    let each_once = forall|i: int, j: int|
        0 <= i < j < outcomes.len() ==> (#[trigger] outcomes[i]).worker != (
        #[trigger] outcomes[j]).worker;
    if each_once {
        assert(workers.no_duplicates()) by {
            assert forall|i: int, j: int| 0 <= i < workers.len() && 0 <= j < workers.len() && i
                != j implies workers[i] != workers[j] by {
                if i < j {
                    assert(outcomes[i].worker != outcomes[j].worker);
                } else {
                    assert(outcomes[j].worker != outcomes[i].worker);
                }
            }
        }
        workers.unique_seq_to_set();
    }
    if over {
        assert(workers.to_set().subset_of(issued.dom())) by {
            assert forall|w: u64| workers.to_set().contains(w) implies issued.dom().contains(w) by {
                let i = choose|i: int| 0 <= i < workers.len() && workers[i] == w;
                assert(issued.contains_key(outcomes[i].worker));
            }
        }
        vstd::set_lib::lemma_subset_equality(workers.to_set(), issued.dom());
        assert forall|w: u64| #[trigger] issued.contains_key(w) <==> exists|i: int|
            0 <= i < outcomes.len() && (#[trigger] outcomes[i]).worker == w by {
            if issued.contains_key(w) {
                assert(workers.to_set().contains(w));
                let i = choose|i: int| 0 <= i < workers.len() && workers[i] == w;
                assert(outcomes[i].worker == w);
            }
            if exists|i: int| 0 <= i < outcomes.len() && (#[trigger] outcomes[i]).worker == w {
                let i = choose|i: int|
                    0 <= i < outcomes.len() && (#[trigger] outcomes[i]).worker == w;
                assert(issued.contains_key(outcomes[i].worker));
            }
        }
    } else if each_once && (forall|w: u64| #[trigger]
        issued.contains_key(w) <==> exists|i: int|
            0 <= i < outcomes.len() && (#[trigger] outcomes[i]).worker == w) {
        assert(workers.to_set() =~= issued.dom()) by {
            assert forall|w: u64| workers.to_set().contains(w) <==> issued.dom().contains(w) by {
                if workers.to_set().contains(w) {
                    let i = choose|i: int| 0 <= i < workers.len() && workers[i] == w;
                    assert(outcomes[i].worker == w);
                    assert(issued.contains_key(w));
                }
                if issued.dom().contains(w) {
                    assert(issued.contains_key(w));
                    let i = choose|i: int|
                        0 <= i < outcomes.len() && (#[trigger] outcomes[i]).worker == w;
                    assert(workers[i] == w);
                }
            }
        }
        assert forall|i: int| 0 <= i < outcomes.len() implies issued.contains_key(
            (#[trigger] outcomes[i]).worker,
        ) by {
            assert(workers[i] == outcomes[i].worker);
            assert(workers.to_set().contains(workers[i]));
        }
    }
}

} // verus!
