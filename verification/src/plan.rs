//! Scenarios as data: a scenario is a list of steps, and what the steps do to
//! the accounts of a run is followed by a small model.
//!
//! The model knows how many buffers have been staged and which of them are
//! used up, whether the program of the run has been deployed or closed,
//! whether the nonce account holds a value that may still be signed over, and
//! whether a signed transaction waits to be submitted. It refuses a step that
//! cannot be carried out in the state it has reached, and it says of each
//! operation whether the ledger has to reject it: it has to reject whatever
//! acts on a program that is closed.

use crate::slots::barrier_passed;
use vstd::prelude::*;

verus! {

/// An operation that takes one transaction.
#[derive(Clone, Copy, Debug, PartialEq, Eq, Structural)]
pub enum Operation {
    /// Deploys a program under a fresh identity from the buffer of this number.
    Deploy { buffer: usize },
    /// Deploys onto the program of the run once more, from the buffer of this
    /// number.
    Redeploy { buffer: usize },
    /// Replaces the code of the program by what the buffer of this number holds.
    Upgrade { buffer: usize },
    /// Invokes the program on a fresh scratch account.
    Invoke,
    /// Closes the program.
    Close,
    /// Creates the nonce account of the run, funded with this many lamports.
    CreateNonceAccount { lamports: u64 },
    /// Creates a fresh account that belongs to the system program.
    OpenAccount,
}

/// What a transaction is signed over.
#[derive(Clone, Copy, Debug, PartialEq, Eq, Structural)]
pub enum BlockhashSource {
    /// The latest blockhash of the ledger.
    Latest,
    /// The value that the nonce account of the run stores.
    Nonce,
}

/// How a transaction is handed to the ledger.
#[derive(Clone, Copy, Debug, PartialEq, Eq, Structural)]
pub enum Submission {
    /// Submit and wait until the ledger confirms; the run ends if it does not.
    Confirm,
    /// Submit without simulation and without waiting; the run ends if the
    /// transaction cannot be handed over.
    Send,
    /// Submit without simulation and without waiting, and go on whatever
    /// comes back.
    Attempt,
}

/// One step of a scenario.
#[derive(Clone, Copy, Debug, PartialEq, Eq, Structural)]
pub enum Step {
    /// Stage the program in a fresh buffer account. Buffers are numbered from
    /// 0 in the order in which they are staged.
    SetUpBuffer,
    /// Hold back until the slot height has moved on by this many slots.
    WaitSlots { slots: u64 },
    /// Build the instructions of an operation and sign the transaction.
    Assemble { operation: Operation, blockhash: BlockhashSource },
    /// Hand the transaction that was signed last to the ledger.
    Submit { submission: Submission },
    /// Read the value that the nonce account stores.
    ReadNonce,
}

/// What is known of the program of the run.
#[derive(Clone, Copy, Debug, PartialEq, Eq, Structural)]
pub enum ProgramPhase {
    /// No deployment has been submitted.
    NotDeployed,
    /// A deployment has been submitted, and no close has been confirmed since.
    Live,
    /// The ledger has confirmed that the program is closed.
    Closed,
}

/// What is known of the nonce account of the run.
#[derive(Clone, Copy, Debug, PartialEq, Eq, Structural)]
pub enum NonceStatus {
    /// Its creation has not been submitted.
    NoAccount,
    /// It has not been read since it was created.
    Unread,
    /// The value that was read last has not been signed over and submitted.
    Fresh,
    /// A transaction signed over the value that was read last has been
    /// submitted.
    Spent,
}

/// What to expect of a transaction once the ledger has it.
#[derive(Clone, Copy, Debug, PartialEq, Eq, Structural)]
pub enum Expectation {
    /// Nothing is laid down.
    Open,
    /// The ledger has to reject it.
    Rejection,
}

/// A signed transaction that waits to be submitted.
#[derive(Clone, Copy, Debug, PartialEq, Eq, Structural)]
pub struct Pending {
    pub operation: Operation,
    pub blockhash: BlockhashSource,
    pub expectation: Expectation,
}

/// Why a step cannot be carried out where it stands.
#[derive(Clone, Copy, Debug, PartialEq, Eq, Structural)]
pub enum PlanDefect {
    /// The buffer has not been staged, or an operation has used it up.
    BufferUnavailable,
    /// The operation needs the program of the run, and none has been deployed.
    NoProgram,
    /// The transaction is to be signed over the nonce, and the nonce account
    /// holds no value that may still be signed over.
    NoFreshNonce,
    /// The nonce account is to be read before its creation was submitted.
    NoNonceAccount,
    /// A transaction is to be signed while another one waits to be submitted.
    TransactionPending,
    /// There is no signed transaction to submit.
    NothingToSubmit,
}

/// The state that a run has reached, as far as the steps depend on it.
pub struct Stage {
    /// One entry for each buffer staged: whether an operation has used it up.
    pub consumed: Vec<bool>,
    pub phase: ProgramPhase,
    pub nonce: NonceStatus,
    pub pending: Option<Pending>,
}

/// A [`Stage`] as a mathematical value.
pub struct StageView {
    pub consumed: Seq<bool>,
    pub phase: ProgramPhase,
    pub nonce: NonceStatus,
    pub pending: Option<Pending>,
}

impl View for Stage {
    type V = StageView;

    open spec fn view(&self) -> StageView {
        StageView {
            consumed: self.consumed@,
            phase: self.phase,
            nonce: self.nonce,
            pending: self.pending,
        }
    }
}

/// Whether `operation` acts on the program that the run has deployed: it
/// upgrades it, deploys onto it once more, or invokes it.
pub open spec fn acts_on_program(operation: Operation) -> bool {
    operation is Upgrade || operation is Redeploy || operation is Invoke
}

/// What to expect of `operation` when the program is in `phase`: the ledger
/// has to reject an upgrade, a renewed deployment and an invocation of a
/// closed program.
pub open spec fn expectation_of(phase: ProgramPhase, operation: Operation) -> Expectation {
    if phase == ProgramPhase::Closed && acts_on_program(operation) {
        Expectation::Rejection
    } else {
        Expectation::Open
    }
}

/// The buffer that `operation` takes its code from, if it takes any.
pub open spec fn buffer_of(operation: Operation) -> Option<usize> {
    match operation {
        Operation::Deploy { buffer } => Some(buffer),
        Operation::Redeploy { buffer } => Some(buffer),
        Operation::Upgrade { buffer } => Some(buffer),
        _ => None,
    }
}

/// Whether `operation` acts on a program that has been deployed before.
pub open spec fn needs_program(operation: Operation) -> bool {
    operation is Redeploy || operation is Upgrade || operation is Invoke || operation is Close
}

/// Whether `buffer`, if it names one, has been staged and is not used up.
pub open spec fn available(consumed: Seq<bool>, buffer: Option<usize>) -> bool {
    match buffer {
        Some(number) => number < consumed.len() && !consumed[number as int],
        None => true,
    }
}

/// The buffers after an operation has used up `buffer`, if it names one.
pub open spec fn used_up(consumed: Seq<bool>, buffer: Option<usize>) -> Seq<bool> {
    match buffer {
        Some(number) => if number < consumed.len() {
            consumed.update(number as int, true)
        } else {
            consumed
        },
        None => consumed,
    }
}

impl StageView {
    /// The state in which every run begins.
    pub open spec fn initial() -> StageView {
        StageView {
            consumed: Seq::empty(),
            phase: ProgramPhase::NotDeployed,
            nonce: NonceStatus::NoAccount,
            pending: None,
        }
    }

    /// What stands against signing a transaction of `operation` over
    /// `blockhash` in this state, if anything does.
    pub open spec fn defect_of(self, operation: Operation, blockhash: BlockhashSource) -> Option<
        PlanDefect,
    > {
        if self.pending is Some {
            Some(PlanDefect::TransactionPending)
        } else if needs_program(operation) && self.phase == ProgramPhase::NotDeployed {
            Some(PlanDefect::NoProgram)
        } else if !available(self.consumed, buffer_of(operation)) {
            Some(PlanDefect::BufferUnavailable)
        } else if blockhash == BlockhashSource::Nonce && self.nonce != NonceStatus::Fresh {
            Some(PlanDefect::NoFreshNonce)
        } else {
            None
        }
    }

    /// The state after the transaction `pending` has been submitted in the way
    /// `submission`. A transaction that the ledger has to reject changes
    /// nothing; a close counts once it is confirmed.
    pub open spec fn submitted(self, pending: Pending, submission: Submission) -> StageView {
        let effective = pending.expectation == Expectation::Open;
        StageView {
            consumed: if effective {
                used_up(self.consumed, buffer_of(pending.operation))
            } else {
                self.consumed
            },
            phase: if effective && pending.operation is Deploy {
                ProgramPhase::Live
            } else if effective && pending.operation is Close && submission
                == Submission::Confirm {
                ProgramPhase::Closed
            } else {
                self.phase
            },
            nonce: if pending.blockhash == BlockhashSource::Nonce {
                NonceStatus::Spent
            } else if effective && pending.operation is CreateNonceAccount {
                NonceStatus::Unread
            } else {
                self.nonce
            },
            pending: None,
        }
    }

    /// The state after `step`, or what stands against the step.
    pub open spec fn after(self, step: Step) -> Result<StageView, PlanDefect> {
        match step {
            Step::SetUpBuffer => Ok(StageView { consumed: self.consumed.push(false), ..self }),
            Step::WaitSlots { slots } => Ok(self),
            Step::Assemble { operation, blockhash } => match self.defect_of(operation, blockhash) {
                Some(defect) => Err(defect),
                None => Ok(
                    StageView {
                        pending: Some(
                            Pending {
                                operation,
                                blockhash,
                                expectation: expectation_of(self.phase, operation),
                            },
                        ),
                        ..self
                    },
                ),
            },
            Step::Submit { submission } => match self.pending {
                None => Err(PlanDefect::NothingToSubmit),
                Some(pending) => Ok(self.submitted(pending, submission)),
            },
            Step::ReadNonce => if self.nonce == NonceStatus::NoAccount {
                Err(PlanDefect::NoNonceAccount)
            } else {
                Ok(StageView { nonce: NonceStatus::Fresh, ..self })
            },
        }
    }
}

/// The state after the first `n` steps of `plan`, or what stands against the
/// first step among them that cannot be carried out.
pub open spec fn stage_after(plan: Seq<Step>, n: int) -> Result<StageView, PlanDefect>
    decreases n,
{
    if n <= 0 {
        Ok(StageView::initial())
    } else {
        match stage_after(plan, n - 1) {
            Ok(stage) => stage.after(plan[n - 1]),
            Err(defect) => Err(defect),
        }
    }
}

/// Whether every step of `plan` can be carried out where it stands, and no
/// signed transaction is left over at the end.
pub open spec fn valid_plan(plan: Seq<Step>) -> bool {
    stage_after(plan, plan.len() as int) matches Ok(stage) && stage.pending is None
}

/// What to expect of `operation` when the program is in `phase`.
pub fn expect(phase: ProgramPhase, operation: &Operation) -> (expectation: Expectation)
    ensures
        expectation == expectation_of(phase, *operation),
{
    let aims_at_program = match operation {
        Operation::Upgrade { .. } => true,
        Operation::Redeploy { .. } => true,
        Operation::Invoke => true,
        _ => false,
    };
    if phase == ProgramPhase::Closed && aims_at_program {
        Expectation::Rejection
    } else {
        Expectation::Open
    }
}

/// The buffer that `operation` takes its code from, if it takes any.
pub fn buffer_used(operation: &Operation) -> (buffer: Option<usize>)
    ensures
        buffer == buffer_of(*operation),
{
    match operation {
        Operation::Deploy { buffer } => Some(*buffer),
        Operation::Redeploy { buffer } => Some(*buffer),
        Operation::Upgrade { buffer } => Some(*buffer),
        _ => None,
    }
}

impl Stage {
    /// The state in which every run begins.
    pub fn new() -> (stage: Stage)
        ensures
            stage@ == StageView::initial(),
    {
        Stage {
            consumed: Vec::new(),
            phase: ProgramPhase::NotDeployed,
            nonce: NonceStatus::NoAccount,
            pending: None,
        }
    }

    /// What stands against signing a transaction of `operation` over
    /// `blockhash` in this state, if anything does.
    pub fn defect(&self, operation: &Operation, blockhash: BlockhashSource) -> (defect: Option<
        PlanDefect,
    >)
        ensures
            defect == self@.defect_of(*operation, blockhash),
    {
        let needs = match operation {
            Operation::Redeploy { .. } => true,
            Operation::Upgrade { .. } => true,
            Operation::Invoke => true,
            Operation::Close => true,
            _ => false,
        };
        if self.pending.is_some() {
            return Some(PlanDefect::TransactionPending);
        }
        if needs && self.phase == ProgramPhase::NotDeployed {
            return Some(PlanDefect::NoProgram);
        }
        if let Some(buffer) = buffer_used(operation) {
            if !(buffer < self.consumed.len() && !self.consumed[buffer]) {
                return Some(PlanDefect::BufferUnavailable);
            }
        }
        if blockhash == BlockhashSource::Nonce && self.nonce != NonceStatus::Fresh {
            return Some(PlanDefect::NoFreshNonce);
        }
        None
    }

    /// Carries out `step` on the state, or says what stands against it and
    /// leaves the state as it was.
    pub fn advance(&mut self, step: &Step) -> (outcome: Result<(), PlanDefect>)
        ensures
            match old(self)@.after(*step) {
                Ok(stage) => outcome is Ok && final(self)@ == stage,
                Err(defect) => outcome == Err::<(), PlanDefect>(defect) && final(self)@ == old(
                    self,
                )@,
            },
    {
        match step {
            Step::SetUpBuffer => {
                self.consumed.push(false);
                Ok(())
            },
            Step::WaitSlots { .. } => Ok(()),
            Step::Assemble { operation, blockhash } => {
                match self.defect(operation, *blockhash) {
                    Some(defect) => Err(defect),
                    None => {
                        self.pending = Some(
                            Pending {
                                operation: *operation,
                                blockhash: *blockhash,
                                expectation: expect(self.phase, operation),
                            },
                        );
                        Ok(())
                    },
                }
            },
            Step::Submit { submission } => {
                let pending = match self.pending {
                    None => {
                        return Err(PlanDefect::NothingToSubmit);
                    },
                    Some(pending) => pending,
                };
                let effective = pending.expectation == Expectation::Open;
                if effective {
                    if let Some(buffer) = buffer_used(&pending.operation) {
                        if buffer < self.consumed.len() {
                            self.consumed.set(buffer, true);
                        }
                    }
                    match pending.operation {
                        Operation::Deploy { .. } => {
                            self.phase = ProgramPhase::Live;
                        },
                        Operation::Close => {
                            if *submission == Submission::Confirm {
                                self.phase = ProgramPhase::Closed;
                            }
                        },
                        Operation::CreateNonceAccount { .. } => {
                            if pending.blockhash != BlockhashSource::Nonce {
                                self.nonce = NonceStatus::Unread;
                            }
                        },
                        _ => {},
                    }
                }
                if pending.blockhash == BlockhashSource::Nonce {
                    self.nonce = NonceStatus::Spent;
                }
                self.pending = None;
                Ok(())
            },
            Step::ReadNonce => {
                if self.nonce == NonceStatus::NoAccount {
                    Err(PlanDefect::NoNonceAccount)
                } else {
                    self.nonce = NonceStatus::Fresh;
                    Ok(())
                }
            },
        }
    }
}

/// The state after the first `n` steps depends on those steps alone.
pub proof fn lemma_stage_of_prefix(plan: Seq<Step>, other: Seq<Step>, n: int)
    requires
        0 <= n <= plan.len(),
        n <= other.len(),
        forall|i: int| 0 <= i < n ==> plan[i] == other[i],
    ensures
        stage_after(plan, n) == stage_after(other, n),
    decreases n,
{
    if n > 0 {
        lemma_stage_of_prefix(plan, other, n - 1);
    }
}

/// Where a plan cannot be carried out, and why.
#[derive(Clone, Copy, Debug, PartialEq, Eq, Structural)]
pub struct PlanError {
    /// The number of the step that cannot be carried out; the length of the
    /// plan where a signed transaction is left over at its end.
    pub step: usize,
    pub defect: PlanDefect,
}

/// Whether `error` names the first step of `plan` that cannot be carried out,
/// with what stands against it, or, where every step can, the transaction that
/// is left over at the end.
pub open spec fn first_defect(plan: Seq<Step>, error: PlanError) -> bool {
    &&& error.step <= plan.len()
    &&& stage_after(plan, error.step as int) is Ok
    &&& if error.step < plan.len() {
        stage_after(plan, error.step + 1) == Err::<StageView, PlanDefect>(error.defect)
    } else {
        stage_after(plan, error.step as int)->Ok_0.pending is Some && error.defect
            == PlanDefect::TransactionPending
    }
}

/// Checks that every step of `plan` can be carried out where it stands.
pub fn check_plan(plan: &Vec<Step>) -> (verdict: Result<(), PlanError>)
    ensures
        verdict is Ok <==> valid_plan(plan@),
        verdict matches Err(error) ==> first_defect(plan@, error),
{
    let mut stage = Stage::new();
    let mut i: usize = 0;
    while i < plan.len()
        invariant
            i <= plan.len(),
            stage_after(plan@, i as int) == Ok::<StageView, PlanDefect>(stage@),
        decreases plan.len() - i,
    {
        match stage.advance(&plan[i]) {
            Ok(_) => {},
            Err(defect) => {
                proof {
                    lemma_defect_stays(plan@, i + 1, plan@.len() as int);
                }
                return Err(PlanError { step: i, defect });
            },
        }
        i += 1;
    }
    if stage.pending.is_some() {
        Err(PlanError { step: i, defect: PlanDefect::TransactionPending })
    } else {
        Ok(())
    }
}

/// Once a step cannot be carried out, no later state is reached.
pub proof fn lemma_defect_stays(plan: Seq<Step>, n: int, m: int)
    requires
        0 <= n <= m,
        stage_after(plan, n) is Err,
    ensures
        stage_after(plan, m) == stage_after(plan, n),
    decreases m - n,
{
    if n < m {
        lemma_defect_stays(plan, n, m - 1);
    }
}

/// The slots that `step` holds a run back for.
pub open spec fn wait_of(step: Step) -> int {
    match step {
        Step::WaitSlots { slots } => slots as int,
        _ => 0,
    }
}

/// The slots that the steps `from..to` of `plan` together hold a run back for.
pub open spec fn barrier_between(plan: Seq<Step>, from: int, to: int) -> int
    decreases to - from,
{
    if to <= from {
        0
    } else {
        barrier_between(plan, from, to - 1) + wait_of(plan[to - 1])
    }
}

/// The slots that the steps `from..to` of `plan` together hold a run back for,
/// or the largest number there is where they are more.
pub fn barrier(plan: &Vec<Step>, from: usize, to: usize) -> (slots: u64)
    requires
        from <= to <= plan.len(),
    ensures
        slots == if barrier_between(plan@, from as int, to as int) > u64::MAX {
            u64::MAX as int
        } else {
            barrier_between(plan@, from as int, to as int)
        },
{
    let mut slots: u64 = 0;
    let mut t: usize = from;
    while t < to
        invariant
            from <= t <= to <= plan.len(),
            barrier_between(plan@, from as int, t as int) >= 0,
            slots == if barrier_between(plan@, from as int, t as int) > u64::MAX {
                u64::MAX as int
            } else {
                barrier_between(plan@, from as int, t as int)
            },
        decreases to - t,
    {
        match plan[t] {
            Step::WaitSlots { slots: more } => {
                slots = if more > u64::MAX - slots {
                    u64::MAX
                } else {
                    slots + more
                };
            },
            _ => {},
        }
        t += 1;
    }
    slots
}

/// Whether `heights` can be the slot heights of a run of `plan`: the height
/// before the first step, and after each step the height that the run has
/// then reached. Each wait has passed its barrier, and no step has moved the
/// height back.
pub open spec fn heights_respect_waits(plan: Seq<Step>, heights: Seq<u64>) -> bool {
    &&& heights.len() == plan.len() + 1
    &&& forall|t: int|
        0 <= t < plan.len() ==> barrier_passed(
            #[trigger] heights[t],
            wait_of(plan[t]) as u64,
            heights[t + 1],
        )
}

/// The heights of the run that begins at `start` and in which every wait ends
/// as soon as it may.
pub open spec fn earliest_heights(plan: Seq<Step>, start: u64) -> Seq<u64> {
    Seq::new((plan.len() + 1) as nat, |t: int| (start + barrier_between(plan, 0, t)) as u64)
}

/// The waits of `from..to` are those of `from..mid` and those of `mid..to`.
pub proof fn lemma_barrier_splits(plan: Seq<Step>, from: int, mid: int, to: int)
    requires
        from <= mid <= to,
    ensures
        barrier_between(plan, from, to) == barrier_between(plan, from, mid) + barrier_between(
            plan,
            mid,
            to,
        ),
    decreases to - mid,
{
    if mid < to {
        lemma_barrier_splits(plan, from, mid, to - 1);
    }
}

/// Waits hold a run back, never forth.
pub proof fn lemma_barrier_is_not_negative(plan: Seq<Step>, from: int, to: int)
    ensures
        barrier_between(plan, from, to) >= 0,
    decreases to - from,
{
    if from < to {
        lemma_barrier_is_not_negative(plan, from, to - 1);
    }
}

/// Between two points of a run the slot height moves on by at least the slots
/// of the waits that lie between them.
pub proof fn lemma_gap_is_at_least_barrier(plan: Seq<Step>, heights: Seq<u64>, from: int, to: int)
    requires
        heights_respect_waits(plan, heights),
        0 <= from <= to <= plan.len(),
    ensures
        heights[to] - heights[from] >= barrier_between(plan, from, to),
    decreases to - from,
{
    if from < to {
        lemma_gap_is_at_least_barrier(plan, heights, from, to - 1);
        assert(barrier_passed(heights[to - 1], wait_of(plan[to - 1]) as u64, heights[to - 1 + 1]));
    }
}

/// The bound is met: in the run in which every wait ends as soon as it may,
/// the slot height moves on between two points by exactly the slots of the
/// waits between them, and so by none where no wait lies between.
pub proof fn lemma_gap_may_equal_barrier(plan: Seq<Step>, start: u64, from: int, to: int)
    requires
        start + barrier_between(plan, 0, plan.len() as int) <= u64::MAX,
        0 <= from <= to <= plan.len(),
    ensures
        heights_respect_waits(plan, earliest_heights(plan, start)),
        earliest_heights(plan, start)[to] - earliest_heights(plan, start)[from]
            == barrier_between(plan, from, to),
{
    let heights = earliest_heights(plan, start);
    let n = plan.len() as int;
    assert forall|t: int| 0 <= t <= n implies #[trigger] heights[t] == start + barrier_between(
        plan,
        0,
        t,
    ) by {
        lemma_barrier_splits(plan, 0, t, n);
        lemma_barrier_is_not_negative(plan, 0, t);
        lemma_barrier_is_not_negative(plan, t, n);
    }
    assert forall|t: int| 0 <= t < n implies barrier_passed(
        #[trigger] heights[t],
        wait_of(plan[t]) as u64,
        heights[t + 1],
    ) by {
        assert(heights[t + 1] == start + barrier_between(plan, 0, t + 1));
    }
    lemma_barrier_splits(plan, 0, from, to);
}

/// Whether step `t` of `plan` submits the deployment of a program under a
/// fresh identity, after which the program of the run is another one.
pub open spec fn deploys_afresh(plan: Seq<Step>, t: int) -> bool {
    &&& plan[t] is Submit
    &&& stage_after(plan, t) matches Ok(stage)
    &&& stage.pending matches Some(pending)
    &&& pending.operation is Deploy
}

/// Whether step `t` of `plan` has the ledger confirm that the program is closed.
pub open spec fn confirms_close(plan: Seq<Step>, t: int) -> bool {
    &&& plan[t] == Step::Submit { submission: Submission::Confirm }
    &&& stage_after(plan, t) matches Ok(stage)
    &&& stage.pending matches Some(pending)
    &&& pending.operation is Close
}

/// Whether `step` signs an upgrade, a renewed deployment or an invocation of
/// the program.
pub open spec fn aims_at_deployed_program(step: Step) -> bool {
    match step {
        Step::Assemble { operation, .. } => acts_on_program(operation),
        _ => false,
    }
}

/// Whether two plans are the same but for the lengths of their waits.
pub open spec fn same_but_for_waits(plan: Seq<Step>, other: Seq<Step>) -> bool {
    &&& plan.len() == other.len()
    &&& forall|t: int|
        0 <= t < plan.len() ==> #[trigger] plan[t] == other[t] || (plan[t] is WaitSlots
            && other[t] is WaitSlots)
}

/// Only an operation on the program of the run is ever expected to be
/// rejected.
pub proof fn lemma_rejection_is_for_closed_program(plan: Seq<Step>, n: int)
    requires
        0 <= n,
        stage_after(plan, n) is Ok,
        stage_after(plan, n)->Ok_0.pending is Some,
    ensures
        ({
            let pending = stage_after(plan, n)->Ok_0.pending->0;
            pending.expectation == Expectation::Rejection ==> acts_on_program(pending.operation)
        }),
    decreases n,
{
    if n > 0 {
        if stage_after(plan, n - 1) is Err {
            lemma_defect_stays(plan, n - 1, n);
        }
        let before = stage_after(plan, n - 1)->Ok_0;
        if !(plan[n - 1] is Assemble) && !(plan[n - 1] is Submit) {
            assert(before.pending == stage_after(plan, n)->Ok_0.pending);
            lemma_rejection_is_for_closed_program(plan, n - 1);
        }
    }
}

/// A program that is closed stays closed for as long as no program is
/// deployed under a fresh identity.
pub proof fn lemma_closed_stays_closed(plan: Seq<Step>, from: int, to: int)
    requires
        0 <= from <= to,
        stage_after(plan, to) is Ok,
        stage_after(plan, from) matches Ok(stage) && stage.phase == ProgramPhase::Closed,
        forall|t: int| from <= t < to ==> !deploys_afresh(plan, t),
    ensures
        stage_after(plan, to)->Ok_0.phase == ProgramPhase::Closed,
    decreases to - from,
{
    if from < to {
        if stage_after(plan, to - 1) is Err {
            lemma_defect_stays(plan, to - 1, to);
        }
        lemma_closed_stays_closed(plan, from, to - 1);
        assert(!deploys_afresh(plan, to - 1));
    }
}

/// Once the ledger has confirmed that the program is closed, every upgrade,
/// every renewed deployment and every invocation of that program is one that
/// the ledger has to reject, whatever steps lie between the close and the
/// attempt, and so whatever number of slots.
pub proof fn lemma_closed_program_rejects(plan: Seq<Step>, close: int, attempt: int)
    requires
        0 <= close < attempt < plan.len(),
        stage_after(plan, attempt + 1) is Ok,
        confirms_close(plan, close),
        forall|t: int| close < t < attempt ==> !deploys_afresh(plan, t),
        aims_at_deployed_program(plan[attempt]),
    ensures
        stage_after(plan, attempt + 1)->Ok_0.pending matches Some(pending) && pending.expectation
            == Expectation::Rejection,
{
    if stage_after(plan, attempt) is Err {
        lemma_defect_stays(plan, attempt, attempt + 1);
    }
    if stage_after(plan, close + 1) is Err {
        lemma_defect_stays(plan, close + 1, attempt);
    }
    lemma_rejection_is_for_closed_program(plan, close);
    lemma_closed_stays_closed(plan, close + 1, attempt);
}

/// The lengths of the waits of a plan have no part in what its steps lead to:
/// two plans that differ in them alone reach the same state after every step,
/// and with it the same expectation of every transaction.
pub proof fn lemma_waits_do_not_matter(plan: Seq<Step>, other: Seq<Step>, n: int)
    requires
        same_but_for_waits(plan, other),
        0 <= n <= plan.len(),
    ensures
        stage_after(plan, n) == stage_after(other, n),
    decreases n,
{
    if n > 0 {
        lemma_waits_do_not_matter(plan, other, n - 1);
        assert(plan[n - 1] == other[n - 1] || (plan[n - 1] is WaitSlots
            && other[n - 1] is WaitSlots));
    }
}

/// A plan under construction, with the state that its steps lead to.
pub struct PlanBuilder {
    pub steps: Vec<Step>,
    pub stage: Stage,
}

impl PlanBuilder {
    /// Whether the state kept is the one that the steps lead to.
    pub open spec fn well_formed(&self) -> bool {
        stage_after(self.steps@, self.steps@.len() as int) == Ok::<StageView, PlanDefect>(
            self.stage@,
        )
    }

    /// The builder of the empty plan.
    pub fn new() -> (builder: PlanBuilder)
        ensures
            builder.well_formed(),
            builder.steps@ == Seq::<Step>::empty(),
            builder.stage@ == StageView::initial(),
    {
        PlanBuilder { steps: Vec::new(), stage: Stage::new() }
    }

    /// Appends `step`, or says what stands against it and appends nothing.
    pub fn push(&mut self, step: Step) -> (outcome: Result<(), PlanDefect>)
        requires
            old(self).well_formed(),
        ensures
            final(self).well_formed(),
            match old(self).stage@.after(step) {
                Ok(stage) => outcome is Ok && final(self).steps@ == old(self).steps@.push(step)
                    && final(self).stage@ == stage,
                Err(defect) => outcome == Err::<(), PlanDefect>(defect) && final(self).steps@
                    == old(self).steps@ && final(self).stage@ == old(self).stage@,
            },
    {
        match self.stage.advance(&step) {
            Ok(_) => {
                proof {
                    let before = self.steps@;
                    let extended = before.push(step);
                    lemma_stage_of_prefix(before, extended, before.len() as int);
                }
                self.steps.push(step);
                Ok(())
            },
            Err(defect) => Err(defect),
        }
    }

    /// The plan, once no signed transaction is left over.
    pub fn finish(self) -> (plan: Vec<Step>)
        requires
            self.well_formed(),
            self.stage@.pending is None,
        ensures
            plan@ == self.steps@,
            valid_plan(plan@),
    {
        self.steps
    }
}

} // verus!
