//! The run of a scenario: which step comes next, and what the outcome of a
//! step means for the rest of the run.
//!
//! The caller carries out each step against the ledger and reports how it
//! went. A run ends when its steps are done, or when a step fails that the
//! rest depends on. What the ledger hands back for a submission is kept,
//! beside what was to be expected of the transaction.

use crate::accounts::{Assembled, BuildError, RunAccounts};
use crate::nonce::{NonceAccountState, NonceError, NonceTracker};
use crate::plan::{
    check_plan, expect, expectation_of, first_defect, lemma_defect_stays, stage_after, valid_plan,
    BlockhashSource, Expectation, NonceStatus, Operation, PlanDefect, PlanError, Stage, StageView,
    Step, Submission,
};
use crate::types::{Address, Blockhash, Signature};
use vstd::prelude::*;

verus! {

/// What the ledger handed back for a submission.
#[derive(Debug)]
pub enum Returned {
    /// The ledger took the transaction: its signature.
    Signature(Signature),
    /// The ledger did not take the transaction: the reason that it gave.
    Rejection(String),
}

/// How a step went.
#[derive(Debug)]
pub enum Outcome {
    /// The step was carried out: the buffer is staged, the wait is over, or
    /// the transaction is signed.
    Done,
    /// The step could not be carried out: the buffer is not staged, the slot
    /// height or the nonce account could not be looked at, or no transaction
    /// was signed.
    Failed,
    /// The wait gave up before the slot height had moved on far enough.
    TimedOut,
    /// What the look at the nonce account found.
    NonceRead(NonceAccountState),
    /// What the ledger handed back for the transaction.
    Submitted(Returned),
}

/// A submission and what came of it.
#[derive(Debug)]
pub struct SubmissionRecord {
    /// The number of the step that submitted.
    pub step: usize,
    pub operation: Operation,
    pub submission: Submission,
    /// What was to be expected of the transaction.
    pub expectation: Expectation,
    /// What the ledger handed back.
    pub returned: Returned,
}

/// Why a run ended before its steps were done.
#[derive(Clone, Copy, Debug, PartialEq, Eq, Structural)]
pub enum Failure {
    /// The step of this number failed, and the rest of the run depends on it.
    StepFailed { step: usize },
    /// The wait of this number gave up.
    Timeout { step: usize },
    /// The nonce account gave no value that can be signed over.
    Nonce(NonceError),
    /// The outcome reported is none that the step can have.
    OutcomeMismatch,
}

/// What the caller is to do next.
#[derive(Clone, Copy, Debug, PartialEq, Eq, Structural)]
pub enum Action {
    /// Carry out this step. For a transaction, what to expect of it.
    Perform { step: Step, expectation: Expectation },
    /// Nothing: every step is done.
    Finish,
    /// Nothing: the run has failed.
    Halt(Failure),
}

/// Why the step that comes next gave no transaction.
#[derive(Clone, Copy, Debug)]
pub enum StepError {
    /// The step that comes next signs no transaction, or the run has ended.
    NothingToAssemble,
    /// The nonce account holds no value that may be signed over.
    Nonce(NonceError),
    /// The transaction could not be built.
    Build(BuildError),
}

/// A run as a mathematical value.
pub struct RunView {
    pub plan: Seq<Step>,
    /// The number of steps done.
    pub position: nat,
    pub stage: StageView,
    pub nonce: NonceTracker,
    /// The submissions made, in their order, each with what came back.
    pub submissions: Seq<SubmissionRecord>,
    pub failure: Option<Failure>,
}

/// A run of a plan.
pub struct Run {
    plan: Vec<Step>,
    position: usize,
    stage: Stage,
    nonce: NonceTracker,
    submissions: Vec<SubmissionRecord>,
    failure: Option<Failure>,
}

/// Whether `step` signs a transaction over the nonce.
pub open spec fn signs_over_nonce(step: Step) -> bool {
    match step {
        Step::Assemble { blockhash, .. } => blockhash == BlockhashSource::Nonce,
        _ => false,
    }
}

impl SubmissionRecord {
    /// Whether the ledger did not take the transaction.
    pub open spec fn was_rejected(self) -> bool {
        self.returned is Rejection
    }

    /// Whether the ledger took a transaction that it had to reject.
    pub open spec fn defies_expectation(self) -> bool {
        self.expectation == Expectation::Rejection && self.returned is Signature
    }

    /// Whether the ledger did not take the transaction.
    pub fn rejected(&self) -> (rejected: bool)
        ensures
            rejected == self.was_rejected(),
    {
        match self.returned {
            Returned::Rejection(_) => true,
            Returned::Signature(_) => false,
        }
    }

    /// Whether what came back is against what was to be expected: the ledger
    /// took a transaction that it had to reject.
    pub fn against_expectation(&self) -> (against: bool)
        ensures
            against == self.defies_expectation(),
    {
        let taken = match self.returned {
            Returned::Rejection(_) => false,
            Returned::Signature(_) => true,
        };
        self.expectation == Expectation::Rejection && taken
    }
}

impl RunView {
    /// Whether the run stands where its plan has led it: the plan can be
    /// carried out, and the state is the one after the steps that are done.
    pub open spec fn follows_plan(self) -> bool {
        &&& valid_plan(self.plan)
        &&& self.position <= self.plan.len()
        &&& stage_after(self.plan, self.position as int) == Ok::<StageView, PlanDefect>(self.stage)
    }

    /// Whether the run is neither done nor failed.
    pub open spec fn running(self) -> bool {
        self.failure is None && self.position < self.plan.len()
    }

    /// The step that comes next. Only a run that is `running` has one.
    pub open spec fn current(self) -> Step {
        self.plan[self.position as int]
    }

    /// What to expect of the transaction that the next step signs or submits.
    pub open spec fn expectation(self) -> Expectation {
        match self.current() {
            Step::Assemble { operation, .. } => expectation_of(self.stage.phase, operation),
            Step::Submit { .. } => match self.stage.pending {
                Some(pending) => pending.expectation,
                None => Expectation::Open,
            },
            _ => Expectation::Open,
        }
    }

    /// What the caller is to do next.
    pub open spec fn next_action(self) -> Action {
        match self.failure {
            Some(failure) => Action::Halt(failure),
            None => if self.position < self.plan.len() {
                Action::Perform { step: self.current(), expectation: self.expectation() }
            } else {
                Action::Finish
            },
        }
    }

    /// The run after the step that came next has been carried out.
    pub open spec fn advanced(self, nonce: NonceTracker) -> RunView {
        RunView {
            position: self.position + 1,
            stage: self.stage.after(self.current())->Ok_0,
            nonce,
            ..self
        }
    }

    /// The run that has ended with `failure`.
    pub open spec fn failed(self, failure: Failure) -> RunView {
        RunView { failure: Some(failure), ..self }
    }

    /// The record of the submission that comes next, in the way `submission`,
    /// for which the ledger handed `returned` back.
    pub open spec fn record(self, submission: Submission, returned: Returned) -> SubmissionRecord {
        SubmissionRecord {
            step: self.position as usize,
            operation: self.stage.pending->0.operation,
            submission,
            expectation: self.expectation(),
            returned,
        }
    }

    /// The run with one more submission on record.
    pub open spec fn recorded(self, record: SubmissionRecord) -> RunView {
        RunView { submissions: self.submissions.push(record), ..self }
    }

    /// The knowledge of the nonce after the ledger has taken a transaction
    /// that was submitted in the way `submission`: once the ledger has
    /// confirmed a transaction that was signed over the nonce, the value is
    /// used up.
    pub open spec fn nonce_after_submission(self, submission: Submission) -> NonceTracker {
        match self.stage.pending {
            Some(pending) => if submission == Submission::Confirm && pending.blockhash
                == BlockhashSource::Nonce {
                self.nonce.used()
            } else {
                self.nonce
            },
            None => self.nonce,
        }
    }

    /// The run after the ledger has handed `returned` back for the submission
    /// that came next. What came back goes on record. The run goes on where
    /// the ledger took the transaction, and where it did not and the
    /// submission was an attempt; it ends where it did not and the rest of the
    /// run depends on the transaction.
    pub open spec fn submitted(self, submission: Submission, returned: Returned) -> RunView {
        let kept = self.recorded(self.record(submission, returned));
        match returned {
            Returned::Signature(_) => kept.advanced(self.nonce_after_submission(submission)),
            Returned::Rejection(_) => if submission == Submission::Attempt {
                kept.advanced(self.nonce)
            } else {
                kept.failed(Failure::StepFailed { step: self.position as usize })
            },
        }
    }

    /// The run after `outcome` has been reported for the step that came next.
    ///
    /// A reading of the nonce counts if the tracker accepts it. A submission
    /// counts as [`RunView::submitted`] says. A step that could not be carried
    /// out ends the run, and so does a wait that gives up, and an outcome that
    /// the step cannot have. A run that is done or has failed stays as it is.
    pub open spec fn reaction(self, outcome: Outcome) -> RunView {
        if !self.running() {
            self
        } else {
            match (self.current(), outcome) {
                (Step::ReadNonce, Outcome::NonceRead(state)) => match self.nonce.read(state).0 {
                    Ok(_) => self.advanced(self.nonce.read(state).1),
                    Err(error) => self.failed(Failure::Nonce(error)),
                },
                (Step::Submit { submission }, Outcome::Submitted(returned)) => self.submitted(
                    submission,
                    returned,
                ),
                (Step::ReadNonce, Outcome::Failed) => self.failed(
                    Failure::StepFailed { step: self.position as usize },
                ),
                (Step::ReadNonce, _) => self.failed(Failure::OutcomeMismatch),
                (Step::Submit { .. }, _) => self.failed(Failure::OutcomeMismatch),
                (_, Outcome::NonceRead(_)) => self.failed(Failure::OutcomeMismatch),
                (_, Outcome::Submitted(_)) => self.failed(Failure::OutcomeMismatch),
                (Step::WaitSlots { .. }, Outcome::TimedOut) => self.failed(
                    Failure::Timeout { step: self.position as usize },
                ),
                (_, Outcome::TimedOut) => self.failed(Failure::OutcomeMismatch),
                (_, Outcome::Done) => self.advanced(self.nonce),
                (_, Outcome::Failed) => self.failed(
                    Failure::StepFailed { step: self.position as usize },
                ),
            }
        }
    }

    /// The blockhash that the transaction of the next step is signed over: the
    /// value of the nonce where the step says so, the latest blockhash else.
    pub open spec fn blockhash_for(self, latest: Blockhash) -> Blockhash {
        if signs_over_nonce(self.current()) {
            self.nonce.fresh_value()->Ok_0
        } else {
            latest
        }
    }
}

/// Every prefix of a valid plan can be carried out.
pub proof fn lemma_valid_prefix(plan: Seq<Step>, n: int)
    requires
        valid_plan(plan),
        0 <= n <= plan.len(),
    ensures
        stage_after(plan, n) is Ok,
{
    if stage_after(plan, n) is Err {
        lemma_defect_stays(plan, n, plan.len() as int);
    }
}

/// An attempt never ends a run: whatever the ledger hands back for it, the
/// run goes on to the next step, and what came back is on record, as the last
/// submission, beside what was to be expected.
pub proof fn lemma_attempt_goes_on(run: RunView, returned: Returned)
    requires
        run.running(),
        run.current() == (Step::Submit { submission: Submission::Attempt }),
    ensures
        ({
            let after = run.reaction(Outcome::Submitted(returned));
            &&& after.failure is None
            &&& after.position == run.position + 1
            &&& after.submissions == run.submissions.push(
                run.record(Submission::Attempt, returned),
            )
            &&& after.submissions.last().returned == returned
            &&& after.submissions.last().expectation == run.expectation()
        }),
{
}

impl View for Run {
    type V = RunView;

    closed spec fn view(&self) -> RunView {
        RunView {
            plan: self.plan@,
            position: self.position as nat,
            stage: self.stage@,
            nonce: self.nonce,
            submissions: self.submissions@,
            failure: self.failure,
        }
    }
}

impl Run {
    /// A run stands where its plan has led it, and holds a value of the nonce
    /// to sign over whenever the plan counts on one.
    #[verifier::type_invariant]
    spec fn consistent(self) -> bool {
        &&& valid_plan(self.plan@)
        &&& self.position <= self.plan@.len()
        &&& stage_after(self.plan@, self.position as int) == Ok::<StageView, PlanDefect>(
            self.stage@,
        )
        &&& self.stage@.nonce == NonceStatus::Fresh ==> self.nonce.fresh_value() is Ok
    }

    /// The run of `plan` before its first step, where every step of the plan
    /// can be carried out where it stands; the first defect of the plan else.
    pub fn new(plan: Vec<Step>) -> (run: Result<Run, PlanError>)
        ensures
            run is Ok <==> valid_plan(plan@),
            run matches Ok(begun) ==> begun@ == (RunView {
                plan: plan@,
                position: 0,
                stage: StageView::initial(),
                nonce: NonceTracker { value: None, spent: false },
                submissions: Seq::empty(),
                failure: None,
            }),
            run matches Err(error) ==> first_defect(plan@, error),
    {
        match check_plan(&plan) {
            Err(error) => Err(error),
            Ok(_) => Ok(
                Run {
                    plan,
                    position: 0,
                    stage: Stage::new(),
                    nonce: NonceTracker::new(),
                    submissions: Vec::new(),
                    failure: None,
                },
            ),
        }
    }

    /// The number of steps done.
    pub fn position(&self) -> (position: usize)
        ensures
            position == self@.position,
    {
        self.position
    }

    /// The submissions made so far, in their order, each with what was to be
    /// expected of the transaction and what the ledger handed back.
    pub fn submissions(&self) -> (submissions: &Vec<SubmissionRecord>)
        ensures
            submissions@ == self@.submissions,
    {
        &self.submissions
    }

    /// What the caller is to do next.
    pub fn next(&self) -> (action: Action)
        ensures
            action == self@.next_action(),
            self@.follows_plan(),
    {
        proof {
            use_type_invariant(self);
        }
        if let Some(failure) = self.failure {
            return Action::Halt(failure);
        }
        if self.position >= self.plan.len() {
            return Action::Finish;
        }
        let step = self.plan[self.position];
        let expectation = match step {
            Step::Assemble { operation, .. } => expect(self.stage.phase, &operation),
            Step::Submit { .. } => match self.stage.pending {
                Some(pending) => pending.expectation,
                None => Expectation::Open,
            },
            _ => Expectation::Open,
        };
        Action::Perform { step, expectation }
    }

    /// The value of the nonce to sign the next transaction over. There is one
    /// whenever the next step signs a transaction over the nonce.
    pub fn nonce_value(&self) -> (value: Result<Blockhash, NonceError>)
        ensures
            value == self@.nonce.fresh_value(),
            self@.running() && signs_over_nonce(self@.current()) ==> value is Ok,
    {
        proof {
            use_type_invariant(self);
            if self@.running() {
                lemma_valid_prefix(self.plan@, self.position + 1);
            }
        }
        self.nonce.value_for_signing()
    }

    /// Builds and signs the transaction of the step that comes next, with the
    /// accounts of the run: over the value of the nonce where the step says
    /// so, and over `latest`, the latest blockhash of the ledger, else.
    ///
    /// `lamports` is the balance that the account created is funded with,
    /// `program_data` the program, whose length is the room that a deployment
    /// reserves, and `account_data` the argument of an invocation.
    pub fn assemble(
        &self,
        accounts: &mut RunAccounts,
        latest: &Blockhash,
        lamports: u64,
        program_data: &Vec<u8>,
        account_data: &Vec<u8>,
    ) -> (result: Result<Assembled, StepError>)
        ensures
            final(accounts).payer == old(accounts).payer,
            final(accounts).buffers == old(accounts).buffers,
            result is Err ==> final(accounts).program == old(accounts).program,
            result is Err ==> final(accounts).nonce == old(accounts).nonce,
            match self@.next_action() {
                Action::Perform { step: Step::Assemble { operation, blockhash }, .. } => {
                    let over_nonce = blockhash == BlockhashSource::Nonce;
                    &&& over_nonce ==> self@.nonce.fresh_value() is Ok
                    &&& result matches Ok(done) ==> done.transaction.blockhash()
                        == self@.blockhash_for(*latest)
                    &&& match old(accounts).lacks(operation, over_nonce) {
                        Some(error) => result matches Err(StepError::Build(e)) && e == error,
                        None => match result {
                            Ok(done) => exists|created: Address|
                                old(accounts).assembles(
                                    operation,
                                    over_nonce,
                                    self@.blockhash_for(*latest),
                                    lamports,
                                    program_data.len(),
                                    account_data@,
                                    created,
                                    Ok(done),
                                    *final(accounts),
                                ),
                            Err(StepError::Build(error)) => exists|created: Address|
                                old(accounts).assembles(
                                    operation,
                                    over_nonce,
                                    self@.blockhash_for(*latest),
                                    lamports,
                                    program_data.len(),
                                    account_data@,
                                    created,
                                    Err(error),
                                    *final(accounts),
                                ),
                            Err(_) => false,
                        },
                    }
                },
                _ => result matches Err(StepError::NothingToAssemble)
                    && *final(accounts) == *old(accounts),
            },
    {
        let (operation, source) = match self.next() {
            Action::Perform { step: Step::Assemble { operation, blockhash }, .. } => (
                operation,
                blockhash,
            ),
            _ => {
                return Err(StepError::NothingToAssemble);
            },
        };
        let over_nonce = source == BlockhashSource::Nonce;
        let blockhash = if over_nonce {
            match self.nonce_value() {
                Ok(value) => value,
                Err(error) => {
                    return Err(StepError::Nonce(error));
                },
            }
        } else {
            *latest
        };
        let built = accounts.assemble(
            &operation,
            over_nonce,
            &blockhash,
            lamports,
            program_data.len(),
            account_data,
        );
        proof {
            if old(accounts).lacks(operation, over_nonce) is None {
                let created = choose|created: Address|
                    old(accounts).assembles(
                        operation,
                        over_nonce,
                        blockhash,
                        lamports,
                        program_data.len(),
                        account_data@,
                        created,
                        built,
                        *accounts,
                    );
                assert(old(accounts).assembles(
                    operation,
                    over_nonce,
                    self@.blockhash_for(*latest),
                    lamports,
                    program_data.len(),
                    account_data@,
                    created,
                    built,
                    *accounts,
                ));
            }
        }
        match built {
            Ok(done) => Ok(done),
            Err(error) => Err(StepError::Build(error)),
        }
    }

    /// Takes in how the step that came next went.
    pub fn report(self, outcome: Outcome) -> (run: Run)
        ensures
            run@ == self@.reaction(outcome),
    {
        proof {
            use_type_invariant(&self);
        }
        if self.failure.is_some() || self.position >= self.plan.len() {
            return self;
        }
        proof {
            lemma_valid_prefix(self.plan@, self.position + 1);
        }
        let ghost before = self@;
        let Run { plan, position, stage, nonce, submissions, failure } = self;
        let step = plan[position];
        let mut stage = stage;
        let mut nonce = nonce;
        let mut submissions = submissions;
        let verdict: Option<Failure> = match (step, outcome) {
            (Step::ReadNonce, Outcome::NonceRead(state)) => match nonce.observe(&state) {
                Ok(_) => None,
                Err(error) => Some(Failure::Nonce(error)),
            },
            (Step::Submit { submission }, Outcome::Submitted(returned)) => {
                let pending = match stage.pending {
                    Some(pending) => pending,
                    None => {
                        return Run {
                            plan,
                            position,
                            stage,
                            nonce,
                            submissions,
                            failure: Some(Failure::OutcomeMismatch),
                        };
                    },
                };
                let taken = match returned {
                    Returned::Signature(_) => true,
                    Returned::Rejection(_) => false,
                };
                submissions.push(
                    SubmissionRecord {
                        step: position,
                        operation: pending.operation,
                        submission,
                        expectation: pending.expectation,
                        returned,
                    },
                );
                if taken {
                    if submission == Submission::Confirm && pending.blockhash
                        == BlockhashSource::Nonce {
                        nonce.mark_used();
                    }
                    None
                } else if submission == Submission::Attempt {
                    None
                } else {
                    Some(Failure::StepFailed { step: position })
                }
            },
            (Step::ReadNonce, Outcome::Failed) => Some(Failure::StepFailed { step: position }),
            (Step::ReadNonce, _) => Some(Failure::OutcomeMismatch),
            (Step::Submit { .. }, _) => Some(Failure::OutcomeMismatch),
            (_, Outcome::NonceRead(_)) => Some(Failure::OutcomeMismatch),
            (_, Outcome::Submitted(_)) => Some(Failure::OutcomeMismatch),
            (Step::WaitSlots { .. }, Outcome::TimedOut) => Some(Failure::Timeout { step: position }),
            (_, Outcome::TimedOut) => Some(Failure::OutcomeMismatch),
            (_, Outcome::Done) => None,
            (_, Outcome::Failed) => Some(Failure::StepFailed { step: position }),
        };
        match verdict {
            Some(failure) => Run { plan, position, stage, nonce, submissions, failure: Some(failure) },
            None => {
                let _ = stage.advance(&step);
                Run { plan, position: position + 1, stage, nonce, submissions, failure: None }
            },
        }
    }
}

} // verus!
