use ledger_gen::plan::{
    barrier, buffer_used, check_plan, expect, BlockhashSource, Expectation, NonceStatus,
    Operation, PlanBuilder, PlanDefect, PlanError, ProgramPhase, Stage, Step, Submission,
};

fn sign(operation: Operation) -> Step {
    Step::Assemble { operation, blockhash: BlockhashSource::Latest }
}

fn sign_over_nonce(operation: Operation) -> Step {
    Step::Assemble { operation, blockhash: BlockhashSource::Nonce }
}

fn submit(submission: Submission) -> Step {
    Step::Submit { submission }
}

fn defect_of(plan: Vec<Step>) -> Option<PlanError> {
    check_plan(&plan).err()
}

#[test]
fn empty_plan_is_valid() {
    assert!(check_plan(&vec![]).is_ok());
}

#[test]
fn deploy_from_a_buffer_that_was_not_staged_is_a_defect() {
    let plan = vec![sign(Operation::Deploy { buffer: 0 }), submit(Submission::Send)];
    assert_eq!(defect_of(plan), Some(PlanError { step: 0, defect: PlanDefect::BufferUnavailable }));
    let plan = vec![Step::SetUpBuffer, sign(Operation::Deploy { buffer: 1 })];
    assert_eq!(defect_of(plan), Some(PlanError { step: 1, defect: PlanDefect::BufferUnavailable }));
}

#[test]
fn buffer_serves_one_deployment() {
    let plan = vec![
        Step::SetUpBuffer,
        sign(Operation::Deploy { buffer: 0 }),
        submit(Submission::Confirm),
        sign(Operation::Upgrade { buffer: 0 }),
        submit(Submission::Confirm),
    ];
    assert_eq!(defect_of(plan), Some(PlanError { step: 3, defect: PlanDefect::BufferUnavailable }));
}

#[test]
fn buffer_of_a_rejected_upgrade_is_not_used_up() {
    let plan = vec![
        Step::SetUpBuffer,
        Step::SetUpBuffer,
        sign(Operation::Deploy { buffer: 0 }),
        submit(Submission::Confirm),
        sign(Operation::Close),
        submit(Submission::Confirm),
        sign(Operation::Upgrade { buffer: 1 }),
        submit(Submission::Attempt),
        sign(Operation::Redeploy { buffer: 1 }),
        submit(Submission::Attempt),
    ];
    assert!(check_plan(&plan).is_ok());
}

#[test]
fn operation_on_a_program_needs_a_deployment() {
    for operation in [
        Operation::Invoke,
        Operation::Close,
        Operation::Upgrade { buffer: 0 },
        Operation::Redeploy { buffer: 0 },
    ] {
        let plan = vec![Step::SetUpBuffer, sign(operation), submit(Submission::Send)];
        assert_eq!(defect_of(plan), Some(PlanError { step: 1, defect: PlanDefect::NoProgram }));
    }
}

#[test]
fn signing_over_the_nonce_needs_a_fresh_value() {
    let plan = vec![sign_over_nonce(Operation::OpenAccount), submit(Submission::Confirm)];
    assert_eq!(defect_of(plan), Some(PlanError { step: 0, defect: PlanDefect::NoFreshNonce }));
    let create = Operation::CreateNonceAccount { lamports: 1 };
    let plan = vec![
        sign(create),
        submit(Submission::Confirm),
        sign_over_nonce(Operation::OpenAccount),
    ];
    assert_eq!(defect_of(plan), Some(PlanError { step: 2, defect: PlanDefect::NoFreshNonce }));
    let plan = vec![
        sign(create),
        submit(Submission::Confirm),
        Step::ReadNonce,
        sign_over_nonce(Operation::OpenAccount),
        submit(Submission::Confirm),
        sign_over_nonce(Operation::OpenAccount),
    ];
    assert_eq!(defect_of(plan), Some(PlanError { step: 5, defect: PlanDefect::NoFreshNonce }));
}

#[test]
fn nonce_cannot_be_read_before_its_account_is_created() {
    let plan = vec![Step::ReadNonce];
    assert_eq!(defect_of(plan), Some(PlanError { step: 0, defect: PlanDefect::NoNonceAccount }));
}

#[test]
fn one_transaction_waits_at_a_time() {
    let plan = vec![sign(Operation::OpenAccount), sign(Operation::OpenAccount)];
    assert_eq!(defect_of(plan), Some(PlanError { step: 1, defect: PlanDefect::TransactionPending }));
}

#[test]
fn transaction_left_over_at_the_end_is_a_defect() {
    let plan = vec![sign(Operation::OpenAccount), Step::WaitSlots { slots: 1 }];
    assert_eq!(defect_of(plan), Some(PlanError { step: 2, defect: PlanDefect::TransactionPending }));
}

#[test]
fn submission_needs_a_signed_transaction() {
    let plan = vec![submit(Submission::Send)];
    assert_eq!(defect_of(plan), Some(PlanError { step: 0, defect: PlanDefect::NothingToSubmit }));
    let plan = vec![sign(Operation::OpenAccount), submit(Submission::Send), submit(Submission::Send)];
    assert_eq!(defect_of(plan), Some(PlanError { step: 2, defect: PlanDefect::NothingToSubmit }));
}

#[test]
fn first_defect_is_the_one_reported() {
    let plan = vec![Step::ReadNonce, submit(Submission::Send)];
    assert_eq!(defect_of(plan), Some(PlanError { step: 0, defect: PlanDefect::NoNonceAccount }));
}

#[test]
fn closed_program_rejects_upgrade_renewed_deployment_and_invocation() {
    assert_eq!(expect(ProgramPhase::Closed, &Operation::Upgrade { buffer: 0 }), Expectation::Rejection);
    assert_eq!(expect(ProgramPhase::Closed, &Operation::Redeploy { buffer: 3 }), Expectation::Rejection);
    assert_eq!(expect(ProgramPhase::Closed, &Operation::Deploy { buffer: 0 }), Expectation::Open);
    assert_eq!(expect(ProgramPhase::Closed, &Operation::Invoke), Expectation::Rejection);
    assert_eq!(expect(ProgramPhase::Closed, &Operation::Close), Expectation::Open);
    assert_eq!(expect(ProgramPhase::Closed, &Operation::OpenAccount), Expectation::Open);
    assert_eq!(expect(ProgramPhase::Live, &Operation::Invoke), Expectation::Open);
    assert_eq!(expect(ProgramPhase::Live, &Operation::Upgrade { buffer: 0 }), Expectation::Open);
    assert_eq!(expect(ProgramPhase::Live, &Operation::Redeploy { buffer: 0 }), Expectation::Open);
    assert_eq!(expect(ProgramPhase::NotDeployed, &Operation::Upgrade { buffer: 0 }), Expectation::Open);
}

#[test]
fn closed_program_rejects_whatever_the_wait() {
    for slots in [0u64, 1, 2, 50] {
        let mut stage = Stage::new();
        let steps = vec![
            Step::SetUpBuffer,
            Step::SetUpBuffer,
            sign(Operation::Deploy { buffer: 0 }),
            submit(Submission::Confirm),
            sign(Operation::Close),
            submit(Submission::Confirm),
            Step::WaitSlots { slots },
            sign(Operation::Upgrade { buffer: 1 }),
        ];
        for step in steps.iter() {
            assert!(stage.advance(step).is_ok());
        }
        assert_eq!(stage.phase, ProgramPhase::Closed);
        assert_eq!(stage.pending.map(|p| p.expectation), Some(Expectation::Rejection));
        assert!(stage.advance(&submit(Submission::Attempt)).is_ok());
        assert_eq!(stage.phase, ProgramPhase::Closed);
        assert_eq!(stage.consumed, vec![true, false]);
    }
}

#[test]
fn close_counts_once_it_is_confirmed() {
    let mut stage = Stage::new();
    let steps = vec![
        Step::SetUpBuffer,
        sign(Operation::Deploy { buffer: 0 }),
        submit(Submission::Send),
        sign(Operation::Close),
        submit(Submission::Send),
    ];
    for step in steps.iter() {
        assert!(stage.advance(step).is_ok());
    }
    assert_eq!(stage.phase, ProgramPhase::Live);
}

#[test]
fn fresh_deployment_follows_a_closed_program() {
    let mut stage = Stage::new();
    let steps = vec![
        Step::SetUpBuffer,
        Step::SetUpBuffer,
        sign(Operation::Deploy { buffer: 0 }),
        submit(Submission::Confirm),
        sign(Operation::Close),
        submit(Submission::Confirm),
        sign(Operation::Deploy { buffer: 1 }),
        submit(Submission::Confirm),
    ];
    for step in steps.iter() {
        assert!(stage.advance(step).is_ok());
    }
    assert_eq!(stage.phase, ProgramPhase::Live);
    assert_eq!(stage.consumed, vec![true, true]);
}

#[test]
fn nonce_status_follows_the_steps() {
    let mut stage = Stage::new();
    assert_eq!(stage.nonce, NonceStatus::NoAccount);
    assert!(stage.advance(&sign(Operation::CreateNonceAccount { lamports: 5 })).is_ok());
    assert!(stage.advance(&submit(Submission::Confirm)).is_ok());
    assert_eq!(stage.nonce, NonceStatus::Unread);
    assert!(stage.advance(&Step::ReadNonce).is_ok());
    assert_eq!(stage.nonce, NonceStatus::Fresh);
    assert!(stage.advance(&sign_over_nonce(Operation::OpenAccount)).is_ok());
    assert_eq!(stage.nonce, NonceStatus::Fresh);
    assert!(stage.advance(&submit(Submission::Confirm)).is_ok());
    assert_eq!(stage.nonce, NonceStatus::Spent);
    assert!(stage.advance(&Step::ReadNonce).is_ok());
    assert_eq!(stage.nonce, NonceStatus::Fresh);
}

#[test]
fn step_that_cannot_be_carried_out_leaves_the_state_as_it_was() {
    let mut stage = Stage::new();
    assert!(stage.advance(&Step::SetUpBuffer).is_ok());
    assert_eq!(stage.advance(&sign(Operation::Invoke)), Err(PlanDefect::NoProgram));
    assert_eq!(stage.consumed, vec![false]);
    assert_eq!(stage.phase, ProgramPhase::NotDeployed);
    assert!(stage.pending.is_none());
    assert_eq!(
        stage.defect(&Operation::Deploy { buffer: 4 }, BlockhashSource::Latest),
        Some(PlanDefect::BufferUnavailable)
    );
    assert_eq!(stage.defect(&Operation::Deploy { buffer: 0 }, BlockhashSource::Latest), None);
}

#[test]
fn buffer_of_an_operation() {
    assert_eq!(buffer_used(&Operation::Deploy { buffer: 2 }), Some(2));
    assert_eq!(buffer_used(&Operation::Redeploy { buffer: 3 }), Some(3));
    assert_eq!(buffer_used(&Operation::Upgrade { buffer: 4 }), Some(4));
    assert_eq!(buffer_used(&Operation::Invoke), None);
    assert_eq!(buffer_used(&Operation::Close), None);
    assert_eq!(buffer_used(&Operation::OpenAccount), None);
    assert_eq!(buffer_used(&Operation::CreateNonceAccount { lamports: 1 }), None);
}

#[test]
fn barrier_adds_the_waits_between_two_points() {
    let plan = vec![
        Step::WaitSlots { slots: 3 },
        Step::SetUpBuffer,
        Step::WaitSlots { slots: 4 },
        Step::ReadNonce,
        Step::WaitSlots { slots: 5 },
    ];
    assert_eq!(barrier(&plan, 0, 5), 12);
    assert_eq!(barrier(&plan, 1, 5), 9);
    assert_eq!(barrier(&plan, 1, 2), 0);
    assert_eq!(barrier(&plan, 2, 3), 4);
    assert_eq!(barrier(&plan, 3, 3), 0);
    assert_eq!(barrier(&plan, 0, 0), 0);
}

#[test]
fn barrier_stops_at_the_largest_number() {
    let plan = vec![
        Step::WaitSlots { slots: u64::MAX - 1 },
        Step::WaitSlots { slots: 1 },
        Step::WaitSlots { slots: 7 },
    ];
    assert_eq!(barrier(&plan, 0, 1), u64::MAX - 1);
    assert_eq!(barrier(&plan, 0, 2), u64::MAX);
    assert_eq!(barrier(&plan, 0, 3), u64::MAX);
    assert_eq!(barrier(&plan, 1, 3), 8);
}

#[test]
fn builder_refuses_a_step_that_cannot_be_carried_out() {
    let mut builder = PlanBuilder::new();
    assert_eq!(builder.push(submit(Submission::Send)), Err(PlanDefect::NothingToSubmit));
    assert!(builder.push(Step::SetUpBuffer).is_ok());
    assert!(builder.push(sign(Operation::Deploy { buffer: 0 })).is_ok());
    assert_eq!(builder.push(sign(Operation::Invoke)), Err(PlanDefect::TransactionPending));
    assert!(builder.push(submit(Submission::Send)).is_ok());
    let plan = builder.finish();
    assert_eq!(
        plan,
        vec![Step::SetUpBuffer, sign(Operation::Deploy { buffer: 0 }), submit(Submission::Send)]
    );
}
