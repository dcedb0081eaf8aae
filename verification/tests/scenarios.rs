use ledger_gen::ledgers::{
    close_invoke_diff_slot, close_invoke_same_slot, create_nonce_account, deploy_close_diff_slot,
    deploy_close_same_slot, deploy_invoke_diff_slot, deploy_invoke_same_slot, example_ledger,
    upgrade_invoke_diff_slot, upgrade_invoke_same_slot, NONCE_ACCOUNT_LAMPORTS,
};
use ledger_gen::plan::{barrier, check_plan, BlockhashSource, Operation, Step, Submission};

fn sign(operation: Operation) -> Step {
    Step::Assemble { operation, blockhash: BlockhashSource::Latest }
}

fn sign_over_nonce(operation: Operation) -> Step {
    Step::Assemble { operation, blockhash: BlockhashSource::Nonce }
}

fn submit(submission: Submission) -> Step {
    Step::Submit { submission }
}

fn wait(slots: u64) -> Step {
    Step::WaitSlots { slots }
}

fn position_of(plan: &Vec<Step>, operation: Operation) -> usize {
    plan.iter()
        .position(|step| match step {
            Step::Assemble { operation: found, .. } => *found == operation,
            _ => false,
        })
        .unwrap()
}

#[test]
fn example_ledger_is_the_whole_lifecycle() {
    let expected = vec![
        Step::SetUpBuffer,
        Step::SetUpBuffer,
        Step::SetUpBuffer,
        wait(1),
        sign(Operation::Deploy { buffer: 0 }),
        submit(Submission::Confirm),
        wait(1),
        sign(Operation::Invoke),
        submit(Submission::Send),
        wait(1),
        sign(Operation::Upgrade { buffer: 1 }),
        submit(Submission::Confirm),
        wait(1),
        sign(Operation::Invoke),
        submit(Submission::Send),
        wait(1),
        sign(Operation::Close),
        submit(Submission::Confirm),
        wait(1),
        sign(Operation::Upgrade { buffer: 2 }),
        submit(Submission::Attempt),
        wait(1),
        sign(Operation::Redeploy { buffer: 2 }),
        submit(Submission::Attempt),
    ];
    assert_eq!(example_ledger(), expected);
    assert!(check_plan(&expected).is_ok());
}

#[test]
fn deploy_invoke_same_slot_has_no_wait_between_deploy_and_invoke() {
    let expected = vec![
        Step::SetUpBuffer,
        wait(1),
        sign(Operation::Deploy { buffer: 0 }),
        submit(Submission::Send),
        sign(Operation::Invoke),
        submit(Submission::Send),
    ];
    let plan = deploy_invoke_same_slot();
    assert_eq!(plan, expected);
    assert_eq!(barrier(&plan, 3, 5), 0);
}

#[test]
fn deploy_invoke_diff_slot_waits_two_slots_before_the_invoke() {
    let expected = vec![
        Step::SetUpBuffer,
        wait(1),
        sign(Operation::Deploy { buffer: 0 }),
        submit(Submission::Send),
        wait(2),
        sign(Operation::Invoke),
        submit(Submission::Send),
    ];
    let plan = deploy_invoke_diff_slot();
    assert_eq!(plan, expected);
    assert_eq!(barrier(&plan, 3, 6), 2);
}

#[test]
fn upgrade_invoke_same_slot_invokes_right_after_the_upgrade() {
    let expected = vec![
        Step::SetUpBuffer,
        Step::SetUpBuffer,
        sign(Operation::Deploy { buffer: 0 }),
        submit(Submission::Send),
        wait(2),
        sign(Operation::Upgrade { buffer: 1 }),
        submit(Submission::Confirm),
        sign(Operation::Invoke),
        submit(Submission::Send),
    ];
    let plan = upgrade_invoke_same_slot();
    assert_eq!(plan, expected);
    assert_eq!(barrier(&plan, 3, 6), 2);
    assert_eq!(barrier(&plan, 6, 8), 0);
}

#[test]
fn upgrade_invoke_diff_slot_waits_before_the_invoke_as_well() {
    let expected = vec![
        Step::SetUpBuffer,
        Step::SetUpBuffer,
        sign(Operation::Deploy { buffer: 0 }),
        submit(Submission::Send),
        wait(2),
        sign(Operation::Upgrade { buffer: 1 }),
        submit(Submission::Confirm),
        wait(2),
        sign(Operation::Invoke),
        submit(Submission::Send),
    ];
    let plan = upgrade_invoke_diff_slot();
    assert_eq!(plan, expected);
    assert_eq!(barrier(&plan, 6, 9), 2);
    assert_eq!(barrier(&plan, 3, 9), 4);
}

#[test]
fn deploy_close_same_slot_has_no_wait_between_deploy_and_close() {
    let expected = vec![
        Step::SetUpBuffer,
        wait(1),
        sign(Operation::Deploy { buffer: 0 }),
        submit(Submission::Send),
        sign(Operation::Close),
        submit(Submission::Confirm),
    ];
    let plan = deploy_close_same_slot();
    assert_eq!(plan, expected);
    let deploy = position_of(&plan, Operation::Deploy { buffer: 0 }) + 1;
    let close = position_of(&plan, Operation::Close) + 1;
    assert_eq!(barrier(&plan, deploy, close), 0);
}

#[test]
fn deploy_close_diff_slot_waits_two_slots_before_the_close() {
    let expected = vec![
        Step::SetUpBuffer,
        wait(1),
        sign(Operation::Deploy { buffer: 0 }),
        submit(Submission::Send),
        wait(2),
        sign(Operation::Close),
        submit(Submission::Confirm),
    ];
    let plan = deploy_close_diff_slot();
    assert_eq!(plan, expected);
    let deploy = position_of(&plan, Operation::Deploy { buffer: 0 }) + 1;
    let close = position_of(&plan, Operation::Close) + 1;
    assert_eq!(barrier(&plan, deploy, close), 2);
}

#[test]
fn close_invoke_same_slot_invokes_right_after_the_close() {
    let expected = vec![
        Step::SetUpBuffer,
        wait(1),
        sign(Operation::Deploy { buffer: 0 }),
        submit(Submission::Send),
        wait(1),
        sign(Operation::Close),
        submit(Submission::Confirm),
        sign(Operation::Invoke),
        submit(Submission::Attempt),
    ];
    let plan = close_invoke_same_slot();
    assert_eq!(plan, expected);
    assert_eq!(barrier(&plan, 3, 6), 1);
    assert_eq!(barrier(&plan, 6, 8), 0);
}

#[test]
fn close_invoke_diff_slot_waits_two_slots_before_the_invoke() {
    let expected = vec![
        Step::SetUpBuffer,
        wait(1),
        sign(Operation::Deploy { buffer: 0 }),
        submit(Submission::Send),
        wait(1),
        sign(Operation::Close),
        submit(Submission::Confirm),
        wait(2),
        sign(Operation::Invoke),
        submit(Submission::Attempt),
    ];
    let plan = close_invoke_diff_slot();
    assert_eq!(plan, expected);
    assert_eq!(barrier(&plan, 6, 9), 2);
}

#[test]
fn create_nonce_account_signs_twice_over_the_nonce() {
    let expected = vec![
        sign(Operation::CreateNonceAccount { lamports: 2000000 }),
        submit(Submission::Confirm),
        Step::ReadNonce,
        sign_over_nonce(Operation::OpenAccount),
        submit(Submission::Confirm),
        wait(2),
        Step::ReadNonce,
        sign_over_nonce(Operation::OpenAccount),
        wait(2),
        submit(Submission::Confirm),
        wait(2),
        Step::ReadNonce,
    ];
    let plan = create_nonce_account();
    assert_eq!(plan, expected);
    assert_eq!(NONCE_ACCOUNT_LAMPORTS, 2000000);
    assert_eq!(barrier(&plan, 7, 9), 2);
    assert_eq!(barrier(&plan, 0, plan.len()), 6);
}

#[test]
fn every_scenario_can_be_carried_out() {
    let scenarios = vec![
        example_ledger(),
        deploy_invoke_same_slot(),
        deploy_invoke_diff_slot(),
        upgrade_invoke_same_slot(),
        upgrade_invoke_diff_slot(),
        deploy_close_same_slot(),
        deploy_close_diff_slot(),
        close_invoke_same_slot(),
        close_invoke_diff_slot(),
        create_nonce_account(),
    ];
    for plan in scenarios.iter() {
        assert!(check_plan(plan).is_ok());
    }
}

#[test]
fn only_operations_on_the_closed_program_are_attempted() {
    let attempts = |plan: &Vec<Step>| -> Vec<usize> {
        plan.iter()
            .enumerate()
            .filter(|(_, step)| **step == submit(Submission::Attempt))
            .map(|(number, _)| number)
            .collect()
    };
    assert_eq!(attempts(&example_ledger()), vec![20, 23]);
    assert_eq!(attempts(&close_invoke_same_slot()), vec![8]);
    assert_eq!(attempts(&close_invoke_diff_slot()), vec![9]);
    for plan in [
        deploy_invoke_same_slot(),
        deploy_invoke_diff_slot(),
        upgrade_invoke_same_slot(),
        upgrade_invoke_diff_slot(),
        deploy_close_same_slot(),
        deploy_close_diff_slot(),
        create_nonce_account(),
    ] {
        assert!(attempts(&plan).is_empty());
    }
}
