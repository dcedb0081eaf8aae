//! The catalogue of scenarios. Each function returns the steps of one
//! scenario; a run carries them out in their order.
//!
//! Two transactions land in the same slot, as far as a scenario can see to it,
//! when no wait stands between them, and at least `n` slots apart when a wait
//! of `n` slots does.
//!
//! A transaction is confirmed or sent, and the run ends where the ledger does
//! not take it. Only an operation on a program that a confirmed close has
//! closed, which the ledger has to reject, is attempted: what comes back is
//! the result of the step, and the run goes on.

use crate::plan::{
    valid_plan, BlockhashSource, Operation, PlanBuilder, Step, Submission,
};
use vstd::prelude::*;

verus! {

/// The lamports that the nonce account of the nonce scenario is funded with.
pub const NONCE_ACCOUNT_LAMPORTS: u64 = 2000000;

/// The two steps of a transaction that is signed over the latest blockhash and
/// submitted at once.
pub open spec fn transaction(operation: Operation, submission: Submission) -> Seq<Step> {
    seq![
        Step::Assemble { operation, blockhash: BlockhashSource::Latest },
        Step::Submit { submission },
    ]
}

/// The two steps of a transaction that is signed over the nonce and submitted
/// at once.
pub open spec fn nonce_transaction(operation: Operation, submission: Submission) -> Seq<Step> {
    seq![
        Step::Assemble { operation, blockhash: BlockhashSource::Nonce },
        Step::Submit { submission },
    ]
}

/// A wait of `slots` slots.
pub open spec fn wait(slots: u64) -> Seq<Step> {
    seq![Step::WaitSlots { slots }]
}

/// The staging of `count` buffers.
pub open spec fn buffers(count: nat) -> Seq<Step> {
    Seq::new(count, |i: int| Step::SetUpBuffer)
}

/// The whole life of a program, with a slot between any two transactions:
/// deploy, invoke, upgrade, invoke, close, and then an upgrade and a renewed
/// deployment of the closed program, both of which the ledger has to reject.
pub open spec fn example_ledger_steps() -> Seq<Step> {
    buffers(3) + wait(1) + transaction(Operation::Deploy { buffer: 0 }, Submission::Confirm)
        + wait(1) + transaction(Operation::Invoke, Submission::Send) + wait(1) + transaction(
        Operation::Upgrade { buffer: 1 },
        Submission::Confirm,
    ) + wait(1) + transaction(Operation::Invoke, Submission::Send) + wait(1) + transaction(
        Operation::Close,
        Submission::Confirm,
    ) + wait(1) + transaction(Operation::Upgrade { buffer: 2 }, Submission::Attempt) + wait(1)
        + transaction(Operation::Redeploy { buffer: 2 }, Submission::Attempt)
}

/// Deploy and invoke with no wait between them.
pub open spec fn deploy_invoke_same_slot_steps() -> Seq<Step> {
    buffers(1) + wait(1) + transaction(Operation::Deploy { buffer: 0 }, Submission::Send)
        + transaction(Operation::Invoke, Submission::Send)
}

/// Deploy and invoke, two slots apart.
pub open spec fn deploy_invoke_diff_slot_steps() -> Seq<Step> {
    buffers(1) + wait(1) + transaction(Operation::Deploy { buffer: 0 }, Submission::Send)
        + wait(2) + transaction(Operation::Invoke, Submission::Send)
}

/// Deploy, upgrade two slots later, and invoke with no wait after the upgrade.
pub open spec fn upgrade_invoke_same_slot_steps() -> Seq<Step> {
    buffers(2) + transaction(Operation::Deploy { buffer: 0 }, Submission::Send) + wait(2)
        + transaction(Operation::Upgrade { buffer: 1 }, Submission::Confirm) + transaction(
        Operation::Invoke,
        Submission::Send,
    )
}

/// Deploy, upgrade two slots later, and invoke two slots after the upgrade.
pub open spec fn upgrade_invoke_diff_slot_steps() -> Seq<Step> {
    buffers(2) + transaction(Operation::Deploy { buffer: 0 }, Submission::Send) + wait(2)
        + transaction(Operation::Upgrade { buffer: 1 }, Submission::Confirm) + wait(2)
        + transaction(Operation::Invoke, Submission::Send)
}

/// Deploy and close with no wait between them.
pub open spec fn deploy_close_same_slot_steps() -> Seq<Step> {
    buffers(1) + wait(1) + transaction(Operation::Deploy { buffer: 0 }, Submission::Send)
        + transaction(Operation::Close, Submission::Confirm)
}

/// Deploy and close, two slots apart.
pub open spec fn deploy_close_diff_slot_steps() -> Seq<Step> {
    buffers(1) + wait(1) + transaction(Operation::Deploy { buffer: 0 }, Submission::Send)
        + wait(2) + transaction(Operation::Close, Submission::Confirm)
}

/// Deploy, close a slot later, and invoke with no wait after the close.
pub open spec fn close_invoke_same_slot_steps() -> Seq<Step> {
    buffers(1) + wait(1) + transaction(Operation::Deploy { buffer: 0 }, Submission::Send)
        + wait(1) + transaction(Operation::Close, Submission::Confirm) + transaction(
        Operation::Invoke,
        Submission::Attempt,
    )
}

/// Deploy, close a slot later, and invoke two slots after the close.
pub open spec fn close_invoke_diff_slot_steps() -> Seq<Step> {
    buffers(1) + wait(1) + transaction(Operation::Deploy { buffer: 0 }, Submission::Send)
        + wait(1) + transaction(Operation::Close, Submission::Confirm) + wait(2) + transaction(
        Operation::Invoke,
        Submission::Attempt,
    )
}

/// The durable nonce: create the nonce account, read its value, sign an
/// account creation over it and have it confirmed; two slots later read the
/// value again, sign a second account creation over the new value, hold it
/// back for two slots and have it confirmed; two slots later read the value a
/// last time.
pub open spec fn create_nonce_account_steps() -> Seq<Step> {
    transaction(
        Operation::CreateNonceAccount { lamports: NONCE_ACCOUNT_LAMPORTS },
        Submission::Confirm,
    ) + seq![Step::ReadNonce] + nonce_transaction(Operation::OpenAccount, Submission::Confirm)
        + wait(2) + seq![
        Step::ReadNonce,
        Step::Assemble { operation: Operation::OpenAccount, blockhash: BlockhashSource::Nonce },
    ] + wait(2) + seq![Step::Submit { submission: Submission::Confirm }] + wait(2) + seq![
        Step::ReadNonce,
    ]
}

/// Appends the staging of one buffer.
fn stage_buffer(builder: &mut PlanBuilder)
    requires
        old(builder).well_formed(),
    ensures
        final(builder).well_formed(),
        final(builder).steps@ == old(builder).steps@.push(Step::SetUpBuffer),
        final(builder).stage@ == old(builder).stage@.after(Step::SetUpBuffer)->Ok_0,
{
    let _ = builder.push(Step::SetUpBuffer);
}

/// Appends a wait of `slots` slots.
fn hold_back(builder: &mut PlanBuilder, slots: u64)
    requires
        old(builder).well_formed(),
    ensures
        final(builder).well_formed(),
        final(builder).steps@ == old(builder).steps@.push(Step::WaitSlots { slots }),
        final(builder).stage@ == old(builder).stage@,
{
    let _ = builder.push(Step::WaitSlots { slots });
}

/// Appends the signing of a transaction of `operation` over `blockhash`.
fn sign(builder: &mut PlanBuilder, operation: Operation, blockhash: BlockhashSource)
    requires
        old(builder).well_formed(),
        old(builder).stage@.defect_of(operation, blockhash) is None,
    ensures
        final(builder).well_formed(),
        final(builder).steps@ == old(builder).steps@.push(Step::Assemble { operation, blockhash }),
        final(builder).stage@ == old(builder).stage@.after(
            Step::Assemble { operation, blockhash },
        )->Ok_0,
{
    let _ = builder.push(Step::Assemble { operation, blockhash });
}

/// Appends the submission of the transaction that was signed last.
fn submit(builder: &mut PlanBuilder, submission: Submission)
    requires
        old(builder).well_formed(),
        old(builder).stage@.pending is Some,
    ensures
        final(builder).well_formed(),
        final(builder).steps@ == old(builder).steps@.push(Step::Submit { submission }),
        final(builder).stage@ == old(builder).stage@.after(Step::Submit { submission })->Ok_0,
{
    let _ = builder.push(Step::Submit { submission });
}

/// Appends the reading of the nonce.
fn read_nonce(builder: &mut PlanBuilder)
    requires
        old(builder).well_formed(),
        old(builder).stage@.after(Step::ReadNonce) is Ok,
    ensures
        final(builder).well_formed(),
        final(builder).steps@ == old(builder).steps@.push(Step::ReadNonce),
        final(builder).stage@ == old(builder).stage@.after(Step::ReadNonce)->Ok_0,
{
    let _ = builder.push(Step::ReadNonce);
}

/// Appends a transaction of `operation`, signed over the latest blockhash and
/// submitted at once.
fn transact(builder: &mut PlanBuilder, operation: Operation, submission: Submission)
    requires
        old(builder).well_formed(),
        old(builder).stage@.defect_of(operation, BlockhashSource::Latest) is None,
    ensures
        final(builder).well_formed(),
        final(builder).steps@ == old(builder).steps@ + transaction(operation, submission),
        final(builder).stage@ == old(builder).stage@.after(
            Step::Assemble { operation, blockhash: BlockhashSource::Latest },
        )->Ok_0.after(Step::Submit { submission })->Ok_0,
{
    sign(builder, operation, BlockhashSource::Latest);
    submit(builder, submission);
    assert(builder.steps@ =~= old(builder).steps@ + transaction(operation, submission));
}

/// Deploy and invoke with no wait between them.
pub fn deploy_invoke_same_slot() -> (plan: Vec<Step>)
    ensures
        plan@ == deploy_invoke_same_slot_steps(),
        valid_plan(plan@),
{
    let mut builder = PlanBuilder::new();
    stage_buffer(&mut builder);
    hold_back(&mut builder, 1);
    transact(&mut builder, Operation::Deploy { buffer: 0 }, Submission::Send);
    transact(&mut builder, Operation::Invoke, Submission::Send);
    assert(builder.steps@ =~= deploy_invoke_same_slot_steps());
    builder.finish()
}

/// Deploy and invoke, two slots apart.
pub fn deploy_invoke_diff_slot() -> (plan: Vec<Step>)
    ensures
        plan@ == deploy_invoke_diff_slot_steps(),
        valid_plan(plan@),
{
    let mut builder = PlanBuilder::new();
    stage_buffer(&mut builder);
    hold_back(&mut builder, 1);
    transact(&mut builder, Operation::Deploy { buffer: 0 }, Submission::Send);
    hold_back(&mut builder, 2);
    transact(&mut builder, Operation::Invoke, Submission::Send);
    assert(builder.steps@ =~= deploy_invoke_diff_slot_steps());
    builder.finish()
}

/// Deploy, upgrade two slots later, and invoke with no wait after the upgrade.
pub fn upgrade_invoke_same_slot() -> (plan: Vec<Step>)
    ensures
        plan@ == upgrade_invoke_same_slot_steps(),
        valid_plan(plan@),
{
    let mut builder = PlanBuilder::new();
    stage_buffer(&mut builder);
    stage_buffer(&mut builder);
    transact(&mut builder, Operation::Deploy { buffer: 0 }, Submission::Send);
    hold_back(&mut builder, 2);
    transact(&mut builder, Operation::Upgrade { buffer: 1 }, Submission::Confirm);
    transact(&mut builder, Operation::Invoke, Submission::Send);
    assert(builder.steps@ =~= upgrade_invoke_same_slot_steps());
    builder.finish()
}

/// Deploy, upgrade two slots later, and invoke two slots after the upgrade.
pub fn upgrade_invoke_diff_slot() -> (plan: Vec<Step>)
    ensures
        plan@ == upgrade_invoke_diff_slot_steps(),
        valid_plan(plan@),
{
    let mut builder = PlanBuilder::new();
    stage_buffer(&mut builder);
    stage_buffer(&mut builder);
    transact(&mut builder, Operation::Deploy { buffer: 0 }, Submission::Send);
    hold_back(&mut builder, 2);
    transact(&mut builder, Operation::Upgrade { buffer: 1 }, Submission::Confirm);
    hold_back(&mut builder, 2);
    transact(&mut builder, Operation::Invoke, Submission::Send);
    assert(builder.steps@ =~= upgrade_invoke_diff_slot_steps());
    builder.finish()
}

/// Deploy and close with no wait between them.
pub fn deploy_close_same_slot() -> (plan: Vec<Step>)
    ensures
        plan@ == deploy_close_same_slot_steps(),
        valid_plan(plan@),
{
    let mut builder = PlanBuilder::new();
    stage_buffer(&mut builder);
    hold_back(&mut builder, 1);
    transact(&mut builder, Operation::Deploy { buffer: 0 }, Submission::Send);
    transact(&mut builder, Operation::Close, Submission::Confirm);
    assert(builder.steps@ =~= deploy_close_same_slot_steps());
    builder.finish()
}

/// Deploy and close, two slots apart.
pub fn deploy_close_diff_slot() -> (plan: Vec<Step>)
    ensures
        plan@ == deploy_close_diff_slot_steps(),
        valid_plan(plan@),
{
    let mut builder = PlanBuilder::new();
    stage_buffer(&mut builder);
    hold_back(&mut builder, 1);
    transact(&mut builder, Operation::Deploy { buffer: 0 }, Submission::Send);
    hold_back(&mut builder, 2);
    transact(&mut builder, Operation::Close, Submission::Confirm);
    assert(builder.steps@ =~= deploy_close_diff_slot_steps());
    builder.finish()
}

/// Deploy, close a slot later, and invoke with no wait after the close.
pub fn close_invoke_same_slot() -> (plan: Vec<Step>)
    ensures
        plan@ == close_invoke_same_slot_steps(),
        valid_plan(plan@),
{
    let mut builder = PlanBuilder::new();
    stage_buffer(&mut builder);
    hold_back(&mut builder, 1);
    transact(&mut builder, Operation::Deploy { buffer: 0 }, Submission::Send);
    hold_back(&mut builder, 1);
    transact(&mut builder, Operation::Close, Submission::Confirm);
    transact(&mut builder, Operation::Invoke, Submission::Attempt);
    assert(builder.steps@ =~= close_invoke_same_slot_steps());
    builder.finish()
}

/// Deploy, close a slot later, and invoke two slots after the close.
pub fn close_invoke_diff_slot() -> (plan: Vec<Step>)
    ensures
        plan@ == close_invoke_diff_slot_steps(),
        valid_plan(plan@),
{
    let mut builder = PlanBuilder::new();
    stage_buffer(&mut builder);
    hold_back(&mut builder, 1);
    transact(&mut builder, Operation::Deploy { buffer: 0 }, Submission::Send);
    hold_back(&mut builder, 1);
    transact(&mut builder, Operation::Close, Submission::Confirm);
    hold_back(&mut builder, 2);
    transact(&mut builder, Operation::Invoke, Submission::Attempt);
    assert(builder.steps@ =~= close_invoke_diff_slot_steps());
    builder.finish()
}

/// The whole life of a program, with a slot between any two transactions, up
/// to the two operations on the closed program that the ledger has to reject.
pub fn example_ledger() -> (plan: Vec<Step>)
    ensures
        plan@ == example_ledger_steps(),
        valid_plan(plan@),
{
    let mut builder = PlanBuilder::new();
    stage_buffer(&mut builder);
    stage_buffer(&mut builder);
    stage_buffer(&mut builder);
    hold_back(&mut builder, 1);
    transact(&mut builder, Operation::Deploy { buffer: 0 }, Submission::Confirm);
    hold_back(&mut builder, 1);
    transact(&mut builder, Operation::Invoke, Submission::Send);
    hold_back(&mut builder, 1);
    transact(&mut builder, Operation::Upgrade { buffer: 1 }, Submission::Confirm);
    hold_back(&mut builder, 1);
    transact(&mut builder, Operation::Invoke, Submission::Send);
    hold_back(&mut builder, 1);
    transact(&mut builder, Operation::Close, Submission::Confirm);
    hold_back(&mut builder, 1);
    transact(&mut builder, Operation::Upgrade { buffer: 2 }, Submission::Attempt);
    hold_back(&mut builder, 1);
    transact(&mut builder, Operation::Redeploy { buffer: 2 }, Submission::Attempt);
    assert(builder.steps@ =~= example_ledger_steps());
    builder.finish()
}

/// The durable nonce scenario: two account creations signed over the value of
/// a nonce account, the second over the value that the first has left behind.
pub fn create_nonce_account() -> (plan: Vec<Step>)
    ensures
        plan@ == create_nonce_account_steps(),
        valid_plan(plan@),
{
    let mut builder = PlanBuilder::new();
    transact(
        &mut builder,
        Operation::CreateNonceAccount { lamports: NONCE_ACCOUNT_LAMPORTS },
        Submission::Confirm,
    );
    read_nonce(&mut builder);
    sign(&mut builder, Operation::OpenAccount, BlockhashSource::Nonce);
    submit(&mut builder, Submission::Confirm);
    hold_back(&mut builder, 2);
    read_nonce(&mut builder);
    sign(&mut builder, Operation::OpenAccount, BlockhashSource::Nonce);
    hold_back(&mut builder, 2);
    submit(&mut builder, Submission::Confirm);
    hold_back(&mut builder, 2);
    read_nonce(&mut builder);
    assert(builder.steps@ =~= create_nonce_account_steps());
    builder.finish()
}

} // verus!
