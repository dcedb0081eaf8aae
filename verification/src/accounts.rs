//! The accounts of a run and the transactions that its operations take.
//!
//! Every account that a run creates has an identity of its own, drawn when the
//! account is first needed. This module decides which identities sign which
//! transaction: the payer signs all of them, and an account signs the
//! transaction that creates it.

use crate::assembler::{
    create_message_and_sign, create_nonce_message_and_sign, unfit, AssembleError,
    SignedTransaction,
};
use crate::plan::{buffer_of, needs_program, Operation};
use crate::programs::{
    chunked_writes, close_program_instructions, create_nonce_account_instructions,
    deploy_program_instructions, invocation_instructions, invoke_program_instructions,
    lemma_pair_then_signers, set_up_buffer_instructions, signed_by_payer_alone,
    signed_by_payer_and, upgrade_program_instructions,
};
use crate::sdk::{
    advance_nonce_account_instruction, buffer_account_size, close_instruction,
    create_account_data, create_buffer_instructions,
    create_nonce_account_instructions as nonce_account_creation, deploy_instructions,
    identity_addresses, nonce_state_size, program_account_size, program_data_address,
    system_create_account, upgrade_instruction, writable_signer, Identity,
};
use crate::types::{
    all_signers_present, instruction_views, is_required_signer, no_signer_in_excess, signs,
    system_program, system_program_address, Address, Blockhash, Instruction, InstructionView,
};
use vstd::prelude::*;

verus! {

/// The instructions that a transaction over a nonce begins with, and none for
/// a transaction over a recent blockhash.
pub open spec fn nonce_prefix(nonce: Option<Address>, payer: Address) -> Seq<InstructionView> {
    match nonce {
        Some(account) => seq![advance_nonce_account_instruction(account, payer)],
        None => Seq::empty(),
    }
}

/// What signing with the right signers gives: the transaction of exactly these
/// parts where a message can hold the instructions, and else the reason why
/// it cannot.
pub open spec fn signed_or_unfit(
    instructions: Seq<InstructionView>,
    payer: Address,
    signers: Seq<Address>,
    blockhash: Blockhash,
    result: Result<SignedTransaction, AssembleError>,
) -> bool {
    match result {
        Ok(transaction) => {
            &&& unfit(instructions, payer) is None
            &&& transaction.holds(instructions, payer, signers, blockhash)
            &&& transaction.fully_signed()
        },
        Err(error) => unfit(instructions, payer) == Some(error),
    }
}

/// The advance of the nonce, on the authority of the payer, asks for no
/// signature that the instructions behind it do not ask for.
proof fn lemma_prefix_keeps_signers(
    instructions: Seq<InstructionView>,
    nonce: Address,
    payer: Address,
    signers: Seq<Address>,
)
    requires
        forall|a: Address|
            signs(advance_nonce_account_instruction(nonce, payer).accounts, a) <==> a == payer,
        all_signers_present(instructions, payer, signers),
        no_signer_in_excess(instructions, payer, signers),
    ensures
        all_signers_present(nonce_prefix(Some(nonce), payer) + instructions, payer, signers),
        no_signer_in_excess(nonce_prefix(Some(nonce), payer) + instructions, payer, signers),
{
    let prefix = nonce_prefix(Some(nonce), payer);
    let all = prefix + instructions;
    assert(all[0] == advance_nonce_account_instruction(nonce, payer));
    assert forall|a: Address| is_required_signer(all, payer, a) implies is_required_signer(
        instructions,
        payer,
        a,
    ) by {
        if a != payer {
            let i = choose|i: int| 0 <= i < all.len() && signs(#[trigger] all[i].accounts, a);
            assert(i > 0);
            assert(all[i] == instructions[i - 1]);
        }
    }
    assert forall|j: int| 0 <= j < signers.len() implies is_required_signer(
        all,
        payer,
        #[trigger] signers[j],
    ) by {
        let a = signers[j];
        if a != payer {
            let i = choose|i: int|
                0 <= i < instructions.len() && signs(#[trigger] instructions[i].accounts, a);
            assert(all[i + 1] == instructions[i]);
        }
    }
}

/// Signs a transaction of `instructions` with `payer` and, where there is one,
/// the account `other`: over the value of the nonce account `nonce`, where one
/// is given, and over a recent blockhash else.
fn sign_with(
    instructions: Vec<Instruction>,
    payer: &Identity,
    other: Option<&Identity>,
    nonce: Option<Address>,
    blockhash: &Blockhash,
) -> (result: Result<SignedTransaction, AssembleError>)
    requires
        match other {
            Some(identity) => signed_by_payer_and(
                instruction_views(instructions@),
                payer.spec_address(),
                identity.spec_address(),
            ),
            None => signed_by_payer_alone(instruction_views(instructions@), payer.spec_address()),
        },
    ensures
        signed_or_unfit(
            nonce_prefix(nonce, payer.spec_address()) + instruction_views(instructions@),
            payer.spec_address(),
            match other {
                Some(identity) => seq![payer.spec_address(), identity.spec_address()],
                None => seq![payer.spec_address()],
            },
            *blockhash,
            result,
        ),
{
    let ghost views = instruction_views(instructions@);
    let ghost fee_payer = payer.spec_address();
    let mut signers: Vec<&Identity> = Vec::new();
    signers.push(payer);
    if let Some(identity) = other {
        signers.push(identity);
    }
    let ghost addresses = identity_addresses(signers@);
    proof {
        assert(addresses =~= match other {
            Some(identity) => seq![fee_payer, identity.spec_address()],
            None => seq![fee_payer],
        });
        assert(addresses[0] == fee_payer);
        assert(all_signers_present(views, fee_payer, addresses)) by {
            assert forall|a: Address| is_required_signer(views, fee_payer, a) implies addresses.contains(
                a,
            ) by {
                if a == fee_payer {
                    assert(addresses[0] == a);
                } else {
                    assert(addresses[1] == a);
                }
            }
        }
        assert(no_signer_in_excess(views, fee_payer, addresses));
    }
    match nonce {
        Some(account) => {
            let result = create_nonce_message_and_sign(
                instructions,
                payer,
                &account,
                &signers,
                blockhash,
            );
            proof {
                lemma_prefix_keeps_signers(views, account, fee_payer, addresses);
            }
            result
        },
        None => {
            assert(nonce_prefix(nonce, fee_payer) + views =~= views);
            create_message_and_sign(instructions, payer, &signers, blockhash)
        },
    }
}

/// The accounts of a run: the payer, and the identities of the accounts that
/// the run has created so far.
pub struct RunAccounts {
    pub payer: Identity,
    /// The buffers staged, in the order of their staging.
    pub buffers: Vec<Identity>,
    /// The program that was deployed last.
    pub program: Option<Identity>,
    pub nonce: Option<Identity>,
}

/// A transaction that is ready to be submitted, and the address of the account
/// that it creates, if it creates one.
pub struct Assembled {
    pub transaction: SignedTransaction,
    pub created: Option<Address>,
}

/// Why an operation gave no transaction.
#[derive(Clone, Copy, Debug)]
pub enum BuildError {
    /// The operation names a buffer that has not been staged.
    NoSuchBuffer,
    /// The operation acts on the program, and none has been deployed.
    NoProgram,
    /// The transaction is to be signed over the nonce, and there is no nonce
    /// account.
    NoNonceAccount,
    /// No address can be derived for the data account of the program.
    NoProgramDataAddress,
    /// The assembler refused.
    Assembly(AssembleError),
}

/// The address of `identity`, if there is one.
pub open spec fn address_of(identity: Option<Identity>) -> Option<Address> {
    match identity {
        Some(identity) => Some(identity.spec_address()),
        None => None,
    }
}

/// The instruction that creates the empty account `account`, which belongs to
/// the system program, funded with `lamports` by `payer`.
pub open spec fn account_opening(payer: Address, account: Address, lamports: u64) -> InstructionView {
    InstructionView {
        program_id: system_program(),
        accounts: seq![writable_signer(payer), writable_signer(account)],
        data: create_account_data(lamports, 0, system_program()),
    }
}

/// The size of the account that `operation` funds with the balance handed to
/// it, if it funds one with it: the program account of a deployment, the
/// scratch account of an invocation, which holds the data, and the account
/// that is opened, which is funded like a nonce account.
pub open spec fn funded_size(operation: Operation, account_data_len: usize) -> Option<usize> {
    match operation {
        Operation::Deploy { .. } => Some(36usize),
        Operation::Redeploy { .. } => Some(36usize),
        Operation::Invoke => Some(account_data_len),
        Operation::OpenAccount => Some(80usize),
        _ => None,
    }
}

/// The size of the account for whose rent `operation` needs the balance, if
/// it needs one.
pub fn rent_size(operation: &Operation, account_data_len: usize) -> (size: Option<usize>)
    ensures
        size == funded_size(*operation, account_data_len),
{
    match operation {
        Operation::Deploy { .. } | Operation::Redeploy { .. } => Some(program_account_size()),
        Operation::Invoke => Some(account_data_len),
        Operation::OpenAccount => Some(nonce_state_size()),
        _ => None,
    }
}

/// The size of the buffer account for a program of `program_len` bytes: the
/// program and the 37 bytes that the loader keeps in front of it.
pub fn buffer_rent_size(program_len: usize) -> (size: usize)
    ensures
        size == if 37 + program_len > usize::MAX {
            usize::MAX as int
        } else {
            37 + program_len
        },
{
    buffer_account_size(program_len)
}

/// Whether `operation` creates an account.
pub open spec fn creates_account(operation: Operation) -> bool {
    operation is Deploy || operation is Invoke || operation is CreateNonceAccount
        || operation is OpenAccount
}

/// The account that signs a transaction of `operation` beside the payer: the
/// account that the operation creates, the program where it is deployed once
/// more, and none else.
pub open spec fn second_signer(
    operation: Operation,
    program: Option<Address>,
    created: Option<Address>,
) -> Option<Address> {
    if operation is Redeploy {
        program
    } else if creates_account(operation) {
        created
    } else {
        None
    }
}

/// The signers of a transaction, the payer first.
pub open spec fn signer_list(payer: Address, second: Option<Address>) -> Seq<Address> {
    match second {
        Some(address) => seq![payer, address],
        None => seq![payer],
    }
}

/// The instructions of `operation`, for the accounts `payer`, `program` and
/// `buffer` of the run where the operation acts on them and the account
/// `created` where it creates one.
pub open spec fn payload(
    operation: Operation,
    payer: Address,
    program: Address,
    buffer: Address,
    created: Address,
    lamports: u64,
    program_len: usize,
    account_data: Seq<u8>,
) -> Seq<InstructionView> {
    match operation {
        Operation::Deploy { .. } => deploy_instructions(
            payer,
            created,
            buffer,
            payer,
            lamports,
            program_len,
        ),
        Operation::Redeploy { .. } => deploy_instructions(
            payer,
            program,
            buffer,
            payer,
            lamports,
            program_len,
        ),
        Operation::Upgrade { .. } => seq![upgrade_instruction(program, buffer, payer, payer)],
        Operation::Invoke => invocation_instructions(payer, program, created, lamports, account_data),
        Operation::Close => seq![
            close_instruction(program_data_address(program)->0, payer, payer, program),
        ],
        Operation::CreateNonceAccount { lamports: funding } => nonce_account_creation(
            payer,
            created,
            payer,
            funding,
        ),
        Operation::OpenAccount => seq![account_opening(payer, created, lamports)],
    }
}

/// The instruction lists of the transactions that stage `program_data` in the
/// account `buffer`: the creation of the buffer first, then each write by
/// itself, in the order of the chunks.
pub open spec fn staging_lists(
    payer: Address,
    buffer: Address,
    program_data: Seq<u8>,
    lamports: u64,
    chunk_len: int,
) -> Seq<Seq<InstructionView>> {
    let writes = chunked_writes(buffer, payer, program_data, chunk_len);
    Seq::new(
        1 + writes.len(),
        |t: int|
            if t == 0 {
                create_buffer_instructions(
                    payer,
                    buffer,
                    payer,
                    lamports,
                    program_data.len() as usize,
                )
            } else {
                seq![writes[t - 1]]
            },
    )
}

/// The signers of staging transaction `t`: the payer and the buffer for the
/// creation, the payer alone for a write.
pub open spec fn staging_signers(payer: Address, buffer: Address, t: int) -> Seq<Address> {
    if t == 0 {
        seq![payer, buffer]
    } else {
        seq![payer]
    }
}

/// Whether `transactions` stage `program_data` in the account `buffer`: there
/// is one for each staging list, in their order, built from that list and
/// signed by its signers.
pub open spec fn stages_buffer(
    transactions: Seq<SignedTransaction>,
    payer: Address,
    buffer: Address,
    program_data: Seq<u8>,
    lamports: u64,
    chunk_len: int,
    blockhash: Blockhash,
) -> bool {
    let lists = staging_lists(payer, buffer, program_data, lamports, chunk_len);
    &&& transactions.len() == lists.len()
    &&& forall|t: int|
        0 <= t < lists.len() ==> signed_or_unfit(
            lists[t],
            payer,
            staging_signers(payer, buffer, t),
            blockhash,
            Ok(#[trigger] transactions[t]),
        )
}

/// Whether list `t` is the first of `lists` that a message cannot hold, and
/// `error` the reason why it cannot.
pub open spec fn first_unfit(
    lists: Seq<Seq<InstructionView>>,
    payer: Address,
    t: int,
    error: AssembleError,
) -> bool {
    &&& 0 <= t < lists.len()
    &&& unfit(lists[t], payer) == Some(error)
    &&& forall|u: int| 0 <= u < t ==> unfit(#[trigger] lists[u], payer) is None
}

/// Whether `operation` derives the address of a program's data account.
pub open spec fn derives_program_data(operation: Operation) -> bool {
    operation is Deploy || operation is Redeploy || operation is Upgrade || operation is Close
}

impl RunAccounts {
    /// What `operation` needs and the run does not have, if anything.
    pub open spec fn lacks(&self, operation: Operation, over_nonce: bool) -> Option<BuildError> {
        if buffer_of(operation) matches Some(number) && number >= self.buffers@.len() {
            Some(BuildError::NoSuchBuffer)
        } else if needs_program(operation) && self.program is None {
            Some(BuildError::NoProgram)
        } else if over_nonce && self.nonce is None {
            Some(BuildError::NoNonceAccount)
        } else {
            None
        }
    }

    /// The address of the buffer that `operation` takes its code from; of no
    /// account in particular where it takes none.
    pub open spec fn buffer_address(&self, operation: Operation) -> Address {
        self.buffers@[buffer_of(operation)->0 as int].spec_address()
    }

    /// The nonce account that a transaction is signed over, if it is signed
    /// over one.
    pub open spec fn nonce_used(&self, over_nonce: bool) -> Option<Address> {
        if over_nonce {
            address_of(self.nonce)
        } else {
            None
        }
    }

    /// The accounts of a run that has created none yet.
    pub fn new(payer: Identity) -> (accounts: RunAccounts)
        ensures
            accounts.payer == payer,
            accounts.buffers@.len() == 0,
            accounts.program is None,
            accounts.nonce is None,
    {
        RunAccounts { payer, buffers: Vec::new(), program: None, nonce: None }
    }

    /// The address of the program that was deployed last.
    pub fn program_address(&self) -> (address: Option<Address>)
        ensures
            address == address_of(self.program),
    {
        match &self.program {
            Some(identity) => Some(identity.address()),
            None => None,
        }
    }

    /// The address of the nonce account.
    pub fn nonce_address(&self) -> (address: Option<Address>)
        ensures
            address == address_of(self.nonce),
    {
        match &self.nonce {
            Some(identity) => Some(identity.address()),
            None => None,
        }
    }

    /// Whether `result` is what staging `program_data` in a buffer at the
    /// address `buffer` gives, and `after` the accounts afterwards. Where a
    /// message can hold each staging list, the transactions are signed and the
    /// buffer becomes the next buffer of the run. Else the first list that a
    /// message cannot hold decides the error, and the run has no new buffer.
    pub open spec fn staged(
        &self,
        program_data: Seq<u8>,
        lamports: u64,
        chunk_len: int,
        blockhash: Blockhash,
        buffer: Address,
        result: Result<Vec<SignedTransaction>, AssembleError>,
        after: RunAccounts,
    ) -> bool {
        let payer = self.payer.spec_address();
        match result {
            Ok(transactions) => {
                &&& after.buffers@.len() == self.buffers@.len() + 1
                &&& after.buffers@.drop_last() == self.buffers@
                &&& after.buffers@.last().spec_address() == buffer
                &&& stages_buffer(
                    transactions@,
                    payer,
                    buffer,
                    program_data,
                    lamports,
                    chunk_len,
                    blockhash,
                )
            },
            Err(error) => {
                &&& after.buffers == self.buffers
                &&& exists|t: int|
                    first_unfit(
                        staging_lists(payer, buffer, program_data, lamports, chunk_len),
                        payer,
                        t,
                        error,
                    )
            },
        }
    }

    /// Draws the identity of a fresh buffer account and signs the transactions
    /// that stage `program_data` in it, in chunks of at most `chunk_len`
    /// bytes. The buffer is funded with `lamports`. It becomes the next buffer
    /// of the run once all its transactions are signed.
    pub fn stage_buffer(
        &mut self,
        program_data: &Vec<u8>,
        lamports: u64,
        chunk_len: usize,
        blockhash: &Blockhash,
    ) -> (result: Result<Vec<SignedTransaction>, AssembleError>)
        requires
            0 < program_data.len() <= u32::MAX,
            chunk_len > 0,
        ensures
            final(self).payer == old(self).payer,
            final(self).program == old(self).program,
            final(self).nonce == old(self).nonce,
            exists|buffer: Address|
                old(self).staged(
                    program_data@,
                    lamports,
                    chunk_len as int,
                    *blockhash,
                    buffer,
                    result,
                    *final(self),
                ),
    {
        let (buffer, setup) = set_up_buffer_instructions(
            &self.payer,
            program_data,
            lamports,
            chunk_len,
        );
        let ghost payer_address = self.payer.spec_address();
        let ghost buffer_address = buffer.spec_address();
        let ghost expected = chunked_writes(
            buffer_address,
            payer_address,
            program_data@,
            chunk_len as int,
        );
        let ghost lists = staging_lists(
            payer_address,
            buffer_address,
            program_data@,
            lamports,
            chunk_len as int,
        );
        let mut writes = setup.writes;
        let mut transactions: Vec<SignedTransaction> = Vec::new();
        proof {
            assert(nonce_prefix(None, payer_address) + lists[0] =~= lists[0]);
        }
        match sign_with(setup.create, &self.payer, Some(&buffer), None, blockhash) {
            Ok(transaction) => {
                transactions.push(transaction);
            },
            Err(error) => {
                proof {
                    assert(first_unfit(lists, payer_address, 0, error));
                    assert(old(self).staged(
                        program_data@,
                        lamports,
                        chunk_len as int,
                        *blockhash,
                        buffer_address,
                        Err(error),
                        *self,
                    ));
                }
                return Err(error);
            },
        }
        let mut done: usize = 0;
        let total: usize = writes.len();
        assert(expected.len() == total) by {
            assert(instruction_views(writes@).len() == writes@.len());
        }
        while writes.len() > 0
            invariant
                payer_address == self.payer.spec_address(),
                *self == *old(self),
                done + writes@.len() == expected.len(),
                expected.len() <= usize::MAX,
                lists == staging_lists(
                    payer_address,
                    buffer_address,
                    program_data@,
                    lamports,
                    chunk_len as int,
                ),
                expected == chunked_writes(
                    buffer_address,
                    payer_address,
                    program_data@,
                    chunk_len as int,
                ),
                instruction_views(writes@) == expected.skip(done as int),
                forall|i: int|
                    0 <= i < expected.len() ==> signed_by_payer_alone(
                        seq![#[trigger] expected[i]],
                        payer_address,
                    ),
                transactions@.len() == 1 + done,
                forall|t: int|
                    0 <= t < 1 + done ==> signed_or_unfit(
                        lists[t],
                        payer_address,
                        staging_signers(payer_address, buffer_address, t),
                        *blockhash,
                        Ok(#[trigger] transactions@[t]),
                    ),
            decreases writes.len(),
        {
            let ghost before = writes@;
            let ghost signed = transactions@;
            let write = writes.remove(0);
            let mut single: Vec<Instruction> = Vec::new();
            single.push(write);
            proof {
                assert(instruction_views(before)[0] == expected[done as int]);
                assert(instruction_views(single@) =~= seq![expected[done as int]]);
                assert(instruction_views(writes@) =~= expected.skip(done + 1)) by {
                    assert forall|i: int| 0 <= i < writes@.len() implies instruction_views(
                        writes@,
                    )[i] == expected.skip(done + 1)[i] by {
                        assert(writes@[i] == before[i + 1]);
                        assert(instruction_views(before)[i + 1] == expected.skip(done as int)[i + 1]);
                    }
                }
                assert(lists[1 + done] == seq![expected[done as int]]);
                assert(nonce_prefix(None, payer_address) + instruction_views(single@)
                    =~= instruction_views(single@));
            }
            match sign_with(single, &self.payer, None, None, blockhash) {
                Ok(transaction) => {
                    transactions.push(transaction);
                    proof {
                        assert forall|t: int| 0 <= t < 2 + done implies signed_or_unfit(
                            lists[t],
                            payer_address,
                            staging_signers(payer_address, buffer_address, t),
                            *blockhash,
                            Ok(#[trigger] transactions@[t]),
                        ) by {
                            if t < 1 + done {
                                assert(transactions@[t] == signed[t]);
                            }
                        }
                    }
                },
                Err(error) => {
                    proof {
                        assert forall|u: int| 0 <= u < 1 + done implies unfit(
                            #[trigger] lists[u],
                            payer_address,
                        ) is None by {
                            assert(signed_or_unfit(
                                lists[u],
                                payer_address,
                                staging_signers(payer_address, buffer_address, u),
                                *blockhash,
                                Ok(transactions@[u]),
                            ));
                        }
                        assert(first_unfit(lists, payer_address, 1 + done, error));
                        assert(old(self).staged(
                            program_data@,
                            lamports,
                            chunk_len as int,
                            *blockhash,
                            buffer_address,
                            Err(error),
                            *self,
                        ));
                    }
                    return Err(error);
                },
            }
            done += 1;
        }
        self.buffers.push(buffer);
        proof {
            assert(self.buffers@.drop_last() =~= old(self).buffers@);
            assert(old(self).staged(
                program_data@,
                lamports,
                chunk_len as int,
                *blockhash,
                buffer_address,
                Ok(transactions),
                *self,
            ));
        }
        Ok(transactions)
    }

    /// Whether `result` is what assembling `operation` gives where the
    /// account that it creates, if it creates one, is `created`, and `after`
    /// the accounts afterwards.
    ///
    /// Where no address can be derived for the data account of the program
    /// that the operation deploys or acts on, that is the error. Else, where a
    /// message cannot hold the instructions, the reason is the error. Else the
    /// transaction holds the instructions of the operation, after the advance
    /// of the nonce where it is signed over one; the payer pays and signs, and
    /// with it the account that the operation creates or deploys onto; and the
    /// run knows the program or the nonce account that the operation created.
    pub open spec fn assembles(
        &self,
        operation: Operation,
        over_nonce: bool,
        blockhash: Blockhash,
        lamports: u64,
        program_len: usize,
        account_data: Seq<u8>,
        created: Address,
        result: Result<Assembled, BuildError>,
        after: RunAccounts,
    ) -> bool {
        let payer = self.payer.spec_address();
        let program = address_of(self.program);
        let instructions = nonce_prefix(self.nonce_used(over_nonce), payer) + payload(
            operation,
            payer,
            program->0,
            self.buffer_address(operation),
            created,
            lamports,
            program_len,
            account_data,
        );
        let target = if operation is Deploy {
            created
        } else {
            program->0
        };
        if derives_program_data(operation) && program_data_address(target) is None {
            result matches Err(BuildError::NoProgramDataAddress)
        } else {
            match result {
                Ok(done) => {
                    &&& done.created == if creates_account(operation) {
                        Some(created)
                    } else {
                        None
                    }
                    &&& signed_or_unfit(
                        instructions,
                        payer,
                        signer_list(payer, second_signer(operation, program, done.created)),
                        blockhash,
                        Ok(done.transaction),
                    )
                    &&& address_of(after.program) == if operation is Deploy {
                        done.created
                    } else {
                        program
                    }
                    &&& address_of(after.nonce) == if operation is CreateNonceAccount {
                        done.created
                    } else {
                        address_of(self.nonce)
                    }
                },
                Err(BuildError::Assembly(error)) => unfit(instructions, payer) == Some(error),
                Err(_) => false,
            }
        }
    }

    /// Builds the instructions of `operation` and signs the transaction, over
    /// the value `blockhash` of the nonce account where `over_nonce` says so
    /// and over the recent blockhash `blockhash` else.
    ///
    /// `lamports` is the balance that the account created is funded with,
    /// `program_len` the room that a deployment reserves, `account_data` the
    /// argument of an invocation; an operation that has no use for one of them
    /// ignores it. An operation that creates an account draws a fresh identity
    /// for it.
    pub fn assemble(
        &mut self,
        operation: &Operation,
        over_nonce: bool,
        blockhash: &Blockhash,
        lamports: u64,
        program_len: usize,
        account_data: &Vec<u8>,
    ) -> (result: Result<Assembled, BuildError>)
        ensures
            final(self).payer == old(self).payer,
            final(self).buffers == old(self).buffers,
            match old(self).lacks(*operation, over_nonce) {
                Some(error) => result matches Err(e) && e == error,
                None => exists|created: Address|
                    old(self).assembles(
                        *operation,
                        over_nonce,
                        *blockhash,
                        lamports,
                        program_len,
                        account_data@,
                        created,
                        result,
                        *final(self),
                    ),
            },
            result is Err ==> final(self).program == old(self).program && final(self).nonce == old(
                self,
            ).nonce,
    {
        let buffer_address = match operation {
            Operation::Deploy { buffer } | Operation::Redeploy { buffer } | Operation::Upgrade {
                buffer,
            } => {
                if *buffer >= self.buffers.len() {
                    return Err(BuildError::NoSuchBuffer);
                }
                self.buffers[*buffer].address()
            },
            _ => system_program_address(),
        };
        let program_address = match operation {
            Operation::Redeploy { .. } | Operation::Upgrade { .. } | Operation::Invoke | Operation::Close => {
                match self.program_address() {
                    Some(address) => address,
                    None => {
                        return Err(BuildError::NoProgram);
                    },
                }
            },
            _ => system_program_address(),
        };
        let nonce = if over_nonce {
            match self.nonce_address() {
                Some(address) => Some(address),
                None => {
                    return Err(BuildError::NoNonceAccount);
                },
            }
        } else {
            None
        };
        let ghost payer_address = self.payer.spec_address();
        let ghost mut created_address = payer_address;
        let result = match operation {
            Operation::Deploy { .. } => {
                let (program, instructions) = deploy_program_instructions(
                    &self.payer,
                    None,
                    &buffer_address,
                    lamports,
                    program_len,
                );
                let created = program.address();
                proof {
                    created_address = created;
                }
                match instructions {
                    Ok(instructions) => match sign_with(
                        instructions,
                        &self.payer,
                        Some(&program),
                        nonce,
                        blockhash,
                    ) {
                        Ok(transaction) => {
                            self.program = Some(program);
                            Ok(Assembled { transaction, created: Some(created) })
                        },
                        Err(error) => Err(BuildError::Assembly(error)),
                    },
                    Err(_) => Err(BuildError::NoProgramDataAddress),
                }
            },
            Operation::Redeploy { .. } => {
                let existing = self.program.take();
                let (program, instructions) = deploy_program_instructions(
                    &self.payer,
                    existing,
                    &buffer_address,
                    lamports,
                    program_len,
                );
                let result = match instructions {
                    Ok(instructions) => match sign_with(
                        instructions,
                        &self.payer,
                        Some(&program),
                        nonce,
                        blockhash,
                    ) {
                        Ok(transaction) => Ok(Assembled { transaction, created: None }),
                        Err(error) => Err(BuildError::Assembly(error)),
                    },
                    Err(_) => Err(BuildError::NoProgramDataAddress),
                };
                self.program = Some(program);
                result
            },
            Operation::Upgrade { .. } => {
                match upgrade_program_instructions(&self.payer, &buffer_address, &program_address) {
                    Ok(instructions) => match sign_with(
                        instructions,
                        &self.payer,
                        None,
                        nonce,
                        blockhash,
                    ) {
                        Ok(transaction) => Ok(Assembled { transaction, created: None }),
                        Err(error) => Err(BuildError::Assembly(error)),
                    },
                    Err(_) => Err(BuildError::NoProgramDataAddress),
                }
            },
            Operation::Invoke => {
                let (scratch, instructions) = invoke_program_instructions(
                    &self.payer,
                    &program_address,
                    account_data,
                    lamports,
                );
                let created = scratch.address();
                proof {
                    created_address = created;
                }
                match sign_with(instructions, &self.payer, Some(&scratch), nonce, blockhash) {
                    Ok(transaction) => Ok(Assembled { transaction, created: Some(created) }),
                    Err(error) => Err(BuildError::Assembly(error)),
                }
            },
            Operation::Close => {
                match close_program_instructions(&self.payer, &program_address) {
                    Ok(instructions) => match sign_with(
                        instructions,
                        &self.payer,
                        None,
                        nonce,
                        blockhash,
                    ) {
                        Ok(transaction) => Ok(Assembled { transaction, created: None }),
                        Err(error) => Err(BuildError::Assembly(error)),
                    },
                    Err(_) => Err(BuildError::NoProgramDataAddress),
                }
            },
            Operation::CreateNonceAccount { lamports: funding } => {
                let (account, instructions) = create_nonce_account_instructions(
                    None,
                    &self.payer,
                    *funding,
                );
                let created = account.address();
                proof {
                    created_address = created;
                }
                match sign_with(instructions, &self.payer, Some(&account), nonce, blockhash) {
                    Ok(transaction) => {
                        self.nonce = Some(account);
                        Ok(Assembled { transaction, created: Some(created) })
                    },
                    Err(error) => Err(BuildError::Assembly(error)),
                }
            },
            Operation::OpenAccount => {
                let account = Identity::generate();
                let created = account.address();
                let opening = system_create_account(
                    &self.payer.address(),
                    &created,
                    lamports,
                    0,
                    &system_program_address(),
                );
                let mut instructions: Vec<Instruction> = Vec::new();
                instructions.push(opening);
                proof {
                    created_address = created;
                    let views = instruction_views(instructions@);
                    assert(views =~= seq![account_opening(payer_address, created, lamports)]);
                    lemma_pair_then_signers(views, payer_address, created);
                }
                match sign_with(instructions, &self.payer, Some(&account), nonce, blockhash) {
                    Ok(transaction) => Ok(Assembled { transaction, created: Some(created) }),
                    Err(error) => Err(BuildError::Assembly(error)),
                }
            },
        };
        proof {
            assert(old(self).assembles(
                *operation,
                over_nonce,
                *blockhash,
                lamports,
                program_len,
                account_data@,
                created_address,
                result,
                *self,
            ));
        }
        result
    }
}

} // verus!
