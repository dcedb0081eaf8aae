//! The calls into `solana_sdk`. Verus takes the contracts in this file on
//! trust; each doc comment names the function that is called and says what is
//! claimed of it.

use crate::types::{
    all_signers_present, instruction_views, mentioned_accounts, no_signer_in_excess,
    required_signers, signs, system_program, AccountMeta, Address, Blockhash, Instruction,
    InstructionView,
};
use solana_sdk::bpf_loader_upgradeable;
use solana_sdk::pubkey::Pubkey;
use solana_sdk::signer::keypair::Keypair;
use solana_sdk::signer::Signer;
use solana_sdk::signer::SignerError;
use solana_sdk::system_instruction;
use solana_sdk::transaction::Transaction;
use vstd::prelude::*;

verus! {

/// `solana_sdk::signer::keypair::Keypair`, carried through as an opaque value.
#[verifier::external_type_specification]
#[verifier::external_body]
pub struct ExKeypair(solana_sdk::signer::keypair::Keypair);

/// `solana_sdk::transaction::Transaction`, carried through as an opaque value.
#[verifier::external_type_specification]
#[verifier::external_body]
pub struct ExTransaction(solana_sdk::transaction::Transaction);

/// A keypair together with the address that it signs for.
pub struct Identity {
    keypair: Keypair,
    address: Address,
}

/// A transaction in the making: the value that goes over the wire, and beside
/// it the instructions and the fee payer that it was built from and the
/// record of its signing.
pub struct Draft {
    wire: Transaction,
    instructions: Vec<Instruction>,
    fee_payer: Address,
    /// The accounts whose identities signed the wire value when it was signed
    /// last. Only the call that signs writes here.
    signed_by: Vec<Address>,
    /// The blockhash that the wire value was signed over when it was signed
    /// last. Only the call that signs writes here.
    signed_over: Option<Blockhash>,
}

/// Why `Transaction::try_sign` refused.
#[derive(Clone, Copy, Debug, PartialEq, Eq, Structural)]
pub enum SignFailure {
    /// A keypair was handed in that the message does not ask for.
    KeypairMismatch,
    /// A signature that the message asks for is missing.
    NotEnoughSigners,
    /// Any other error of a signer.
    Other,
}

/// An account that signs and may be written to.
pub open spec fn writable_signer(address: Address) -> AccountMeta {
    AccountMeta { address, is_signer: true, is_writable: true }
}

/// An account that may be written to and does not sign.
pub open spec fn writable(address: Address) -> AccountMeta {
    AccountMeta { address, is_signer: false, is_writable: true }
}

/// An account that signs and is only read.
pub open spec fn readonly_signer(address: Address) -> AccountMeta {
    AccountMeta { address, is_signer: true, is_writable: false }
}

/// An account that is only read and does not sign.
pub open spec fn readonly(address: Address) -> AccountMeta {
    AccountMeta { address, is_signer: false, is_writable: false }
}

/// Whether a message can write `instruction` down: the length of its data
/// and the number of its accounts are each written in 16 bits.
pub open spec fn instruction_fits(instruction: InstructionView) -> bool {
    instruction.data.len() <= 0xffff && instruction.accounts.len() <= 0xffff
}

/// Whether a message can write every one of `instructions` down.
pub open spec fn instructions_fit(instructions: Seq<InstructionView>) -> bool {
    forall|i: int| 0 <= i < instructions.len() ==> instruction_fits(#[trigger] instructions[i])
}

/// Whether the account table of a message can hold the accounts of these
/// instructions: an account is referred to by one byte, which makes 256
/// accounts at most, and the number of the signers among them is written in
/// one byte, which makes 255 at most.
pub open spec fn accounts_fit(instructions: Seq<InstructionView>, payer: Address) -> bool {
    mentioned_accounts(instructions, payer).len() <= 256 && required_signers(
        instructions,
        payer,
    ).len() <= 255
}

/// Whether a message can hold these instructions, paid for by `payer`: the
/// number of the instructions is written in 16 bits, each of them can be
/// written down, and the account table can hold their accounts.
pub open spec fn fits_message(instructions: Seq<InstructionView>, payer: Address) -> bool {
    &&& instructions.len() <= 0xffff
    &&& instructions_fit(instructions)
    &&& accounts_fit(instructions, payer)
}

/// The addresses of a list of identities, in the order of the list.
pub open spec fn identity_addresses(signers: Seq<&Identity>) -> Seq<Address> {
    signers.map_values(|identity: &Identity| identity.spec_address())
}

/// The bytes that `system_instruction::create_account` puts into its
/// instruction for these arguments.
pub uninterp spec fn create_account_data(lamports: u64, space: u64, owner: Address) -> Seq<u8>;

/// The two instructions that `system_instruction::create_nonce_account` returns.
pub uninterp spec fn create_nonce_account_instructions(
    from: Address,
    nonce: Address,
    authority: Address,
    lamports: u64,
) -> Seq<InstructionView>;

/// The instruction that `system_instruction::advance_nonce_account` returns.
pub uninterp spec fn advance_nonce_account_instruction(
    nonce: Address,
    authority: Address,
) -> InstructionView;

/// The address that `Pubkey::try_find_program_address` derives for the program
/// data of `program` under the upgradeable loader, if it finds one.
pub uninterp spec fn program_data_address(program: Address) -> Option<Address>;

/// The two instructions that `bpf_loader_upgradeable::create_buffer` returns.
pub uninterp spec fn create_buffer_instructions(
    payer: Address,
    buffer: Address,
    authority: Address,
    lamports: u64,
    program_len: usize,
) -> Seq<InstructionView>;

/// The instruction that `bpf_loader_upgradeable::write` returns.
pub uninterp spec fn write_instruction(
    buffer: Address,
    authority: Address,
    offset: u32,
    bytes: Seq<u8>,
) -> InstructionView;

/// The two instructions that `bpf_loader_upgradeable::deploy_with_max_program_len`
/// returns.
pub uninterp spec fn deploy_instructions(
    payer: Address,
    program: Address,
    buffer: Address,
    authority: Address,
    program_lamports: u64,
    max_data_len: usize,
) -> Seq<InstructionView>;

/// The instruction that `bpf_loader_upgradeable::upgrade` returns.
pub uninterp spec fn upgrade_instruction(
    program: Address,
    buffer: Address,
    authority: Address,
    spill: Address,
) -> InstructionView;

/// The instruction that `bpf_loader_upgradeable::close_any` returns when an
/// authority and a program are given.
pub uninterp spec fn close_instruction(
    close: Address,
    recipient: Address,
    authority: Address,
    program: Address,
) -> InstructionView;

impl Identity {
    /// The address that this identity signs for.
    pub closed spec fn spec_address(&self) -> Address {
        self.address
    }

    /// The keypair that this identity signs with.
    pub closed spec fn spec_keypair(&self) -> Keypair {
        self.keypair
    }

    /// The identity of `keypair`: it signs with the keypair that was handed
    /// in, for the address that the keypair gives as its own.
    pub fn from_keypair(keypair: Keypair) -> (identity: Identity)
        ensures
            identity.spec_keypair() == keypair,
    {
        identity_of(keypair)
    }

    /// The identity of a keypair drawn at random.
    pub fn generate() -> Identity {
        identity_of(new_keypair())
    }

    /// The address that this identity signs for.
    pub fn address(&self) -> (address: Address)
        ensures
            address == self.spec_address(),
    {
        self.address
    }

    /// The keypair that this identity signs with.
    pub fn keypair(&self) -> (keypair: &Keypair)
        ensures
            *keypair == self.spec_keypair(),
    {
        &self.keypair
    }
}

impl Draft {
    /// The instructions of the transaction, in their order.
    pub closed spec fn instructions(&self) -> Seq<InstructionView> {
        instruction_views(self.instructions@)
    }

    /// The account that pays the fee.
    pub closed spec fn fee_payer(&self) -> Address {
        self.fee_payer
    }

    /// The accounts whose identities have signed the wire value, in the order
    /// in which the identities were handed in; none as long as it is unsigned.
    pub closed spec fn signed_by(&self) -> Seq<Address> {
        self.signed_by@
    }

    /// The blockhash that the wire value has been signed over; none as long as
    /// it is unsigned.
    pub closed spec fn signed_over(&self) -> Option<Blockhash> {
        self.signed_over
    }

    /// The value that goes over the wire.
    pub closed spec fn spec_wire(&self) -> Transaction {
        self.wire
    }

    /// The unsigned transaction of `instructions`, in their order, with
    /// `fee_payer` paying the fee.
    pub(crate) fn new(instructions: Vec<Instruction>, fee_payer: &Address) -> (draft: Draft)
        requires
            fits_message(instruction_views(instructions@), *fee_payer),
        ensures
            draft.instructions() == instruction_views(instructions@),
            draft.fee_payer() == *fee_payer,
            draft.signed_by() == Seq::<Address>::empty(),
            draft.signed_over() is None,
    {
        let wire = unsigned_transaction(&instructions, fee_payer);
        Draft {
            wire,
            instructions,
            fee_payer: *fee_payer,
            signed_by: Vec::new(),
            signed_over: None,
        }
    }

    /// The addresses of the accounts whose identities have signed.
    pub fn signer_list(&self) -> (signers: &Vec<Address>)
        ensures
            signers@ == self.signed_by(),
    {
        &self.signed_by
    }

    /// The blockhash that the transaction has been signed over, if it has
    /// been signed.
    pub fn signed_blockhash(&self) -> (blockhash: Option<Blockhash>)
        ensures
            blockhash == self.signed_over(),
    {
        self.signed_over
    }

    /// The value that goes over the wire.
    pub fn wire(&self) -> (wire: &Transaction)
        ensures
            *wire == self.spec_wire(),
    {
        &self.wire
    }

    /// The instructions that the transaction was built from.
    pub fn instruction_list(&self) -> (instructions: &Vec<Instruction>)
        ensures
            instruction_views(instructions@) == self.instructions(),
    {
        &self.instructions
    }

    /// The address of the account that pays the fee.
    pub fn fee_payer_address(&self) -> (address: Address)
        ensures
            address == self.fee_payer(),
    {
        self.fee_payer
    }
}

/// Calls `Keypair::new`, which draws a keypair from the operating system's
/// random source. Nothing is claimed of the result.
#[verifier::external_body]
fn new_keypair() -> Keypair {
    Keypair::new()
}

/// Calls `system_instruction::create_account`. Its source builds an
/// instruction for the system program whose accounts are `from` and `to`, both
/// signing and writable, in that order; the data is the encoding of the three
/// remaining arguments, which `create_account_data` names.
#[verifier::external_body]
pub(crate) fn system_create_account(
    from: &Address,
    to: &Address,
    lamports: u64,
    space: u64,
    owner: &Address,
) -> (instruction: Instruction)
    ensures
        instruction.program_id == system_program(),
        instruction.accounts@ == seq![writable_signer(*from), writable_signer(*to)],
        instruction.data@ == create_account_data(lamports, space, *owner),
{
    let (from, to) = (Pubkey::from(from.bytes), Pubkey::from(to.bytes));
    let owner = Pubkey::from(owner.bytes);
    let ix = system_instruction::create_account(&from, &to, lamports, space, &owner);
    let accounts = ix.accounts.iter().map(|m| AccountMeta {
        address: Address { bytes: m.pubkey.to_bytes() },
        is_signer: m.is_signer,
        is_writable: m.is_writable,
    }).collect();
    Instruction { program_id: Address { bytes: ix.program_id.to_bytes() }, accounts, data: ix.data }
}

/// Calls `Signer::pubkey` on `keypair` and keeps the keypair, as it was
/// handed in, beside the address that came back. Nothing is claimed of the
/// address.
#[verifier::external_body]
fn identity_of(keypair: Keypair) -> (identity: Identity)
    ensures
        identity.spec_keypair() == keypair,
{
    Identity { address: Address { bytes: keypair.pubkey().to_bytes() }, keypair }
}

/// Calls `system_instruction::create_nonce_account`. Its source returns two
/// instructions: `create_account` for the nonce account, with `from` and
/// `nonce` signing and writable, and the initialisation, whose three accounts
/// do not sign.
#[verifier::external_body]
pub(crate) fn system_create_nonce_account(
    from: &Address,
    nonce: &Address,
    authority: &Address,
    lamports: u64,
) -> (instructions: Vec<Instruction>)
    ensures
        instruction_views(instructions@) == create_nonce_account_instructions(
            *from,
            *nonce,
            *authority,
            lamports,
        ),
        instructions@.len() == 2,
        instructions@[0].accounts@ == seq![writable_signer(*from), writable_signer(*nonce)],
        forall|a: Address| !signs(instructions@[1].accounts@, a),
{
    let (from, nonce) = (Pubkey::from(from.bytes), Pubkey::from(nonce.bytes));
    let authority = Pubkey::from(authority.bytes);
    let ixs = system_instruction::create_nonce_account(&from, &nonce, &authority, lamports);
    ixs.into_iter().map(|ix| Instruction {
        program_id: Address { bytes: ix.program_id.to_bytes() },
        accounts: ix.accounts.iter().map(|m| AccountMeta {
            address: Address { bytes: m.pubkey.to_bytes() },
            is_signer: m.is_signer,
            is_writable: m.is_writable,
        }).collect(),
        data: ix.data,
    }).collect()
}

/// Calls `system_instruction::advance_nonce_account`. Its source builds an
/// instruction for the system program with three accounts, of which only the
/// last, `authority`, signs.
#[verifier::external_body]
pub(crate) fn system_advance_nonce_account(nonce: &Address, authority: &Address) -> (instruction:
    Instruction)
    ensures
        instruction@ == advance_nonce_account_instruction(*nonce, *authority),
        instruction.program_id == system_program(),
        forall|a: Address| signs(instruction.accounts@, a) <==> a == *authority,
{
    let (nonce, authority) = (Pubkey::from(nonce.bytes), Pubkey::from(authority.bytes));
    let ix = system_instruction::advance_nonce_account(&nonce, &authority);
    let accounts = ix.accounts.iter().map(|m| AccountMeta {
        address: Address { bytes: m.pubkey.to_bytes() },
        is_signer: m.is_signer,
        is_writable: m.is_writable,
    }).collect();
    Instruction { program_id: Address { bytes: ix.program_id.to_bytes() }, accounts, data: ix.data }
}

/// Calls `Pubkey::try_find_program_address` with the bytes of `program` as the
/// only seed and the upgradeable loader as the program: the derivation that the
/// loader's own instruction builders use for a program's data account. The
/// result depends on the argument alone.
#[verifier::external_body]
pub(crate) fn find_program_data_address(program: &Address) -> (found: Option<Address>)
    ensures
        found == program_data_address(*program),
{
    Pubkey::try_find_program_address(&[&program.bytes], &bpf_loader_upgradeable::id())
        .map(|(key, _)| Address { bytes: key.to_bytes() })
}

/// Calls `bpf_loader_upgradeable::create_buffer`. Its source always returns
/// `Ok` with two instructions: `create_account` for the buffer, with `payer`
/// and `buffer` signing and writable, and the initialisation, whose two
/// accounts do not sign.
#[verifier::external_body]
pub(crate) fn loader_create_buffer(
    payer: &Address,
    buffer: &Address,
    authority: &Address,
    lamports: u64,
    program_len: usize,
) -> (instructions: Option<Vec<Instruction>>)
    ensures
        instructions is Some,
        instruction_views(instructions->0@) == create_buffer_instructions(
            *payer,
            *buffer,
            *authority,
            lamports,
            program_len,
        ),
        instructions->0@.len() == 2,
        instructions->0@[0].accounts@ == seq![writable_signer(*payer), writable_signer(*buffer)],
        forall|a: Address| !signs(instructions->0@[1].accounts@, a),
{
    let (payer, buffer) = (Pubkey::from(payer.bytes), Pubkey::from(buffer.bytes));
    let authority = Pubkey::from(authority.bytes);
    bpf_loader_upgradeable::create_buffer(&payer, &buffer, &authority, lamports, program_len)
        .ok().map(|ixs| ixs.into_iter().map(|ix| Instruction {
        program_id: Address { bytes: ix.program_id.to_bytes() },
        accounts: ix.accounts.iter().map(|m| AccountMeta {
            address: Address { bytes: m.pubkey.to_bytes() },
            is_signer: m.is_signer,
            is_writable: m.is_writable,
        }).collect(),
        data: ix.data,
    }).collect())
}

/// Calls `bpf_loader_upgradeable::write`. Its source builds an instruction
/// whose accounts are the buffer, writable, and the authority, which signs and
/// is only read.
#[verifier::external_body]
pub(crate) fn loader_write(
    buffer: &Address,
    authority: &Address,
    offset: u32,
    bytes: Vec<u8>,
) -> (instruction: Instruction)
    ensures
        instruction@ == write_instruction(*buffer, *authority, offset, bytes@),
        instruction.accounts@ == seq![writable(*buffer), readonly_signer(*authority)],
{
    let (buffer, authority) = (Pubkey::from(buffer.bytes), Pubkey::from(authority.bytes));
    let ix = bpf_loader_upgradeable::write(&buffer, &authority, offset, bytes);
    let accounts = ix.accounts.iter().map(|m| AccountMeta {
        address: Address { bytes: m.pubkey.to_bytes() },
        is_signer: m.is_signer,
        is_writable: m.is_writable,
    }).collect();
    Instruction { program_id: Address { bytes: ix.program_id.to_bytes() }, accounts, data: ix.data }
}

/// Calls `bpf_loader_upgradeable::deploy_with_max_program_len`. Its source
/// derives the program data address with `Pubkey::find_program_address`, which
/// panics where `try_find_program_address` finds none, and then always returns
/// `Ok` with two instructions: `create_account` for the program, with `payer`
/// and `program` signing and writable, and the deployment, in which `payer` and
/// `authority` sign and no other account does.
#[verifier::external_body]
pub(crate) fn loader_deploy(
    payer: &Address,
    program: &Address,
    buffer: &Address,
    authority: &Address,
    program_lamports: u64,
    max_data_len: usize,
) -> (instructions: Option<Vec<Instruction>>)
    requires
        program_data_address(*program) is Some,
    ensures
        instructions is Some,
        instruction_views(instructions->0@) == deploy_instructions(
            *payer,
            *program,
            *buffer,
            *authority,
            program_lamports,
            max_data_len,
        ),
        instructions->0@.len() == 2,
        instructions->0@[0].accounts@ == seq![writable_signer(*payer), writable_signer(*program)],
        forall|a: Address|
            signs(instructions->0@[1].accounts@, a) <==> (a == *payer || a == *authority),
{
    let (payer, program) = (Pubkey::from(payer.bytes), Pubkey::from(program.bytes));
    let (buffer, authority) = (Pubkey::from(buffer.bytes), Pubkey::from(authority.bytes));
    let (lamports, len) = (program_lamports, max_data_len);
    bpf_loader_upgradeable::deploy_with_max_program_len(&payer, &program, &buffer, &authority, lamports, len)
        .ok().map(|ixs| ixs.into_iter().map(|ix| Instruction {
        program_id: Address { bytes: ix.program_id.to_bytes() },
        accounts: ix.accounts.iter().map(|m| AccountMeta {
            address: Address { bytes: m.pubkey.to_bytes() },
            is_signer: m.is_signer,
            is_writable: m.is_writable,
        }).collect(),
        data: ix.data,
    }).collect())
}

/// Calls `bpf_loader_upgradeable::upgrade`. Its source derives the program
/// data address with `Pubkey::find_program_address`, which panics where
/// `try_find_program_address` finds none, and builds an instruction in which
/// `authority` signs and no other account does.
#[verifier::external_body]
pub(crate) fn loader_upgrade(
    program: &Address,
    buffer: &Address,
    authority: &Address,
    spill: &Address,
) -> (instruction: Instruction)
    requires
        program_data_address(*program) is Some,
    ensures
        instruction@ == upgrade_instruction(*program, *buffer, *authority, *spill),
        forall|a: Address| signs(instruction.accounts@, a) <==> a == *authority,
{
    let (program, buffer) = (Pubkey::from(program.bytes), Pubkey::from(buffer.bytes));
    let (authority, spill) = (Pubkey::from(authority.bytes), Pubkey::from(spill.bytes));
    let ix = bpf_loader_upgradeable::upgrade(&program, &buffer, &authority, &spill);
    let accounts = ix.accounts.iter().map(|m| AccountMeta {
        address: Address { bytes: m.pubkey.to_bytes() },
        is_signer: m.is_signer,
        is_writable: m.is_writable,
    }).collect();
    Instruction { program_id: Address { bytes: ix.program_id.to_bytes() }, accounts, data: ix.data }
}

/// Calls `bpf_loader_upgradeable::close_any` with an authority and a program.
/// Its source builds an instruction whose accounts are the account to close and
/// the recipient, both writable, the authority, which signs and is only read,
/// and the program, writable.
#[verifier::external_body]
pub(crate) fn loader_close(
    close: &Address,
    recipient: &Address,
    authority: &Address,
    program: &Address,
) -> (instruction: Instruction)
    ensures
        instruction@ == close_instruction(*close, *recipient, *authority, *program),
        instruction.accounts@ == seq![
            writable(*close),
            writable(*recipient),
            readonly_signer(*authority),
            writable(*program),
        ],
{
    let (close, recipient) = (Pubkey::from(close.bytes), Pubkey::from(recipient.bytes));
    let (authority, program) = (Pubkey::from(authority.bytes), Pubkey::from(program.bytes));
    let (authority, program) = (Some(&authority), Some(&program));
    let ix = bpf_loader_upgradeable::close_any(&close, &recipient, authority, program);
    let accounts = ix.accounts.iter().map(|m| AccountMeta {
        address: Address { bytes: m.pubkey.to_bytes() },
        is_signer: m.is_signer,
        is_writable: m.is_writable,
    }).collect();
    Instruction { program_id: Address { bytes: ix.program_id.to_bytes() }, accounts, data: ix.data }
}

/// Calls `Transaction::new_with_payer`, which compiles the instructions, in
/// their order, into a message with `fee_payer` as its first account and
/// returns the unsigned transaction. The compilation panics where the signers
/// or the accounts that neither sign nor are written to number more than 255,
/// and it cuts the number of an account down to one byte; `fits_message`
/// rules both out. Nothing is claimed of the result.
#[verifier::external_body]
fn unsigned_transaction(instructions: &Vec<Instruction>, fee_payer: &Address) -> Transaction
    requires
        fits_message(instruction_views(instructions@), *fee_payer),
{
    let ixs: Vec<_> = instructions.iter().map(|ix| solana_sdk::instruction::Instruction {
        program_id: Pubkey::from(ix.program_id.bytes),
        accounts: ix.accounts.iter().map(|m| solana_sdk::instruction::AccountMeta {
            pubkey: Pubkey::from(m.address.bytes),
            is_signer: m.is_signer,
            is_writable: m.is_writable,
        }).collect(),
        data: ix.data.clone(),
    }).collect();
    Transaction::new_with_payer(&ixs, Some(&Pubkey::from(fee_payer.bytes)))
}

/// Calls `Transaction::try_sign` on the wire value of `draft` with the keypairs
/// of `signers` and the blockhash, says which error came back, if any, and,
/// where none did, records in `draft` who signed and over which blockhash.
///
/// The wire value of a draft is the one that `Transaction::new_with_payer`
/// built from the instructions and the fee payer kept beside it. The call
/// serialises the message, which panics where the number of the instructions,
/// or the data or the account list of one of them, is longer than 65535;
/// `fits_message` rules that out. What `draft` was built from does not change,
/// and after an error the record of the signing is as it was.
///
/// Its source refuses a keypair whose public key is none of the signers of the
/// message, and refuses where a signer of the message is left without a
/// signature; with a keypair for each signer and none besides it signs with
/// each, which a keypair never fails to do, and returns `Ok`. The signers of
/// the message are the fee payer and the accounts that an instruction marks
/// as signers. An identity holds the public key of its keypair as its address.
#[verifier::external_body]
pub(crate) fn sign_draft(
    draft: &mut Draft,
    signers: &Vec<&Identity>,
    blockhash: &Blockhash,
) -> (outcome: Result<(), SignFailure>)
    requires
        fits_message(old(draft).instructions(), old(draft).fee_payer()),
    ensures
        final(draft).instructions() == old(draft).instructions(),
        final(draft).fee_payer() == old(draft).fee_payer(),
        outcome is Ok ==> final(draft).signed_by() == identity_addresses(signers@)
            && final(draft).signed_over() == Some(*blockhash),
        outcome is Err ==> final(draft).signed_by() == old(draft).signed_by()
            && final(draft).signed_over() == old(draft).signed_over(),
        all_signers_present(
            old(draft).instructions(),
            old(draft).fee_payer(),
            identity_addresses(signers@),
        ) && no_signer_in_excess(
            old(draft).instructions(),
            old(draft).fee_payer(),
            identity_addresses(signers@),
        ) ==> outcome is Ok,
{
    let keys: Vec<&Keypair> = signers.iter().map(|s| &s.keypair).collect();
    let hash = solana_sdk::hash::Hash::new_from_array(blockhash.bytes);
    match draft.wire.try_sign(&keys[..], hash) {
        Ok(()) => {
            draft.signed_by = signers.iter().map(|s| s.address).collect();
            draft.signed_over = Some(*blockhash);
            Ok(())
        },
        Err(SignerError::KeypairPubkeyMismatch) => Err(SignFailure::KeypairMismatch),
        Err(SignerError::NotEnoughSigners) => Err(SignFailure::NotEnoughSigners),
        Err(_) => Err(SignFailure::Other),
    }
}

/// Calls `nonce::State::size`, the serialized size of a nonce account's state.
/// Its source returns the constant 80.
#[verifier::external_body]
pub(crate) fn nonce_state_size() -> (size: usize)
    ensures
        size == 80,
{
    solana_sdk::nonce::State::size()
}

/// Calls `UpgradeableLoaderState::size_of_program`, the size of a program
/// account. Its source returns the constant 36.
#[verifier::external_body]
pub(crate) fn program_account_size() -> (size: usize)
    ensures
        size == 36,
{
    bpf_loader_upgradeable::UpgradeableLoaderState::size_of_program()
}

/// Calls `UpgradeableLoaderState::size_of_buffer`, the size of a buffer
/// account for a program of `program_len` bytes. Its source adds the length
/// to the 37 bytes of the buffer's metadata, and stops at the largest number.
#[verifier::external_body]
pub(crate) fn buffer_account_size(program_len: usize) -> (size: usize)
    ensures
        size == if 37 + program_len > usize::MAX {
            usize::MAX as int
        } else {
            37 + program_len
        },
{
    bpf_loader_upgradeable::UpgradeableLoaderState::size_of_buffer(program_len)
}

} // verus!
