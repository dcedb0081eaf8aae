//! Plain values that the rest of the library computes on: account addresses,
//! blockhashes and instructions.

use vstd::prelude::*;

verus! {

/// The address of an on-chain account: the 32 bytes of a public key.
#[derive(Clone, Copy, Debug)]
pub struct Address {
    pub bytes: [u8; 32],
}

/// A blockhash as a transaction carries it: either a recent blockhash of the
/// ledger or the value stored in a nonce account.
#[derive(Clone, Copy, Debug)]
pub struct Blockhash {
    pub bytes: [u8; 32],
}

/// The signature of a transaction, as the ledger hands it back: 64 bytes.
#[derive(Clone, Copy, Debug)]
pub struct Signature {
    pub bytes: [u8; 64],
}

/// Whether two 32-byte values hold the same bytes.
pub fn same_bytes(a: &[u8; 32], b: &[u8; 32]) -> (same: bool)
    ensures
        same == (*a == *b),
{
    let mut i: usize = 0;
    while i < 32
        invariant
            i <= 32,
            forall|k: int| 0 <= k < i ==> a[k] == b[k],
        decreases 32 - i,
    {
        if a[i] != b[i] {
            return false;
        }
        i += 1;
    }
    assert(*a =~= *b);
    true
}

impl Address {
    /// The address made of `bytes`.
    pub fn new(bytes: [u8; 32]) -> (address: Address)
        ensures
            address.bytes == bytes,
    {
        Address { bytes }
    }

    /// Whether `self` and `other` name the same account.
    pub fn same(&self, other: &Address) -> (same: bool)
        ensures
            same == (*self == *other),
    {
        same_bytes(&self.bytes, &other.bytes)
    }
}

/// The address of the system program: 32 zero bytes.
pub open spec fn system_program() -> Address {
    Address { bytes: vstd::array::spec_array_fill_for_copy_type::<u8, 32>(0u8) }
}

/// The address of the system program.
pub fn system_program_address() -> (address: Address)
    ensures
        address == system_program(),
{
    Address { bytes: [0u8; 32] }
}

impl Blockhash {
    /// The blockhash made of `bytes`.
    pub fn new(bytes: [u8; 32]) -> (hash: Blockhash)
        ensures
            hash.bytes == bytes,
    {
        Blockhash { bytes }
    }

    /// Whether `self` and `other` are the same value.
    pub fn same(&self, other: &Blockhash) -> (same: bool)
        ensures
            same == (*self == *other),
    {
        same_bytes(&self.bytes, &other.bytes)
    }
}

/// One account that an instruction refers to, and how.
#[derive(Clone, Copy, Debug)]
pub struct AccountMeta {
    pub address: Address,
    /// The account must sign every transaction that holds the instruction.
    pub is_signer: bool,
    pub is_writable: bool,
}

impl AccountMeta {
    /// A writable account.
    pub fn writable(address: Address, is_signer: bool) -> (meta: AccountMeta)
        ensures
            meta == (AccountMeta { address, is_signer, is_writable: true }),
    {
        AccountMeta { address, is_signer, is_writable: true }
    }

    /// A read-only account.
    pub fn readonly(address: Address, is_signer: bool) -> (meta: AccountMeta)
        ensures
            meta == (AccountMeta { address, is_signer, is_writable: false }),
    {
        AccountMeta { address, is_signer, is_writable: false }
    }
}

/// A call of an on-chain program: the program, the accounts handed to it and
/// the bytes that it reads as its argument.
#[derive(Debug)]
pub struct Instruction {
    pub program_id: Address,
    pub accounts: Vec<AccountMeta>,
    pub data: Vec<u8>,
}

/// What an [`Instruction`] holds, as mathematical values.
pub struct InstructionView {
    pub program_id: Address,
    pub accounts: Seq<AccountMeta>,
    pub data: Seq<u8>,
}

impl View for Instruction {
    type V = InstructionView;

    open spec fn view(&self) -> InstructionView {
        InstructionView { program_id: self.program_id, accounts: self.accounts@, data: self.data@ }
    }
}

/// Whether `address` is among `accounts` as one that must sign.
pub open spec fn signs(accounts: Seq<AccountMeta>, address: Address) -> bool {
    exists|k: int| 0 <= k < accounts.len() && accounts[k].is_signer && accounts[k].address == address
}

/// Whether `address` is among `accounts`.
pub open spec fn names(accounts: Seq<AccountMeta>, address: Address) -> bool {
    exists|k: int| 0 <= k < accounts.len() && accounts[k].address == address
}

/// Whether a transaction of these instructions, paid for by `payer`, needs the
/// signature of `address`: the fee payer signs, and so does every account that
/// an instruction marks as a signer.
pub open spec fn is_required_signer(
    instructions: Seq<InstructionView>,
    payer: Address,
    address: Address,
) -> bool {
    address == payer || exists|i: int|
        0 <= i < instructions.len() && signs(#[trigger] instructions[i].accounts, address)
}

/// Whether a transaction of these instructions, paid for by `payer`, refers to
/// the account `address`: as the fee payer, as a program that an instruction
/// calls, or as an account that an instruction hands over.
pub open spec fn is_mentioned(
    instructions: Seq<InstructionView>,
    payer: Address,
    address: Address,
) -> bool {
    address == payer || exists|i: int|
        0 <= i < instructions.len() && calls_or_names(#[trigger] instructions[i], address)
}

/// Whether `instruction` calls the program `address` or hands the account
/// `address` over.
pub open spec fn calls_or_names(instruction: InstructionView, address: Address) -> bool {
    instruction.program_id == address || names(instruction.accounts, address)
}

/// The accounts that a transaction of these instructions refers to, each
/// taken once.
pub open spec fn mentioned_accounts(instructions: Seq<InstructionView>, payer: Address) -> Set<
    Address,
> {
    Set::new(|a: Address| is_mentioned(instructions, payer, a))
}

/// The accounts that have to sign a transaction of these instructions, each
/// taken once.
pub open spec fn required_signers(instructions: Seq<InstructionView>, payer: Address) -> Set<
    Address,
> {
    Set::new(|a: Address| is_required_signer(instructions, payer, a))
}

/// Whether every required signer is among `signers`.
pub open spec fn all_signers_present(
    instructions: Seq<InstructionView>,
    payer: Address,
    signers: Seq<Address>,
) -> bool {
    forall|a: Address| is_required_signer(instructions, payer, a) ==> signers.contains(a)
}

/// Whether every one of `signers` is a required signer.
pub open spec fn no_signer_in_excess(
    instructions: Seq<InstructionView>,
    payer: Address,
    signers: Seq<Address>,
) -> bool {
    forall|j: int|
        0 <= j < signers.len() ==> is_required_signer(instructions, payer, #[trigger] signers[j])
}

/// The views of a list of instructions, in the order of the list.
pub open spec fn instruction_views(instructions: Seq<Instruction>) -> Seq<InstructionView> {
    instructions.map_values(|instruction: Instruction| instruction@)
}

} // verus!
