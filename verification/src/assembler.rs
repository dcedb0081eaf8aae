//! The transaction assembler: from an ordered instruction list, a fee payer,
//! the signing identities and a blockhash to a signed transaction.
//!
//! The assembler decides, before anything is signed, whether a message can
//! hold the instructions and whether the signer set is the one that the
//! instructions ask for, and says what is too much, or which account is
//! missing or in excess, if not. Where nothing stands against it, the
//! transaction is signed.

use crate::sdk::{
    accounts_fit, advance_nonce_account_instruction, identity_addresses,
    instruction_fits, instructions_fit, sign_draft, system_advance_nonce_account, Draft, Identity,
    SignFailure,
};
use crate::types::{
    all_signers_present, calls_or_names, instruction_views, is_mentioned, is_required_signer,
    mentioned_accounts, names, no_signer_in_excess, required_signers, signs, AccountMeta, Address,
    Blockhash, Instruction, InstructionView,
};
use vstd::prelude::*;

verus! {

/// Why no signed transaction was assembled.
#[derive(Clone, Copy, Debug)]
pub enum AssembleError {
    /// There are more than 65535 instructions.
    TooManyInstructions,
    /// The data of an instruction is longer than 65535 bytes, or it hands over
    /// more than 65535 accounts.
    InstructionTooLarge,
    /// The instructions refer to more than 256 accounts, or more than 255
    /// accounts have to sign.
    TooManyAccounts,
    /// The account must sign and no identity for it was handed in.
    MissingSigner(Address),
    /// An identity was handed in for an account that need not sign.
    UnexpectedSigner(Address),
    /// Signing was refused. With the signers that the instructions ask for it
    /// never is; the variant is there for the error of the signer.
    SigningRefused(SignFailure),
}

/// A transaction that has been signed: the signing call has gone through and
/// has left its record.
pub struct SignedTransaction {
    draft: Draft,
    /// The blockhash that the signing call has recorded.
    blockhash: Blockhash,
}

/// Whether account `k` of instruction `i` must sign and is not among `signers`.
pub open spec fn missing_at(
    instructions: Seq<InstructionView>,
    signers: Seq<Address>,
    i: int,
    k: int,
) -> bool {
    &&& 0 <= i < instructions.len()
    &&& 0 <= k < instructions[i].accounts.len()
    &&& instructions[i].accounts[k].is_signer
    &&& !signers.contains(instructions[i].accounts[k].address)
}

/// Whether position `(i, k)` comes before `(i2, k2)` when the accounts of an
/// instruction list are read instruction by instruction.
pub open spec fn comes_before(i: int, k: int, i2: int, k2: int) -> bool {
    i < i2 || (i == i2 && k < k2)
}

/// Whether `address` is the first required signer that is not among `signers`:
/// the fee payer if it is missing, else the first signing account, in reading
/// order, that is.
pub open spec fn is_first_missing(
    instructions: Seq<InstructionView>,
    payer: Address,
    signers: Seq<Address>,
    address: Address,
) -> bool {
    if !signers.contains(payer) {
        address == payer
    } else {
        exists|i: int, k: int|
            #![trigger missing_at(instructions, signers, i, k)]
            {
                &&& missing_at(instructions, signers, i, k)
                &&& address == instructions[i].accounts[k].address
                &&& forall|i2: int, k2: int|
                    #![trigger missing_at(instructions, signers, i2, k2)]
                    comes_before(i2, k2, i, k) ==> !missing_at(instructions, signers, i2, k2)
            }
    }
}

/// Whether `address` is the first of `signers` that need not sign.
pub open spec fn is_first_in_excess(
    instructions: Seq<InstructionView>,
    payer: Address,
    signers: Seq<Address>,
    address: Address,
) -> bool {
    exists|j: int|
        {
            &&& 0 <= j < signers.len()
            &&& address == #[trigger] signers[j]
            &&& !is_required_signer(instructions, payer, address)
            &&& forall|j2: int|
                0 <= j2 < j ==> is_required_signer(instructions, payer, #[trigger] signers[j2])
        }
}

/// Whether `address` is in `list`.
pub fn contains_address(list: &Vec<Address>, address: &Address) -> (found: bool)
    ensures
        found == list@.contains(*address),
{
    let mut j: usize = 0;
    while j < list.len()
        invariant
            j <= list.len(),
            forall|t: int| 0 <= t < j ==> list@[t] != *address,
        decreases list.len() - j,
    {
        if list[j].same(address) {
            return true;
        }
        j += 1;
    }
    false
}

/// Whether `address` is marked as a signer among `accounts`.
pub fn signs_among(accounts: &Vec<AccountMeta>, address: &Address) -> (found: bool)
    ensures
        found == signs(accounts@, *address),
{
    let mut k: usize = 0;
    while k < accounts.len()
        invariant
            k <= accounts.len(),
            forall|t: int| 0 <= t < k ==> !(accounts@[t].is_signer && accounts@[t].address == *address),
        decreases accounts.len() - k,
    {
        if accounts[k].is_signer && accounts[k].address.same(address) {
            return true;
        }
        k += 1;
    }
    false
}

/// Whether a transaction of `instructions`, paid for by `payer`, needs the
/// signature of `address`.
pub fn requires_signature(instructions: &Vec<Instruction>, payer: &Address, address: &Address) -> (required:
    bool)
    ensures
        required == is_required_signer(instruction_views(instructions@), *payer, *address),
{
    if payer.same(address) {
        return true;
    }
    let mut i: usize = 0;
    while i < instructions.len()
        invariant
            i <= instructions.len(),
            *payer != *address,
            forall|t: int|
                0 <= t < i ==> !signs(#[trigger] instruction_views(instructions@)[t].accounts, *address),
        decreases instructions.len() - i,
    {
        if signs_among(&instructions[i].accounts, address) {
            assert(signs(instruction_views(instructions@)[i as int].accounts, *address));
            return true;
        }
        i += 1;
    }
    false
}

/// The first required signer that is not among `signers`, if there is one.
pub fn find_missing_signer(
    instructions: &Vec<Instruction>,
    payer: &Address,
    signers: &Vec<Address>,
) -> (missing: Option<Address>)
    ensures
        missing is None <==> all_signers_present(
            instruction_views(instructions@),
            *payer,
            signers@,
        ),
        missing matches Some(a) ==> is_first_missing(
            instruction_views(instructions@),
            *payer,
            signers@,
            a,
        ),
{
    let ghost views = instruction_views(instructions@);
    if !contains_address(signers, payer) {
        assert(is_required_signer(views, *payer, *payer));
        return Some(*payer);
    }
    let mut i: usize = 0;
    while i < instructions.len()
        invariant
            i <= instructions.len(),
            views == instruction_views(instructions@),
            signers@.contains(*payer),
            forall|i2: int, k2: int|
                #![trigger missing_at(views, signers@, i2, k2)]
                i2 < i ==> !missing_at(views, signers@, i2, k2),
        decreases instructions.len() - i,
    {
        let accounts = &instructions[i].accounts;
        let mut k: usize = 0;
        while k < accounts.len()
            invariant
                i < instructions.len(),
                k <= accounts.len(),
                views == instruction_views(instructions@),
                accounts@ == views[i as int].accounts,
                signers@.contains(*payer),
                forall|i2: int, k2: int|
                    #![trigger missing_at(views, signers@, i2, k2)]
                    comes_before(i2, k2, i as int, k as int) ==> !missing_at(
                        views,
                        signers@,
                        i2,
                        k2,
                    ),
            decreases accounts.len() - k,
        {
            if accounts[k].is_signer && !contains_address(signers, &accounts[k].address) {
                let found = accounts[k].address;
                assert(missing_at(views, signers@, i as int, k as int));
                assert(signs(views[i as int].accounts, found));
                assert(is_required_signer(views, *payer, found));
                return Some(found);
            }
            k += 1;
        }
        i += 1;
    }
    assert forall|a: Address| is_required_signer(views, *payer, a) implies signers@.contains(
        a,
    ) by {
        if a != *payer {
            let i0 = choose|i0: int| 0 <= i0 < views.len() && signs(#[trigger] views[i0].accounts, a);
            let k0 = choose|k0: int|
                0 <= k0 < views[i0].accounts.len() && views[i0].accounts[k0].is_signer
                    && views[i0].accounts[k0].address == a;
            assert(!missing_at(views, signers@, i0, k0));
        }
    }
    None
}

/// The first of `signers` that need not sign, if there is one.
pub fn find_signer_in_excess(
    instructions: &Vec<Instruction>,
    payer: &Address,
    signers: &Vec<Address>,
) -> (excess: Option<Address>)
    ensures
        excess is None <==> no_signer_in_excess(instruction_views(instructions@), *payer, signers@),
        excess matches Some(a) ==> is_first_in_excess(
            instruction_views(instructions@),
            *payer,
            signers@,
            a,
        ),
{
    let ghost views = instruction_views(instructions@);
    let mut j: usize = 0;
    while j < signers.len()
        invariant
            j <= signers.len(),
            views == instruction_views(instructions@),
            forall|j2: int| 0 <= j2 < j ==> is_required_signer(views, *payer, #[trigger] signers@[j2]),
        decreases signers.len() - j,
    {
        if !requires_signature(instructions, payer, &signers[j]) {
            assert(signers@[j as int] == signers[j as int]);
            return Some(signers[j]);
        }
        j += 1;
    }
    None
}

/// What [`create_message_and_sign`] owes for these arguments: the error that
/// each defect of the arguments gives, the first defect in the order of the
/// branches deciding, and, where there is none, a transaction that holds
/// exactly what was handed in.
pub open spec fn assembled(
    instructions: Seq<InstructionView>,
    payer: Address,
    signers: Seq<Address>,
    blockhash: Blockhash,
    result: Result<SignedTransaction, AssembleError>,
) -> bool {
    if unfit(instructions, payer) is Some {
        result matches Err(e) && unfit(instructions, payer) == Some(e)
    } else if !all_signers_present(instructions, payer, signers) {
        result matches Err(AssembleError::MissingSigner(a)) && is_first_missing(
            instructions,
            payer,
            signers,
            a,
        )
    } else if !no_signer_in_excess(instructions, payer, signers) {
        result matches Err(AssembleError::UnexpectedSigner(a)) && is_first_in_excess(
            instructions,
            payer,
            signers,
            a,
        )
    } else {
        result matches Ok(transaction) && transaction.holds(instructions, payer, signers, blockhash)
    }
}

/// Why a message cannot hold these instructions, paid for by `payer`, if it
/// cannot.
pub open spec fn unfit(instructions: Seq<InstructionView>, payer: Address) -> Option<
    AssembleError,
> {
    if instructions.len() > 0xffff {
        Some(AssembleError::TooManyInstructions)
    } else if !instructions_fit(instructions) {
        Some(AssembleError::InstructionTooLarge)
    } else if !accounts_fit(instructions, payer) {
        Some(AssembleError::TooManyAccounts)
    } else {
        None
    }
}

impl SignedTransaction {
    /// The instructions of the transaction, in their order.
    pub closed spec fn instructions(&self) -> Seq<InstructionView> {
        self.draft.instructions()
    }

    /// The account that pays the fee.
    pub closed spec fn fee_payer(&self) -> Address {
        self.draft.fee_payer()
    }

    /// The blockhash that the signing call has recorded: the one that the
    /// transaction was signed over.
    pub closed spec fn signed_over(&self) -> Option<Blockhash> {
        self.draft.signed_over()
    }

    /// The blockhash that the transaction was signed over.
    pub open spec fn blockhash(&self) -> Blockhash {
        self.signed_over()->0
    }

    /// The accounts that the signing call has recorded: those whose
    /// identities signed, in the order in which they were handed in.
    pub closed spec fn signers(&self) -> Seq<Address> {
        self.draft.signed_by()
    }

    /// A signed transaction carries the record of its signing.
    #[verifier::type_invariant]
    spec fn recorded(self) -> bool {
        self.draft.signed_over() == Some(self.blockhash)
    }

    /// Whether the transaction was built from exactly these instructions with
    /// this fee payer, and signed by exactly these signers over this
    /// blockhash. The instructions and the fee payer are those kept beside the
    /// value that goes over the wire; the signers and the blockhash are those
    /// that the signing call has recorded.
    pub open spec fn holds(
        &self,
        instructions: Seq<InstructionView>,
        payer: Address,
        signers: Seq<Address>,
        blockhash: Blockhash,
    ) -> bool {
        &&& self.instructions() == instructions
        &&& self.fee_payer() == payer
        &&& self.signers() == signers
        &&& self.signed_over() == Some(blockhash)
    }

    /// Whether the accounts on record as signers are the required signers,
    /// all of them and no others.
    pub open spec fn fully_signed(&self) -> bool {
        &&& all_signers_present(self.instructions(), self.fee_payer(), self.signers())
        &&& no_signer_in_excess(self.instructions(), self.fee_payer(), self.signers())
    }

    /// The value to submit.
    pub closed spec fn spec_wire(&self) -> solana_sdk::transaction::Transaction {
        self.draft.spec_wire()
    }

    /// The value to submit.
    pub fn wire(&self) -> (wire: &solana_sdk::transaction::Transaction)
        ensures
            *wire == self.spec_wire(),
    {
        self.draft.wire()
    }

    /// The instructions that the transaction was built from, in their order.
    pub fn instruction_list(&self) -> (instructions: &Vec<Instruction>)
        ensures
            instruction_views(instructions@) == self.instructions(),
    {
        self.draft.instruction_list()
    }

    /// The address of the account that pays the fee.
    pub fn fee_payer_address(&self) -> (address: Address)
        ensures
            address == self.fee_payer(),
    {
        self.draft.fee_payer_address()
    }

    /// The blockhash that the transaction was signed over.
    pub fn signed_blockhash(&self) -> (blockhash: Blockhash)
        ensures
            self.signed_over() == Some(blockhash),
    {
        proof {
            use_type_invariant(self);
        }
        self.blockhash
    }

    /// The addresses of the accounts that signed.
    pub fn signer_addresses(&self) -> (signers: &Vec<Address>)
        ensures
            signers@ == self.signers(),
    {
        self.draft.signer_list()
    }
}

/// Whether `address` is the fee payer or referred to by one of the first `n`
/// instructions.
pub open spec fn mentioned_in_first(
    instructions: Seq<InstructionView>,
    payer: Address,
    n: int,
    address: Address,
) -> bool {
    address == payer || exists|i: int| 0 <= i < n && calls_or_names(#[trigger] instructions[i], address)
}

/// Whether `address` is among the first `n` of `accounts`.
pub open spec fn named_in_first(accounts: Seq<AccountMeta>, n: int, address: Address) -> bool {
    exists|k: int| 0 <= k < n && (#[trigger] accounts[k]).address == address
}

/// Whether `address` is the fee payer or has to sign one of the first `n`
/// instructions.
pub open spec fn signs_in_first(
    instructions: Seq<InstructionView>,
    payer: Address,
    n: int,
    address: Address,
) -> bool {
    address == payer || exists|i: int| 0 <= i < n && signs(#[trigger] instructions[i].accounts, address)
}

/// Whether `address` is among the first `n` of `accounts` as one that must
/// sign.
pub open spec fn signs_among_first(accounts: Seq<AccountMeta>, n: int, address: Address) -> bool {
    exists|k: int| 0 <= k < n && (#[trigger] accounts[k]).is_signer && accounts[k].address == address
}

/// Takes `address` into `list`, at its end, unless the list holds it already.
pub fn add_once(list: &mut Vec<Address>, address: Address)
    requires
        old(list)@.no_duplicates(),
    ensures
        final(list)@ == if old(list)@.contains(address) {
            old(list)@
        } else {
            old(list)@.push(address)
        },
        final(list)@.no_duplicates(),
        forall|a: Address|
            #![trigger final(list)@.contains(a)]
            final(list)@.contains(a) <==> (old(list)@.contains(a) || a == address),
{
    if !contains_address(list, &address) {
        list.push(address);
        proof {
            let before = old(list)@;
            let after = list@;
            assert(after[before.len() as int] == address);
            assert forall|a: Address| #![trigger after.contains(a)] after.contains(a) <==> (
            before.contains(a) || a == address) by {
                if before.contains(a) {
                    let t = choose|t: int| 0 <= t < before.len() && before[t] == a;
                    assert(after[t] == a);
                }
                if after.contains(a) && a != address {
                    let t = choose|t: int| 0 <= t < after.len() && after[t] == a;
                    assert(before[t] == a);
                }
            }
        }
    }
}

/// The accounts that a transaction of `instructions`, paid for by `payer`,
/// refers to, each taken once.
fn mentioned_addresses(instructions: &Vec<Instruction>, payer: &Address) -> (keys: Vec<Address>)
    ensures
        keys@.no_duplicates(),
        forall|a: Address|
            keys@.contains(a) <==> is_mentioned(instruction_views(instructions@), *payer, a),
        keys@.len() == mentioned_accounts(instruction_views(instructions@), *payer).len(),
{
    let ghost views = instruction_views(instructions@);
    let mut keys: Vec<Address> = Vec::new();
    add_once(&mut keys, *payer);
    let mut i: usize = 0;
    while i < instructions.len()
        invariant
            i <= instructions.len(),
            views == instruction_views(instructions@),
            keys@.no_duplicates(),
            forall|a: Address|
                #![trigger keys@.contains(a)]
                keys@.contains(a) <==> mentioned_in_first(views, *payer, i as int, a),
        decreases instructions.len() - i,
    {
        let ghost outer = keys@;
        add_once(&mut keys, instructions[i].program_id);
        let accounts = &instructions[i].accounts;
        let mut k: usize = 0;
        while k < accounts.len()
            invariant
                i < instructions.len(),
                k <= accounts.len(),
                views == instruction_views(instructions@),
                accounts@ == views[i as int].accounts,
                keys@.no_duplicates(),
                forall|a: Address|
                    #![trigger keys@.contains(a)]
                    keys@.contains(a) <==> (outer.contains(a) || a == views[i as int].program_id
                        || named_in_first(accounts@, k as int, a)),
                forall|a: Address|
                    #![trigger outer.contains(a)]
                    outer.contains(a) <==> mentioned_in_first(views, *payer, i as int, a),
            decreases accounts.len() - k,
        {
            let ghost inner = keys@;
            add_once(&mut keys, accounts[k].address);
            proof {
                assert forall|a: Address|
                    #![trigger named_in_first(accounts@, k + 1, a)]
                    named_in_first(accounts@, k + 1, a) <==> (named_in_first(accounts@, k as int, a)
                        || a == accounts@[k as int].address) by {
                    if named_in_first(accounts@, k + 1, a) {
                        let t = choose|t: int| 0 <= t < k + 1 && (#[trigger] accounts@[t]).address == a;
                        if t < k {
                            assert(named_in_first(accounts@, k as int, a));
                        }
                    }
                    if named_in_first(accounts@, k as int, a) {
                        let t = choose|t: int| 0 <= t < k && (#[trigger] accounts@[t]).address == a;
                        assert(accounts@[t].address == a);
                    }
                    if a == accounts@[k as int].address {
                        assert(named_in_first(accounts@, k + 1, a));
                    }
                }
            }
            k += 1;
        }
        proof {
            assert forall|a: Address|
                #![trigger keys@.contains(a)]
                keys@.contains(a) <==> mentioned_in_first(views, *payer, i + 1, a) by {
                let here = views[i as int];
                assert(named_in_first(here.accounts, here.accounts.len() as int, a) <==> names(
                    here.accounts,
                    a,
                )) by {
                    if named_in_first(here.accounts, here.accounts.len() as int, a) {
                        let t = choose|t: int|
                            0 <= t < here.accounts.len() && (#[trigger] here.accounts[t]).address
                                == a;
                        assert(here.accounts[t].address == a);
                    }
                    if names(here.accounts, a) {
                        let t = choose|t: int|
                            0 <= t < here.accounts.len() && here.accounts[t].address == a;
                        assert(here.accounts[t].address == a);
                    }
                }
                if mentioned_in_first(views, *payer, i + 1, a) && a != *payer {
                    let t = choose|t: int| 0 <= t < i + 1 && calls_or_names(#[trigger] views[t], a);
                    if t < i {
                        assert(mentioned_in_first(views, *payer, i as int, a));
                    }
                }
                if mentioned_in_first(views, *payer, i as int, a) && a != *payer {
                    let t = choose|t: int| 0 <= t < i && calls_or_names(#[trigger] views[t], a);
                    assert(calls_or_names(views[t], a));
                }
                if calls_or_names(here, a) {
                    assert(mentioned_in_first(views, *payer, i + 1, a));
                }
            }
        }
        i += 1;
    }
    proof {
        assert(mentioned_accounts(views, *payer) =~= keys@.to_set());
        keys@.unique_seq_to_set();
    }
    keys
}

/// The accounts that have to sign a transaction of `instructions`, paid for by
/// `payer`, each taken once.
fn required_signer_addresses(instructions: &Vec<Instruction>, payer: &Address) -> (keys: Vec<
    Address,
>)
    ensures
        keys@.no_duplicates(),
        forall|a: Address|
            keys@.contains(a) <==> is_required_signer(instruction_views(instructions@), *payer, a),
        keys@.len() == required_signers(instruction_views(instructions@), *payer).len(),
{
    let ghost views = instruction_views(instructions@);
    let mut keys: Vec<Address> = Vec::new();
    add_once(&mut keys, *payer);
    let mut i: usize = 0;
    while i < instructions.len()
        invariant
            i <= instructions.len(),
            views == instruction_views(instructions@),
            keys@.no_duplicates(),
            forall|a: Address|
                #![trigger keys@.contains(a)]
                keys@.contains(a) <==> signs_in_first(views, *payer, i as int, a),
        decreases instructions.len() - i,
    {
        let ghost outer = keys@;
        let accounts = &instructions[i].accounts;
        let mut k: usize = 0;
        while k < accounts.len()
            invariant
                i < instructions.len(),
                k <= accounts.len(),
                views == instruction_views(instructions@),
                accounts@ == views[i as int].accounts,
                keys@.no_duplicates(),
                forall|a: Address|
                    #![trigger keys@.contains(a)]
                    keys@.contains(a) <==> (outer.contains(a) || signs_among_first(
                        accounts@,
                        k as int,
                        a,
                    )),
                forall|a: Address|
                    #![trigger outer.contains(a)]
                    outer.contains(a) <==> signs_in_first(views, *payer, i as int, a),
            decreases accounts.len() - k,
        {
            if accounts[k].is_signer {
                add_once(&mut keys, accounts[k].address);
            }
            proof {
                assert forall|a: Address|
                    #![trigger signs_among_first(accounts@, k + 1, a)]
                    signs_among_first(accounts@, k + 1, a) <==> (signs_among_first(
                        accounts@,
                        k as int,
                        a,
                    ) || (accounts@[k as int].is_signer && a == accounts@[k as int].address)) by {
                    if signs_among_first(accounts@, k + 1, a) {
                        let t = choose|t: int|
                            0 <= t < k + 1 && (#[trigger] accounts@[t]).is_signer
                                && accounts@[t].address == a;
                        if t < k {
                            assert(signs_among_first(accounts@, k as int, a));
                        }
                    }
                    if signs_among_first(accounts@, k as int, a) {
                        let t = choose|t: int|
                            0 <= t < k && (#[trigger] accounts@[t]).is_signer && accounts@[t].address
                                == a;
                        assert(accounts@[t].is_signer);
                    }
                    if accounts@[k as int].is_signer && a == accounts@[k as int].address {
                        assert(signs_among_first(accounts@, k + 1, a));
                    }
                }
            }
            k += 1;
        }
        proof {
            assert forall|a: Address|
                #![trigger keys@.contains(a)]
                keys@.contains(a) <==> signs_in_first(views, *payer, i + 1, a) by {
                let here = views[i as int];
                assert(signs_among_first(here.accounts, here.accounts.len() as int, a) <==> signs(
                    here.accounts,
                    a,
                )) by {
                    if signs_among_first(here.accounts, here.accounts.len() as int, a) {
                        let t = choose|t: int|
                            0 <= t < here.accounts.len() && (#[trigger] here.accounts[t]).is_signer
                                && here.accounts[t].address == a;
                        assert(here.accounts[t].is_signer);
                    }
                    if signs(here.accounts, a) {
                        let t = choose|t: int|
                            0 <= t < here.accounts.len() && here.accounts[t].is_signer
                                && here.accounts[t].address == a;
                        assert(here.accounts[t].is_signer);
                    }
                }
                if signs_in_first(views, *payer, i + 1, a) && a != *payer {
                    let t = choose|t: int| 0 <= t < i + 1 && signs(#[trigger] views[t].accounts, a);
                    if t < i {
                        assert(signs_in_first(views, *payer, i as int, a));
                    }
                }
                if signs_in_first(views, *payer, i as int, a) && a != *payer {
                    let t = choose|t: int| 0 <= t < i && signs(#[trigger] views[t].accounts, a);
                    assert(signs(views[t].accounts, a));
                }
                if signs(here.accounts, a) {
                    assert(signs_in_first(views, *payer, i + 1, a));
                }
            }
        }
        i += 1;
    }
    proof {
        assert(required_signers(views, *payer) =~= keys@.to_set());
        keys@.unique_seq_to_set();
    }
    keys
}

/// The number of accounts that a transaction of `instructions`, paid for by
/// `payer`, refers to, each counted once.
pub fn mentioned_account_count(instructions: &Vec<Instruction>, payer: &Address) -> (count: usize)
    ensures
        count == mentioned_accounts(instruction_views(instructions@), *payer).len(),
{
    mentioned_addresses(instructions, payer).len()
}

/// The number of accounts that have to sign a transaction of `instructions`,
/// paid for by `payer`, each counted once.
pub fn required_signer_count(instructions: &Vec<Instruction>, payer: &Address) -> (count: usize)
    ensures
        count == required_signers(instruction_views(instructions@), *payer).len(),
{
    required_signer_addresses(instructions, payer).len()
}

/// Whether the account table of a message can hold the accounts of
/// `instructions`, paid for by `payer`: at most 256 accounts, of which at most
/// 255 sign.
pub fn fits_account_table(instructions: &Vec<Instruction>, payer: &Address) -> (fits: bool)
    ensures
        fits == accounts_fit(instruction_views(instructions@), *payer),
{
    mentioned_account_count(instructions, payer) <= 256 && required_signer_count(
        instructions,
        payer,
    ) <= 255
}

/// Whether a message can write every one of `instructions` down: none carries
/// more than 65535 bytes of data or hands over more than 65535 accounts.
pub fn fits_instruction_lengths(instructions: &Vec<Instruction>) -> (fits: bool)
    ensures
        fits == instructions_fit(instruction_views(instructions@)),
{
    let ghost views = instruction_views(instructions@);
    let mut i: usize = 0;
    while i < instructions.len()
        invariant
            i <= instructions.len(),
            views == instruction_views(instructions@),
            forall|t: int| 0 <= t < i ==> instruction_fits(#[trigger] views[t]),
        decreases instructions.len() - i,
    {
        if instructions[i].data.len() > 0xffff || instructions[i].accounts.len() > 0xffff {
            assert(!instruction_fits(views[i as int]));
            return false;
        }
        i += 1;
    }
    true
}

/// Why a message cannot hold `instructions`, paid for by `payer`, if it
/// cannot.
pub fn find_unfit(instructions: &Vec<Instruction>, payer: &Address) -> (error: Option<AssembleError>)
    ensures
        error == unfit(instruction_views(instructions@), *payer),
{
    if instructions.len() > 0xffff {
        Some(AssembleError::TooManyInstructions)
    } else if !fits_instruction_lengths(instructions) {
        Some(AssembleError::InstructionTooLarge)
    } else if !fits_account_table(instructions, payer) {
        Some(AssembleError::TooManyAccounts)
    } else {
        None
    }
}

/// The addresses of `signers`, in their order.
pub fn addresses_of(signers: &Vec<&Identity>) -> (addresses: Vec<Address>)
    ensures
        addresses@ == identity_addresses(signers@),
{
    let mut addresses: Vec<Address> = Vec::new();
    let mut j: usize = 0;
    while j < signers.len()
        invariant
            j <= signers.len(),
            addresses@ == identity_addresses(signers@.take(j as int)),
        decreases signers.len() - j,
    {
        addresses.push(signers[j].address());
        assert(signers@.take(j + 1) =~= signers@.take(j as int).push(signers@[j as int]));
        assert(identity_addresses(signers@.take(j + 1)) =~= identity_addresses(
            signers@.take(j as int),
        ).push(signers@[j as int].spec_address()));
        j += 1;
    }
    assert(signers@.take(j as int) =~= signers@);
    addresses
}

/// What the assembler returns once signing has been tried: the transaction
/// where signing went through, the refusal where it did not.
fn conclude(outcome: Result<(), SignFailure>, draft: Draft, blockhash: Blockhash) -> (result:
    Result<SignedTransaction, AssembleError>)
    requires
        outcome is Ok ==> draft.signed_over() == Some(blockhash),
    ensures
        match outcome {
            Ok(_) => result matches Ok(transaction) && transaction.holds(
                draft.instructions(),
                draft.fee_payer(),
                draft.signed_by(),
                blockhash,
            ),
            Err(failure) => result matches Err(AssembleError::SigningRefused(f)) && f == failure,
        },
{
    match outcome {
        Ok(_) => Ok(SignedTransaction { draft, blockhash }),
        Err(failure) => Err(AssembleError::SigningRefused(failure)),
    }
}

/// Builds a message from `instructions`, in their order, with `payer` paying
/// the fee, and signs it over `blockhash` with `signers`.
///
/// `signers` must be the identities of exactly the accounts that have to sign:
/// the fee payer and every account that an instruction marks as a signer. The
/// first one that is missing, or else the first one that is in excess, is
/// reported, and nothing is signed then. Nothing is signed either where a
/// message cannot hold the instructions.
pub fn create_message_and_sign(
    instructions: Vec<Instruction>,
    payer: &Identity,
    signers: &Vec<&Identity>,
    blockhash: &Blockhash,
) -> (result: Result<SignedTransaction, AssembleError>)
    ensures
        assembled(
            instruction_views(instructions@),
            payer.spec_address(),
            identity_addresses(signers@),
            *blockhash,
            result,
        ),
        result matches Ok(transaction) ==> transaction.fully_signed(),
{
    let fee_payer = payer.address();
    if let Some(error) = find_unfit(&instructions, &fee_payer) {
        return Err(error);
    }
    let addresses = addresses_of(signers);
    if let Some(missing) = find_missing_signer(&instructions, &fee_payer, &addresses) {
        return Err(AssembleError::MissingSigner(missing));
    }
    if let Some(excess) = find_signer_in_excess(&instructions, &fee_payer, &addresses) {
        return Err(AssembleError::UnexpectedSigner(excess));
    }
    let mut draft = Draft::new(instructions, &fee_payer);
    let outcome = sign_draft(&mut draft, signers, blockhash);
    conclude(outcome, draft, *blockhash)
}

/// As [`create_message_and_sign`], for a transaction that is signed over the
/// value stored in a nonce account instead of a recent blockhash. Such a
/// transaction starts with the instruction that advances the nonce, on the
/// authority of `payer`; the instructions handed in follow it in their order.
pub fn create_nonce_message_and_sign(
    instructions: Vec<Instruction>,
    payer: &Identity,
    nonce_account: &Address,
    signers: &Vec<&Identity>,
    nonce_value: &Blockhash,
) -> (result: Result<SignedTransaction, AssembleError>)
    ensures
        assembled(
            seq![advance_nonce_account_instruction(*nonce_account, payer.spec_address())]
                + instruction_views(instructions@),
            payer.spec_address(),
            identity_addresses(signers@),
            *nonce_value,
            result,
        ),
        result matches Ok(transaction) ==> transaction.fully_signed(),
        forall|a: Address|
            signs(
                advance_nonce_account_instruction(*nonce_account, payer.spec_address()).accounts,
                a,
            ) <==> a == payer.spec_address(),
{
    let mut instructions = instructions;
    let ghost supplied = instruction_views(instructions@);
    let advance = system_advance_nonce_account(nonce_account, &payer.address());
    let mut all: Vec<Instruction> = Vec::new();
    all.push(advance);
    all.append(&mut instructions);
    assert(instruction_views(all@) =~= seq![
        advance_nonce_account_instruction(*nonce_account, payer.spec_address()),
    ] + supplied);
    create_message_and_sign(all, payer, signers, nonce_value)
}

/// A transaction that lacks the signature of a required signer is never
/// assembled: where some account that has to sign is not among the signers,
/// the assembler gives an error, and where a message can hold the instructions
/// the error names a required signer that is missing.
pub proof fn lemma_omitted_signer_is_rejected(
    instructions: Seq<InstructionView>,
    payer: Address,
    signers: Seq<Address>,
    blockhash: Blockhash,
    result: Result<SignedTransaction, AssembleError>,
    omitted: Address,
)
    requires
        assembled(instructions, payer, signers, blockhash, result),
        is_required_signer(instructions, payer, omitted),
        !signers.contains(omitted),
    ensures
        result is Err,
        unfit(instructions, payer) is None ==> (result matches Err(
            AssembleError::MissingSigner(a),
        ) && is_required_signer(instructions, payer, a) && !signers.contains(a)),
{
    if unfit(instructions, payer) is None {
        let a = result->Err_0->MissingSigner_0;
        if signers.contains(payer) {
            let (i, k) = choose|i: int, k: int|
                #![trigger missing_at(instructions, signers, i, k)]
                missing_at(instructions, signers, i, k) && a == instructions[i].accounts[k].address;
            assert(signs(instructions[i].accounts, a));
        }
    }
}

/// With the signers that the instructions ask for, all of them and no others,
/// a transaction is assembled wherever a message can hold the instructions.
pub proof fn lemma_right_signers_give_a_transaction(
    instructions: Seq<InstructionView>,
    payer: Address,
    signers: Seq<Address>,
    blockhash: Blockhash,
    result: Result<SignedTransaction, AssembleError>,
)
    requires
        assembled(instructions, payer, signers, blockhash, result),
        all_signers_present(instructions, payer, signers),
        no_signer_in_excess(instructions, payer, signers),
    ensures
        result is Ok <==> unfit(instructions, payer) is None,
        result matches Err(error) ==> unfit(instructions, payer) == Some(error),
{
}

/// An assembled transaction carries the instructions that were handed in, in
/// the order in which they were handed in, and nothing else.
pub proof fn lemma_instruction_order_is_kept(
    instructions: Seq<InstructionView>,
    payer: Address,
    signers: Seq<Address>,
    blockhash: Blockhash,
    result: Result<SignedTransaction, AssembleError>,
)
    requires
        assembled(instructions, payer, signers, blockhash, result),
        result is Ok,
    ensures
        result->Ok_0.instructions().len() == instructions.len(),
        forall|i: int|
            0 <= i < instructions.len() ==> result->Ok_0.instructions()[i] == instructions[i],
{
}

} // verus!
