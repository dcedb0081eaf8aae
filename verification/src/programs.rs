//! The instruction factory: the instruction lists of the lifecycle operations
//! of an on-chain program (staging a buffer, deploying, upgrading, invoking,
//! closing) and of the creation of a nonce account.
//!
//! Each function says which accounts have to sign a transaction of its
//! instructions. Amounts that only the ledger knows (the balance that exempts
//! an account from rent) are handed in.

use crate::sdk::{
    close_instruction, create_account_data, create_buffer_instructions,
    create_nonce_account_instructions as nonce_account_creation, deploy_instructions,
    find_program_data_address, loader_close, loader_create_buffer, loader_deploy, loader_upgrade,
    loader_write, program_data_address, readonly_signer, system_create_account,
    system_create_nonce_account, upgrade_instruction, writable, writable_signer,
    write_instruction, Identity,
};
use crate::types::{
    instruction_views, is_required_signer, signs, system_program, AccountMeta, Address,
    Instruction, InstructionView,
};
use vstd::prelude::*;

verus! {

/// Why no instruction list was built.
#[derive(Clone, Copy, Debug, PartialEq, Eq, Structural)]
pub enum FactoryError {
    /// No address can be derived for the data account of the program.
    NoProgramDataAddress,
}

/// The instructions that stage a program in a fresh buffer account.
pub struct BufferSetup {
    /// Creates the buffer account and initialises it.
    pub create: Vec<Instruction>,
    /// Writes the program into the buffer, one chunk per instruction, in the
    /// order of the chunks.
    pub writes: Vec<Instruction>,
}

/// The number of chunks of at most `chunk_len` bytes that `len` bytes fall into.
pub open spec fn chunk_count(len: int, chunk_len: int) -> int {
    (len + chunk_len - 1) / chunk_len
}

/// Chunk `i` of `data`, where every chunk but the last holds `chunk_len` bytes.
pub open spec fn chunk(data: Seq<u8>, chunk_len: int, i: int) -> Seq<u8> {
    data.subrange(
        i * chunk_len,
        if (i + 1) * chunk_len <= data.len() {
            (i + 1) * chunk_len
        } else {
            data.len() as int
        },
    )
}

/// The write instructions that put `data` into `buffer`, chunk by chunk, on
/// the authority of `authority`.
pub open spec fn chunked_writes(
    buffer: Address,
    authority: Address,
    data: Seq<u8>,
    chunk_len: int,
) -> Seq<InstructionView> {
    Seq::new(
        chunk_count(data.len() as int, chunk_len) as nat,
        |i: int| write_instruction(buffer, authority, (i * chunk_len) as u32, chunk(data, chunk_len, i)),
    )
}

/// Whether the accounts that have to sign a transaction of `instructions`,
/// paid for by `payer`, are `payer` and `other`, and no others.
pub open spec fn signed_by_payer_and(
    instructions: Seq<InstructionView>,
    payer: Address,
    other: Address,
) -> bool {
    forall|a: Address| is_required_signer(instructions, payer, a) <==> (a == payer || a == other)
}

/// Whether `payer` alone has to sign a transaction of `instructions` that it
/// pays for.
pub open spec fn signed_by_payer_alone(instructions: Seq<InstructionView>, payer: Address) -> bool {
    forall|a: Address| is_required_signer(instructions, payer, a) <==> a == payer
}

/// The instruction that calls `program` with `data` on the account `scratch`.
pub open spec fn invocation(program: Address, scratch: Address, data: Seq<u8>) -> InstructionView {
    InstructionView { program_id: program, accounts: seq![writable(scratch)], data }
}

/// The two instructions of an invocation: the creation of the scratch account,
/// owned by the program and sized for the data, and the call itself.
pub open spec fn invocation_instructions(
    payer: Address,
    program: Address,
    scratch: Address,
    lamports: u64,
    data: Seq<u8>,
) -> Seq<InstructionView> {
    seq![
        InstructionView {
            program_id: system_program(),
            accounts: seq![writable_signer(payer), writable_signer(scratch)],
            data: create_account_data(lamports, data.len() as u64, program),
        },
        invocation(program, scratch, data),
    ]
}

/// Of two accounts that both sign, exactly those two sign.
proof fn lemma_signs_pair(accounts: Seq<AccountMeta>, first: Address, second: Address)
    requires
        accounts == seq![writable_signer(first), writable_signer(second)],
    ensures
        forall|a: Address| signs(accounts, a) <==> (a == first || a == second),
{
    assert(accounts[0] == writable_signer(first));
    assert(accounts[1] == writable_signer(second));
}

/// The copy of bytes `from..to` of `data`.
fn copy_range(data: &Vec<u8>, from: usize, to: usize) -> (bytes: Vec<u8>)
    requires
        from <= to <= data.len(),
    ensures
        bytes@ == data@.subrange(from as int, to as int),
{
    let mut bytes: Vec<u8> = Vec::new();
    let mut i: usize = from;
    while i < to
        invariant
            from <= i <= to <= data.len(),
            bytes@ == data@.subrange(from as int, i as int),
        decreases to - i,
    {
        bytes.push(data[i]);
        assert(data@.subrange(from as int, i + 1) =~= data@.subrange(from as int, i as int).push(
            data@[i as int],
        ));
        i += 1;
    }
    bytes
}

/// The identity of a fresh buffer account and the instructions that stage
/// `program_data` in it: the creation of the account, funded with `lamports`
/// and sized for the program, and the writes, each of at most `chunk_len` bytes.
///
/// `payer` funds the account and is the authority over the buffer. The
/// creation is signed by `payer` and the buffer, each write by `payer` alone.
pub fn set_up_buffer_instructions(
    payer: &Identity,
    program_data: &Vec<u8>,
    lamports: u64,
    chunk_len: usize,
) -> (staged: (Identity, BufferSetup))
    requires
        0 < program_data.len() <= u32::MAX,
        chunk_len > 0,
    ensures
        instruction_views(staged.1.create@) == create_buffer_instructions(
            payer.spec_address(),
            staged.0.spec_address(),
            payer.spec_address(),
            lamports,
            program_data.len(),
        ),
        signed_by_payer_and(
            instruction_views(staged.1.create@),
            payer.spec_address(),
            staged.0.spec_address(),
        ),
        instruction_views(staged.1.writes@) == chunked_writes(
            staged.0.spec_address(),
            payer.spec_address(),
            program_data@,
            chunk_len as int,
        ),
        forall|i: int|
            0 <= i < staged.1.writes@.len() ==> signed_by_payer_alone(
                seq![#[trigger] instruction_views(staged.1.writes@)[i]],
                payer.spec_address(),
            ),
{
    let buffer = Identity::generate();
    let payer_address = payer.address();
    let buffer_address = buffer.address();
    let created = loader_create_buffer(
        &payer_address,
        &buffer_address,
        &payer_address,
        lamports,
        program_data.len(),
    );
    let create = created.unwrap();
    proof {
        lemma_pair_then_signers(instruction_views(create@), payer_address, buffer_address);
    }
    let mut writes: Vec<Instruction> = Vec::new();
    let mut offset: usize = 0;
    let ghost expected = chunked_writes(
        buffer_address,
        payer_address,
        program_data@,
        chunk_len as int,
    );
    assert(writes@.len() * chunk_len == 0) by (nonlinear_arith)
        requires
            writes@.len() == 0,
    ;
    while offset < program_data.len()
        invariant
            chunk_len > 0,
            program_data.len() <= u32::MAX,
            offset <= program_data.len(),
            offset < program_data.len() ==> offset == writes@.len() * chunk_len,
            offset == program_data.len() ==> writes@.len() == chunk_count(
                program_data.len() as int,
                chunk_len as int,
            ),
            writes@.len() <= chunk_count(program_data.len() as int, chunk_len as int),
            expected == chunked_writes(
                buffer_address,
                payer_address,
                program_data@,
                chunk_len as int,
            ),
            forall|i: int|
                0 <= i < writes@.len() ==> (#[trigger] writes@[i])@ == expected[i]
                    && writes@[i].accounts@ == seq![
                    writable(buffer_address),
                    readonly_signer(payer_address),
                ],
        decreases program_data.len() - offset,
    {
        let ghost index = writes@.len() as int;
        proof {
            lemma_chunk_bounds(program_data.len() as int, chunk_len as int, index);
        }
        let end: usize = if program_data.len() - offset > chunk_len {
            offset + chunk_len
        } else {
            program_data.len()
        };
        let bytes = copy_range(program_data, offset, end);
        assert(bytes@ == chunk(program_data@, chunk_len as int, index));
        let write = loader_write(&buffer_address, &payer_address, offset as u32, bytes);
        writes.push(write);
        offset = end;
    }
    proof {
        let views = instruction_views(writes@);
        assert(views =~= expected);
        assert forall|i: int| 0 <= i < writes@.len() implies signed_by_payer_alone(
            seq![#[trigger] views[i]],
            payer_address,
        ) by {
            assert(views[i].accounts[1] == readonly_signer(payer_address));
            assert(views[i].accounts[0] == writable(buffer_address));
            lemma_single_signed_by_payer(seq![views[i]], payer_address);
        }
    }
    (buffer, BufferSetup { create, writes })
}

/// Where chunk `index` of `len` bytes starts and ends.
proof fn lemma_chunk_bounds(len: int, chunk_len: int, index: int)
    requires
        chunk_len > 0,
        0 <= index,
        index * chunk_len < len,
    ensures
        index < chunk_count(len, chunk_len),
        (index + 1) * chunk_len == index * chunk_len + chunk_len,
        (index + 1) * chunk_len >= len ==> index + 1 == chunk_count(len, chunk_len),
        (index + 1) * chunk_len < len ==> index + 1 < chunk_count(len, chunk_len),
{
    assert((index + 1) * chunk_len == index * chunk_len + chunk_len) by (nonlinear_arith);
    let q = chunk_count(len, chunk_len);
    assert(q * chunk_len <= len + chunk_len - 1 < q * chunk_len + chunk_len) by (nonlinear_arith)
        requires
            q == (len + chunk_len - 1) / chunk_len,
            chunk_len > 0,
    ;
    assert(index < q) by (nonlinear_arith)
        requires
            index * chunk_len < len,
            len + chunk_len - 1 < q * chunk_len + chunk_len,
            chunk_len > 0,
    ;
    if (index + 1) * chunk_len >= len {
        assert(index + 1 >= q) by (nonlinear_arith)
            requires
                (index + 1) * chunk_len >= len,
                q * chunk_len <= len + chunk_len - 1,
                chunk_len > 0,
        ;
    } else {
        assert(index + 1 < q) by (nonlinear_arith)
            requires
                (index + 1) * chunk_len < len,
                len + chunk_len - 1 < q * chunk_len + chunk_len,
                chunk_len > 0,
        ;
    }
}

/// Instructions of which the first is signed by the payer and one other
/// account, and the others by no account but these, need the signatures of
/// the payer and of that account.
pub proof fn lemma_pair_then_signers(views: Seq<InstructionView>, payer: Address, other: Address)
    requires
        views.len() >= 1,
        views[0].accounts == seq![writable_signer(payer), writable_signer(other)],
        forall|i: int, a: Address|
            1 <= i < views.len() && #[trigger] signs(views[i].accounts, a) ==> (a == payer || a
                == other),
    ensures
        signed_by_payer_and(views, payer, other),
{
    lemma_signs_pair(views[0].accounts, payer, other);
    assert forall|a: Address| is_required_signer(views, payer, a) implies (a == payer || a
        == other) by {
        if a != payer {
            let i = choose|i: int| 0 <= i < views.len() && signs(#[trigger] views[i].accounts, a);
            assert(i == 0 || 1 <= i);
        }
    }
    assert(signs(views[0].accounts, other));
}

/// One instruction in which no account but the payer signs needs the
/// signature of the payer alone.
proof fn lemma_single_signed_by_payer(views: Seq<InstructionView>, payer: Address)
    requires
        views.len() == 1,
        forall|a: Address| signs(views[0].accounts, a) ==> a == payer,
    ensures
        signed_by_payer_alone(views, payer),
{
    assert forall|a: Address| is_required_signer(views, payer, a) implies a == payer by {
        if a != payer {
            let i = choose|i: int| 0 <= i < views.len() && signs(#[trigger] views[i].accounts, a);
            assert(i == 0);
        }
    }
}

/// The identity of the program and the instructions that deploy it from
/// `buffer`: the creation of the program account, funded with
/// `program_lamports`, and the deployment with room for `program_len` bytes.
///
/// With no `existing` identity a fresh one is drawn; with one, the
/// instructions aim at that program again. `payer` funds the accounts and
/// becomes the upgrade authority. `payer` and the program sign.
pub fn deploy_program_instructions(
    payer: &Identity,
    existing: Option<Identity>,
    buffer: &Address,
    program_lamports: u64,
    program_len: usize,
) -> (deployment: (Identity, Result<Vec<Instruction>, FactoryError>))
    ensures
        existing matches Some(identity) ==> deployment.0 == identity,
        match deployment.1 {
            Ok(instructions) => {
                &&& program_data_address(deployment.0.spec_address()) is Some
                &&& instruction_views(instructions@) == deploy_instructions(
                    payer.spec_address(),
                    deployment.0.spec_address(),
                    *buffer,
                    payer.spec_address(),
                    program_lamports,
                    program_len,
                )
                &&& signed_by_payer_and(
                    instruction_views(instructions@),
                    payer.spec_address(),
                    deployment.0.spec_address(),
                )
            },
            Err(error) => error == FactoryError::NoProgramDataAddress && program_data_address(
                deployment.0.spec_address(),
            ) is None,
        },
{
    let program = match existing {
        Some(identity) => identity,
        None => Identity::generate(),
    };
    let payer_address = payer.address();
    let program_address = program.address();
    if find_program_data_address(&program_address).is_none() {
        return (program, Err(FactoryError::NoProgramDataAddress));
    }
    let instructions = loader_deploy(
        &payer_address,
        &program_address,
        buffer,
        &payer_address,
        program_lamports,
        program_len,
    ).unwrap();
    proof {
        lemma_pair_then_signers(
            instruction_views(instructions@),
            payer_address,
            program_address,
        );
    }
    (program, Ok(instructions))
}

/// The instruction that replaces the code of `program` by what `buffer` holds,
/// on the authority of `payer`, to whom the lamports left over go. `payer`
/// alone signs.
pub fn upgrade_program_instructions(payer: &Identity, buffer: &Address, program: &Address) -> (upgrade:
    Result<Vec<Instruction>, FactoryError>)
    ensures
        match upgrade {
            Ok(instructions) => {
                &&& program_data_address(*program) is Some
                &&& instruction_views(instructions@) == seq![
                    upgrade_instruction(
                        *program,
                        *buffer,
                        payer.spec_address(),
                        payer.spec_address(),
                    ),
                ]
                &&& signed_by_payer_alone(instruction_views(instructions@), payer.spec_address())
            },
            Err(error) => error == FactoryError::NoProgramDataAddress && program_data_address(
                *program,
            ) is None,
        },
{
    let payer_address = payer.address();
    if find_program_data_address(program).is_none() {
        return Err(FactoryError::NoProgramDataAddress);
    }
    let instruction = loader_upgrade(program, buffer, &payer_address, &payer_address);
    let mut instructions: Vec<Instruction> = Vec::new();
    instructions.push(instruction);
    proof {
        let views = instruction_views(instructions@);
        assert(views =~= seq![
            upgrade_instruction(*program, *buffer, payer_address, payer_address),
        ]);
        lemma_single_signed_by_payer(views, payer_address);
    }
    Ok(instructions)
}

/// The instruction that closes `program`: it takes back the lamports of the
/// program's data account, to `payer`, on the authority of `payer`, after
/// which the program cannot run. `payer` alone signs.
pub fn close_program_instructions(payer: &Identity, program: &Address) -> (close: Result<
    Vec<Instruction>,
    FactoryError,
>)
    ensures
        match close {
            Ok(instructions) => {
                &&& program_data_address(*program) matches Some(data_account)
                &&& instruction_views(instructions@) == seq![
                    close_instruction(
                        data_account,
                        payer.spec_address(),
                        payer.spec_address(),
                        *program,
                    ),
                ]
                &&& signed_by_payer_alone(instruction_views(instructions@), payer.spec_address())
            },
            Err(error) => error == FactoryError::NoProgramDataAddress && program_data_address(
                *program,
            ) is None,
        },
{
    let payer_address = payer.address();
    let data_account = match find_program_data_address(program) {
        Some(address) => address,
        None => {
            return Err(FactoryError::NoProgramDataAddress);
        },
    };
    let instruction = loader_close(&data_account, &payer_address, &payer_address, program);
    let mut instructions: Vec<Instruction> = Vec::new();
    instructions.push(instruction);
    proof {
        let views = instruction_views(instructions@);
        assert(views =~= seq![
            close_instruction(data_account, payer_address, payer_address, *program),
        ]);
        assert(views[0].accounts[0] == writable(data_account));
        assert(views[0].accounts[1] == writable(payer_address));
        assert(views[0].accounts[2] == readonly_signer(payer_address));
        assert(views[0].accounts[3] == writable(*program));
        lemma_single_signed_by_payer(views, payer_address);
    }
    Ok(instructions)
}

/// The identity of a fresh scratch account and the instructions that invoke
/// `program` on it: the creation of the account, owned by the program, funded
/// with `lamports` and sized for `account_data`, and the call of the program
/// with `account_data` as its argument. `payer` and the scratch account sign.
pub fn invoke_program_instructions(
    payer: &Identity,
    program: &Address,
    account_data: &Vec<u8>,
    lamports: u64,
) -> (invocation: (Identity, Vec<Instruction>))
    ensures
        instruction_views(invocation.1@) == invocation_instructions(
            payer.spec_address(),
            *program,
            invocation.0.spec_address(),
            lamports,
            account_data@,
        ),
        signed_by_payer_and(
            instruction_views(invocation.1@),
            payer.spec_address(),
            invocation.0.spec_address(),
        ),
{
    let scratch = Identity::generate();
    let payer_address = payer.address();
    let scratch_address = scratch.address();
    let open = system_create_account(
        &payer_address,
        &scratch_address,
        lamports,
        account_data.len() as u64,
        program,
    );
    let mut accounts: Vec<AccountMeta> = Vec::new();
    accounts.push(AccountMeta::writable(scratch_address, false));
    let call = Instruction {
        program_id: *program,
        accounts,
        data: copy_range(account_data, 0, account_data.len()),
    };
    let mut instructions: Vec<Instruction> = Vec::new();
    instructions.push(open);
    instructions.push(call);
    proof {
        let views = instruction_views(instructions@);
        assert(account_data@.subrange(0, account_data@.len() as int) =~= account_data@);
        assert(views[1].accounts =~= seq![writable(scratch_address)]);
        assert(views =~= invocation_instructions(
            payer_address,
            *program,
            scratch_address,
            lamports,
            account_data@,
        ));
        assert(views[1].accounts[0] == writable(scratch_address));
        lemma_pair_then_signers(views, payer_address, scratch_address);
    }
    (scratch, instructions)
}

/// The identity of the nonce account and the instructions that create it,
/// funded with `lamports`, and initialise it with `payer` as the authority
/// over the nonce.
///
/// With no `existing` identity a fresh one is drawn. `payer` and the nonce
/// account sign.
pub fn create_nonce_account_instructions(
    existing: Option<Identity>,
    payer: &Identity,
    lamports: u64,
) -> (creation: (Identity, Vec<Instruction>))
    ensures
        existing matches Some(identity) ==> creation.0 == identity,
        instruction_views(creation.1@) == nonce_account_creation(
            payer.spec_address(),
            creation.0.spec_address(),
            payer.spec_address(),
            lamports,
        ),
        signed_by_payer_and(
            instruction_views(creation.1@),
            payer.spec_address(),
            creation.0.spec_address(),
        ),
{
    let nonce = match existing {
        Some(identity) => identity,
        None => Identity::generate(),
    };
    let payer_address = payer.address();
    let nonce_address = nonce.address();
    let instructions = system_create_nonce_account(
        &payer_address,
        &nonce_address,
        &payer_address,
        lamports,
    );
    proof {
        lemma_pair_then_signers(instruction_views(instructions@), payer_address, nonce_address);
    }
    (nonce, instructions)
}

} // verus!
