use ledger_gen::programs::{
    close_program_instructions, create_nonce_account_instructions, deploy_program_instructions,
    invoke_program_instructions, set_up_buffer_instructions, upgrade_program_instructions,
};
use ledger_gen::sdk::Identity;
use ledger_gen::types::{Address, Instruction};
use solana_sdk::bpf_loader_upgradeable;
use solana_sdk::pubkey::Pubkey;
use solana_sdk::signer::keypair::Keypair;
use solana_sdk::signer::Signer;
use solana_sdk::system_instruction;
use solana_sdk::system_program;

fn outside(instruction: &Instruction) -> solana_sdk::instruction::Instruction {
    solana_sdk::instruction::Instruction {
        program_id: Pubkey::from(instruction.program_id.bytes),
        accounts: instruction
            .accounts
            .iter()
            .map(|meta| solana_sdk::instruction::AccountMeta {
                pubkey: Pubkey::from(meta.address.bytes),
                is_signer: meta.is_signer,
                is_writable: meta.is_writable,
            })
            .collect(),
        data: instruction.data.clone(),
    }
}

fn outside_all(instructions: &Vec<Instruction>) -> Vec<solana_sdk::instruction::Instruction> {
    instructions.iter().map(outside).collect()
}

fn key(address: &Address) -> Pubkey {
    Pubkey::from(address.bytes)
}

#[test]
fn identity_has_the_address_of_its_keypair() {
    let keypair = Keypair::new();
    let expected = keypair.pubkey();
    let identity = Identity::from_keypair(keypair);
    assert_eq!(key(&identity.address()), expected);
    assert_eq!(identity.keypair().pubkey(), expected);
}

#[test]
fn generated_identities_differ() {
    let first = Identity::generate();
    let second = Identity::generate();
    assert_ne!(first.address().bytes, second.address().bytes);
    assert_eq!(key(&first.address()), first.keypair().pubkey());
}

#[test]
fn system_program_is_all_zero() {
    assert_eq!(ledger_gen::types::system_program_address().bytes, system_program::id().to_bytes());
}

#[test]
fn buffer_is_created_and_written_in_chunks() {
    let payer = Identity::generate();
    let data: Vec<u8> = (0..10u8).collect();
    let (buffer, setup) = set_up_buffer_instructions(&payer, &data, 777, 4);
    let payer_key = key(&payer.address());
    let buffer_key = key(&buffer.address());
    let expected_create =
        bpf_loader_upgradeable::create_buffer(&payer_key, &buffer_key, &payer_key, 777, 10)
            .unwrap();
    assert_eq!(outside_all(&setup.create), expected_create);
    let expected_writes = vec![
        bpf_loader_upgradeable::write(&buffer_key, &payer_key, 0, vec![0, 1, 2, 3]),
        bpf_loader_upgradeable::write(&buffer_key, &payer_key, 4, vec![4, 5, 6, 7]),
        bpf_loader_upgradeable::write(&buffer_key, &payer_key, 8, vec![8, 9]),
    ];
    assert_eq!(outside_all(&setup.writes), expected_writes);
}

#[test]
fn chunks_that_divide_the_program_leave_no_empty_write() {
    let payer = Identity::generate();
    let data: Vec<u8> = vec![7; 8];
    let (buffer, setup) = set_up_buffer_instructions(&payer, &data, 1, 4);
    let payer_key = key(&payer.address());
    let buffer_key = key(&buffer.address());
    let expected_writes = vec![
        bpf_loader_upgradeable::write(&buffer_key, &payer_key, 0, vec![7; 4]),
        bpf_loader_upgradeable::write(&buffer_key, &payer_key, 4, vec![7; 4]),
    ];
    assert_eq!(outside_all(&setup.writes), expected_writes);
}

#[test]
fn one_chunk_holds_a_short_program() {
    let payer = Identity::generate();
    let data: Vec<u8> = vec![1, 2, 3];
    let (buffer, setup) = set_up_buffer_instructions(&payer, &data, 1, 100);
    let expected_writes = vec![bpf_loader_upgradeable::write(
        &key(&buffer.address()),
        &key(&payer.address()),
        0,
        vec![1, 2, 3],
    )];
    assert_eq!(outside_all(&setup.writes), expected_writes);
}

#[test]
fn deployment_under_a_fresh_identity() {
    let payer = Identity::generate();
    let buffer = Identity::generate().address();
    let (program, instructions) = deploy_program_instructions(&payer, None, &buffer, 5000, 1234);
    let payer_key = key(&payer.address());
    let expected = bpf_loader_upgradeable::deploy_with_max_program_len(
        &payer_key,
        &key(&program.address()),
        &key(&buffer),
        &payer_key,
        5000,
        1234,
    )
    .unwrap();
    assert_eq!(outside_all(&instructions.unwrap()), expected);
}

#[test]
fn deployment_onto_an_existing_identity() {
    let payer = Identity::generate();
    let buffer = Identity::generate().address();
    let existing = Identity::generate();
    let address = existing.address();
    let (program, instructions) =
        deploy_program_instructions(&payer, Some(existing), &buffer, 1, 2);
    assert_eq!(program.address().bytes, address.bytes);
    let payer_key = key(&payer.address());
    let expected = bpf_loader_upgradeable::deploy_with_max_program_len(
        &payer_key,
        &key(&address),
        &key(&buffer),
        &payer_key,
        1,
        2,
    )
    .unwrap();
    assert_eq!(outside_all(&instructions.unwrap()), expected);
}

#[test]
fn upgrade_is_on_the_authority_of_the_payer() {
    let payer = Identity::generate();
    let buffer = Identity::generate().address();
    let program = Identity::generate().address();
    let instructions = upgrade_program_instructions(&payer, &buffer, &program).unwrap();
    let payer_key = key(&payer.address());
    let expected =
        vec![bpf_loader_upgradeable::upgrade(&key(&program), &key(&buffer), &payer_key, &payer_key)];
    assert_eq!(outside_all(&instructions), expected);
}

#[test]
fn close_takes_the_program_data_account() {
    let payer = Identity::generate();
    let program = Identity::generate().address();
    let instructions = close_program_instructions(&payer, &program).unwrap();
    let payer_key = key(&payer.address());
    let (data_account, _) =
        Pubkey::find_program_address(&[key(&program).as_ref()], &bpf_loader_upgradeable::id());
    let expected = vec![bpf_loader_upgradeable::close_any(
        &data_account,
        &payer_key,
        Some(&payer_key),
        Some(&key(&program)),
    )];
    assert_eq!(outside_all(&instructions), expected);
    assert_ne!(instructions[0].accounts[0].address.bytes, program.bytes);
}

#[test]
fn invocation_creates_the_scratch_account_and_calls_the_program() {
    let payer = Identity::generate();
    let program = Identity::generate().address();
    let data = vec![9u8, 8, 7];
    let (scratch, instructions) = invoke_program_instructions(&payer, &program, &data, 42);
    let payer_key = key(&payer.address());
    let scratch_key = key(&scratch.address());
    let expected = vec![
        system_instruction::create_account(&payer_key, &scratch_key, 42, 3, &key(&program)),
        solana_sdk::instruction::Instruction::new_with_bytes(
            key(&program),
            &[9, 8, 7],
            vec![solana_sdk::instruction::AccountMeta::new(scratch_key, false)],
        ),
    ];
    assert_eq!(outside_all(&instructions), expected);
}

#[test]
fn nonce_account_is_created_with_the_payer_as_authority() {
    let payer = Identity::generate();
    let (nonce, instructions) = create_nonce_account_instructions(None, &payer, 2000000);
    let payer_key = key(&payer.address());
    let expected = system_instruction::create_nonce_account(
        &payer_key,
        &key(&nonce.address()),
        &payer_key,
        2000000,
    );
    assert_eq!(outside_all(&instructions), expected);
}

#[test]
fn nonce_account_keeps_an_identity_that_is_handed_in() {
    let payer = Identity::generate();
    let existing = Identity::generate();
    let address = existing.address();
    let (nonce, instructions) = create_nonce_account_instructions(Some(existing), &payer, 1);
    assert_eq!(nonce.address().bytes, address.bytes);
    assert_eq!(instructions[0].accounts[1].address.bytes, address.bytes);
}

#[test]
fn account_creation_carries_its_three_arguments() {
    let payer = Identity::generate();
    let program = Identity::generate().address();
    let (_, instructions) = invoke_program_instructions(&payer, &program, &vec![0; 3], 0x0102);
    let mut expected = vec![0u8, 0, 0, 0];
    expected.extend_from_slice(&0x0102u64.to_le_bytes());
    expected.extend_from_slice(&3u64.to_le_bytes());
    expected.extend_from_slice(&program.bytes);
    assert_eq!(instructions[0].data, expected);
    assert_eq!(instructions[0].data.len(), 52);
}
