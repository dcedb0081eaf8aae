use ledger_gen::accounts::{buffer_rent_size, rent_size, BuildError, RunAccounts};
use ledger_gen::assembler::AssembleError;
use ledger_gen::plan::Operation;
use ledger_gen::sdk::Identity;
use ledger_gen::types::{Address, Blockhash};
use solana_sdk::bpf_loader_upgradeable;
use solana_sdk::pubkey::Pubkey;
use solana_sdk::system_instruction;

fn key(address: &Address) -> Pubkey {
    Pubkey::from(address.bytes)
}

fn recent() -> Blockhash {
    Blockhash::new([3; 32])
}

fn signers_of(transaction: &ledger_gen::assembler::SignedTransaction) -> Vec<[u8; 32]> {
    transaction.signer_addresses().iter().map(|a| a.bytes).collect()
}

fn staged(chunk_len: usize) -> RunAccounts {
    let mut accounts = RunAccounts::new(Identity::generate());
    let data: Vec<u8> = (0..20u8).collect();
    assert!(accounts.stage_buffer(&data, 100, chunk_len, &recent()).is_ok());
    accounts
}

fn deployed() -> RunAccounts {
    let mut accounts = staged(8);
    let deploy = Operation::Deploy { buffer: 0 };
    assert!(accounts.assemble(&deploy, false, &recent(), 10, 20, &vec![]).is_ok());
    accounts
}

#[test]
fn buffer_is_staged_by_one_creation_and_one_write_per_chunk() {
    let mut accounts = RunAccounts::new(Identity::generate());
    let data: Vec<u8> = (0..20u8).collect();
    let transactions = accounts.stage_buffer(&data, 100, 8, &recent()).unwrap();
    assert_eq!(accounts.buffers.len(), 1);
    let payer = accounts.payer.address();
    let buffer = accounts.buffers[0].address();
    assert_eq!(transactions.len(), 4);
    for transaction in transactions.iter() {
        assert!(transaction.wire().verify().is_ok());
        assert_eq!(transaction.fee_payer_address().bytes, payer.bytes);
        assert_eq!(transaction.signed_blockhash().bytes, [3; 32]);
    }
    assert_eq!(signers_of(&transactions[0]), vec![payer.bytes, buffer.bytes]);
    let creation =
        bpf_loader_upgradeable::create_buffer(&key(&payer), &key(&buffer), &key(&payer), 100, 20)
            .unwrap();
    assert_eq!(transactions[0].instruction_list().len(), 2);
    assert_eq!(transactions[0].instruction_list()[0].data, creation[0].data);
    assert_eq!(transactions[0].instruction_list()[1].data, creation[1].data);
    let chunks: Vec<(u32, Vec<u8>)> =
        vec![(0, (0..8).collect()), (8, (8..16).collect()), (16, (16..20).collect())];
    for (number, (offset, bytes)) in chunks.into_iter().enumerate() {
        let transaction = &transactions[1 + number];
        let write = bpf_loader_upgradeable::write(&key(&buffer), &key(&payer), offset, bytes);
        assert_eq!(signers_of(transaction), vec![payer.bytes]);
        assert_eq!(transaction.instruction_list().len(), 1);
        assert_eq!(transaction.instruction_list()[0].data, write.data);
        assert_eq!(transaction.wire().message.instructions[0].data, write.data);
    }
}

#[test]
fn second_buffer_follows_the_first() {
    let mut accounts = staged(8);
    let first = accounts.buffers[0].address();
    assert!(accounts.stage_buffer(&vec![1, 2, 3], 5, 2, &recent()).is_ok());
    assert_eq!(accounts.buffers.len(), 2);
    assert_eq!(accounts.buffers[0].address().bytes, first.bytes);
    assert_ne!(accounts.buffers[1].address().bytes, first.bytes);
}

#[test]
fn deployment_is_signed_by_the_payer_and_the_program() {
    let mut accounts = staged(8);
    let deploy = Operation::Deploy { buffer: 0 };
    let done = accounts.assemble(&deploy, false, &recent(), 10, 20, &vec![]).unwrap();
    let payer = accounts.payer.address();
    let program = accounts.program_address().unwrap();
    assert_eq!(done.created.map(|a| a.bytes), Some(program.bytes));
    assert_eq!(signers_of(&done.transaction), vec![payer.bytes, program.bytes]);
    assert!(done.transaction.wire().verify().is_ok());
    let expected = bpf_loader_upgradeable::deploy_with_max_program_len(
        &key(&payer),
        &key(&program),
        &key(&accounts.buffers[0].address()),
        &key(&payer),
        10,
        20,
    )
    .unwrap();
    let built = done.transaction.instruction_list();
    assert_eq!(built.len(), 2);
    assert_eq!(built[0].data, expected[0].data);
    assert_eq!(built[1].data, expected[1].data);
    assert_eq!(built[1].accounts.len(), expected[1].accounts.len());
}

#[test]
fn renewed_deployment_keeps_the_program() {
    let mut accounts = deployed();
    let program = accounts.program_address().unwrap();
    let redeploy = Operation::Redeploy { buffer: 0 };
    let done = accounts.assemble(&redeploy, false, &recent(), 10, 20, &vec![]).unwrap();
    assert!(done.created.is_none());
    assert_eq!(accounts.program_address().map(|a| a.bytes), Some(program.bytes));
    assert_eq!(signers_of(&done.transaction), vec![accounts.payer.address().bytes, program.bytes]);
    assert!(done.transaction.wire().verify().is_ok());
}

#[test]
fn fresh_deployment_replaces_the_program() {
    let mut accounts = deployed();
    let program = accounts.program_address().unwrap();
    let deploy = Operation::Deploy { buffer: 0 };
    let done = accounts.assemble(&deploy, false, &recent(), 10, 20, &vec![]).unwrap();
    assert_ne!(done.created.unwrap().bytes, program.bytes);
    assert_eq!(accounts.program_address().map(|a| a.bytes), done.created.map(|a| a.bytes));
}

#[test]
fn upgrade_and_close_are_signed_by_the_payer_alone() {
    let mut accounts = deployed();
    let payer = accounts.payer.address();
    let program = accounts.program_address().unwrap();
    let buffer = accounts.buffers[0].address();
    let upgrade = Operation::Upgrade { buffer: 0 };
    let done = accounts.assemble(&upgrade, false, &recent(), 0, 0, &vec![]).unwrap();
    assert!(done.created.is_none());
    assert_eq!(signers_of(&done.transaction), vec![payer.bytes]);
    assert!(done.transaction.wire().verify().is_ok());
    let expected =
        bpf_loader_upgradeable::upgrade(&key(&program), &key(&buffer), &key(&payer), &key(&payer));
    assert_eq!(done.transaction.instruction_list()[0].data, expected.data);
    assert_eq!(done.transaction.instruction_list()[0].accounts.len(), 7);
    let done = accounts.assemble(&Operation::Close, false, &recent(), 0, 0, &vec![]).unwrap();
    assert_eq!(signers_of(&done.transaction), vec![payer.bytes]);
    assert!(done.transaction.wire().verify().is_ok());
    assert_eq!(done.transaction.instruction_list()[0].accounts[3].address.bytes, program.bytes);
    assert_eq!(accounts.program_address().map(|a| a.bytes), Some(program.bytes));
}

#[test]
fn invocation_is_signed_by_the_payer_and_the_scratch_account() {
    let mut accounts = deployed();
    let payer = accounts.payer.address();
    let program = accounts.program_address().unwrap();
    let done = accounts.assemble(&Operation::Invoke, false, &recent(), 9, 0, &vec![1, 2, 3]).unwrap();
    let scratch = done.created.unwrap();
    assert_eq!(signers_of(&done.transaction), vec![payer.bytes, scratch.bytes]);
    assert!(done.transaction.wire().verify().is_ok());
    let opening =
        system_instruction::create_account(&key(&payer), &key(&scratch), 9, 3, &key(&program));
    let built = done.transaction.instruction_list();
    assert_eq!(built[0].data, opening.data);
    assert_eq!(built[1].program_id.bytes, program.bytes);
    assert_eq!(built[1].data, vec![1, 2, 3]);
}

#[test]
fn invocation_with_too_much_data_is_refused() {
    let mut accounts = deployed();
    let result = accounts.assemble(&Operation::Invoke, false, &recent(), 9, 0, &vec![0; 70000]);
    assert!(matches!(result, Err(BuildError::Assembly(AssembleError::InstructionTooLarge))));
}

#[test]
fn account_is_opened_over_the_nonce() {
    let mut accounts = RunAccounts::new(Identity::generate());
    let create = Operation::CreateNonceAccount { lamports: 2000000 };
    let done = accounts.assemble(&create, false, &recent(), 0, 0, &vec![]).unwrap();
    let payer = accounts.payer.address();
    let nonce = accounts.nonce_address().unwrap();
    assert_eq!(done.created.map(|a| a.bytes), Some(nonce.bytes));
    assert_eq!(signers_of(&done.transaction), vec![payer.bytes, nonce.bytes]);
    assert!(done.transaction.wire().verify().is_ok());
    assert!(solana_sdk::transaction::uses_durable_nonce(done.transaction.wire()).is_none());
    let creation =
        system_instruction::create_nonce_account(&key(&payer), &key(&nonce), &key(&payer), 2000000);
    assert_eq!(done.transaction.instruction_list()[0].data, creation[0].data);
    assert_eq!(done.transaction.instruction_list()[1].data, creation[1].data);

    let value = Blockhash::new([6; 32]);
    let done = accounts.assemble(&Operation::OpenAccount, true, &value, 77, 0, &vec![]).unwrap();
    let account = done.created.unwrap();
    assert_eq!(signers_of(&done.transaction), vec![payer.bytes, account.bytes]);
    assert_eq!(done.transaction.signed_blockhash().bytes, [6; 32]);
    assert!(done.transaction.wire().verify().is_ok());
    assert!(solana_sdk::transaction::uses_durable_nonce(done.transaction.wire()).is_some());
    let opening = system_instruction::create_account(
        &key(&payer),
        &key(&account),
        77,
        0,
        &solana_sdk::system_program::id(),
    );
    let mut expected = solana_sdk::message::Message::new_with_nonce(
        vec![opening],
        Some(&key(&payer)),
        &key(&nonce),
        &key(&payer),
    );
    expected.recent_blockhash = solana_sdk::hash::Hash::new_from_array([6; 32]);
    assert_eq!(done.transaction.wire().message, expected);
    assert_eq!(accounts.nonce_address().map(|a| a.bytes), Some(nonce.bytes));
}

#[test]
fn account_is_opened_over_a_recent_blockhash() {
    let mut accounts = RunAccounts::new(Identity::generate());
    let done = accounts.assemble(&Operation::OpenAccount, false, &recent(), 5, 0, &vec![]).unwrap();
    assert_eq!(done.transaction.instruction_list().len(), 1);
    assert!(done.transaction.wire().verify().is_ok());
    assert!(accounts.program_address().is_none());
    assert!(accounts.nonce_address().is_none());
}

#[test]
fn operation_without_its_buffer_is_refused() {
    let mut accounts = staged(8);
    for operation in [Operation::Deploy { buffer: 1 }, Operation::Upgrade { buffer: 1 }] {
        let result = accounts.assemble(&operation, false, &recent(), 0, 0, &vec![]);
        assert!(matches!(result, Err(BuildError::NoSuchBuffer)));
    }
    assert!(accounts.program_address().is_none());
}

#[test]
fn operation_without_a_program_is_refused() {
    let mut accounts = staged(8);
    for operation in [
        Operation::Redeploy { buffer: 0 },
        Operation::Upgrade { buffer: 0 },
        Operation::Invoke,
        Operation::Close,
    ] {
        let result = accounts.assemble(&operation, false, &recent(), 0, 0, &vec![]);
        assert!(matches!(result, Err(BuildError::NoProgram)));
    }
}

#[test]
fn signing_over_the_nonce_without_a_nonce_account_is_refused() {
    let mut accounts = RunAccounts::new(Identity::generate());
    let result = accounts.assemble(&Operation::OpenAccount, true, &recent(), 0, 0, &vec![]);
    assert!(matches!(result, Err(BuildError::NoNonceAccount)));
}

#[test]
fn rent_is_asked_for_the_account_that_the_operation_funds() {
    assert_eq!(rent_size(&Operation::Deploy { buffer: 0 }, 5), Some(36));
    assert_eq!(rent_size(&Operation::Redeploy { buffer: 0 }, 5), Some(36));
    assert_eq!(rent_size(&Operation::Invoke, 5), Some(5));
    assert_eq!(rent_size(&Operation::OpenAccount, 5), Some(80));
    assert_eq!(rent_size(&Operation::Upgrade { buffer: 0 }, 5), None);
    assert_eq!(rent_size(&Operation::Close, 5), None);
    assert_eq!(rent_size(&Operation::CreateNonceAccount { lamports: 1 }, 5), None);
    assert_eq!(
        rent_size(&Operation::Deploy { buffer: 0 }, 5),
        Some(bpf_loader_upgradeable::UpgradeableLoaderState::size_of_program())
    );
    assert_eq!(rent_size(&Operation::OpenAccount, 5), Some(solana_sdk::nonce::State::size()));
}

#[test]
fn buffer_account_holds_the_program_behind_its_metadata() {
    assert_eq!(buffer_rent_size(0), 37);
    assert_eq!(buffer_rent_size(1000), 1037);
    assert_eq!(buffer_rent_size(usize::MAX), usize::MAX);
    assert_eq!(buffer_rent_size(usize::MAX - 37), usize::MAX);
    assert_eq!(buffer_rent_size(usize::MAX - 38), usize::MAX - 1);
}

#[test]
fn chunk_that_no_instruction_can_carry_stages_nothing() {
    let mut accounts = RunAccounts::new(Identity::generate());
    let data: Vec<u8> = vec![3; 70000];
    let result = accounts.stage_buffer(&data, 100, 70000, &recent());
    assert!(matches!(result, Err(AssembleError::InstructionTooLarge)));
    assert_eq!(accounts.buffers.len(), 0);
    let transactions = accounts.stage_buffer(&data, 100, 60000, &recent()).unwrap();
    assert_eq!(transactions.len(), 3);
    assert_eq!(accounts.buffers.len(), 1);
}

#[test]
fn invocation_with_data_that_fits_is_always_signed() {
    let mut accounts = deployed();
    let result = accounts.assemble(&Operation::Invoke, false, &recent(), 9, 0, &vec![0; 65535]);
    assert!(result.is_ok());
    let result = accounts.assemble(&Operation::Invoke, false, &recent(), 9, 0, &vec![0; 65536]);
    assert!(matches!(result, Err(BuildError::Assembly(AssembleError::InstructionTooLarge))));
}
