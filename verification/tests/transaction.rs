use solana_program::instruction::Instruction as OutsideInstruction;
use solana_program::pubkey::Pubkey;
use solana_sdk::compute_budget::ComputeBudgetInstruction;
use solana_sdk::message::Message;
use stake_pool_cli::config::Config;
use stake_pool_cli::error::CliError;
use stake_pool_cli::instruction::{
    add_instruction, add_signer, append_instructions, no_instructions, plan_transaction, signed_by,
    AccountMeta, Instruction,
};
use stake_pool_cli::manage::command_set_staker;
use stake_pool_cli::options::ComputeUnitLimit;
use stake_pool_cli::transaction::{
    add_compute_budget, add_simulated_limit, check_fee_payer_balance, check_message_fits,
    compile_message, delivery, required_balance, Delivery,
};

fn key(n: u8) -> Pubkey {
    Pubkey::from([n; 32])
}

fn plain(ix: &OutsideInstruction) -> Instruction {
    Instruction {
        program_id: ix.program_id.to_bytes(),
        accounts: ix
            .accounts
            .iter()
            .map(|m| AccountMeta(m.pubkey.to_bytes(), m.is_signer, m.is_writable))
            .collect(),
        data: ix.data.clone(),
    }
}

fn all_plain(ixs: &[OutsideInstruction]) -> Vec<Instruction> {
    ixs.iter().map(plain).collect()
}

fn config() -> Config {
    Config {
        stake_pool_program_id: spl_stake_pool::id().to_bytes(),
        manager: [11; 32],
        staker: [12; 32],
        funding_authority: None,
        token_owner: [13; 32],
        fee_payer: [14; 32],
        dry_run: false,
        no_update: false,
        compute_unit_price: None,
        compute_unit_limit: ComputeUnitLimit::Default,
    }
}

fn step(n: u8) -> Instruction {
    Instruction { program_id: [n; 32], accounts: vec![], data: vec![n] }
}

#[test]
fn the_default_budget_adds_nothing() {
    let mut instructions = vec![step(1)];
    assert!(!add_compute_budget(&config(), &mut instructions));
    assert_eq!(instructions, vec![step(1)]);
}

#[test]
fn a_price_and_a_limit_are_added_in_this_order() {
    let mut c = config();
    c.compute_unit_price = Some(u64::MAX);
    c.compute_unit_limit = ComputeUnitLimit::Static(257);
    let mut instructions = vec![step(1)];
    assert!(!add_compute_budget(&c, &mut instructions));
    assert_eq!(
        instructions,
        vec![
            step(1),
            plain(&ComputeBudgetInstruction::set_compute_unit_price(u64::MAX)),
            plain(&ComputeBudgetInstruction::set_compute_unit_limit(257)),
        ]
    );
    assert_eq!(instructions[1].data, vec![3, 255, 255, 255, 255, 255, 255, 255, 255]);
    assert_eq!(instructions[2].data, vec![2, 1, 1, 0, 0]);
}

#[test]
fn a_simulated_limit_is_added_after_the_simulation() {
    let mut c = config();
    c.compute_unit_price = Some(4);
    c.compute_unit_limit = ComputeUnitLimit::Simulated;
    let mut instructions = vec![step(1)];
    assert!(add_compute_budget(&c, &mut instructions));
    assert_eq!(instructions.len(), 2);
    add_simulated_limit(&mut instructions, 1234);
    assert_eq!(
        instructions[2],
        plain(&ComputeBudgetInstruction::set_compute_unit_limit(1234))
    );
}

#[test]
fn a_message_is_that_of_the_sdk() {
    let outside = vec![
        solana_system_interface::instruction::create_account(&key(14), &key(5), 7, 8, &key(9)),
        spl_stake_pool::instruction::set_staker(&spl_stake_pool::id(), &key(40), &key(3), &key(4)),
    ];
    let expected = Message::new_with_blockhash(&outside, Some(&key(14)), &[77; 32].into());
    let message = compile_message(&config(), &all_plain(&outside), &[77; 32]).unwrap();
    assert_eq!(
        message.header,
        [
            expected.header.num_required_signatures,
            expected.header.num_readonly_signed_accounts,
            expected.header.num_readonly_unsigned_accounts,
        ]
    );
    let keys: Vec<[u8; 32]> = expected.account_keys.iter().map(|k| k.to_bytes()).collect();
    assert_eq!(message.account_keys, keys);
    assert_eq!(message.account_keys[0], [14; 32]);
    assert_eq!(message.blockhash, [77; 32]);
    assert_eq!(message.instructions.len(), 2);
    for (mine, theirs) in message.instructions.iter().zip(expected.instructions.iter()) {
        assert_eq!(mine.0, theirs.program_id_index);
        assert_eq!(mine.1, theirs.accounts);
        assert_eq!(mine.2, theirs.data);
    }
}

#[test]
fn planned_signers_are_those_that_the_message_requires() {
    let mut c = config();
    c.compute_unit_price = Some(1);
    let plan = command_set_staker(&c, &[40; 32], &[62; 32]);
    let signers = plan.signers;
    let mut instructions = plan.instructions;
    add_compute_budget(&c, &mut instructions);
    let message = compile_message(&c, &instructions, &[0; 32]).unwrap();
    let mut required = message.account_keys[..message.header[0] as usize].to_vec();
    required.sort();
    assert_eq!(signers, required);
}

fn wide(count: u16, signer: bool, writable: bool) -> Vec<Instruction> {
    let accounts = (0..count)
        .map(|n| {
            let mut address = [200u8; 32];
            address[0] = (n % 256) as u8;
            address[1] = (n / 256) as u8;
            AccountMeta(address, signer, writable)
        })
        .collect();
    vec![Instruction { program_id: [1; 32], accounts, data: vec![] }]
}

#[test]
fn a_message_counts_up_to_255_signers() {
    // The payer signs too.
    assert!(check_message_fits(&wide(254, true, false), &[14; 32]));
    assert!(!check_message_fits(&wide(255, true, false), &[14; 32]));
    assert_eq!(compile_message(&config(), &wide(255, true, true), &[0; 32]), None);
    assert!(compile_message(&config(), &wide(254, true, true), &[0; 32]).is_some());
}

#[test]
fn a_message_counts_up_to_255_accounts_that_are_only_read() {
    // The program is only read too.
    assert!(check_message_fits(&wide(254, false, false), &[14; 32]));
    assert!(!check_message_fits(&wide(255, false, false), &[14; 32]));
    assert!(check_message_fits(&wide(300, false, true), &[14; 32]));
}

#[test]
fn the_payer_needs_what_it_spends_and_the_fee() {
    assert_eq!(required_balance(2, 5000), 5002);
    assert_eq!(required_balance(u64::MAX, 1), u64::MAX);
    assert_eq!(check_fee_payer_balance(&config(), 10, 10), Ok(()));
    assert_eq!(
        check_fee_payer_balance(&config(), 9, 10),
        Err(CliError::InsufficientFeePayerBalance {
            fee_payer: [14; 32],
            required: 10,
            available: 9
        })
    );
}

#[test]
fn a_dry_run_sends_nothing() {
    let mut c = config();
    assert_eq!(delivery(&c, false), Delivery::Send);
    assert_eq!(delivery(&c, true), Delivery::SendAndConfirm);
    c.dry_run = true;
    assert_eq!(delivery(&c, false), Delivery::Simulate);
    assert_eq!(delivery(&c, true), Delivery::Simulate);
}

#[test]
fn lists_of_instructions_and_signers_grow_at_the_end() {
    let mut instructions = no_instructions();
    add_instruction(&mut instructions, step(1));
    append_instructions(&mut instructions, vec![step(2), step(3)]);
    assert_eq!(instructions, vec![step(1), step(2), step(3)]);
    let mut signers = signed_by([7; 32]);
    add_signer(&mut signers, [6; 32]);
    add_signer(&mut signers, [7; 32]);
    let plan = plan_transaction(instructions, &signers, 9);
    assert_eq!(plan.signers, vec![[6; 32], [7; 32]]);
    assert_eq!(plan.additional_fee, 9);
}
