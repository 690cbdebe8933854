use solana_program::instruction::Instruction as OutsideInstruction;
use solana_program::pubkey::Pubkey;
use spl_stake_pool::instruction as outside;
use spl_stake_pool::state::{Fee as OutsideFee, FeeType as OutsideFeeType, StakePool as OutsidePool};
use stake_pool_cli::config::Config;
use stake_pool_cli::error::CliError;
use stake_pool_cli::instruction::{AccountMeta, Instruction, TransactionPlan};
use stake_pool_cli::manage::{
    command_set_fee, command_set_funding_authority, command_set_manager, command_set_staker,
    create_token_metadata, update_token_metadata, FeeReceiver,
};
use stake_pool_cli::options::ComputeUnitLimit;
use stake_pool_cli::programs::ids::{
    CLOCK_SYSVAR, RENT_SYSVAR, STAKE_CONFIG, STAKE_HISTORY_SYSVAR, STAKE_PROGRAM, SYSTEM_PROGRAM,
    TOKEN_METADATA_PROGRAM,
};
use stake_pool_cli::state::{
    Fee, FeeType, FundingType, PoolValidators, PreferredValidatorType, StakePool,
    ValidatorStakeInfo,
};
use stake_pool_cli::validators::{
    command_decrease_validator_stake, command_increase_validator_stake,
    command_set_preferred_validator, command_vsa_add, command_vsa_remove,
    new_validator_stake_account, next_seed, vsa_add_needed, SeedStep,
};
use std::num::NonZeroU32;

fn key(n: u8) -> Pubkey {
    Pubkey::from([n; 32])
}

fn plain(ix: &OutsideInstruction) -> Instruction {
    Instruction {
        program_id: ix.program_id.to_bytes(),
        accounts: ix
            .accounts
            .iter()
            .map(|m| AccountMeta(m.pubkey.to_bytes(), m.is_signer, m.is_writable))
            .collect(),
        data: ix.data.clone(),
    }
}

fn all_plain(ixs: &[OutsideInstruction]) -> Vec<Instruction> {
    ixs.iter().map(plain).collect()
}

fn config() -> Config {
    Config {
        stake_pool_program_id: spl_stake_pool::id().to_bytes(),
        manager: [11; 32],
        staker: [12; 32],
        funding_authority: None,
        token_owner: [13; 32],
        fee_payer: [14; 32],
        dry_run: false,
        no_update: false,
        compute_unit_price: None,
        compute_unit_limit: ComputeUnitLimit::Default,
    }
}

fn pool() -> StakePool {
    StakePool {
        manager: [11; 32],
        staker: [12; 32],
        stake_deposit_authority: [21; 32],
        validator_list: [22; 32],
        reserve_stake: [23; 32],
        pool_mint: [24; 32],
        manager_fee_account: [25; 32],
        token_program_id: spl_token::id().to_bytes(),
        total_lamports: 1000,
        pool_token_supply: 500,
        last_update_epoch: 5,
        preferred_withdraw_validator_vote_address: None,
        stake_withdrawal_fee: Fee { numerator: 0, denominator: 1 },
        sol_deposit_authority: None,
        sol_withdraw_authority: None,
    }
}

fn outside_pool() -> OutsidePool {
    OutsidePool {
        manager: key(11),
        staker: key(12),
        validator_list: key(22),
        reserve_stake: key(23),
        pool_mint: key(24),
        manager_fee_account: key(25),
        token_program_id: spl_token::id(),
        total_lamports: 1000,
        pool_token_supply: 500,
        last_update_epoch: 5,
        ..OutsidePool::default()
    }
}

fn entry(n: u8, epoch: u64) -> ValidatorStakeInfo {
    ValidatorStakeInfo {
        active_stake_lamports: 1000 + n as u64,
        transient_stake_lamports: 100 + n as u64,
        last_update_epoch: epoch,
        transient_seed_suffix: 2 * n as u64,
        validator_seed_suffix: n as u32,
        vote_account_address: [n; 32],
    }
}

fn validators() -> PoolValidators {
    PoolValidators { max_validators: 9, validators: vec![entry(0, 1), entry(2, 1), entry(3, 1)] }
}

fn staker_plan(ix: OutsideInstruction) -> TransactionPlan {
    TransactionPlan {
        instructions: all_plain(&[ix]),
        signers: vec![[12; 32], [14; 32]],
        additional_fee: 0,
    }
}

fn manager_plan(ix: OutsideInstruction) -> TransactionPlan {
    TransactionPlan {
        instructions: all_plain(&[ix]),
        signers: vec![[11; 32], [14; 32]],
        additional_fee: 0,
    }
}

#[test]
fn a_validator_is_added_once() {
    assert!(!vsa_add_needed(&validators(), &[2; 32]));
    assert!(vsa_add_needed(&validators(), &[5; 32]));
}

#[test]
fn a_seed_is_used_if_its_account_is_free() {
    assert_eq!(next_seed(0, false), SeedStep::Use(0));
    assert_eq!(next_seed(0, true), SeedStep::Try(1));
    assert_eq!(next_seed(u32::MAX, false), SeedStep::Use(u32::MAX));
    assert_eq!(next_seed(u32::MAX - 1, true), SeedStep::Try(u32::MAX));
}

#[test]
fn the_least_seed_with_a_free_account_is_found() {
    let taken = [0u32, 1, 2, 4]
        .map(|seed| new_validator_stake_account(&config(), &[40; 32], &[5; 32], seed));
    let mut step = SeedStep::Try(0);
    let mut tried = vec![];
    while let SeedStep::Try(seed) = step {
        tried.push(seed);
        let account = new_validator_stake_account(&config(), &[40; 32], &[5; 32], seed);
        step = next_seed(seed, taken.contains(&account));
    }
    assert_eq!(step, SeedStep::Use(3));
    assert_eq!(tried, vec![0, 1, 2, 3]);
}

#[test]
fn the_instructions_on_validators_are_written_account_by_account() {
    let withdraw_authority =
        spl_stake_pool::find_withdraw_authority_program_address(&spl_stake_pool::id(), &key(40))
            .0
            .to_bytes();
    let stake = new_validator_stake_account(&config(), &[40; 32], &[2; 32], 2);
    let transient = spl_stake_pool::find_transient_stake_program_address(
        &spl_stake_pool::id(),
        &key(2),
        &key(40),
        4,
    )
    .0
    .to_bytes();
    let readonly = |a: [u8; 32]| AccountMeta(a, false, false);
    let writable = |a: [u8; 32]| AccountMeta(a, false, true);
    let list = pool().validator_list;
    let reserve = pool().reserve_stake;
    let staker = AccountMeta([12; 32], true, false);

    let add = command_vsa_add(&config(), &pool(), &[40; 32], &[2; 32], 2);
    assert_eq!(add.instructions[0].data, vec![1, 2, 0, 0, 0]);
    assert_eq!(
        add.instructions[0].accounts,
        vec![
            writable([40; 32]),
            staker,
            writable(reserve),
            readonly(withdraw_authority),
            writable(list),
            writable(stake),
            readonly([2; 32]),
            readonly(RENT_SYSVAR),
            readonly(CLOCK_SYSVAR),
            readonly(STAKE_HISTORY_SYSVAR),
            readonly(STAKE_CONFIG),
            readonly(SYSTEM_PROGRAM),
            readonly(STAKE_PROGRAM),
        ]
    );

    let remove =
        command_vsa_remove(&config(), &pool(), &[40; 32], &validators(), &[2; 32]).unwrap();
    assert_eq!(remove.plan.instructions[0].data, vec![2]);
    assert_eq!(
        remove.plan.instructions[0].accounts,
        vec![
            writable([40; 32]),
            staker,
            readonly(withdraw_authority),
            writable(list),
            writable(stake),
            writable(transient),
            readonly(CLOCK_SYSVAR),
            readonly(STAKE_PROGRAM),
        ]
    );

    let increase = command_increase_validator_stake(
        &config(), &pool(), &[40; 32], &validators(), &[2; 32], 258,
    )
    .unwrap();
    assert_eq!(
        increase.instructions[0].data,
        vec![4, 2, 1, 0, 0, 0, 0, 0, 0, 4, 0, 0, 0, 0, 0, 0, 0]
    );
    assert_eq!(
        increase.instructions[0].accounts,
        vec![
            readonly([40; 32]),
            staker,
            readonly(withdraw_authority),
            writable(list),
            writable(reserve),
            writable(transient),
            readonly(stake),
            readonly([2; 32]),
            readonly(CLOCK_SYSVAR),
            readonly(RENT_SYSVAR),
            readonly(STAKE_HISTORY_SYSVAR),
            readonly(STAKE_CONFIG),
            readonly(SYSTEM_PROGRAM),
            readonly(STAKE_PROGRAM),
        ]
    );

    let decrease = command_decrease_validator_stake(
        &config(), &pool(), &[40; 32], &validators(), &[2; 32], 258,
    )
    .unwrap();
    assert_eq!(
        decrease.instructions[0].data,
        vec![21, 2, 1, 0, 0, 0, 0, 0, 0, 4, 0, 0, 0, 0, 0, 0, 0]
    );
    assert_eq!(
        decrease.instructions[0].accounts,
        vec![
            readonly([40; 32]),
            staker,
            readonly(withdraw_authority),
            writable(list),
            writable(reserve),
            writable(stake),
            writable(transient),
            readonly(CLOCK_SYSVAR),
            readonly(STAKE_HISTORY_SYSVAR),
            readonly(SYSTEM_PROGRAM),
            readonly(STAKE_PROGRAM),
        ]
    );
}

#[test]
fn a_validator_is_added_with_its_seed() {
    for seed in [0u32, 6] {
        let expected = outside::add_validator_to_pool_with_vote(
            &spl_stake_pool::id(),
            &outside_pool(),
            &key(40),
            &key(5),
            NonZeroU32::new(seed),
        );
        assert_eq!(
            command_vsa_add(&config(), &pool(), &[40; 32], &[5; 32], seed),
            staker_plan(expected)
        );
        assert_eq!(
            new_validator_stake_account(&config(), &[40; 32], &[5; 32], seed),
            spl_stake_pool::find_stake_program_address(
                &spl_stake_pool::id(),
                &key(5),
                &key(40),
                NonZeroU32::new(seed)
            )
            .0
            .to_bytes()
        );
    }
}

#[test]
fn a_listed_validator_is_removed() {
    let removal =
        command_vsa_remove(&config(), &pool(), &[40; 32], &validators(), &[3; 32]).unwrap();
    let expected = outside::remove_validator_from_pool_with_vote(
        &spl_stake_pool::id(),
        &outside_pool(),
        &key(40),
        &key(3),
        NonZeroU32::new(3),
        6,
    );
    assert_eq!(removal.plan, staker_plan(expected));
    assert_eq!(
        removal.stake_account,
        spl_stake_pool::find_stake_program_address(
            &spl_stake_pool::id(),
            &key(3),
            &key(40),
            NonZeroU32::new(3)
        )
        .0
        .to_bytes()
    );
}

#[test]
fn the_stake_of_a_listed_validator_is_changed() {
    let seed = NonZeroU32::new(2);
    let increase = outside::increase_validator_stake_with_vote(
        &spl_stake_pool::id(),
        &outside_pool(),
        &key(40),
        &key(2),
        555,
        seed,
        4,
    );
    assert_eq!(
        command_increase_validator_stake(&config(), &pool(), &[40; 32], &validators(), &[2; 32], 555),
        Ok(staker_plan(increase))
    );
    let decrease = outside::decrease_validator_stake_with_vote(
        &spl_stake_pool::id(),
        &outside_pool(),
        &key(40),
        &key(2),
        555,
        seed,
        4,
    );
    assert_eq!(
        command_decrease_validator_stake(&config(), &pool(), &[40; 32], &validators(), &[2; 32], 555),
        Ok(staker_plan(decrease))
    );
}

#[test]
fn an_unlisted_validator_is_refused() {
    let error = CliError::VoteAccountNotListed;
    let v = validators();
    assert_eq!(command_vsa_remove(&config(), &pool(), &[40; 32], &v, &[9; 32]), Err(error));
    assert_eq!(
        command_increase_validator_stake(&config(), &pool(), &[40; 32], &v, &[9; 32], 1),
        Err(error)
    );
    assert_eq!(
        command_decrease_validator_stake(&config(), &pool(), &[40; 32], &v, &[9; 32], 1),
        Err(error)
    );
}

#[test]
fn the_first_entry_of_a_validator_counts() {
    let mut v = validators();
    let mut second = entry(3, 1);
    second.validator_seed_suffix = 77;
    v.validators.push(second);
    assert_eq!(v.find(&[3; 32]), Some(entry(3, 1)));
    assert_eq!(v.find(&[8; 32]), None);
    assert!(v.contains(&[0; 32]));
}

#[test]
fn a_validator_is_preferred() {
    let kinds = [
        (PreferredValidatorType::Deposit, outside::PreferredValidatorType::Deposit),
        (PreferredValidatorType::Withdraw, outside::PreferredValidatorType::Withdraw),
    ];
    for (kind, outside_kind) in kinds {
        for vote in [None, Some([5u8; 32])] {
            let expected = outside::set_preferred_validator(
                &spl_stake_pool::id(),
                &key(40),
                &key(12),
                &key(22),
                outside_kind.clone(),
                vote.map(Pubkey::from),
            );
            assert_eq!(
                command_set_preferred_validator(&config(), &pool(), &[40; 32], kind, &vote),
                staker_plan(expected)
            );
        }
    }
}

#[test]
fn the_instruction_of_a_preference_is_written_byte_by_byte() {
    let plan = command_set_preferred_validator(
        &config(),
        &pool(),
        &[40; 32],
        PreferredValidatorType::Withdraw,
        &None,
    );
    assert_eq!(plan.instructions[0].data, vec![5, 1, 0]);
    assert_eq!(
        plan.instructions[0].accounts,
        vec![
            AccountMeta([40; 32], false, true),
            AccountMeta([12; 32], true, false),
            AccountMeta([22; 32], false, false),
        ]
    );
}

#[test]
fn a_new_manager_signs() {
    let expected = outside::set_manager(
        &spl_stake_pool::id(),
        &key(40),
        &key(11),
        &key(60),
        &key(25),
    );
    let plan =
        command_set_manager(&config(), &pool(), &[40; 32], &Some([60; 32]), &None).unwrap();
    assert_eq!(plan.instructions, all_plain(&[expected]));
    assert_eq!(plan.instructions[0].data, vec![11]);
    assert_eq!(plan.signers, vec![[11; 32], [14; 32], [60; 32]]);
}

#[test]
fn a_new_fee_receiver_holds_tokens_of_the_pool() {
    let receiver = FeeReceiver { account: [61; 32], mint: [24; 32] };
    let expected = outside::set_manager(
        &spl_stake_pool::id(),
        &key(40),
        &key(11),
        &key(11),
        &key(61),
    );
    assert_eq!(
        command_set_manager(&config(), &pool(), &[40; 32], &None, &Some(receiver)),
        Ok(manager_plan(expected))
    );
    let other = FeeReceiver { account: [61; 32], mint: [99; 32] };
    assert_eq!(
        command_set_manager(&config(), &pool(), &[40; 32], &None, &Some(other)),
        Err(CliError::WrongFeeReceiverMint)
    );
}

#[test]
fn a_new_staker_is_set() {
    let expected =
        outside::set_staker(&spl_stake_pool::id(), &key(40), &key(11), &key(62));
    let plan = command_set_staker(&config(), &[40; 32], &[62; 32]);
    assert_eq!(plan, manager_plan(expected));
    assert_eq!(plan.instructions[0].data, vec![13]);
}

#[test]
fn funding_authorities_are_set_and_unset() {
    let kinds = [
        (FundingType::StakeDeposit, outside::FundingType::StakeDeposit, 0u8),
        (FundingType::SolDeposit, outside::FundingType::SolDeposit, 1),
        (FundingType::SolWithdraw, outside::FundingType::SolWithdraw, 2),
    ];
    for (kind, outside_kind, tag) in kinds {
        for authority in [None, Some([63u8; 32])] {
            let expected = outside::set_funding_authority(
                &spl_stake_pool::id(),
                &key(40),
                &key(11),
                authority.map(Pubkey::from).as_ref(),
                outside_kind.clone(),
            );
            let plan = command_set_funding_authority(&config(), &[40; 32], &authority, kind);
            assert_eq!(plan, manager_plan(expected));
            assert_eq!(plan.instructions[0].data, vec![15, tag]);
        }
    }
}

#[test]
fn every_fee_is_set() {
    let rate = Fee { numerator: 3, denominator: 1000 };
    let outside_rate = OutsideFee { numerator: 3, denominator: 1000 };
    let fees = [
        (FeeType::SolReferral(9), OutsideFeeType::SolReferral(9)),
        (FeeType::StakeReferral(8), OutsideFeeType::StakeReferral(8)),
        (FeeType::Epoch(rate), OutsideFeeType::Epoch(outside_rate)),
        (FeeType::StakeWithdrawal(rate), OutsideFeeType::StakeWithdrawal(outside_rate)),
        (FeeType::SolDeposit(rate), OutsideFeeType::SolDeposit(outside_rate)),
        (FeeType::StakeDeposit(rate), OutsideFeeType::StakeDeposit(outside_rate)),
        (FeeType::SolWithdrawal(rate), OutsideFeeType::SolWithdrawal(outside_rate)),
    ];
    for (fee, outside_fee) in fees {
        let expected =
            outside::set_fee(&spl_stake_pool::id(), &key(40), &key(11), outside_fee);
        assert_eq!(command_set_fee(&config(), &[40; 32], fee), manager_plan(expected));
    }
}

#[test]
fn the_instruction_of_a_fee_is_written_byte_by_byte() {
    let plan = command_set_fee(&config(), &[40; 32], FeeType::SolReferral(9));
    assert_eq!(plan.instructions[0].data, vec![12, 0, 9]);
    let rate = Fee { numerator: 3, denominator: 258 };
    let plan = command_set_fee(&config(), &[40; 32], FeeType::StakeDeposit(rate));
    assert_eq!(
        plan.instructions[0].data,
        vec![12, 5, 2, 1, 0, 0, 0, 0, 0, 0, 3, 0, 0, 0, 0, 0, 0, 0]
    );
}

#[test]
fn token_metadata_is_created_and_updated() {
    let word = |s: &str| s.to_string();
    let created = outside::create_token_metadata(
        &spl_stake_pool::id(),
        &key(40),
        &key(11),
        &key(24),
        &key(14),
        word("Pool"),
        word("PL"),
        word("https://example.com"),
    );
    assert_eq!(
        create_token_metadata(
            &config(),
            &pool(),
            &[40; 32],
            word("Pool"),
            word("PL"),
            word("https://example.com")
        ),
        manager_plan(created)
    );
    let updated = outside::update_token_metadata(
        &spl_stake_pool::id(),
        &key(40),
        &key(11),
        &key(24),
        word("Pool"),
        word("PL"),
        word("https://example.com"),
    );
    assert_eq!(
        update_token_metadata(
            &config(),
            &pool(),
            &[40; 32],
            word("Pool"),
            word("PL"),
            word("https://example.com")
        ),
        manager_plan(updated)
    );
}

#[test]
fn the_instructions_on_metadata_are_written_account_by_account() {
    let withdraw_authority =
        spl_stake_pool::find_withdraw_authority_program_address(&spl_stake_pool::id(), &key(40))
            .0
            .to_bytes();
    let metadata =
        spl_stake_pool::inline_mpl_token_metadata::pda::find_metadata_account(&key(24)).0.to_bytes();
    let readonly = |a: [u8; 32]| AccountMeta(a, false, false);
    let words = || ("P\u{e9}".to_string(), "PL".to_string(), String::new());
    let texts = [3u8, 0, 0, 0, 80, 195, 169, 2, 0, 0, 0, 80, 76, 0, 0, 0, 0];

    let (name, symbol, uri) = words();
    let created = create_token_metadata(&config(), &pool(), &[40; 32], name, symbol, uri);
    assert_eq!(
        created.instructions[0].accounts,
        vec![
            readonly([40; 32]),
            AccountMeta([11; 32], true, false),
            readonly(withdraw_authority),
            readonly([24; 32]),
            AccountMeta([14; 32], true, true),
            AccountMeta(metadata, false, true),
            readonly(TOKEN_METADATA_PROGRAM),
            readonly(SYSTEM_PROGRAM),
        ]
    );
    assert_eq!(created.instructions[0].data[0], 17);
    assert_eq!(created.instructions[0].data[1..], texts);

    let (name, symbol, uri) = words();
    let updated = update_token_metadata(&config(), &pool(), &[40; 32], name, symbol, uri);
    assert_eq!(
        updated.instructions[0].accounts,
        vec![
            readonly([40; 32]),
            AccountMeta([11; 32], true, false),
            readonly(withdraw_authority),
            AccountMeta(metadata, false, true),
            readonly(TOKEN_METADATA_PROGRAM),
        ]
    );
    assert_eq!(updated.instructions[0].data[0], 18);
    assert_eq!(updated.instructions[0].data[1..], texts);
}
