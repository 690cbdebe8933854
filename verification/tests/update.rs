use solana_program::instruction::Instruction as OutsideInstruction;
use solana_program::pubkey::Pubkey;
use spl_stake_pool::state::{
    StakePool as OutsidePool, ValidatorList, ValidatorStakeInfo as OutsideEntry,
};
use stake_pool_cli::config::Config;
use stake_pool_cli::instruction::{AccountMeta, Instruction};
use stake_pool_cli::list::{check_lamports_fit, check_reserve_minimum_fits, command_list};
use stake_pool_cli::options::ComputeUnitLimit;
use stake_pool_cli::programs::ids::{CLOCK_SYSVAR, STAKE_HISTORY_SYSVAR, STAKE_PROGRAM};
use stake_pool_cli::state::{Fee, PoolValidators, StakePool, ValidatorStakeInfo};
use stake_pool_cli::update::{
    command_update, next_update_step, order_updates, updates_first, UpdateStep,
};
use std::num::NonZeroU32;

fn key(n: u8) -> Pubkey {
    Pubkey::from([n; 32])
}

fn plain(ix: &OutsideInstruction) -> Instruction {
    Instruction {
        program_id: ix.program_id.to_bytes(),
        accounts: ix
            .accounts
            .iter()
            .map(|m| AccountMeta(m.pubkey.to_bytes(), m.is_signer, m.is_writable))
            .collect(),
        data: ix.data.clone(),
    }
}

fn all_plain(ixs: &[OutsideInstruction]) -> Vec<Instruction> {
    ixs.iter().map(plain).collect()
}

fn config() -> Config {
    Config {
        stake_pool_program_id: spl_stake_pool::id().to_bytes(),
        manager: [11; 32],
        staker: [12; 32],
        funding_authority: None,
        token_owner: [13; 32],
        fee_payer: [14; 32],
        dry_run: false,
        no_update: false,
        compute_unit_price: None,
        compute_unit_limit: ComputeUnitLimit::Default,
    }
}

fn pool() -> StakePool {
    StakePool {
        manager: [11; 32],
        staker: [12; 32],
        stake_deposit_authority: [21; 32],
        validator_list: [22; 32],
        reserve_stake: [23; 32],
        pool_mint: [24; 32],
        manager_fee_account: [25; 32],
        token_program_id: spl_token::id().to_bytes(),
        total_lamports: 1000,
        pool_token_supply: 500,
        last_update_epoch: 5,
        preferred_withdraw_validator_vote_address: None,
        stake_withdrawal_fee: Fee { numerator: 0, denominator: 1 },
        sol_deposit_authority: None,
        sol_withdraw_authority: None,
    }
}

fn outside_pool() -> OutsidePool {
    OutsidePool {
        manager: key(11),
        staker: key(12),
        validator_list: key(22),
        reserve_stake: key(23),
        pool_mint: key(24),
        manager_fee_account: key(25),
        token_program_id: spl_token::id(),
        total_lamports: 1000,
        pool_token_supply: 500,
        last_update_epoch: 5,
        ..OutsidePool::default()
    }
}

fn entry(n: u8, epoch: u64) -> ValidatorStakeInfo {
    ValidatorStakeInfo {
        active_stake_lamports: 1000 + n as u64,
        transient_stake_lamports: 100 + n as u64,
        last_update_epoch: epoch,
        transient_seed_suffix: 2 * n as u64,
        validator_seed_suffix: n as u32,
        vote_account_address: [n; 32],
    }
}

fn outside_entry(v: &ValidatorStakeInfo) -> OutsideEntry {
    OutsideEntry {
        active_stake_lamports: v.active_stake_lamports.into(),
        transient_stake_lamports: v.transient_stake_lamports.into(),
        last_update_epoch: v.last_update_epoch.into(),
        transient_seed_suffix: v.transient_seed_suffix.into(),
        validator_seed_suffix: v.validator_seed_suffix.into(),
        vote_account_address: v.vote_account_address.into(),
        ..OutsideEntry::default()
    }
}

fn outside_list(entries: &[ValidatorStakeInfo]) -> ValidatorList {
    let mut list = ValidatorList::new(0);
    list.validators = entries.iter().map(outside_entry).collect();
    list
}

#[test]
fn updates_can_be_switched_off() {
    let mut c = config();
    assert!(updates_first(&c));
    c.no_update = true;
    assert!(!updates_first(&c));
    assert_eq!(next_update_step(&c, &None, true), UpdateStep::SwitchedOff);
    assert_eq!(next_update_step(&c, &Some((1, 2)), true), UpdateStep::SwitchedOff);
}

#[test]
fn a_pool_is_updated_once_an_epoch_unless_forced() {
    let c = config();
    assert_eq!(next_update_step(&c, &None, false), UpdateStep::Read);
    assert_eq!(next_update_step(&c, &Some((4, 5)), false), UpdateStep::Required);
    assert_eq!(next_update_step(&c, &Some((5, 5)), false), UpdateStep::NotRequired);
    assert_eq!(next_update_step(&c, &Some((5, 5)), true), UpdateStep::Forced);
    assert_eq!(next_update_step(&c, &Some((6, 5)), true), UpdateStep::Required);
}

#[test]
fn an_update_sends_the_entries_first_and_waits_for_the_last() {
    let entries: Vec<ValidatorStakeInfo> = (1..=9).map(|n| entry(n, 4)).collect();
    let (updates, rest) = spl_stake_pool::instruction::update_stake_pool(
        &spl_stake_pool::id(),
        &outside_pool(),
        &outside_list(&entries),
        &key(40),
        true,
    );
    assert_eq!(updates.len(), 3);
    assert_eq!(rest.len(), 2);
    let validators = PoolValidators { max_validators: 20, validators: entries };
    let sent = command_update(&config(), &pool(), &[40; 32], &validators, true, false, 5);
    assert_eq!(sent.len(), 4);
    for i in 0..3 {
        assert_eq!(sent[i].plan.instructions, vec![plain(&updates[i])]);
        assert_eq!(sent[i].plan.signers, vec![[14; 32]]);
        assert_eq!(sent[i].plan.additional_fee, 0);
        assert_eq!(sent[i].wait, i == 2);
    }
    assert_eq!(sent[3].plan.instructions, all_plain(&rest));
    assert_eq!(sent[3].plan.signers, vec![[14; 32]]);
    assert!(sent[3].wait);
}

#[test]
fn an_update_merges_unless_told_not_to() {
    let validators = PoolValidators { max_validators: 20, validators: vec![entry(1, 4)] };
    let merging = command_update(&config(), &pool(), &[40; 32], &validators, false, false, 5);
    let not_merging = command_update(&config(), &pool(), &[40; 32], &validators, true, false, 5);
    assert_ne!(merging, not_merging);
}

#[test]
fn a_stale_update_leaves_out_what_is_updated() {
    let mut entries: Vec<ValidatorStakeInfo> = (1..=8).map(|n| entry(n, 5)).collect();
    entries.push(entry(9, 4));
    let (updates, rest) = spl_stake_pool::instruction::update_stale_stake_pool(
        &spl_stake_pool::id(),
        &outside_pool(),
        &outside_list(&entries),
        &key(40),
        false,
        5,
    );
    assert_eq!(updates.len(), 1);
    let mut validators = PoolValidators { max_validators: 20, validators: entries };
    let sent = command_update(&config(), &pool(), &[40; 32], &validators, false, true, 5);
    assert_eq!(sent.len(), 2);
    assert_eq!(sent[0].plan.instructions, vec![plain(&updates[0])]);
    assert!(sent[0].wait);
    assert_eq!(sent[1].plan.instructions, all_plain(&rest));
    assert!(sent[1].wait);
    validators.validators.pop();
    let sent = command_update(&config(), &pool(), &[40; 32], &validators, false, true, 5);
    assert_eq!(sent.len(), 1);
    assert_eq!(sent[0].plan.instructions, all_plain(&rest));
}

#[test]
fn a_pool_without_validators_is_updated_in_one_transaction() {
    let validators = PoolValidators { max_validators: 20, validators: vec![] };
    let sent = command_update(&config(), &pool(), &[40; 32], &validators, false, false, 5);
    assert_eq!(sent.len(), 1);
    assert!(sent[0].wait);
}

#[test]
fn updates_are_put_into_transactions_in_their_order() {
    let step = |n: u8| Instruction { program_id: [n; 32], accounts: vec![], data: vec![n] };
    let sent = order_updates(&config(), vec![step(1), step(2)], vec![step(3), step(4)]);
    assert_eq!(sent.len(), 3);
    assert_eq!(sent[0].plan.instructions, vec![step(1)]);
    assert!(!sent[0].wait);
    assert_eq!(sent[1].plan.instructions, vec![step(2)]);
    assert!(sent[1].wait);
    assert_eq!(sent[2].plan.instructions, vec![step(3), step(4)]);
    assert!(sent[2].wait);
}

#[test]
fn a_listing_describes_every_validator() {
    let validators =
        PoolValidators { max_validators: 30, validators: vec![entry(1, 5), entry(0, 4)] };
    let details = command_list(&config(), &[40; 32], &pool(), &validators, 5, 900, 40);
    let program = spl_stake_pool::id();
    assert_eq!(
        details.withdraw_authority,
        spl_stake_pool::find_withdraw_authority_program_address(&program, &key(40)).0.to_bytes()
    );
    assert_eq!(details.reserve_stake_account_address, [23; 32]);
    assert_eq!(details.reserve_stake_lamports, 900);
    assert_eq!(
        details.minimum_reserve_stake_balance,
        40 + spl_stake_pool::MINIMUM_RESERVE_LAMPORTS
    );
    assert_eq!(details.total_lamports, 1000);
    assert_eq!(details.current_number_of_validators, 2);
    assert_eq!(details.max_number_of_validators, 30);
    assert!(!details.update_required);
    let first = details.stake_accounts[0];
    assert_eq!(first.vote_account_address, [1; 32]);
    assert_eq!(
        first.stake_account_address,
        spl_stake_pool::find_stake_program_address(
            &program,
            &key(1),
            &key(40),
            NonZeroU32::new(1)
        )
        .0
        .to_bytes()
    );
    assert_eq!(
        first.validator_transient_stake_account_address,
        spl_stake_pool::find_transient_stake_program_address(&program, &key(1), &key(40), 2)
            .0
            .to_bytes()
    );
    assert_eq!(first.validator_active_stake_lamports, 1001);
    assert_eq!(first.validator_transient_stake_lamports, 101);
    assert_eq!(first.validator_lamports, 1102);
    assert_eq!(first.validator_last_update_epoch, 5);
    assert!(!first.update_required);
    assert!(details.stake_accounts[1].update_required);
    assert!(command_list(&config(), &[40; 32], &pool(), &validators, 6, 900, 40).update_required);
}

#[test]
fn lamports_that_do_not_fit_are_found_beforehand() {
    let mut validators = PoolValidators { max_validators: 30, validators: vec![entry(1, 5)] };
    assert!(check_lamports_fit(&validators));
    validators.validators[0].active_stake_lamports = u64::MAX;
    assert!(!check_lamports_fit(&validators));
    validators.validators[0].transient_stake_lamports = 0;
    assert!(check_lamports_fit(&validators));
}

#[test]
fn the_instructions_of_an_update_are_written_account_by_account() {
    let entries: Vec<ValidatorStakeInfo> = (1..=5).map(|n| entry(n, 4)).collect();
    let validators = PoolValidators { max_validators: 20, validators: entries };
    let p = pool();
    let withdraw_authority =
        spl_stake_pool::find_withdraw_authority_program_address(&spl_stake_pool::id(), &key(40))
            .0
            .to_bytes();
    let readonly = |a: [u8; 32]| AccountMeta(a, false, false);
    let writable = |a: [u8; 32]| AccountMeta(a, false, true);
    let sent = command_update(&config(), &p, &[40; 32], &validators, true, false, 5);
    assert_eq!(sent.len(), 3);
    for (step, first, last, start) in [(0usize, 0usize, 4usize, 0u8), (1, 4, 5, 4)] {
        let mut accounts = vec![
            readonly([40; 32]),
            readonly(withdraw_authority),
            writable(p.validator_list),
            writable(p.reserve_stake),
            readonly(CLOCK_SYSVAR),
            readonly(STAKE_HISTORY_SYSVAR),
            readonly(STAKE_PROGRAM),
        ];
        for v in &validators.validators[first..last] {
            let vote = Pubkey::from(v.vote_account_address);
            accounts.push(writable(
                spl_stake_pool::find_stake_program_address(
                    &spl_stake_pool::id(),
                    &vote,
                    &key(40),
                    NonZeroU32::new(v.validator_seed_suffix),
                )
                .0
                .to_bytes(),
            ));
            accounts.push(writable(
                spl_stake_pool::find_transient_stake_program_address(
                    &spl_stake_pool::id(),
                    &vote,
                    &key(40),
                    v.transient_seed_suffix,
                )
                .0
                .to_bytes(),
            ));
        }
        assert_eq!(sent[step].plan.instructions[0].accounts, accounts);
        assert_eq!(sent[step].plan.instructions[0].data, vec![6, start, 0, 0, 0, 1]);
    }
    let rest = &sent[2].plan.instructions;
    assert_eq!(
        rest[0].accounts,
        vec![
            writable([40; 32]),
            readonly(withdraw_authority),
            writable(p.validator_list),
            readonly(p.reserve_stake),
            writable(p.manager_fee_account),
            writable(p.pool_mint),
            readonly(p.token_program_id),
        ]
    );
    assert_eq!(rest[0].data, vec![7]);
    assert_eq!(rest[1].accounts, vec![readonly([40; 32]), writable(p.validator_list)]);
    assert_eq!(rest[1].data, vec![8]);
}

#[test]
fn a_stale_update_names_every_stale_entry() {
    let epochs = [5u64, 5, 5, 5, 5, 4, 5, 5, 5, 5, 5, 5, 4];
    let entries: Vec<ValidatorStakeInfo> =
        epochs.iter().enumerate().map(|(i, e)| entry(i as u8 + 1, *e)).collect();
    let validators = PoolValidators { max_validators: 20, validators: entries };
    let sent = command_update(&config(), &pool(), &[40; 32], &validators, false, true, 5);
    assert_eq!(sent.len(), 3);
    assert_eq!(sent[0].plan.instructions[0].data, vec![6, 4, 0, 0, 0, 0]);
    assert_eq!(sent[1].plan.instructions[0].data, vec![6, 12, 0, 0, 0, 0]);
    assert_eq!(sent[0].plan.instructions[0].accounts.len(), 15);
    assert_eq!(sent[1].plan.instructions[0].accounts.len(), 9);
}

#[test]
fn a_minimum_of_the_reserve_that_does_not_fit_is_found_beforehand() {
    let most = u64::MAX - spl_stake_pool::MINIMUM_RESERVE_LAMPORTS;
    assert!(check_reserve_minimum_fits(most));
    if most < u64::MAX {
        assert!(!check_reserve_minimum_fits(most + 1));
    }
}
