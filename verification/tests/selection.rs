use spl_stake_pool::{find_stake_program_address, find_transient_stake_program_address};
use stake_pool_cli::config::Config;
use stake_pool_cli::error::CliError;
use stake_pool_cli::options::ComputeUnitLimit;
use stake_pool_cli::ranking::{sorted_accounts, StakeSource};
use stake_pool_cli::selection::{
    available_for_withdrawal, can_prepare_withdraw_accounts, check_reserve_holds_minimum,
    eligible_sources, minimum_balance, prepare_withdraw_accounts, skips_withdrawal_fee, withdrawal_sources, WithdrawAccount,
};
use stake_pool_cli::state::{Fee, PoolValidators, StakePool, ValidatorStakeInfo};
use std::num::NonZeroU32;

fn config() -> Config {
    Config {
        stake_pool_program_id: spl_stake_pool::id().to_bytes(),
        manager: [11; 32],
        staker: [12; 32],
        funding_authority: None,
        token_owner: [13; 32],
        fee_payer: [14; 32],
        dry_run: false,
        no_update: false,
        compute_unit_price: None,
        compute_unit_limit: ComputeUnitLimit::Default,
    }
}

fn pool() -> StakePool {
    StakePool {
        manager: [11; 32],
        staker: [12; 32],
        stake_deposit_authority: [21; 32],
        validator_list: [22; 32],
        reserve_stake: [23; 32],
        pool_mint: [24; 32],
        manager_fee_account: [25; 32],
        token_program_id: spl_token::id().to_bytes(),
        total_lamports: 1000,
        pool_token_supply: 1000,
        last_update_epoch: 5,
        preferred_withdraw_validator_vote_address: None,
        stake_withdrawal_fee: Fee { numerator: 0, denominator: 1 },
        sol_deposit_authority: None,
        sol_withdraw_authority: None,
    }
}

fn source(n: u8, lamports: u64) -> StakeSource {
    StakeSource { stake_address: [n; 32], lamports, vote_address: Some([n; 32]) }
}

fn entry(n: u8, active: u64, transient: u64) -> ValidatorStakeInfo {
    ValidatorStakeInfo {
        active_stake_lamports: active,
        transient_stake_lamports: transient,
        last_update_epoch: 5,
        transient_seed_suffix: 3,
        validator_seed_suffix: n as u32,
        vote_account_address: [n; 32],
    }
}

#[test]
fn larger_sources_come_first() {
    let listed = vec![source(1, 10), source(2, 30), source(3, 20)];
    assert_eq!(
        sorted_accounts(&listed, &None),
        vec![source(2, 30), source(3, 20), source(1, 10)]
    );
}

#[test]
fn the_preferred_validator_comes_first() {
    let listed = vec![source(1, 10), source(2, 30), source(3, 20)];
    assert_eq!(
        sorted_accounts(&listed, &Some([1; 32])),
        vec![source(1, 10), source(2, 30), source(3, 20)]
    );
    assert_eq!(
        sorted_accounts(&listed, &Some([9; 32])),
        vec![source(2, 30), source(3, 20), source(1, 10)]
    );
}

#[test]
fn sources_of_one_rank_keep_their_order() {
    let listed = vec![source(4, 10), source(2, 10), source(3, 20), source(1, 10)];
    assert_eq!(
        sorted_accounts(&listed, &None),
        vec![source(3, 20), source(4, 10), source(2, 10), source(1, 10)]
    );
    assert_eq!(sorted_accounts(&vec![], &None), vec![]);
}

#[test]
fn a_stake_account_keeps_its_rent_and_the_minimum_delegation() {
    assert_eq!(minimum_balance(2_282_880, 1), 2_282_880 + 1_000_000);
    assert_eq!(minimum_balance(10, 1_000_000_000), 1_000_000_010);
    assert_eq!(minimum_balance(u64::MAX, 1), u64::MAX);
    assert_eq!(
        minimum_balance(0, 5),
        spl_stake_pool::minimum_delegation(5)
    );
}

#[test]
fn sources_are_active_stakes_then_transient_ones_then_the_reserve() {
    let validators = PoolValidators {
        max_validators: 10,
        validators: vec![entry(1, 10, 100), entry(2, 30, 5), entry(0, 20, 50)],
    };
    let program = spl_stake_pool::id();
    let address = |n: u8, seed: u32| {
        find_stake_program_address(&program, &[n; 32].into(), &[40; 32].into(), NonZeroU32::new(seed))
            .0
            .to_bytes()
    };
    let transient = |n: u8| {
        find_transient_stake_program_address(&program, &[n; 32].into(), &[40; 32].into(), 3)
            .0
            .to_bytes()
    };
    let at = |stake_address: [u8; 32], lamports: u64, vote_address: Option<[u8; 32]>| StakeSource {
        stake_address,
        lamports,
        vote_address,
    };
    let sources = withdrawal_sources(&config(), &[40; 32], &pool(), &validators, 500, 7, 8);
    assert_eq!(
        sources,
        vec![
            at(address(2, 2), 30, Some([2; 32])),
            at(address(0, 0), 20, Some([0; 32])),
            at(address(1, 1), 10, Some([1; 32])),
            at(transient(1), 92, Some([1; 32])),
            at(transient(0), 42, Some([0; 32])),
            at(transient(2), 0, Some([2; 32])),
            at([23; 32], 493, None),
        ]
    );
    assert_ne!(address(1, 1), [1; 32]);
}

#[test]
fn sources_that_hold_no_more_than_they_keep_are_left_out() {
    let listed = vec![source(1, 10), source(2, 11), source(3, 12)];
    assert_eq!(eligible_sources(&listed, 11), vec![source(3, 12)]);
}

#[test]
fn the_fee_is_added_to_what_may_be_withdrawn() {
    let mut p = pool();
    p.stake_withdrawal_fee = Fee { numerator: 1, denominator: 10 };
    assert_eq!(available_for_withdrawal(&p, false, 90), Some(100));
    assert_eq!(available_for_withdrawal(&p, true, 90), Some(90));
    p.stake_withdrawal_fee = Fee { numerator: 10, denominator: 10 };
    assert_eq!(available_for_withdrawal(&p, false, 90), None);
    assert_eq!(available_for_withdrawal(&p, true, 90), Some(90));
    p.stake_withdrawal_fee = Fee { numerator: 0, denominator: u64::MAX };
    assert_eq!(available_for_withdrawal(&p, false, 2), None);
}

#[test]
fn lamports_are_worth_their_share_of_the_supply() {
    let mut p = pool();
    p.total_lamports = 2000;
    assert_eq!(available_for_withdrawal(&p, true, 91), Some(45));
    p.total_lamports = 0;
    assert_eq!(available_for_withdrawal(&p, true, 91), Some(91));
    p.total_lamports = 1;
    p.pool_token_supply = u64::MAX;
    assert_eq!(available_for_withdrawal(&p, true, 2), None);
}

#[test]
fn accounts_are_drained_until_the_amount_is_reached() {
    let sources = vec![source(1, 100), source(2, 60), source(3, 5), source(4, 40)];
    let accounts = prepare_withdraw_accounts(&pool(), true, &sources, 5, 170, 9).unwrap();
    assert_eq!(
        accounts,
        vec![
            WithdrawAccount { stake_address: [1; 32], vote_address: Some([1; 32]), pool_amount: 100 },
            WithdrawAccount { stake_address: [2; 32], vote_address: Some([2; 32]), pool_amount: 60 },
            WithdrawAccount { stake_address: [4; 32], vote_address: Some([4; 32]), pool_amount: 10 },
        ]
    );
    let sum: u64 = accounts.iter().map(|a| a.pool_amount).sum();
    assert_eq!(sum, 170);
}

#[test]
fn an_amount_that_one_account_covers_draws_on_it_alone() {
    let sources = vec![source(1, 100), source(2, 60)];
    let accounts = prepare_withdraw_accounts(&pool(), true, &sources, 0, 100, 9).unwrap();
    assert_eq!(accounts.len(), 1);
    assert_eq!(accounts[0].pool_amount, 100);
}

#[test]
fn an_amount_of_zero_draws_on_the_first_account() {
    let sources = vec![source(1, 100), source(2, 60)];
    let accounts = prepare_withdraw_accounts(&pool(), true, &sources, 0, 0, 9).unwrap();
    assert_eq!(
        accounts,
        vec![WithdrawAccount { stake_address: [1; 32], vote_address: Some([1; 32]), pool_amount: 0 }]
    );
    assert_eq!(prepare_withdraw_accounts(&pool(), true, &sources, 100, 0, 9), Ok(vec![]));
}

#[test]
fn an_amount_beyond_all_accounts_is_refused() {
    let sources = vec![source(1, 100), source(2, 60)];
    assert_eq!(
        prepare_withdraw_accounts(&pool(), true, &sources, 0, 161, 9),
        Err(CliError::NoStakeAccounts { pool_amount: 161, decimals: 9 })
    );
    assert!(prepare_withdraw_accounts(&pool(), true, &sources, 0, 160, 9).is_ok());
}

#[test]
fn amounts_that_overflow_are_found_beforehand() {
    let sources = vec![source(1, 100), source(2, 60)];
    let mut p = pool();
    assert!(can_prepare_withdraw_accounts(&p, false, &sources, 0, 160));
    p.stake_withdrawal_fee = Fee { numerator: 2, denominator: 1 };
    assert!(!can_prepare_withdraw_accounts(&p, true, &sources, 0, 1));
    p.stake_withdrawal_fee = Fee { numerator: 1, denominator: 1 };
    assert!(can_prepare_withdraw_accounts(&p, true, &sources, 0, 1));
    assert!(!can_prepare_withdraw_accounts(&p, false, &sources, 0, 0));
    assert!(can_prepare_withdraw_accounts(&p, false, &sources, 100, 1));
    // The first account covers the amount, so the second is not come to.
    let sources = vec![source(1, 1), source(2, u64::MAX)];
    p.stake_withdrawal_fee = Fee { numerator: 0, denominator: 2 };
    assert!(can_prepare_withdraw_accounts(&p, false, &sources, 0, 1));
    assert!(!can_prepare_withdraw_accounts(&p, false, &sources, 0, 2));
}

#[test]
fn what_the_fee_leaves_is_no_more_than_the_worth() {
    let mut p = pool();
    p.stake_withdrawal_fee = Fee { numerator: 3, denominator: 7 };
    for lamports in [1u64, 2, 10, 99, 1000] {
        let withdrawn = available_for_withdrawal(&p, false, lamports).unwrap();
        let worth = available_for_withdrawal(&p, true, lamports).unwrap();
        assert!(withdrawn * 4 / 7 <= worth);
    }
}

#[test]
fn the_account_that_receives_the_fees_pays_none() {
    assert!(skips_withdrawal_fee(&pool(), &[25; 32]));
    assert!(!skips_withdrawal_fee(&pool(), &[26; 32]));
}

#[test]
fn a_ranking_holds_what_is_ranked_and_is_its_own_ranking() {
    let listed = vec![source(4, 10), source(2, 10), source(3, 20), source(1, 10)];
    for preferred in [None, Some([2u8; 32])] {
        let ranked = sorted_accounts(&listed, &preferred);
        assert_eq!(ranked.len(), listed.len());
        assert!(listed.iter().all(|s| ranked.contains(s)));
        assert_eq!(sorted_accounts(&ranked, &preferred), ranked);
    }
}

#[test]
fn a_withdrawal_draws_on_active_stake_before_transient_stake_and_the_reserve() {
    let validators = PoolValidators {
        max_validators: 10,
        validators: vec![entry(1, 100, 5000), entry(2, 300, 0)],
    };
    let sources = withdrawal_sources(&config(), &[40; 32], &pool(), &validators, 9000, 10, 20);
    let accounts = prepare_withdraw_accounts(&pool(), true, &sources, 20, 5390, 9).unwrap();
    let amounts: Vec<u64> = accounts.iter().map(|a| a.pool_amount).collect();
    assert_eq!(amounts, vec![300, 100, 4980, 10]);
    assert_eq!(accounts[0].vote_address, Some([2; 32]));
    assert_eq!(accounts[1].vote_address, Some([1; 32]));
    assert_eq!(accounts[2].vote_address, Some([1; 32]));
    assert_eq!(accounts[3].stake_address, [23; 32]);
    assert_eq!(
        prepare_withdraw_accounts(&pool(), true, &sources, 20, 5390, 9),
        Ok(accounts)
    );
}

#[test]
fn a_smaller_amount_draws_on_a_prefix() {
    let sources = vec![source(1, 100), source(2, 80), source(3, 60)];
    let larger = prepare_withdraw_accounts(&pool(), true, &sources, 0, 120, 9).unwrap();
    for amount in 0..=120 {
        let smaller = prepare_withdraw_accounts(&pool(), true, &sources, 0, amount, 9).unwrap();
        assert!(smaller.len() <= larger.len());
        for (i, account) in smaller.iter().enumerate() {
            assert_eq!(account.stake_address, larger[i].stake_address);
            assert!(account.pool_amount <= larger[i].pool_amount);
            if i + 1 < smaller.len() {
                assert_eq!(account, &larger[i]);
            }
        }
    }
}

#[test]
fn a_reserve_below_its_minimum_is_found_beforehand() {
    let minimum = 10 + spl_stake_pool::MINIMUM_RESERVE_LAMPORTS;
    assert!(check_reserve_holds_minimum(minimum, 10));
    assert!(!check_reserve_holds_minimum(minimum - 1, 10));
    assert!(!check_reserve_holds_minimum(0, 10));
}
