//! What the stake pool program's crate computes: conversions between lamports and
//! pool tokens, minimums, sizes and program addresses.
use vstd::prelude::*;

use solana_program::borsh1::{get_instance_packed_len, get_packed_len};
use spl_stake_pool::state as pool_state;

use crate::address::Address;
use crate::programs::ids::{STAKE_POOL_DEVNET_PROGRAM, STAKE_POOL_PROGRAM};

verus! {

/// The lamports that a pool's reserve holds besides its rent.
pub const MINIMUM_RESERVE_LAMPORTS: u64 = 0;

/// The least lamports that a pool delegates, whatever the stake program asks for.
pub const MINIMUM_ACTIVE_STAKE: u64 = 1_000_000;

/// The bytes of a stake pool account.
pub const STAKE_POOL_LEN: usize = 611;

/// Reads `spl_stake_pool::MINIMUM_RESERVE_LAMPORTS`.
#[verifier::external_body]
pub(crate) fn minimum_reserve_lamports() -> (r: u64)
    ensures
        r == MINIMUM_RESERVE_LAMPORTS,
{
    spl_stake_pool::MINIMUM_RESERVE_LAMPORTS
}

/// The larger of the pool's own minimum and the stake program's.
pub open spec fn pool_minimum_delegation(stake_minimum_delegation: u64) -> u64 {
    if stake_minimum_delegation >= MINIMUM_ACTIVE_STAKE {
        stake_minimum_delegation
    } else {
        MINIMUM_ACTIVE_STAKE
    }
}

/// Calls `spl_stake_pool::minimum_delegation`.
#[verifier::external_body]
pub(crate) fn minimum_delegation(stake_minimum_delegation: u64) -> (r: u64)
    ensures
        r == pool_minimum_delegation(stake_minimum_delegation),
{
    spl_stake_pool::minimum_delegation(stake_minimum_delegation)
}

/// The pool tokens that lamports are worth on a deposit: as many as lamports where
/// the pool is empty, else their share of the supply, rounded down. There are none
/// where that does not fit 64 bits.
pub open spec fn tokens_of_lamports(
    total_lamports: u64,
    pool_token_supply: u64,
    lamports: u64,
) -> Option<u64> {
    if total_lamports == 0 || pool_token_supply == 0 {
        Some(lamports)
    } else {
        let tokens = (lamports * pool_token_supply) / (total_lamports as int);
        if tokens <= u64::MAX {
            Some(tokens as u64)
        } else {
            None
        }
    }
}

/// Calls `StakePool::calc_pool_tokens_for_deposit`, which reads the total of
/// lamports and the supply of tokens and no other part of the pool.
#[verifier::external_body]
pub(crate) fn calc_pool_tokens_for_deposit(
    total_lamports: u64,
    pool_token_supply: u64,
    lamports: u64,
) -> (r: Option<u64>)
    ensures
        r == tokens_of_lamports(total_lamports, pool_token_supply, lamports),
{
    let pool = pool_state::StakePool { total_lamports, pool_token_supply, ..Default::default() };
    pool.calc_pool_tokens_for_deposit(lamports)
}

/// The lamports that pool tokens are worth on a withdrawal: none where the pool has
/// no tokens, else their share of the total, rounded down. There are none to give
/// where that does not fit 64 bits.
pub open spec fn lamports_of_tokens(
    total_lamports: u64,
    pool_token_supply: u64,
    pool_tokens: u64,
) -> Option<u64> {
    if pool_token_supply == 0 {
        Some(0)
    } else {
        let lamports = (pool_tokens * total_lamports) / (pool_token_supply as int);
        if lamports <= u64::MAX {
            Some(lamports as u64)
        } else {
            None
        }
    }
}

/// Calls `StakePool::calc_lamports_withdraw_amount`, which reads the total of
/// lamports and the supply of tokens and no other part of the pool.
#[verifier::external_body]
pub(crate) fn calc_lamports_withdraw_amount(
    total_lamports: u64,
    pool_token_supply: u64,
    pool_tokens: u64,
) -> (r: Option<u64>)
    ensures
        r == lamports_of_tokens(total_lamports, pool_token_supply, pool_tokens),
{
    let pool = pool_state::StakePool { total_lamports, pool_token_supply, ..Default::default() };
    pool.calc_lamports_withdraw_amount(pool_tokens)
}

/// Calls `get_packed_len` for a `spl_stake_pool::state::StakePool`: the most bytes
/// that a pool takes when it is written.
#[verifier::external_body]
pub(crate) fn stake_pool_len() -> (r: usize)
    ensures
        r == STAKE_POOL_LEN,
{
    get_packed_len::<pool_state::StakePool>()
}

/// The bytes of a list with room for that many validators: a tag of one byte, the
/// maximum, the number of entries, and the entries of 73 bytes each.
pub open spec fn validator_list_len_for(max_validators: u32) -> int {
    9 + 73 * max_validators
}

/// Calls `get_instance_packed_len` for `ValidatorList::new`, which holds as many
/// default entries as there may be validators. Writing it cannot fail.
#[verifier::external_body]
pub(crate) fn validator_list_len(max_validators: u32) -> (r: Option<usize>)
    requires
        validator_list_len_for(max_validators) <= isize::MAX,
    ensures
        r == Some(validator_list_len_for(max_validators) as usize),
{
    get_instance_packed_len(&pool_state::ValidatorList::new(max_validators)).ok()
}

/// Calls `spl_stake_pool::id`, the address of the program on the main cluster.
#[verifier::external_body]
pub(crate) fn stake_pool_program_id() -> (r: Address)
    ensures
        r == STAKE_POOL_PROGRAM,
{
    spl_stake_pool::id().to_bytes()
}

/// Calls `spl_stake_pool::devnet::id`, the address of the program on the
/// development cluster.
#[verifier::external_body]
pub(crate) fn stake_pool_devnet_program_id() -> (r: Address)
    ensures
        r == STAKE_POOL_DEVNET_PROGRAM,
{
    spl_stake_pool::devnet::id().to_bytes()
}

/// What a deposit of lamports is worth in pool tokens is worth no more than those lamports
/// on a withdrawal.
pub proof fn law_deposit_is_worth_no_more(
    total_lamports: u64,
    pool_token_supply: u64,
    lamports: u64,
    tokens: u64,
    back: u64,
)
    requires
        tokens_of_lamports(total_lamports, pool_token_supply, lamports) == Some(tokens),
        lamports_of_tokens(total_lamports, pool_token_supply, tokens) == Some(back),
    ensures
        back <= lamports,
{
    if pool_token_supply > 0 && total_lamports > 0 {
        let total = total_lamports as int;
        let supply = pool_token_supply as int;
        assert(tokens * total <= lamports * supply) by (nonlinear_arith)
            requires
                total > 0,
                tokens == (lamports * supply) / total,
        ;
        assert(back <= lamports) by (nonlinear_arith)
            requires
                supply > 0,
                back == (tokens * total) / supply,
                tokens * total <= lamports * supply,
        ;
    }
}

/// The pool tokens that lamports are worth are their share of the supply, rounded down: no more
/// than that share, and less than one below it. In an empty pool they are as many.
pub proof fn law_tokens_are_the_share_of_the_supply(
    total_lamports: u64,
    pool_token_supply: u64,
    lamports: u64,
    tokens: u64,
)
    requires
        tokens_of_lamports(total_lamports, pool_token_supply, lamports) == Some(tokens),
    ensures
        total_lamports == 0 || pool_token_supply == 0 ==> tokens == lamports,
        total_lamports > 0 && pool_token_supply > 0 ==> tokens * total_lamports <= lamports
            * pool_token_supply < (tokens + 1) * total_lamports,
{
    if total_lamports > 0 && pool_token_supply > 0 {
        let product = lamports * pool_token_supply;
        let total = total_lamports as int;
        assert(tokens * total <= product < (tokens + 1) * total) by (nonlinear_arith)
            requires
                total > 0,
                tokens == product / total,
        ;
    }
}

} // verus!
