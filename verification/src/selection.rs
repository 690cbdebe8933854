//! Which stake accounts of a pool a withdrawal draws on, and how much from each.
use vstd::prelude::*;

use crate::address::{same_address, Address};
use crate::config::Config;
use crate::error::CliError;
use crate::programs::pool::{
    find_transient_stake, find_validator_stake, transient_stake_address, validator_stake_address,
};
use crate::programs::pool_amounts::{
    calc_pool_tokens_for_deposit, minimum_delegation, minimum_reserve_lamports,
    pool_minimum_delegation, tokens_of_lamports, MINIMUM_RESERVE_LAMPORTS,
};
use crate::ranking::{
    in_rank_order, is_ranking, law_ranking_permutes, ranks_before, sorted_accounts, StakeSource,
};
use crate::state::{PoolValidators, StakePool, ValidatorStakeInfo};

verus! {

/// A stake account that a withdrawal draws on, with the pool tokens that are
/// withdrawn from it.
#[derive(Clone, Copy, PartialEq, Eq, Debug)]
pub struct WithdrawAccount {
    pub stake_address: Address,
    pub vote_address: Option<Address>,
    pub pool_amount: u64,
}

/// The lamports that a stake account keeps: its rent and the least that a pool
/// delegates.
pub open spec fn kept_lamports(rent: u64, stake_minimum_delegation: u64) -> u64 {
    let sum = rent + pool_minimum_delegation(stake_minimum_delegation);
    if sum <= u64::MAX {
        sum as u64
    } else {
        u64::MAX
    }
}

/// The lamports that a stake account keeps.
pub fn minimum_balance(rent: u64, stake_minimum_delegation: u64) -> (r: u64)
    ensures
        r == kept_lamports(rent, stake_minimum_delegation),
{
    rent.saturating_add(minimum_delegation(stake_minimum_delegation))
}

/// The stake account of a validator in a pool, with the active stake in it.
pub open spec fn active_source(
    program_id: Address,
    pool_address: Address,
    entry: ValidatorStakeInfo,
) -> StakeSource {
    StakeSource {
        stake_address: validator_stake_address(
            program_id@,
            entry.vote_account_address@,
            pool_address@,
            entry.validator_seed_suffix,
        ),
        lamports: entry.active_stake_lamports,
        vote_address: Some(entry.vote_account_address),
    }
}

/// The transient stake account of a validator in a pool, with the stake that it
/// does not have to keep.
pub open spec fn transient_source(
    program_id: Address,
    pool_address: Address,
    min_balance: u64,
    entry: ValidatorStakeInfo,
) -> StakeSource {
    StakeSource {
        stake_address: transient_stake_address(
            program_id@,
            entry.vote_account_address@,
            pool_address@,
            entry.transient_seed_suffix,
        ),
        lamports: if entry.transient_stake_lamports >= min_balance {
            (entry.transient_stake_lamports - min_balance) as u64
        } else {
            0
        },
        vote_address: Some(entry.vote_account_address),
    }
}

/// The active stake accounts of all validators, in the order of the list.
pub open spec fn active_sources(
    program_id: Address,
    pool_address: Address,
    entries: Seq<ValidatorStakeInfo>,
) -> Seq<StakeSource> {
    Seq::new(entries.len(), |i: int| active_source(program_id, pool_address, entries[i]))
}

/// The transient stake accounts of all validators, in the order of the list.
pub open spec fn transient_sources(
    program_id: Address,
    pool_address: Address,
    min_balance: u64,
    entries: Seq<ValidatorStakeInfo>,
) -> Seq<StakeSource> {
    Seq::new(
        entries.len(),
        |i: int| transient_source(program_id, pool_address, min_balance, entries[i]),
    )
}

/// The reserve of a pool, with what it holds besides its rent and minimum.
pub open spec fn reserve_source(pool: StakePool, reserve_lamports: u64, rent: u64) -> StakeSource {
    StakeSource {
        stake_address: pool.reserve_stake,
        lamports: (reserve_lamports - rent - MINIMUM_RESERVE_LAMPORTS) as u64,
        vote_address: None,
    }
}

/// `sources` are the accounts that a withdrawal may draw on, in the order in which
/// it does: the validators' active stakes by rank, their transient stakes by rank,
/// and the reserve.
pub open spec fn are_withdrawal_sources(
    sources: Seq<StakeSource>,
    program_id: Address,
    pool_address: Address,
    pool: StakePool,
    entries: Seq<ValidatorStakeInfo>,
    reserve_lamports: u64,
    rent: u64,
    min_balance: u64,
) -> bool {
    let n = entries.len() as int;
    let preferred = pool.preferred_withdraw_validator_vote_address;
    &&& sources.len() == 2 * n + 1
    &&& is_ranking(
        preferred,
        sources.subrange(0, n),
        active_sources(program_id, pool_address, entries),
    )
    &&& is_ranking(
        preferred,
        sources.subrange(n, 2 * n),
        transient_sources(program_id, pool_address, min_balance, entries),
    )
    &&& sources[2 * n] == reserve_source(pool, reserve_lamports, rent)
}

/// Tells whether a reserve holds its rent and its minimum.
pub fn check_reserve_holds_minimum(reserve_lamports: u64, rent: u64) -> (r: bool)
    ensures
        r == (rent + MINIMUM_RESERVE_LAMPORTS <= reserve_lamports),
{
    match rent.checked_add(minimum_reserve_lamports()) {
        Some(minimum) => minimum <= reserve_lamports,
        None => false,
    }
}

/// Lists the accounts that a withdrawal may draw on, in the order in which it does.
pub fn withdrawal_sources(
    config: &Config,
    pool_address: &Address,
    pool: &StakePool,
    validators: &PoolValidators,
    reserve_lamports: u64,
    rent: u64,
    min_balance: u64,
) -> (sources: Vec<StakeSource>)
    requires
        rent + MINIMUM_RESERVE_LAMPORTS <= reserve_lamports,
    ensures
        are_withdrawal_sources(
            sources@,
            config.stake_pool_program_id,
            *pool_address,
            *pool,
            validators.validators@,
            reserve_lamports,
            rent,
            min_balance,
        ),
{
    let mut actives: Vec<StakeSource> = Vec::new();
    let mut transients: Vec<StakeSource> = Vec::new();
    let mut i: usize = 0;
    while i < validators.validators.len()
        invariant
            i <= validators.validators.len(),
            actives.len() == i,
            transients.len() == i,
            forall|k: int|
                0 <= k < i ==> #[trigger] actives@[k] == active_source(
                    config.stake_pool_program_id,
                    *pool_address,
                    validators.validators@[k],
                ),
            forall|k: int|
                0 <= k < i ==> #[trigger] transients@[k] == transient_source(
                    config.stake_pool_program_id,
                    *pool_address,
                    min_balance,
                    validators.validators@[k],
                ),
        decreases validators.validators.len() - i,
    {
        let entry = validators.validators[i];
        let vote_account = entry.vote_account_address;
        actives.push(
            StakeSource {
                stake_address: find_validator_stake(
                    config.stake_pool_program_id,
                    vote_account,
                    *pool_address,
                    entry.validator_seed_suffix,
                ),
                lamports: entry.active_stake_lamports,
                vote_address: Some(vote_account),
            },
        );
        transients.push(
            StakeSource {
                stake_address: find_transient_stake(
                    config.stake_pool_program_id,
                    vote_account,
                    *pool_address,
                    entry.transient_seed_suffix,
                ),
                lamports: entry.transient_stake_lamports.saturating_sub(min_balance),
                vote_address: Some(vote_account),
            },
        );
        i = i + 1;
    }
    assert(actives@ =~= active_sources(
        config.stake_pool_program_id,
        *pool_address,
        validators.validators@,
    ));
    assert(transients@ =~= transient_sources(
        config.stake_pool_program_id,
        *pool_address,
        min_balance,
        validators.validators@,
    ));
    let preferred = pool.preferred_withdraw_validator_vote_address;
    let mut sources = sorted_accounts(&actives, &preferred);
    let ghost first = sources@;
    let mut more = sorted_accounts(&transients, &preferred);
    let ghost second = more@;
    sources.append(&mut more);
    sources.push(
        StakeSource {
            stake_address: pool.reserve_stake,
            lamports: reserve_lamports - rent - minimum_reserve_lamports(),
            vote_address: None,
        },
    );
    proof {
        let n = validators.validators@.len() as int;
        assert(sources@.subrange(0, n) =~= first);
        assert(sources@.subrange(n, 2 * n) =~= second);
    }
    sources
}

/// Tells whether a withdrawal is free of the fee: it takes the pool tokens from the
/// account that receives the fees.
pub fn skips_withdrawal_fee(pool: &StakePool, pool_token_account: &Address) -> (r: bool)
    ensures
        r == (pool.manager_fee_account == *pool_token_account),
{
    same_address(&pool.manager_fee_account, pool_token_account)
}

/// The sources that hold more than what they keep.
pub open spec fn eligible(sources: Seq<StakeSource>, min_balance: u64) -> Seq<StakeSource> {
    sources.filter(|s: StakeSource| s.lamports > min_balance)
}

/// The pool tokens that may be withdrawn from an account with so many lamports:
/// their worth in tokens and, unless the fee is skipped, the fee on top of it.
pub open spec fn withdrawable(pool: StakePool, skip_fee: bool, lamports: u64) -> int {
    let tokens = tokens_of_lamports(pool.total_lamports, pool.pool_token_supply, lamports)->0;
    let fee = pool.stake_withdrawal_fee;
    if skip_fee {
        tokens as int
    } else {
        (tokens * fee.denominator) / (fee.denominator - fee.numerator)
    }
}

/// The tokens that may be withdrawn from an account can be computed in 64 bits.
pub open spec fn is_computable(pool: StakePool, skip_fee: bool, lamports: u64) -> bool {
    let tokens = tokens_of_lamports(pool.total_lamports, pool.pool_token_supply, lamports);
    let fee = pool.stake_withdrawal_fee;
    &&& tokens is Some
    &&& !skip_fee ==> fee.numerator < fee.denominator && tokens->0 * fee.denominator <= u64::MAX
}

/// The tokens that may be withdrawn from the first `n` of the sources together.
pub open spec fn withdrawable_from(
    pool: StakePool,
    skip_fee: bool,
    sources: Seq<StakeSource>,
    n: int,
) -> int
    decreases n,
{
    if n <= 0 {
        0
    } else {
        withdrawable_from(pool, skip_fee, sources, n - 1) + withdrawable(
            pool,
            skip_fee,
            sources[n - 1].lamports,
        )
    }
}

/// Every source that a withdrawal of so many tokens comes to can be computed with.
pub open spec fn all_computable(
    pool: StakePool,
    skip_fee: bool,
    sources: Seq<StakeSource>,
    pool_amount: u64,
) -> bool {
    forall|i: int|
        0 <= i < sources.len() && (i == 0 || withdrawable_from(pool, skip_fee, sources, i)
            < pool_amount) ==> is_computable(pool, skip_fee, (#[trigger] sources[i]).lamports)
}

/// What is left to withdraw from the source at place `i`, or all that is in it.
pub open spec fn share(
    pool: StakePool,
    skip_fee: bool,
    sources: Seq<StakeSource>,
    pool_amount: u64,
    i: int,
) -> int {
    let there = withdrawable(pool, skip_fee, sources[i].lamports);
    let left = pool_amount - withdrawable_from(pool, skip_fee, sources, i);
    if there <= left {
        there
    } else {
        left
    }
}

/// `accounts` draw on the first of the sources, each for its share, and on no more
/// of them than the amount takes. An amount of zero draws on the first source.
pub open spec fn is_selection(
    accounts: Seq<WithdrawAccount>,
    pool: StakePool,
    skip_fee: bool,
    sources: Seq<StakeSource>,
    pool_amount: u64,
) -> bool {
    let n = accounts.len() as int;
    &&& n <= sources.len()
    &&& forall|i: int|
        0 <= i < n ==> (#[trigger] accounts[i]).stake_address == sources[i].stake_address
            && accounts[i].vote_address == sources[i].vote_address && accounts[i].pool_amount
            == share(pool, skip_fee, sources, pool_amount, i)
    &&& forall|i: int|
        0 < i < n ==> #[trigger] withdrawable_from(pool, skip_fee, sources, i) < pool_amount
    &&& withdrawable_from(pool, skip_fee, sources, n) >= pool_amount
    &&& n == 0 ==> sources.len() == 0
}

/// Keeps the sources that hold more than what they keep.
pub fn eligible_sources(sources: &Vec<StakeSource>, min_balance: u64) -> (r: Vec<StakeSource>)
    ensures
        r@ == eligible(sources@, min_balance),
{
    let ghost holds_more = |s: StakeSource| s.lamports > min_balance;
    let mut r: Vec<StakeSource> = Vec::new();
    let mut i: usize = 0;
    proof {
        assert(sources@.take(0) =~= Seq::<StakeSource>::empty());
        reveal(Seq::filter);
    }
    while i < sources.len()
        invariant
            i <= sources.len(),
            holds_more == (|s: StakeSource| s.lamports > min_balance),
            r@ == sources@.take(i as int).filter(holds_more),
        decreases sources.len() - i,
    {
        let source = sources[i];
        proof {
            assert(sources@.take(i + 1) =~= sources@.take(i as int).push(source));
            sources@.take(i as int).lemma_filter_push(source, holds_more);
        }
        if source.lamports > min_balance {
            r.push(source);
        }
        i = i + 1;
    }
    assert(sources@.take(sources@.len() as int) =~= sources@);
    r
}

/// Computes the pool tokens that may be withdrawn from an account with so many
/// lamports, where that can be computed in 64 bits.
pub fn available_for_withdrawal(pool: &StakePool, skip_fee: bool, lamports: u64) -> (r: Option<u64>)
    requires
        pool.stake_withdrawal_fee.numerator <= pool.stake_withdrawal_fee.denominator,
    ensures
        r is Some <==> is_computable(*pool, skip_fee, lamports),
        r matches Some(tokens) ==> tokens == withdrawable(*pool, skip_fee, lamports),
{
    let tokens = match calc_pool_tokens_for_deposit(
        pool.total_lamports,
        pool.pool_token_supply,
        lamports,
    ) {
        Some(tokens) => tokens,
        None => {
            return None;
        },
    };
    if skip_fee {
        return Some(tokens);
    }
    let numerator = pool.stake_withdrawal_fee.denominator - pool.stake_withdrawal_fee.numerator;
    if numerator == 0 {
        return None;
    }
    match tokens.checked_mul(pool.stake_withdrawal_fee.denominator) {
        Some(product) => Some(product / numerator),
        None => None,
    }
}

/// Tells whether every source that a withdrawal of so many tokens comes to can be
/// computed with.
pub fn can_prepare_withdraw_accounts(
    pool: &StakePool,
    skip_fee: bool,
    sources: &Vec<StakeSource>,
    min_balance: u64,
    pool_amount: u64,
) -> (r: bool)
    ensures
        r == (pool.stake_withdrawal_fee.numerator <= pool.stake_withdrawal_fee.denominator
            && all_computable(*pool, skip_fee, eligible(sources@, min_balance), pool_amount)),
{
    if pool.stake_withdrawal_fee.numerator > pool.stake_withdrawal_fee.denominator {
        return false;
    }
    let accounts = eligible_sources(sources, min_balance);
    let ghost elig = accounts@;
    let mut remaining = pool_amount;
    let mut i: usize = 0;
    while i < accounts.len()
        invariant
            i <= accounts.len(),
            accounts@ == elig,
            elig == eligible(sources@, min_balance),
            pool.stake_withdrawal_fee.numerator <= pool.stake_withdrawal_fee.denominator,
            remaining == pool_amount - withdrawable_from(*pool, skip_fee, elig, i as int),
            i > 0 ==> remaining > 0,
            forall|k: int|
                0 <= k < i ==> is_computable(*pool, skip_fee, (#[trigger] elig[k]).lamports),
        decreases accounts.len() - i,
    {
        match available_for_withdrawal(pool, skip_fee, accounts[i].lamports) {
            Some(available) => {
                if available >= remaining {
                    proof {
                        assert forall|k: int|
                            0 <= k < elig.len() && (k == 0 || withdrawable_from(
                                *pool,
                                skip_fee,
                                elig,
                                k,
                            ) < pool_amount) implies is_computable(
                            *pool,
                            skip_fee,
                            (#[trigger] elig[k]).lamports,
                        ) by {
                            if k > i {
                                lemma_withdrawable_grows(*pool, skip_fee, elig, i + 1, k);
                            }
                            assert(is_computable(*pool, skip_fee, elig[i as int].lamports));
                        }
                    }
                    return true;
                }
                remaining = remaining - available;
            },
            None => {
                assert(!is_computable(*pool, skip_fee, elig[i as int].lamports));
                return false;
            },
        }
        i = i + 1;
    }
    true
}

/// Selects the accounts to withdraw from: it goes through the sources in their
/// order and takes from each what is in it, until the amount is reached. It fails
/// where all of them together do not hold the amount.
pub fn prepare_withdraw_accounts(
    pool: &StakePool,
    skip_fee: bool,
    sources: &Vec<StakeSource>,
    min_balance: u64,
    pool_amount: u64,
    decimals: u8,
) -> (r: Result<Vec<WithdrawAccount>, CliError>)
    requires
        pool.stake_withdrawal_fee.numerator <= pool.stake_withdrawal_fee.denominator,
        all_computable(*pool, skip_fee, eligible(sources@, min_balance), pool_amount),
    ensures
        ({
            let elig = eligible(sources@, min_balance);
            r is Ok <==> withdrawable_from(*pool, skip_fee, elig, elig.len() as int) >= pool_amount
        }),
        ({
            let elig = eligible(sources@, min_balance);
            match r {
                Ok(accounts) => is_selection(accounts@, *pool, skip_fee, elig, pool_amount),
                Err(error) => error == (CliError::NoStakeAccounts { pool_amount, decimals }),
            }
        }),
        r matches Ok(accounts) ==> total_withdrawn(accounts@) == pool_amount,
{
    let candidates = eligible_sources(sources, min_balance);
    let ghost elig = candidates@;
    let mut accounts: Vec<WithdrawAccount> = Vec::new();
    let mut remaining = pool_amount;
    let mut i: usize = 0;
    while i < candidates.len()
        invariant
            i <= candidates.len(),
            accounts.len() == i,
            candidates@ == elig,
            elig == eligible(sources@, min_balance),
            pool.stake_withdrawal_fee.numerator <= pool.stake_withdrawal_fee.denominator,
            all_computable(*pool, skip_fee, elig, pool_amount),
            remaining == pool_amount - withdrawable_from(*pool, skip_fee, elig, i as int),
            i > 0 ==> remaining > 0,
            forall|k: int|
                0 <= k < i ==> (#[trigger] accounts@[k]).stake_address == elig[k].stake_address
                    && accounts@[k].vote_address == elig[k].vote_address
                    && accounts@[k].pool_amount == share(*pool, skip_fee, elig, pool_amount, k),
            forall|k: int|
                0 < k <= i ==> #[trigger] withdrawable_from(*pool, skip_fee, elig, k) < pool_amount,
        decreases candidates.len() - i,
    {
        let source = candidates[i];
        assert(is_computable(*pool, skip_fee, elig[i as int].lamports));
        let available = available_for_withdrawal(pool, skip_fee, source.lamports).unwrap();
        let amount: u64 = if available < remaining {
            available
        } else {
            remaining
        };
        accounts.push(
            WithdrawAccount {
                stake_address: source.stake_address,
                vote_address: source.vote_address,
                pool_amount: amount,
            },
        );
        remaining = remaining - amount;
        if remaining == 0 {
            proof {
                lemma_withdrawable_grows(*pool, skip_fee, elig, i + 1, elig.len() as int);
                law_selection_adds_up(accounts@, *pool, skip_fee, elig, pool_amount);
            }
            return Ok(accounts);
        }
        i = i + 1;
    }
    if remaining > 0 {
        return Err(CliError::NoStakeAccounts { pool_amount, decimals });
    }
    proof {
        law_selection_adds_up(accounts@, *pool, skip_fee, elig, pool_amount);
    }
    Ok(accounts)
}

/// The pool tokens that the accounts are drawn on for together.
pub open spec fn total_withdrawn(accounts: Seq<WithdrawAccount>) -> int
    decreases accounts.len(),
{
    if accounts.len() == 0 {
        0
    } else {
        total_withdrawn(accounts.drop_last()) + accounts.last().pool_amount
    }
}

/// What is withdrawn from the selected accounts adds up to the amount.
pub proof fn law_selection_adds_up(
    accounts: Seq<WithdrawAccount>,
    pool: StakePool,
    skip_fee: bool,
    sources: Seq<StakeSource>,
    pool_amount: u64,
)
    requires
        is_selection(accounts, pool, skip_fee, sources, pool_amount),
    ensures
        total_withdrawn(accounts) == pool_amount,
{
    let n = accounts.len() as int;
    if n > 0 {
        lemma_drained_before(accounts, pool, skip_fee, sources, pool_amount, n - 1);
        assert(accounts.take(n - 1) =~= accounts.drop_last());
        if n > 1 {
            assert(withdrawable_from(pool, skip_fee, sources, n - 1) < pool_amount);
        }
        let last = accounts[n - 1];
        assert(last == accounts.last());
        assert(last.pool_amount == share(pool, skip_fee, sources, pool_amount, n - 1));
    }
}

/// Nothing beyond what may be withdrawn from an account is withdrawn from it, and
/// every selected account but the last gives all of that.
pub proof fn law_selection_drains_in_order(
    accounts: Seq<WithdrawAccount>,
    pool: StakePool,
    skip_fee: bool,
    sources: Seq<StakeSource>,
    pool_amount: u64,
    i: int,
)
    requires
        is_selection(accounts, pool, skip_fee, sources, pool_amount),
        0 <= i < accounts.len(),
    ensures
        accounts[i].pool_amount <= withdrawable(pool, skip_fee, sources[i].lamports),
        i + 1 < accounts.len() ==> accounts[i].pool_amount == withdrawable(
            pool,
            skip_fee,
            sources[i].lamports,
        ),
{
    if i + 1 < accounts.len() {
        assert(withdrawable_from(pool, skip_fee, sources, i + 1) < pool_amount);
    }
}

/// A smaller amount draws on a prefix of the accounts that a larger one draws on. It takes
/// no more from any of them, and the same from all but the last of the prefix.
pub proof fn law_smaller_amount_draws_on_a_prefix(
    smaller: Seq<WithdrawAccount>,
    larger: Seq<WithdrawAccount>,
    pool: StakePool,
    skip_fee: bool,
    sources: Seq<StakeSource>,
    smaller_amount: u64,
    larger_amount: u64,
)
    requires
        smaller_amount <= larger_amount,
        is_selection(smaller, pool, skip_fee, sources, smaller_amount),
        is_selection(larger, pool, skip_fee, sources, larger_amount),
    ensures
        smaller.len() <= larger.len(),
        forall|i: int|
            0 <= i < smaller.len() ==> (#[trigger] smaller[i]).stake_address
                == larger[i].stake_address && smaller[i].vote_address == larger[i].vote_address
                && smaller[i].pool_amount <= larger[i].pool_amount,
        forall|i: int|
            0 <= i < smaller.len() - 1 ==> (#[trigger] smaller[i]).pool_amount
                == larger[i].pool_amount,
{
    if larger.len() < smaller.len() {
        assert(withdrawable_from(pool, skip_fee, sources, larger.len() as int) < smaller_amount);
    }
    assert forall|i: int| 0 <= i < smaller.len() implies (#[trigger] smaller[i]).stake_address
        == larger[i].stake_address && smaller[i].vote_address == larger[i].vote_address
        && smaller[i].pool_amount <= larger[i].pool_amount by {
        assert(larger[i].pool_amount == share(pool, skip_fee, sources, larger_amount, i));
    }
    assert forall|i: int| 0 <= i < smaller.len() - 1 implies (#[trigger] smaller[i]).pool_amount
        == larger[i].pool_amount by {
        law_selection_drains_in_order(smaller, pool, skip_fee, sources, smaller_amount, i);
        law_selection_drains_in_order(larger, pool, skip_fee, sources, larger_amount, i);
    }
}

/// A selection is determined by the sources, the pool and the amount.
pub proof fn law_selection_is_determined(
    first: Seq<WithdrawAccount>,
    second: Seq<WithdrawAccount>,
    pool: StakePool,
    skip_fee: bool,
    sources: Seq<StakeSource>,
    pool_amount: u64,
)
    requires
        is_selection(first, pool, skip_fee, sources, pool_amount),
        is_selection(second, pool, skip_fee, sources, pool_amount),
    ensures
        first == second,
{
    lemma_selection_is_no_longer(first, second, pool, skip_fee, sources, pool_amount);
    lemma_selection_is_no_longer(second, first, pool, skip_fee, sources, pool_amount);
    assert forall|i: int| 0 <= i < first.len() implies first[i] == second[i] by {
        assert(first[i].pool_amount == share(pool, skip_fee, sources, pool_amount, i));
        assert(second[i].pool_amount == share(pool, skip_fee, sources, pool_amount, i));
    }
    assert(first =~= second);
}

/// A withdrawal draws on the validators' active stakes before anything else, and in rank
/// order: the preferred validator's first, then from the largest to the smallest.
pub proof fn law_active_stakes_come_first_by_rank(
    sources: Seq<StakeSource>,
    program_id: Address,
    pool_address: Address,
    pool: StakePool,
    entries: Seq<ValidatorStakeInfo>,
    reserve_lamports: u64,
    rent: u64,
    min_balance: u64,
)
    requires
        are_withdrawal_sources(
            sources,
            program_id,
            pool_address,
            pool,
            entries,
            reserve_lamports,
            rent,
            min_balance,
        ),
    ensures
        ({
            let active = eligible(sources.subrange(0, entries.len() as int), min_balance);
            let k = active.len() as int;
            &&& k <= eligible(sources, min_balance).len()
            &&& eligible(sources, min_balance).take(k) == active
            &&& in_rank_order(pool.preferred_withdraw_validator_vote_address, active)
        }),
{
    let n = entries.len() as int;
    let f = |s: StakeSource| s.lamports > min_balance;
    let first = sources.subrange(0, n);
    let rest = sources.subrange(n, sources.len() as int);
    assert(sources =~= first + rest);
    Seq::filter_distributes_over_add(first, rest, f);
    assert(eligible(sources, min_balance).take(first.filter(f).len() as int) =~= first.filter(f));
    lemma_filter_keeps_rank_order(pool.preferred_withdraw_validator_vote_address, first, f);
}

/// The fee on a withdrawal of all that may be withdrawn from an account leaves no more than
/// what the account is worth in tokens.
pub proof fn law_fee_leaves_no_more_than_the_worth(pool: StakePool, lamports: u64, tokens: u64)
    requires
        pool.stake_withdrawal_fee.numerator < pool.stake_withdrawal_fee.denominator,
        tokens_of_lamports(pool.total_lamports, pool.pool_token_supply, lamports) == Some(tokens),
    ensures
        ({
            let fee = pool.stake_withdrawal_fee;
            let withdrawn = withdrawable(pool, false, lamports);
            (withdrawn * (fee.denominator - fee.numerator)) / (fee.denominator as int) <= tokens
        }),
{
    let denominator = pool.stake_withdrawal_fee.denominator as int;
    let left = denominator - pool.stake_withdrawal_fee.numerator;
    let withdrawn = withdrawable(pool, false, lamports);
    assert(withdrawn * left <= tokens * denominator) by (nonlinear_arith)
        requires
            left > 0,
            withdrawn == (tokens * denominator) / left,
    ;
    assert((withdrawn * left) / denominator <= tokens) by (nonlinear_arith)
        requires
            denominator > 0,
            withdrawn * left <= tokens * denominator,
    ;
}

proof fn lemma_filter_keeps_rank_order(
    preferred: Option<Address>,
    s: Seq<StakeSource>,
    f: spec_fn(StakeSource) -> bool,
)
    requires
        in_rank_order(preferred, s),
    ensures
        in_rank_order(preferred, s.filter(f)),
    decreases s.len(),
{
    reveal(Seq::filter);
    if s.len() > 0 {
        let shorter = s.drop_last();
        lemma_filter_keeps_rank_order(preferred, shorter, f);
        let t = s.filter(f);
        if f(s.last()) {
            assert forall|i: int| 0 <= i < shorter.filter(f).len() implies !ranks_before(
                preferred,
                s.last(),
                #[trigger] shorter.filter(f)[i],
            ) by {
                let x = shorter.filter(f)[i];
                assert(shorter.filter(f).contains(x));
                shorter.lemma_filter_contains_rev(f, x);
                let j = choose|j: int| 0 <= j < shorter.len() && shorter[j] == x;
                assert(!ranks_before(preferred, s[s.len() - 1], s[j]));
            }
            assert forall|i: int, j: int| 0 <= i < j < t.len() implies !ranks_before(
                preferred,
                #[trigger] t[j],
                #[trigger] t[i],
            ) by {
                assert(t[i] == shorter.filter(f)[i]);
            }
        }
    }
}

proof fn lemma_selection_is_no_longer(
    first: Seq<WithdrawAccount>,
    second: Seq<WithdrawAccount>,
    pool: StakePool,
    skip_fee: bool,
    sources: Seq<StakeSource>,
    pool_amount: u64,
)
    requires
        is_selection(first, pool, skip_fee, sources, pool_amount),
        is_selection(second, pool, skip_fee, sources, pool_amount),
    ensures
        second.len() <= first.len(),
{
    let n = first.len() as int;
    if n > 0 && second.len() > n {
        assert(withdrawable_from(pool, skip_fee, sources, n) < pool_amount);
    }
}

proof fn lemma_drained_before(
    accounts: Seq<WithdrawAccount>,
    pool: StakePool,
    skip_fee: bool,
    sources: Seq<StakeSource>,
    pool_amount: u64,
    m: int,
)
    requires
        is_selection(accounts, pool, skip_fee, sources, pool_amount),
        0 <= m < accounts.len(),
    ensures
        total_withdrawn(accounts.take(m)) == withdrawable_from(pool, skip_fee, sources, m),
    decreases m,
{
    if m > 0 {
        lemma_drained_before(accounts, pool, skip_fee, sources, pool_amount, m - 1);
        law_selection_drains_in_order(accounts, pool, skip_fee, sources, pool_amount, m - 1);
        assert(accounts.take(m).drop_last() =~= accounts.take(m - 1));
    }
}

proof fn lemma_withdrawable_grows(
    pool: StakePool,
    skip_fee: bool,
    sources: Seq<StakeSource>,
    m: int,
    n: int,
)
    requires
        0 <= m <= n,
        !skip_fee ==> pool.stake_withdrawal_fee.numerator < pool.stake_withdrawal_fee.denominator,
    ensures
        withdrawable_from(pool, skip_fee, sources, m) <= withdrawable_from(
            pool,
            skip_fee,
            sources,
            n,
        ),
    decreases n - m,
{
    if m < n {
        lemma_withdrawable_grows(pool, skip_fee, sources, m, n - 1);
        lemma_withdrawable_is_positive(pool, skip_fee, sources[n - 1].lamports);
    }
}

proof fn lemma_withdrawable_is_positive(pool: StakePool, skip_fee: bool, lamports: u64)
    requires
        !skip_fee ==> pool.stake_withdrawal_fee.numerator < pool.stake_withdrawal_fee.denominator,
    ensures
        withdrawable(pool, skip_fee, lamports) >= 0,
{
    let tokens = tokens_of_lamports(pool.total_lamports, pool.pool_token_supply, lamports)->0;
    let fee = pool.stake_withdrawal_fee;
    if !skip_fee {
        assert((tokens * fee.denominator) / (fee.denominator - fee.numerator) >= 0)
            by (nonlinear_arith)
            requires
                fee.numerator < fee.denominator,
        ;
    }
}

/// A stake account keeps its rent and the larger of the two minimums of a delegation: the stake
/// program's and the pool's. Only where both do not fit 64 bits is it the largest number.
pub proof fn law_kept_lamports_are_rent_and_minimum(
    rent: u64,
    stake_minimum_delegation: u64,
    minimum: u64,
)
    requires
        minimum >= stake_minimum_delegation,
        minimum >= 1_000_000,
        minimum == stake_minimum_delegation || minimum == 1_000_000,
    ensures
        kept_lamports(rent, stake_minimum_delegation) <= rent + minimum,
        kept_lamports(rent, stake_minimum_delegation) >= rent,
        kept_lamports(rent, stake_minimum_delegation) < u64::MAX ==> kept_lamports(
            rent,
            stake_minimum_delegation,
        ) == rent + minimum,
        rent + minimum <= u64::MAX ==> kept_lamports(rent, stake_minimum_delegation) == rent
            + minimum,
{
}

/// Every validator is among the sources of a withdrawal twice: with the active stake of its
/// stake account, and, behind all of those, with what its transient stake account holds above
/// the minimum. The reserve is the last source, with what it holds besides its rent and minimum.
pub proof fn law_sources_hold_every_entry(
    sources: Seq<StakeSource>,
    program_id: Address,
    pool_address: Address,
    pool: StakePool,
    entries: Seq<ValidatorStakeInfo>,
    reserve_lamports: u64,
    rent: u64,
    min_balance: u64,
    i: int,
)
    requires
        are_withdrawal_sources(
            sources,
            program_id,
            pool_address,
            pool,
            entries,
            reserve_lamports,
            rent,
            min_balance,
        ),
        rent + MINIMUM_RESERVE_LAMPORTS <= reserve_lamports,
        0 <= i < entries.len(),
    ensures
        sources.len() == 2 * entries.len() + 1,
        exists|j: int|
            0 <= j < entries.len() && (#[trigger] sources[j]).stake_address
                == validator_stake_address(
                program_id@,
                entries[i].vote_account_address@,
                pool_address@,
                entries[i].validator_seed_suffix,
            ) && sources[j].lamports == entries[i].active_stake_lamports
                && sources[j].vote_address == Some(entries[i].vote_account_address),
        exists|j: int|
            entries.len() <= j < 2 * entries.len() && (#[trigger] sources[j]).stake_address
                == transient_stake_address(
                program_id@,
                entries[i].vote_account_address@,
                pool_address@,
                entries[i].transient_seed_suffix,
            ) && (entries[i].transient_stake_lamports >= min_balance ==> sources[j].lamports
                + min_balance == entries[i].transient_stake_lamports) && (
            entries[i].transient_stake_lamports < min_balance ==> sources[j].lamports == 0)
                && sources[j].vote_address == Some(entries[i].vote_account_address),
        sources.last().stake_address == pool.reserve_stake,
        sources.last().lamports + rent + MINIMUM_RESERVE_LAMPORTS == reserve_lamports,
        sources.last().vote_address is None,
{
    let n = entries.len() as int;
    let preferred = pool.preferred_withdraw_validator_vote_address;
    let first = sources.subrange(0, n);
    let second = sources.subrange(n, 2 * n);
    let actives = active_sources(program_id, pool_address, entries);
    let transients = transient_sources(program_id, pool_address, min_balance, entries);
    law_ranking_permutes(preferred, first, actives);
    law_ranking_permutes(preferred, second, transients);
    first.to_multiset_ensures();
    second.to_multiset_ensures();
    actives.to_multiset_ensures();
    transients.to_multiset_ensures();
    assert(actives.contains(actives[i]));
    assert(transients.contains(transients[i]));
    assert(first.to_multiset().count(actives[i]) > 0);
    assert(second.to_multiset().count(transients[i]) > 0);
    assert(first.contains(actives[i]));
    assert(second.contains(transients[i]));
    let j = choose|j: int| 0 <= j < first.len() && first[j] == actives[i];
    let k = choose|k: int| 0 <= k < second.len() && second[k] == transients[i];
    assert(sources[j] == actives[i]);
    assert(sources[n + k] == transients[i]);
}

/// A withdrawal considers exactly the sources that hold more than what they keep, in their
/// order.
pub proof fn law_eligible_sources_hold_more_than_they_keep(
    sources: Seq<StakeSource>,
    min_balance: u64,
    source: StakeSource,
)
    ensures
        eligible(sources, min_balance).contains(source) <==> sources.contains(source)
            && source.lamports > min_balance,
        sources.len() > 0 && sources.last().lamports > min_balance ==> eligible(
            sources,
            min_balance,
        ) == eligible(sources.drop_last(), min_balance).push(sources.last()),
        sources.len() > 0 && sources.last().lamports <= min_balance ==> eligible(
            sources,
            min_balance,
        ) == eligible(sources.drop_last(), min_balance),
        sources.len() == 0 ==> eligible(sources, min_balance).len() == 0,
{
    reveal(Seq::filter);
    let f = |s: StakeSource| s.lamports > min_balance;
    if sources.contains(source) && source.lamports > min_balance {
        let i = choose|i: int| 0 <= i < sources.len() && sources[i] == source;
        sources.lemma_filter_contains(f, i);
    }
    if eligible(sources, min_balance).contains(source) {
        sources.lemma_filter_contains_rev(f, source);
        let k = choose|k: int|
            0 <= k < sources.filter(f).len() && sources.filter(f)[k] == source;
        sources.lemma_filter_pred(f, k);
    }
}

/// What may be withdrawn from an account is what it is worth in tokens, where the fee is
/// skipped. Otherwise it is the most tokens of which the fee leaves no more than that worth: one
/// more, and too much would be left.
pub proof fn law_withdrawable_is_the_most_that_the_fee_allows(
    pool: StakePool,
    lamports: u64,
    tokens: u64,
)
    requires
        pool.stake_withdrawal_fee.numerator < pool.stake_withdrawal_fee.denominator,
        tokens_of_lamports(pool.total_lamports, pool.pool_token_supply, lamports) == Some(tokens),
    ensures
        withdrawable(pool, true, lamports) == tokens,
        ({
            let fee = pool.stake_withdrawal_fee;
            let left = fee.denominator - fee.numerator;
            let withdrawn = withdrawable(pool, false, lamports);
            &&& withdrawn * left <= tokens * fee.denominator
            &&& tokens * fee.denominator < (withdrawn + 1) * left
            &&& withdrawn >= tokens
        }),
{
    let denominator = pool.stake_withdrawal_fee.denominator as int;
    let left = denominator - pool.stake_withdrawal_fee.numerator;
    let withdrawn = withdrawable(pool, false, lamports);
    assert(withdrawn * left <= tokens * denominator < (withdrawn + 1) * left)
        by (nonlinear_arith)
        requires
            left > 0,
            withdrawn == (tokens * denominator) / left,
    ;
    assert(withdrawn >= tokens) by (nonlinear_arith)
        requires
            0 < left <= denominator,
            tokens >= 0,
            tokens * denominator < (withdrawn + 1) * left,
    ;
}

/// The tokens of an account can be computed where its worth fits 64 bits and, unless the fee is
/// skipped, the fee leaves something and its product with the worth fits too.
pub proof fn law_tokens_are_computable_where_they_fit(pool: StakePool, lamports: u64)
    ensures
        ({
            let tokens = tokens_of_lamports(pool.total_lamports, pool.pool_token_supply, lamports);
            let fee = pool.stake_withdrawal_fee;
            &&& is_computable(pool, true, lamports) <==> tokens is Some
            &&& is_computable(pool, false, lamports) <==> tokens is Some && fee.numerator
                < fee.denominator && tokens->0 * fee.denominator <= u64::MAX
        }),
{
}

/// What may be withdrawn from several sources together is the sum of what may be withdrawn from
/// each.
pub proof fn law_withdrawable_adds_up(
    pool: StakePool,
    skip_fee: bool,
    sources: Seq<StakeSource>,
    n: int,
)
    requires
        0 <= n < sources.len(),
    ensures
        withdrawable_from(pool, skip_fee, sources, 0) == 0,
        withdrawable_from(pool, skip_fee, sources, n + 1) == withdrawable_from(
            pool,
            skip_fee,
            sources,
            n,
        ) + withdrawable(pool, skip_fee, sources[n].lamports),
{
}

/// What is withdrawn from several accounts together is the sum of what is withdrawn from each.
pub proof fn law_withdrawn_tokens_add_up(
    accounts: Seq<WithdrawAccount>,
    account: WithdrawAccount,
)
    ensures
        total_withdrawn(Seq::<WithdrawAccount>::empty()) == 0,
        total_withdrawn(accounts.push(account)) == total_withdrawn(accounts) + account.pool_amount,
{
    assert(accounts.push(account).drop_last() =~= accounts);
}

/// A selection draws on the first of the sources, in their order and under their own addresses,
/// and on one of them at least unless there is none. Before its last account it has not reached
/// the amount.
pub proof fn law_selection_draws_on_the_first_sources(
    accounts: Seq<WithdrawAccount>,
    pool: StakePool,
    skip_fee: bool,
    sources: Seq<StakeSource>,
    pool_amount: u64,
    i: int,
)
    requires
        is_selection(accounts, pool, skip_fee, sources, pool_amount),
        0 <= i < accounts.len(),
    ensures
        accounts.len() <= sources.len(),
        accounts[i].stake_address == sources[i].stake_address,
        accounts[i].vote_address == sources[i].vote_address,
        i > 0 ==> total_withdrawn(accounts.take(i)) < pool_amount,
{
    lemma_drained_before(accounts, pool, skip_fee, sources, pool_amount, i);
    if i > 0 {
        assert(withdrawable_from(pool, skip_fee, sources, i) < pool_amount);
    }
}

/// A withdrawal can be computed where each of the sources that it comes to can be: sources
/// behind those that cover the amount together do not matter.
pub proof fn law_sources_that_cover_the_amount_suffice(
    pool: StakePool,
    skip_fee: bool,
    sources: Seq<StakeSource>,
    pool_amount: u64,
    n: int,
)
    requires
        0 <= n <= sources.len(),
        forall|i: int|
            0 <= i < n ==> is_computable(pool, skip_fee, (#[trigger] sources[i]).lamports),
        n == sources.len() || n > 0 && withdrawable_from(pool, skip_fee, sources, n)
            >= pool_amount,
    ensures
        all_computable(pool, skip_fee, sources, pool_amount),
{
    assert forall|i: int|
        0 <= i < sources.len() && (i == 0 || withdrawable_from(pool, skip_fee, sources, i)
            < pool_amount) implies is_computable(
        pool,
        skip_fee,
        (#[trigger] sources[i]).lamports,
    ) by {
        if i >= n {
            assert(is_computable(pool, skip_fee, sources[0].lamports));
            lemma_withdrawable_grows(pool, skip_fee, sources, n, i);
        }
    }
}

/// A withdrawal cannot be computed where its first source cannot be, nor where one cannot be
/// that it comes to before the amount is covered.
pub proof fn law_a_source_that_is_reached_must_be_computable(
    pool: StakePool,
    skip_fee: bool,
    sources: Seq<StakeSource>,
    pool_amount: u64,
    i: int,
)
    requires
        0 <= i < sources.len(),
        !is_computable(pool, skip_fee, sources[i].lamports),
        i == 0 || withdrawable_from(pool, skip_fee, sources, i) < pool_amount,
    ensures
        !all_computable(pool, skip_fee, sources, pool_amount),
{
}

} // verus!
