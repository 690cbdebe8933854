//! What a listing of a pool says of its validators and its reserve.
use vstd::prelude::*;

use crate::address::Address;
use crate::config::Config;
use crate::programs::pool::{
    find_transient_stake, find_validator_stake, find_withdraw_authority, transient_stake_address,
    validator_stake_address, withdraw_authority_address,
};
use crate::programs::pool_amounts::{minimum_reserve_lamports, MINIMUM_RESERVE_LAMPORTS};
use crate::state::{PoolValidators, StakePool, ValidatorStakeInfo};

verus! {

/// What a listing says of a validator.
#[derive(Clone, Copy, PartialEq, Eq, Debug)]
pub struct StakeAccountInfo {
    pub vote_account_address: Address,
    pub stake_account_address: Address,
    pub validator_active_stake_lamports: u64,
    pub validator_last_update_epoch: u64,
    pub validator_lamports: u64,
    pub validator_transient_stake_account_address: Address,
    pub validator_transient_stake_lamports: u64,
    pub update_required: bool,
}

/// What a listing says of the validator of an entry.
pub open spec fn info_of(
    config: Config,
    pool_address: Address,
    entry: ValidatorStakeInfo,
    epoch: u64,
) -> StakeAccountInfo {
    StakeAccountInfo {
        vote_account_address: entry.vote_account_address,
        stake_account_address: validator_stake_address(
            config.stake_pool_program_id@,
            entry.vote_account_address@,
            pool_address@,
            entry.validator_seed_suffix,
        ),
        validator_active_stake_lamports: entry.active_stake_lamports,
        validator_last_update_epoch: entry.last_update_epoch,
        validator_lamports: (entry.active_stake_lamports + entry.transient_stake_lamports) as u64,
        validator_transient_stake_account_address: transient_stake_address(
            config.stake_pool_program_id@,
            entry.vote_account_address@,
            pool_address@,
            entry.transient_seed_suffix,
        ),
        validator_transient_stake_lamports: entry.transient_stake_lamports,
        update_required: entry.last_update_epoch != epoch,
    }
}

/// What a listing says of a pool.
#[derive(PartialEq, Eq, Debug)]
pub struct PoolDetails {
    pub withdraw_authority: Address,
    pub reserve_stake_account_address: Address,
    pub reserve_stake_lamports: u64,
    pub minimum_reserve_stake_balance: u64,
    pub stake_accounts: Vec<StakeAccountInfo>,
    pub total_lamports: u64,
    pub current_number_of_validators: u32,
    pub max_number_of_validators: u32,
    pub update_required: bool,
}

/// Tells whether the minimum that a reserve with this rent keeps fits 64 bits.
pub fn check_reserve_minimum_fits(rent: u64) -> (r: bool)
    ensures
        r == (rent + MINIMUM_RESERVE_LAMPORTS <= u64::MAX),
{
    rent <= u64::MAX - minimum_reserve_lamports()
}

/// The lamports of every validator fit 64 bits.
pub open spec fn lamports_fit(entries: Seq<ValidatorStakeInfo>) -> bool {
    forall|i: int|
        0 <= i < entries.len() ==> (#[trigger] entries[i]).active_stake_lamports
            + entries[i].transient_stake_lamports <= u64::MAX
}

/// Tells whether the lamports of every validator fit 64 bits.
pub fn check_lamports_fit(validators: &PoolValidators) -> (r: bool)
    ensures
        r == lamports_fit(validators.validators@),
{
    let mut i: usize = 0;
    while i < validators.validators.len()
        invariant
            i <= validators.validators.len(),
            forall|k: int|
                0 <= k < i ==> (#[trigger] validators.validators@[k]).active_stake_lamports
                    + validators.validators@[k].transient_stake_lamports <= u64::MAX,
        decreases validators.validators.len() - i,
    {
        let entry = validators.validators[i];
        if entry.active_stake_lamports.checked_add(entry.transient_stake_lamports).is_none() {
            assert(validators.validators@[i as int].active_stake_lamports
                + validators.validators@[i as int].transient_stake_lamports > u64::MAX);
            return false;
        }
        i = i + 1;
    }
    true
}

/// Puts together what a listing says of a pool and its validators.
pub fn command_list(
    config: &Config,
    pool_address: &Address,
    pool: &StakePool,
    validators: &PoolValidators,
    epoch: u64,
    reserve_stake_lamports: u64,
    rent: u64,
) -> (r: PoolDetails)
    requires
        lamports_fit(validators.validators@),
        rent + MINIMUM_RESERVE_LAMPORTS <= u64::MAX,
    ensures
        r.withdraw_authority == withdraw_authority_address(
            config.stake_pool_program_id@,
            pool_address@,
        ),
        r.reserve_stake_account_address == pool.reserve_stake,
        r.reserve_stake_lamports == reserve_stake_lamports,
        r.minimum_reserve_stake_balance == rent + MINIMUM_RESERVE_LAMPORTS,
        r.stake_accounts@.len() == validators.validators@.len(),
        forall|i: int|
            0 <= i < validators.validators@.len() ==> #[trigger] r.stake_accounts@[i] == info_of(
                *config,
                *pool_address,
                validators.validators@[i],
                epoch,
            ),
        r.total_lamports == pool.total_lamports,
        r.current_number_of_validators == validators.validators.len() as u32,
        r.max_number_of_validators == validators.max_validators,
        r.update_required == (pool.last_update_epoch != epoch),
{
    let mut stake_accounts: Vec<StakeAccountInfo> = Vec::new();
    let mut i: usize = 0;
    while i < validators.validators.len()
        invariant
            i <= validators.validators.len(),
            lamports_fit(validators.validators@),
            stake_accounts@.len() == i,
            forall|k: int|
                0 <= k < i ==> #[trigger] stake_accounts@[k] == info_of(
                    *config,
                    *pool_address,
                    validators.validators@[k],
                    epoch,
                ),
        decreases validators.validators.len() - i,
    {
        let entry = validators.validators[i];
        assert(entry == validators.validators@[i as int]);
        stake_accounts.push(
            StakeAccountInfo {
                vote_account_address: entry.vote_account_address,
                stake_account_address: find_validator_stake(
                    config.stake_pool_program_id,
                    entry.vote_account_address,
                    *pool_address,
                    entry.validator_seed_suffix,
                ),
                validator_active_stake_lamports: entry.active_stake_lamports,
                validator_last_update_epoch: entry.last_update_epoch,
                validator_lamports: entry.active_stake_lamports + entry.transient_stake_lamports,
                validator_transient_stake_account_address: find_transient_stake(
                    config.stake_pool_program_id,
                    entry.vote_account_address,
                    *pool_address,
                    entry.transient_seed_suffix,
                ),
                validator_transient_stake_lamports: entry.transient_stake_lamports,
                update_required: entry.last_update_epoch != epoch,
            },
        );
        i = i + 1;
    }
    PoolDetails {
        withdraw_authority: find_withdraw_authority(config.stake_pool_program_id, *pool_address),
        reserve_stake_account_address: pool.reserve_stake,
        reserve_stake_lamports,
        minimum_reserve_stake_balance: rent + minimum_reserve_lamports(),
        stake_accounts,
        total_lamports: pool.total_lamports,
        current_number_of_validators: #[verifier::truncate]
        (validators.validators.len() as u32),
        max_number_of_validators: validators.max_validators,
        update_required: pool.last_update_epoch != epoch,
    }
}

/// A listing says of a validator what its entry holds: its vote account, its two stake accounts
/// and what is in each, the sum of both, and that it needs an update unless it was updated in
/// the epoch.
pub proof fn law_listing_says_what_the_entry_holds(
    config: Config,
    pool_address: Address,
    entry: ValidatorStakeInfo,
    epoch: u64,
)
    ensures
        ({
            let info = info_of(config, pool_address, entry, epoch);
            &&& info.vote_account_address == entry.vote_account_address
            &&& info.stake_account_address == validator_stake_address(
                config.stake_pool_program_id@,
                entry.vote_account_address@,
                pool_address@,
                entry.validator_seed_suffix,
            )
            &&& info.validator_transient_stake_account_address == transient_stake_address(
                config.stake_pool_program_id@,
                entry.vote_account_address@,
                pool_address@,
                entry.transient_seed_suffix,
            )
            &&& info.validator_active_stake_lamports == entry.active_stake_lamports
            &&& info.validator_transient_stake_lamports == entry.transient_stake_lamports
            &&& entry.active_stake_lamports + entry.transient_stake_lamports <= u64::MAX
                ==> info.validator_lamports == info.validator_active_stake_lamports
                + info.validator_transient_stake_lamports
            &&& info.validator_last_update_epoch == entry.last_update_epoch
            &&& info.update_required <==> entry.last_update_epoch != epoch
        }),
{
}

/// The lamports of a list fit exactly where those of each entry do.
pub proof fn law_lamports_fit_one_by_one(entries: Seq<ValidatorStakeInfo>, i: int)
    requires
        0 <= i < entries.len(),
    ensures
        lamports_fit(entries) ==> entries[i].active_stake_lamports
            + entries[i].transient_stake_lamports <= u64::MAX,
        entries[i].active_stake_lamports + entries[i].transient_stake_lamports <= u64::MAX
            && lamports_fit(entries.remove(i)) ==> lamports_fit(entries),
{
    if lamports_fit(entries.remove(i)) {
        let rest = entries.remove(i);
        assert forall|k: int| 0 <= k < entries.len() && k != i implies (
        #[trigger] entries[k]).active_stake_lamports + entries[k].transient_stake_lamports
            <= u64::MAX by {
            if k < i {
                assert(rest[k] == entries[k]);
            } else {
                assert(rest[k - 1] == entries[k]);
            }
        }
    }
}

} // verus!
