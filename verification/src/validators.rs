//! Adding, removing and rebalancing the validators of a pool.
use vstd::bytes::{
    lemma_auto_spec_u64_to_from_le_bytes, spec_u32_to_le_bytes, spec_u64_to_le_bytes,
};
use vstd::prelude::*;

use crate::address::Address;
use crate::config::Config;
use crate::error::CliError;
use crate::instruction::{
    law_plan_keeps_instructions_and_signers, plan_single, AccountMeta, InstructionView,
    TransactionPlan,
};
use crate::programs::pool::{
    add_validator, add_validator_instruction, decrease_validator_stake,
    decrease_validator_stake_instruction, find_validator_stake, increase_validator_stake,
    increase_validator_stake_instruction, remove_validator, remove_validator_instruction,
    set_preferred_validator, set_preferred_validator_instruction, validator_stake_address,
};
use crate::state::{
    first_entry_at, has_entry, PoolValidators, PreferredValidatorType, StakePool,
};

verus! {

/// `plan` sends one instruction that the staker signs.
pub open spec fn is_staker_plan(
    plan: TransactionPlan,
    config: Config,
    instruction: InstructionView,
) -> bool {
    plan.comprises(seq![instruction], seq![config.fee_payer, config.staker], 0)
}

/// What the search for the seed of a new validator's stake account does next.
#[derive(Clone, Copy, PartialEq, Eq, Structural, Debug)]
pub enum SeedStep {
    /// It uses this seed.
    Use(u32),
    /// It tries this seed.
    Try(u32),
}

/// What the search does once it knows whether the stake account of a seed exists: a
/// seed is used if its account is free.
pub open spec fn seed_step(seed: u32, account_exists: bool) -> SeedStep {
    if account_exists {
        SeedStep::Try((seed + 1) as u32)
    } else {
        SeedStep::Use(seed)
    }
}

/// Decides whether the seed that was tried is used. The search ends once a free
/// account is found.
pub fn next_seed(seed: u32, account_exists: bool) -> (r: SeedStep)
    requires
        account_exists ==> seed < u32::MAX,
    ensures
        r == seed_step(seed, account_exists),
{
    if account_exists {
        SeedStep::Try(seed + 1)
    } else {
        SeedStep::Use(seed)
    }
}

/// The seed that the search for a new validator's stake account ends with when it
/// begins at `seed`: none where no account is free.
pub open spec fn seed_found(
    exists_at: spec_fn(Address) -> bool,
    program_id: Address,
    pool_address: Address,
    vote_account: Address,
    seed: u32,
) -> Option<u32>
    decreases u32::MAX - seed,
{
    let account = validator_stake_address(program_id@, vote_account@, pool_address@, seed);
    match seed_step(seed, exists_at(account)) {
        SeedStep::Use(used) => Some(used),
        SeedStep::Try(next) => if seed < next {
            seed_found(exists_at, program_id, pool_address, vote_account, next)
        } else {
            None
        },
    }
}

/// Finds the stake account of a new validator for a seed. A seed of zero stands for no
/// seed.
pub fn new_validator_stake_account(
    config: &Config,
    pool_address: &Address,
    vote_account: &Address,
    seed: u32,
) -> (r: Address)
    ensures
        r == validator_stake_address(
            config.stake_pool_program_id@,
            vote_account@,
            pool_address@,
            seed,
        ),
{
    find_validator_stake(config.stake_pool_program_id, *vote_account, *pool_address, seed)
}

/// Tells whether a validator is to be added: it is not in the pool yet.
pub fn vsa_add_needed(validators: &PoolValidators, vote_account: &Address) -> (r: bool)
    ensures
        r == !has_entry(validators.validators@, *vote_account),
{
    !validators.contains(vote_account)
}

/// Plans the addition of a validator to a pool.
pub fn command_vsa_add(
    config: &Config,
    pool: &StakePool,
    pool_address: &Address,
    vote_account: &Address,
    seed: u32,
) -> (plan: TransactionPlan)
    ensures
        is_staker_plan(
            plan,
            *config,
            add_validator_instruction(
                config.stake_pool_program_id,
                pool.staker,
                pool.reserve_stake,
                pool.validator_list,
                *pool_address,
                *vote_account,
                seed,
            ),
        ),
        ({
            let step = plan.instructions@[0];
            &&& plan.instructions@.len() == 1
            &&& step.program_id == config.stake_pool_program_id
            &&& step.accounts@.len() == 13
            &&& step.accounts@[0] == AccountMeta(*pool_address, false, true)
            &&& step.accounts@[1] == AccountMeta(pool.staker, true, false)
            &&& step.accounts@[2] == AccountMeta(pool.reserve_stake, false, true)
            &&& step.accounts@[4] == AccountMeta(pool.validator_list, false, true)
            &&& step.accounts@[5] == AccountMeta(
                validator_stake_address(
                    config.stake_pool_program_id@,
                    vote_account@,
                    pool_address@,
                    seed,
                ),
                false,
                true,
            )
            &&& step.accounts@[6] == AccountMeta(*vote_account, false, false)
            &&& step.data@ == seq![1u8] + spec_u32_to_le_bytes(seed)
        }),
        forall|a: Address| #[trigger]
            plan.signers@.contains(a) <==> a == config.fee_payer || a == config.staker,
        config.staker == pool.staker ==> plan.signed_exactly(config.fee_payer),
{
    let instruction = add_validator(
        config.stake_pool_program_id,
        pool.staker,
        pool.reserve_stake,
        pool.validator_list,
        *pool_address,
        *vote_account,
        seed,
    );
    let ghost added = instruction@;
    let plan = plan_single(config.fee_payer, config.staker, instruction);
    proof {
        law_staker_plan_is_signed_by_the_callers_staker(plan, *config, added);
    }
    plan
}

/// What the removal of a validator does: the stake account that leaves the pool, and
/// the transaction.
#[derive(PartialEq, Eq, Debug)]
pub struct ValidatorRemoval {
    pub stake_account: Address,
    pub plan: TransactionPlan,
}

/// Plans the removal of a validator from a pool. It fails where the validator is not in
/// the pool.
pub fn command_vsa_remove(
    config: &Config,
    pool: &StakePool,
    pool_address: &Address,
    validators: &PoolValidators,
    vote_account: &Address,
) -> (r: Result<ValidatorRemoval, CliError>)
    ensures
        r is Ok <==> has_entry(validators.validators@, *vote_account),
        r matches Err(error) ==> error == CliError::VoteAccountNotListed,
        r matches Ok(removal) ==> exists|i: int| #[trigger]
            first_entry_at(validators.validators@, *vote_account, i) && removal.stake_account
                == validator_stake_address(
                config.stake_pool_program_id@,
                vote_account@,
                pool_address@,
                validators.validators@[i].validator_seed_suffix,
            ) && is_staker_plan(
                removal.plan,
                *config,
                remove_validator_instruction(
                    config.stake_pool_program_id,
                    pool.staker,
                    pool.validator_list,
                    *pool_address,
                    *vote_account,
                    validators.validators@[i].validator_seed_suffix,
                    validators.validators@[i].transient_seed_suffix,
                ),
            ),
        r matches Ok(removal) ==> ({
            let step = removal.plan.instructions@[0];
            &&& removal.plan.instructions@.len() == 1
            &&& step.program_id == config.stake_pool_program_id
            &&& step.accounts@.len() == 8
            &&& step.accounts@[0] == AccountMeta(*pool_address, false, true)
            &&& step.accounts@[1] == AccountMeta(pool.staker, true, false)
            &&& step.accounts@[3] == AccountMeta(pool.validator_list, false, true)
            &&& step.accounts@[4] == AccountMeta(removal.stake_account, false, true)
            &&& step.data@ == seq![2u8]
        }),
        r matches Ok(removal) ==> forall|a: Address| #[trigger]
            removal.plan.signers@.contains(a) <==> a == config.fee_payer || a == config.staker,
        r matches Ok(removal) ==> config.staker == pool.staker ==> removal.plan.signed_exactly(
            config.fee_payer,
        ),
{
    let entry = match validators.find(vote_account) {
        Some(entry) => entry,
        None => {
            return Err(CliError::VoteAccountNotListed);
        },
    };
    let stake_account = find_validator_stake(
        config.stake_pool_program_id,
        *vote_account,
        *pool_address,
        entry.validator_seed_suffix,
    );
    let instruction = remove_validator(
        config.stake_pool_program_id,
        pool.staker,
        pool.validator_list,
        *pool_address,
        *vote_account,
        entry.validator_seed_suffix,
        entry.transient_seed_suffix,
    );
    let ghost removed = instruction@;
    let plan = plan_single(config.fee_payer, config.staker, instruction);
    proof {
        law_staker_plan_is_signed_by_the_callers_staker(plan, *config, removed);
    }
    Ok(ValidatorRemoval { stake_account, plan })
}

/// Plans an increase of the stake of a validator. It fails where the validator is not in
/// the pool.
pub fn command_increase_validator_stake(
    config: &Config,
    pool: &StakePool,
    pool_address: &Address,
    validators: &PoolValidators,
    vote_account: &Address,
    lamports: u64,
) -> (r: Result<TransactionPlan, CliError>)
    ensures
        r is Ok <==> has_entry(validators.validators@, *vote_account),
        r matches Err(error) ==> error == CliError::VoteAccountNotListed,
        r matches Ok(plan) ==> exists|i: int| #[trigger]
            first_entry_at(validators.validators@, *vote_account, i) && is_staker_plan(
                plan,
                *config,
                increase_validator_stake_instruction(
                    config.stake_pool_program_id,
                    pool.staker,
                    pool.reserve_stake,
                    pool.validator_list,
                    *pool_address,
                    *vote_account,
                    lamports,
                    validators.validators@[i].validator_seed_suffix,
                    validators.validators@[i].transient_seed_suffix,
                ),
            ),
        r matches Ok(plan) ==> ({
            let step = plan.instructions@[0];
            &&& plan.instructions@.len() == 1
            &&& step.program_id == config.stake_pool_program_id
            &&& step.accounts@.len() == 14
            &&& step.accounts@[0] == AccountMeta(*pool_address, false, false)
            &&& step.accounts@[1] == AccountMeta(pool.staker, true, false)
            &&& step.accounts@[3] == AccountMeta(pool.validator_list, false, true)
            &&& step.accounts@[4] == AccountMeta(pool.reserve_stake, false, true)
            &&& step.accounts@[7] == AccountMeta(*vote_account, false, false)
            &&& step.data@.take(9) == seq![4u8] + spec_u64_to_le_bytes(lamports)
        }),
        r matches Ok(plan) ==> forall|a: Address| #[trigger]
            plan.signers@.contains(a) <==> a == config.fee_payer || a == config.staker,
        r matches Ok(plan) ==> config.staker == pool.staker ==> plan.signed_exactly(
            config.fee_payer,
        ),
{
    let entry = match validators.find(vote_account) {
        Some(entry) => entry,
        None => {
            return Err(CliError::VoteAccountNotListed);
        },
    };
    let instruction = increase_validator_stake(
        config.stake_pool_program_id,
        pool.staker,
        pool.reserve_stake,
        pool.validator_list,
        *pool_address,
        *vote_account,
        lamports,
        entry.validator_seed_suffix,
        entry.transient_seed_suffix,
    );
    let ghost changed = instruction@;
    let plan = plan_single(config.fee_payer, config.staker, instruction);
    proof {
        law_staker_plan_is_signed_by_the_callers_staker(plan, *config, changed);
        lemma_auto_spec_u64_to_from_le_bytes();
        assert(changed.data.take(9) =~= seq![4u8] + spec_u64_to_le_bytes(lamports));
    }
    Ok(plan)
}

/// Plans a decrease of the stake of a validator. It fails where the validator is not in
/// the pool.
pub fn command_decrease_validator_stake(
    config: &Config,
    pool: &StakePool,
    pool_address: &Address,
    validators: &PoolValidators,
    vote_account: &Address,
    lamports: u64,
) -> (r: Result<TransactionPlan, CliError>)
    ensures
        r is Ok <==> has_entry(validators.validators@, *vote_account),
        r matches Err(error) ==> error == CliError::VoteAccountNotListed,
        r matches Ok(plan) ==> exists|i: int| #[trigger]
            first_entry_at(validators.validators@, *vote_account, i) && is_staker_plan(
                plan,
                *config,
                decrease_validator_stake_instruction(
                    config.stake_pool_program_id,
                    pool.staker,
                    pool.reserve_stake,
                    pool.validator_list,
                    *pool_address,
                    *vote_account,
                    lamports,
                    validators.validators@[i].validator_seed_suffix,
                    validators.validators@[i].transient_seed_suffix,
                ),
            ),
        r matches Ok(plan) ==> ({
            let step = plan.instructions@[0];
            &&& plan.instructions@.len() == 1
            &&& step.program_id == config.stake_pool_program_id
            &&& step.accounts@.len() == 11
            &&& step.accounts@[0] == AccountMeta(*pool_address, false, false)
            &&& step.accounts@[1] == AccountMeta(pool.staker, true, false)
            &&& step.accounts@[3] == AccountMeta(pool.validator_list, false, true)
            &&& step.accounts@[4] == AccountMeta(pool.reserve_stake, false, true)
            &&& step.data@.take(9) == seq![21u8] + spec_u64_to_le_bytes(lamports)
        }),
        r matches Ok(plan) ==> forall|a: Address| #[trigger]
            plan.signers@.contains(a) <==> a == config.fee_payer || a == config.staker,
        r matches Ok(plan) ==> config.staker == pool.staker ==> plan.signed_exactly(
            config.fee_payer,
        ),
{
    let entry = match validators.find(vote_account) {
        Some(entry) => entry,
        None => {
            return Err(CliError::VoteAccountNotListed);
        },
    };
    let instruction = decrease_validator_stake(
        config.stake_pool_program_id,
        pool.staker,
        pool.reserve_stake,
        pool.validator_list,
        *pool_address,
        *vote_account,
        lamports,
        entry.validator_seed_suffix,
        entry.transient_seed_suffix,
    );
    let ghost changed = instruction@;
    let plan = plan_single(config.fee_payer, config.staker, instruction);
    proof {
        law_staker_plan_is_signed_by_the_callers_staker(plan, *config, changed);
        lemma_auto_spec_u64_to_from_le_bytes();
        assert(changed.data.take(9) =~= seq![21u8] + spec_u64_to_le_bytes(lamports));
    }
    Ok(plan)
}

/// Plans the choice of the validator that a pool prefers for an operation, or of none.
pub fn command_set_preferred_validator(
    config: &Config,
    pool: &StakePool,
    pool_address: &Address,
    preferred_type: PreferredValidatorType,
    vote_address: &Option<Address>,
) -> (plan: TransactionPlan)
    ensures
        is_staker_plan(
            plan,
            *config,
            set_preferred_validator_instruction(
                config.stake_pool_program_id,
                *pool_address,
                config.staker,
                pool.validator_list,
                preferred_type,
                *vote_address,
            ),
        ),
        ({
            let step = plan.instructions@[0];
            &&& plan.instructions@.len() == 1
            &&& step.program_id == config.stake_pool_program_id
            &&& step.accounts@.len() == 3
            &&& step.accounts@[0] == AccountMeta(*pool_address, false, true)
            &&& step.accounts@[1] == AccountMeta(config.staker, true, false)
            &&& step.accounts@[2] == AccountMeta(pool.validator_list, false, false)
            &&& step.data@[0] == 5
            &&& step.data@[1] == (if preferred_type == PreferredValidatorType::Deposit {
                0u8
            } else {
                1u8
            })
            &&& vote_address matches Some(vote) ==> step.data@.skip(2) == seq![1u8] + vote@
            &&& vote_address is None ==> step.data@.skip(2) == seq![0u8]
        }),
        plan.signed_exactly(config.fee_payer),
{
    let instruction = set_preferred_validator(
        config.stake_pool_program_id,
        *pool_address,
        config.staker,
        pool.validator_list,
        preferred_type,
        *vote_address,
    );
    let ghost chosen = instruction@;
    let plan = plan_single(config.fee_payer, config.staker, instruction);
    proof {
        law_staker_plan_is_signed_by_the_callers_staker(plan, *config, chosen);
        if let Some(vote) = vote_address {
            assert(chosen.data.skip(2) =~= seq![1u8] + vote@);
        } else {
            assert(chosen.data.skip(2) =~= seq![0u8]);
        }
    }
    plan
}

/// No stake account of a seed from `first` to before `end` is free.
pub open spec fn all_taken(
    exists_at: spec_fn(Address) -> bool,
    program_id: Address,
    pool_address: Address,
    vote_account: Address,
    first: int,
    end: int,
) -> bool {
    forall|i: u32|
        first <= i < end ==> exists_at(
            #[trigger] validator_stake_address(program_id@, vote_account@, pool_address@, i),
        )
}

proof fn lemma_seed_found(
    exists_at: spec_fn(Address) -> bool,
    program_id: Address,
    pool_address: Address,
    vote_account: Address,
    first: u32,
    seed: u32,
)
    ensures
        seed_found(exists_at, program_id, pool_address, vote_account, first) == Some(seed) <==> (
        first <= seed && !exists_at(
            validator_stake_address(program_id@, vote_account@, pool_address@, seed),
        ) && all_taken(
            exists_at,
            program_id,
            pool_address,
            vote_account,
            first as int,
            seed as int,
        )),
    decreases u32::MAX - first,
{
    let account = validator_stake_address(program_id@, vote_account@, pool_address@, first);
    if exists_at(account) && first < u32::MAX {
        let next = (first + 1) as u32;
        lemma_seed_found(exists_at, program_id, pool_address, vote_account, next, seed);
    }
}

/// A new validator gets the least seed whose stake account is free.
pub proof fn law_least_free_seed_is_used(
    exists_at: spec_fn(Address) -> bool,
    program_id: Address,
    pool_address: Address,
    vote_account: Address,
    seed: u32,
)
    ensures
        seed_found(exists_at, program_id, pool_address, vote_account, 0) == Some(seed) <==> (
        !exists_at(validator_stake_address(program_id@, vote_account@, pool_address@, seed))
            && all_taken(exists_at, program_id, pool_address, vote_account, 0, seed as int)),
{
    lemma_seed_found(exists_at, program_id, pool_address, vote_account, 0, seed);
}

/// A plan of the staker holds the one instruction and is signed by the payer and the caller's
/// own staker, and by nobody else. Its payer spends nothing besides the fee.
pub proof fn law_staker_plan_is_signed_by_the_callers_staker(
    plan: TransactionPlan,
    config: Config,
    instruction: InstructionView,
)
    requires
        is_staker_plan(plan, config, instruction),
    ensures
        plan.instructions@.len() == 1,
        plan.instructions@[0]@ == instruction,
        forall|a: Address| #[trigger]
            plan.signers@.contains(a) <==> a == config.fee_payer || a == config.staker,
        plan.additional_fee == 0,
{
    law_plan_keeps_instructions_and_signers(
        plan,
        seq![instruction],
        seq![config.fee_payer, config.staker],
        0,
    );
    assert(plan.instructions@[0]@ =~= instruction);
    let listed = seq![config.fee_payer, config.staker];
    assert forall|a: Address| #[trigger] plan.signers@.contains(a) <==> a == config.fee_payer || a
        == config.staker by {
        assert(plan.signers@.contains(a) <==> listed.contains(a));
        assert(listed[0] == config.fee_payer && listed[1] == config.staker);
    }
}

/// The search for a seed uses a seed whose account is free, and goes on to the next one
/// otherwise.
pub proof fn law_a_free_seed_is_used(seed: u32)
    ensures
        seed_step(seed, false) == SeedStep::Use(seed),
        seed < u32::MAX ==> seed_step(seed, true) == SeedStep::Try((seed + 1) as u32),
{
}

} // verus!
