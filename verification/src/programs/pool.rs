//! Addresses and instructions of the stake pool program.
use vstd::bytes::{spec_u32_to_le_bytes, spec_u64_to_le_bytes};
use vstd::prelude::*;
use vstd::utf8::encode_utf8;

use spl_stake_pool::instruction as pool_program;
use spl_stake_pool::state::{self as pool_state, Fee as PoolFee, FeeType as PoolFeeType};
use std::num::NonZeroU32;

use crate::address::Address;
use crate::instruction::{
    any_signs, readonly, readonly_signer, signs, views, writable, writable_signer, AccountMeta,
    Instruction, InstructionView,
};
use crate::programs::ids::{
    CLOCK_SYSVAR, RENT_SYSVAR, STAKE_CONFIG, STAKE_HISTORY_SYSVAR, STAKE_PROGRAM, SYSTEM_PROGRAM,
    TOKEN_METADATA_PROGRAM,
};
use crate::programs::stake::{authorize_staker_instruction, authorize_withdrawer_instruction};
use crate::state::{
    fee_of_kind, Fee, FeeKind, FeeType, FundingType, PreferredValidatorType, ValidatorStakeInfo,
};

verus! {

/// The address that `spl_stake_pool::find_withdraw_authority_program_address`
/// derives.
pub uninterp spec fn withdraw_authority_address(program_id: Seq<u8>, pool: Seq<u8>) -> Address;

/// Calls `spl_stake_pool::find_withdraw_authority_program_address` and keeps
/// the address. The derivation tries every bump seed and panics when none of
/// them gives an address off the curve; no input is known for which that is so.
#[verifier::external_body]
pub(crate) fn find_withdraw_authority(program_id: Address, pool: Address) -> (r: Address)
    ensures
        r == withdraw_authority_address(program_id@, pool@),
{
    spl_stake_pool::find_withdraw_authority_program_address(&program_id.into(), &pool.into())
        .0
        .to_bytes()
}

/// The address that `spl_stake_pool::find_stake_program_address` derives. A
/// seed of zero stands for no seed.
pub uninterp spec fn validator_stake_address(
    program_id: Seq<u8>,
    vote_account: Seq<u8>,
    pool: Seq<u8>,
    seed: u32,
) -> Address;

/// Calls `spl_stake_pool::find_stake_program_address` and keeps the address.
/// It panics as `find_withdraw_authority` does.
#[verifier::external_body]
pub(crate) fn find_validator_stake(
    program_id: Address,
    vote_account: Address,
    pool: Address,
    seed: u32,
) -> (r: Address)
    ensures
        r == validator_stake_address(program_id@, vote_account@, pool@, seed),
{
    spl_stake_pool::find_stake_program_address(
        &program_id.into(),
        &vote_account.into(),
        &pool.into(),
        NonZeroU32::new(seed),
    )
        .0
        .to_bytes()
}

/// The address that `spl_stake_pool::find_transient_stake_program_address`
/// derives.
pub uninterp spec fn transient_stake_address(
    program_id: Seq<u8>,
    vote_account: Seq<u8>,
    pool: Seq<u8>,
    seed: u64,
) -> Address;

/// Calls `spl_stake_pool::find_transient_stake_program_address` and keeps the
/// address. It panics as `find_withdraw_authority` does.
#[verifier::external_body]
pub(crate) fn find_transient_stake(
    program_id: Address,
    vote_account: Address,
    pool: Address,
    seed: u64,
) -> (r: Address)
    ensures
        r == transient_stake_address(program_id@, vote_account@, pool@, seed),
{
    spl_stake_pool::find_transient_stake_program_address(
        &program_id.into(),
        &vote_account.into(),
        &pool.into(),
        seed,
    )
        .0
        .to_bytes()
}

/// The instruction that initializes a pool. The authority over deposits, where there is
/// one, is the last account.
pub open spec fn initialize_instruction(
    program_id: Address,
    pool: Address,
    manager: Address,
    staker: Address,
    withdraw_authority: Address,
    validator_list: Address,
    reserve_stake: Address,
    pool_mint: Address,
    manager_fee_account: Address,
    token_program: Address,
    deposit_authority: Option<Address>,
    epoch_fee: Fee,
    withdrawal_fee: Fee,
    deposit_fee: Fee,
    referral_fee: u8,
    max_validators: u32,
) -> InstructionView {
    InstructionView {
        program_id,
        accounts: seq![
            writable(pool),
            readonly_signer(manager),
            readonly(staker),
            readonly(withdraw_authority),
            writable(validator_list),
            readonly(reserve_stake),
            writable(pool_mint),
            writable(manager_fee_account),
            readonly(token_program),
        ] + match deposit_authority {
            Some(a) => seq![readonly_signer(a)],
            None => seq![],
        },
        data: seq![0u8] + rate_bytes(epoch_fee) + rate_bytes(withdrawal_fee) + rate_bytes(deposit_fee)
            + seq![referral_fee] + spec_u32_to_le_bytes(max_validators),
    }
}

/// Calls `spl_stake_pool::instruction::initialize`. The manager signs, and so
/// does the deposit authority where there is one.
#[verifier::external_body]
pub(crate) fn initialize(
    program_id: Address,
    pool: Address,
    manager: Address,
    staker: Address,
    withdraw_authority: Address,
    validator_list: Address,
    reserve_stake: Address,
    pool_mint: Address,
    manager_fee_account: Address,
    token_program: Address,
    deposit_authority: Option<Address>,
    epoch_fee: Fee,
    withdrawal_fee: Fee,
    deposit_fee: Fee,
    referral_fee: u8,
    max_validators: u32,
) -> (r: Instruction)
    ensures
        r@ == initialize_instruction(
            program_id,
            pool,
            manager,
            staker,
            withdraw_authority,
            validator_list,
            reserve_stake,
            pool_mint,
            manager_fee_account,
            token_program,
            deposit_authority,
            epoch_fee,
            withdrawal_fee,
            deposit_fee,
            referral_fee,
            max_validators,
        ),
        forall|a: Address| #[trigger] signs(r@, a) <==> (a == manager || deposit_authority == Some(a)),
{
    let ix = pool_program::initialize(
        &program_id.into(), &pool.into(), &manager.into(), &staker.into(),
        &withdraw_authority.into(), &validator_list.into(), &reserve_stake.into(),
        &pool_mint.into(), &manager_fee_account.into(), &token_program.into(),
        deposit_authority.map(Into::into),
        PoolFee { numerator: epoch_fee.numerator, denominator: epoch_fee.denominator },
        PoolFee { numerator: withdrawal_fee.numerator, denominator: withdrawal_fee.denominator },
        PoolFee { numerator: deposit_fee.numerator, denominator: deposit_fee.denominator },
        referral_fee, max_validators
    );
    Instruction {
        program_id: ix.program_id.to_bytes(),
        accounts: ix.accounts.iter().map(|m| AccountMeta(m.pubkey.to_bytes(), m.is_signer, m.is_writable)).collect(),
        data: ix.data }
}

/// The instruction that adds a validator to a pool. A seed of zero stands for no
/// seed.
pub open spec fn add_validator_instruction(
    program_id: Address,
    staker: Address,
    reserve_stake: Address,
    validator_list: Address,
    pool: Address,
    vote_account: Address,
    seed: u32,
) -> InstructionView {
    let withdraw_authority = withdraw_authority_address(program_id@, pool@);
    let validator_stake = validator_stake_address(program_id@, vote_account@, pool@, seed);
    InstructionView {
        program_id,
        accounts: seq![
            writable(pool),
            readonly_signer(staker),
            writable(reserve_stake),
            readonly(withdraw_authority),
            writable(validator_list),
            writable(validator_stake),
            readonly(vote_account),
            readonly(RENT_SYSVAR),
            readonly(CLOCK_SYSVAR),
            readonly(STAKE_HISTORY_SYSVAR),
            readonly(STAKE_CONFIG),
            readonly(SYSTEM_PROGRAM),
            readonly(STAKE_PROGRAM),
        ],
        data: seq![1u8] + spec_u32_to_le_bytes(seed),
    }
}

/// Calls `spl_stake_pool::instruction::add_validator_to_pool_with_vote`. A seed
/// of zero stands for no seed.
/// The builder reads the pool's staker, reserve and validator list and no
/// other part of it. The staker signs. It panics as `find_withdraw_authority` does.
#[verifier::external_body]
pub(crate) fn add_validator(
    program_id: Address,
    staker: Address,
    reserve_stake: Address,
    validator_list: Address,
    pool: Address,
    vote_account: Address,
    seed: u32,
) -> (r: Instruction)
    ensures
        r@ == add_validator_instruction(
            program_id,
            staker,
            reserve_stake,
            validator_list,
            pool,
            vote_account,
            seed,
        ),
        forall|a: Address| #[trigger] signs(r@, a) <==> a == staker,
{
    let stake_pool = pool_state::StakePool {
        staker: staker.into(), reserve_stake: reserve_stake.into(),
        validator_list: validator_list.into(), ..Default::default()
    };
    let ix = pool_program::add_validator_to_pool_with_vote(
        &program_id.into(), &stake_pool, &pool.into(), &vote_account.into(),
        NonZeroU32::new(seed)
    );
    Instruction {
        program_id: ix.program_id.to_bytes(),
        accounts: ix.accounts.iter().map(|m| AccountMeta(m.pubkey.to_bytes(), m.is_signer, m.is_writable)).collect(),
        data: ix.data }
}

/// The instruction that removes a validator from a pool. A seed of zero stands for
/// no seed.
pub open spec fn remove_validator_instruction(
    program_id: Address,
    staker: Address,
    validator_list: Address,
    pool: Address,
    vote_account: Address,
    seed: u32,
    transient_seed: u64,
) -> InstructionView {
    let withdraw_authority = withdraw_authority_address(program_id@, pool@);
    let validator_stake = validator_stake_address(program_id@, vote_account@, pool@, seed);
    let transient_stake = transient_stake_address(
        program_id@,
        vote_account@,
        pool@,
        transient_seed,
    );
    InstructionView {
        program_id,
        accounts: seq![
            writable(pool),
            readonly_signer(staker),
            readonly(withdraw_authority),
            writable(validator_list),
            writable(validator_stake),
            writable(transient_stake),
            readonly(CLOCK_SYSVAR),
            readonly(STAKE_PROGRAM),
        ],
        data: seq![2u8],
    }
}

/// Calls `spl_stake_pool::instruction::remove_validator_from_pool_with_vote`. A
/// seed of zero stands for no seed. The builder reads the pool's staker and
/// validator list and no other part of it. The staker signs. It panics as
/// `find_withdraw_authority` does.
#[verifier::external_body]
pub(crate) fn remove_validator(
    program_id: Address,
    staker: Address,
    validator_list: Address,
    pool: Address,
    vote_account: Address,
    seed: u32,
    transient_seed: u64,
) -> (r: Instruction)
    ensures
        r@ == remove_validator_instruction(
            program_id,
            staker,
            validator_list,
            pool,
            vote_account,
            seed,
            transient_seed,
        ),
        forall|a: Address| #[trigger] signs(r@, a) <==> a == staker,
{
    let stake_pool = pool_state::StakePool {
        staker: staker.into(),
        validator_list: validator_list.into(), ..Default::default()
    };
    let ix = pool_program::remove_validator_from_pool_with_vote(
        &program_id.into(), &stake_pool, &pool.into(), &vote_account.into(),
        NonZeroU32::new(seed), transient_seed
    );
    Instruction {
        program_id: ix.program_id.to_bytes(),
        accounts: ix.accounts.iter().map(|m| AccountMeta(m.pubkey.to_bytes(), m.is_signer, m.is_writable)).collect(),
        data: ix.data }
}

/// The instruction that moves lamports from the reserve to the transient stake of a
/// validator. A seed of zero stands for no seed.
pub open spec fn increase_validator_stake_instruction(
    program_id: Address,
    staker: Address,
    reserve_stake: Address,
    validator_list: Address,
    pool: Address,
    vote_account: Address,
    lamports: u64,
    seed: u32,
    transient_seed: u64,
) -> InstructionView {
    let withdraw_authority = withdraw_authority_address(program_id@, pool@);
    let validator_stake = validator_stake_address(program_id@, vote_account@, pool@, seed);
    let transient_stake = transient_stake_address(
        program_id@,
        vote_account@,
        pool@,
        transient_seed,
    );
    InstructionView {
        program_id,
        accounts: seq![
            readonly(pool),
            readonly_signer(staker),
            readonly(withdraw_authority),
            writable(validator_list),
            writable(reserve_stake),
            writable(transient_stake),
            readonly(validator_stake),
            readonly(vote_account),
            readonly(CLOCK_SYSVAR),
            readonly(RENT_SYSVAR),
            readonly(STAKE_HISTORY_SYSVAR),
            readonly(STAKE_CONFIG),
            readonly(SYSTEM_PROGRAM),
            readonly(STAKE_PROGRAM),
        ],
        data: seq![4u8] + spec_u64_to_le_bytes(lamports) + spec_u64_to_le_bytes(transient_seed),
    }
}

/// Calls `spl_stake_pool::instruction::increase_validator_stake_with_vote`. A
/// seed of zero stands for no seed.
/// The builder reads the pool's staker, reserve and validator list and no
/// other part of it. The staker signs. It panics as `find_withdraw_authority` does.
#[verifier::external_body]
pub(crate) fn increase_validator_stake(
    program_id: Address,
    staker: Address,
    reserve_stake: Address,
    validator_list: Address,
    pool: Address,
    vote_account: Address,
    lamports: u64,
    seed: u32,
    transient_seed: u64,
) -> (r: Instruction)
    ensures
        r@ == increase_validator_stake_instruction(
            program_id,
            staker,
            reserve_stake,
            validator_list,
            pool,
            vote_account,
            lamports,
            seed,
            transient_seed,
        ),
        forall|a: Address| #[trigger] signs(r@, a) <==> a == staker,
{
    let stake_pool = pool_state::StakePool {
        staker: staker.into(), reserve_stake: reserve_stake.into(),
        validator_list: validator_list.into(), ..Default::default()
    };
    let ix = pool_program::increase_validator_stake_with_vote(
        &program_id.into(), &stake_pool, &pool.into(), &vote_account.into(), lamports,
        NonZeroU32::new(seed), transient_seed
    );
    Instruction {
        program_id: ix.program_id.to_bytes(),
        accounts: ix.accounts.iter().map(|m| AccountMeta(m.pubkey.to_bytes(), m.is_signer, m.is_writable)).collect(),
        data: ix.data }
}

/// The instruction that moves lamports from the stake of a validator to its transient
/// stake, whose rent the reserve gives. A seed of zero stands for no seed.
pub open spec fn decrease_validator_stake_instruction(
    program_id: Address,
    staker: Address,
    reserve_stake: Address,
    validator_list: Address,
    pool: Address,
    vote_account: Address,
    lamports: u64,
    seed: u32,
    transient_seed: u64,
) -> InstructionView {
    let withdraw_authority = withdraw_authority_address(program_id@, pool@);
    let validator_stake = validator_stake_address(program_id@, vote_account@, pool@, seed);
    let transient_stake = transient_stake_address(
        program_id@,
        vote_account@,
        pool@,
        transient_seed,
    );
    InstructionView {
        program_id,
        accounts: seq![
            readonly(pool),
            readonly_signer(staker),
            readonly(withdraw_authority),
            writable(validator_list),
            writable(reserve_stake),
            writable(validator_stake),
            writable(transient_stake),
            readonly(CLOCK_SYSVAR),
            readonly(STAKE_HISTORY_SYSVAR),
            readonly(SYSTEM_PROGRAM),
            readonly(STAKE_PROGRAM),
        ],
        data: seq![21u8] + spec_u64_to_le_bytes(lamports) + spec_u64_to_le_bytes(transient_seed),
    }
}

/// Calls `spl_stake_pool::instruction::decrease_validator_stake_with_vote`. A
/// seed of zero stands for no seed.
/// The builder reads the pool's staker, reserve and validator list and no
/// other part of it. The staker signs. It panics as `find_withdraw_authority` does.
#[verifier::external_body]
pub(crate) fn decrease_validator_stake(
    program_id: Address,
    staker: Address,
    reserve_stake: Address,
    validator_list: Address,
    pool: Address,
    vote_account: Address,
    lamports: u64,
    seed: u32,
    transient_seed: u64,
) -> (r: Instruction)
    ensures
        r@ == decrease_validator_stake_instruction(
            program_id,
            staker,
            reserve_stake,
            validator_list,
            pool,
            vote_account,
            lamports,
            seed,
            transient_seed,
        ),
        forall|a: Address| #[trigger] signs(r@, a) <==> a == staker,
{
    let stake_pool = pool_state::StakePool {
        staker: staker.into(), reserve_stake: reserve_stake.into(),
        validator_list: validator_list.into(), ..Default::default()
    };
    let ix = pool_program::decrease_validator_stake_with_vote(
        &program_id.into(), &stake_pool, &pool.into(), &vote_account.into(), lamports,
        NonZeroU32::new(seed), transient_seed
    );
    Instruction {
        program_id: ix.program_id.to_bytes(),
        accounts: ix.accounts.iter().map(|m| AccountMeta(m.pubkey.to_bytes(), m.is_signer, m.is_writable)).collect(),
        data: ix.data }
}

/// The instruction that prefers a validator for an operation, or none.
pub open spec fn set_preferred_validator_instruction(
    program_id: Address,
    pool: Address,
    staker: Address,
    validator_list: Address,
    preferred_type: PreferredValidatorType,
    vote_account: Option<Address>,
) -> InstructionView {
    InstructionView {
        program_id,
        accounts: seq![writable(pool), readonly_signer(staker), readonly(validator_list)],
        data: seq![
            5u8,
            match preferred_type {
                PreferredValidatorType::Deposit => 0,
                PreferredValidatorType::Withdraw => 1,
            },
        ] + match vote_account {
            Some(a) => seq![1u8] + a@,
            None => seq![0u8],
        },
    }
}

/// Calls `spl_stake_pool::instruction::set_preferred_validator`. The staker
/// signs.
#[verifier::external_body]
pub(crate) fn set_preferred_validator(
    program_id: Address,
    pool: Address,
    staker: Address,
    validator_list: Address,
    preferred_type: PreferredValidatorType,
    vote_account: Option<Address>,
) -> (r: Instruction)
    ensures
        r@ == set_preferred_validator_instruction(
            program_id,
            pool,
            staker,
            validator_list,
            preferred_type,
            vote_account,
        ),
        forall|a: Address| #[trigger] signs(r@, a) <==> a == staker,
{
    let kind = match preferred_type {
        PreferredValidatorType::Deposit => pool_program::PreferredValidatorType::Deposit,
        PreferredValidatorType::Withdraw => pool_program::PreferredValidatorType::Withdraw,
    };
    let ix = pool_program::set_preferred_validator(
        &program_id.into(), &pool.into(), &staker.into(), &validator_list.into(), kind,
        vote_account.map(Into::into)
    );
    Instruction {
        program_id: ix.program_id.to_bytes(),
        accounts: ix.accounts.iter().map(|m| AccountMeta(m.pubkey.to_bytes(), m.is_signer, m.is_writable)).collect(),
        data: ix.data }
}

/// The address that `spl_stake_pool::find_deposit_authority_program_address`
/// derives.
pub uninterp spec fn deposit_authority_address(program_id: Seq<u8>, pool: Seq<u8>) -> Address;

/// The instructions that deposit a stake into a pool. The first two give the stake to
/// the deposit authority, which signs where `authority_signs`.
pub open spec fn deposit_stake_instructions(
    program_id: Address,
    pool: Address,
    validator_list: Address,
    deposit_authority: Address,
    authority_signs: bool,
    withdraw_authority: Address,
    stake: Address,
    stake_authority: Address,
    validator_stake: Address,
    reserve_stake: Address,
    token_receiver: Address,
    manager_fee_account: Address,
    referrer: Address,
    pool_mint: Address,
    token_program: Address,
) -> Seq<InstructionView> {
    seq![
        authorize_staker_instruction(stake, stake_authority, deposit_authority),
        authorize_withdrawer_instruction(stake, stake_authority, deposit_authority),
        InstructionView {
            program_id,
            accounts: seq![
                writable(pool),
                writable(validator_list),
                AccountMeta(deposit_authority, authority_signs, false),
                readonly(withdraw_authority),
                writable(stake),
                writable(validator_stake),
                writable(reserve_stake),
                writable(token_receiver),
                writable(manager_fee_account),
                writable(referrer),
                writable(pool_mint),
                readonly(CLOCK_SYSVAR),
                readonly(STAKE_HISTORY_SYSVAR),
                readonly(token_program),
                readonly(STAKE_PROGRAM),
            ],
            data: seq![9u8],
        },
    ]
}

/// Calls `spl_stake_pool::instruction::deposit_stake`, where `stake_authority`
/// is the withdraw authority of the deposited stake. That authority signs, and the
/// deposit authority is the one that
/// `spl_stake_pool::find_deposit_authority_program_address` derives. It panics as
/// `find_withdraw_authority` does.
#[verifier::external_body]
pub(crate) fn deposit_stake(
    program_id: Address,
    pool: Address,
    validator_list: Address,
    withdraw_authority: Address,
    stake: Address,
    stake_authority: Address,
    validator_stake: Address,
    reserve_stake: Address,
    token_receiver: Address,
    manager_fee_account: Address,
    referrer: Address,
    pool_mint: Address,
    token_program: Address,
) -> (r: Vec<Instruction>)
    ensures
        views(r@) == deposit_stake_instructions(
            program_id,
            pool,
            validator_list,
            deposit_authority_address(program_id@, pool@),
            false,
            withdraw_authority,
            stake,
            stake_authority,
            validator_stake,
            reserve_stake,
            token_receiver,
            manager_fee_account,
            referrer,
            pool_mint,
            token_program,
        ),
        forall|a: Address| #[trigger] any_signs(views(r@), a) <==> a == stake_authority,
{
    pool_program::deposit_stake(
        &program_id.into(), &pool.into(), &validator_list.into(), &withdraw_authority.into(),
        &stake.into(), &stake_authority.into(), &validator_stake.into(), &reserve_stake.into(),
        &token_receiver.into(), &manager_fee_account.into(), &referrer.into(),
        &pool_mint.into(), &token_program.into()
    ).into_iter().map(|ix| Instruction {
        program_id: ix.program_id.to_bytes(),
        accounts: ix.accounts.iter().map(|m| AccountMeta(m.pubkey.to_bytes(), m.is_signer, m.is_writable)).collect(),
        data: ix.data,
    }).collect()
}

/// Calls `spl_stake_pool::instruction::deposit_stake_with_authority`, where
/// `stake_authority` is the withdraw authority of the deposited stake. Both
/// authorities sign.
#[verifier::external_body]
pub(crate) fn deposit_stake_with_authority(
    program_id: Address,
    pool: Address,
    validator_list: Address,
    deposit_authority: Address,
    withdraw_authority: Address,
    stake: Address,
    stake_authority: Address,
    validator_stake: Address,
    reserve_stake: Address,
    token_receiver: Address,
    manager_fee_account: Address,
    referrer: Address,
    pool_mint: Address,
    token_program: Address,
) -> (r: Vec<Instruction>)
    ensures
        views(r@) == deposit_stake_instructions(
            program_id,
            pool,
            validator_list,
            deposit_authority,
            true,
            withdraw_authority,
            stake,
            stake_authority,
            validator_stake,
            reserve_stake,
            token_receiver,
            manager_fee_account,
            referrer,
            pool_mint,
            token_program,
        ),
        forall|a: Address| #[trigger] any_signs(views(r@), a) <==> (a == stake_authority || a == deposit_authority),
{
    pool_program::deposit_stake_with_authority(
        &program_id.into(), &pool.into(), &validator_list.into(), &deposit_authority.into(),
        &withdraw_authority.into(), &stake.into(), &stake_authority.into(),
        &validator_stake.into(), &reserve_stake.into(), &token_receiver.into(),
        &manager_fee_account.into(), &referrer.into(), &pool_mint.into(), &token_program.into()
    ).into_iter().map(|ix| Instruction {
        program_id: ix.program_id.to_bytes(),
        accounts: ix.accounts.iter().map(|m| AccountMeta(m.pubkey.to_bytes(), m.is_signer, m.is_writable)).collect(),
        data: ix.data,
    }).collect()
}

/// The instruction that deposits lamports into a pool.
pub open spec fn deposit_sol_instruction(
    program_id: Address,
    pool: Address,
    withdraw_authority: Address,
    reserve_stake: Address,
    lamports_from: Address,
    token_receiver: Address,
    manager_fee_account: Address,
    referrer: Address,
    pool_mint: Address,
    token_program: Address,
    lamports: u64,
) -> InstructionView {
    InstructionView {
        program_id,
        accounts: seq![
            writable(pool),
            readonly(withdraw_authority),
            writable(reserve_stake),
            writable_signer(lamports_from),
            writable(token_receiver),
            writable(manager_fee_account),
            writable(referrer),
            writable(pool_mint),
            readonly(SYSTEM_PROGRAM),
            readonly(token_program),
        ],
        data: seq![14u8] + spec_u64_to_le_bytes(lamports),
    }
}

/// Calls `spl_stake_pool::instruction::deposit_sol`. The account that gives the
/// lamports signs.
#[verifier::external_body]
pub(crate) fn deposit_sol(
    program_id: Address,
    pool: Address,
    withdraw_authority: Address,
    reserve_stake: Address,
    lamports_from: Address,
    token_receiver: Address,
    manager_fee_account: Address,
    referrer: Address,
    pool_mint: Address,
    token_program: Address,
    lamports: u64,
) -> (r: Instruction)
    ensures
        r@ == deposit_sol_instruction(
            program_id,
            pool,
            withdraw_authority,
            reserve_stake,
            lamports_from,
            token_receiver,
            manager_fee_account,
            referrer,
            pool_mint,
            token_program,
            lamports,
        ),
        forall|a: Address| #[trigger] signs(r@, a) <==> a == lamports_from,
{
    let ix = pool_program::deposit_sol(
        &program_id.into(), &pool.into(), &withdraw_authority.into(), &reserve_stake.into(),
        &lamports_from.into(), &token_receiver.into(), &manager_fee_account.into(),
        &referrer.into(), &pool_mint.into(), &token_program.into(), lamports
    );
    Instruction {
        program_id: ix.program_id.to_bytes(),
        accounts: ix.accounts.iter().map(|m| AccountMeta(m.pubkey.to_bytes(), m.is_signer, m.is_writable)).collect(),
        data: ix.data }
}

/// The instruction that deposits lamports into a pool with its authority.
pub open spec fn deposit_sol_with_authority_instruction(
    program_id: Address,
    pool: Address,
    deposit_authority: Address,
    withdraw_authority: Address,
    reserve_stake: Address,
    lamports_from: Address,
    token_receiver: Address,
    manager_fee_account: Address,
    referrer: Address,
    pool_mint: Address,
    token_program: Address,
    lamports: u64,
) -> InstructionView {
    InstructionView {
        program_id,
        accounts: seq![
            writable(pool),
            readonly(withdraw_authority),
            writable(reserve_stake),
            writable_signer(lamports_from),
            writable(token_receiver),
            writable(manager_fee_account),
            writable(referrer),
            writable(pool_mint),
            readonly(SYSTEM_PROGRAM),
            readonly(token_program),
            readonly_signer(deposit_authority),
        ],
        data: seq![14u8] + spec_u64_to_le_bytes(lamports),
    }
}

/// Calls `spl_stake_pool::instruction::deposit_sol_with_authority`. The account
/// that gives the lamports and the authority sign.
#[verifier::external_body]
pub(crate) fn deposit_sol_with_authority(
    program_id: Address,
    pool: Address,
    deposit_authority: Address,
    withdraw_authority: Address,
    reserve_stake: Address,
    lamports_from: Address,
    token_receiver: Address,
    manager_fee_account: Address,
    referrer: Address,
    pool_mint: Address,
    token_program: Address,
    lamports: u64,
) -> (r: Instruction)
    ensures
        r@ == deposit_sol_with_authority_instruction(
            program_id,
            pool,
            deposit_authority,
            withdraw_authority,
            reserve_stake,
            lamports_from,
            token_receiver,
            manager_fee_account,
            referrer,
            pool_mint,
            token_program,
            lamports,
        ),
        forall|a: Address| #[trigger] signs(r@, a) <==> (a == lamports_from || a == deposit_authority),
{
    let ix = pool_program::deposit_sol_with_authority(
        &program_id.into(), &pool.into(), &deposit_authority.into(), &withdraw_authority.into(),
        &reserve_stake.into(), &lamports_from.into(), &token_receiver.into(),
        &manager_fee_account.into(), &referrer.into(), &pool_mint.into(), &token_program.into(),
        lamports
    );
    Instruction {
        program_id: ix.program_id.to_bytes(),
        accounts: ix.accounts.iter().map(|m| AccountMeta(m.pubkey.to_bytes(), m.is_signer, m.is_writable)).collect(),
        data: ix.data }
}

/// The instruction that withdraws stake from a pool for pool tokens.
pub open spec fn withdraw_stake_instruction(
    program_id: Address,
    pool: Address,
    validator_list: Address,
    withdraw_authority: Address,
    stake: Address,
    stake_receiver: Address,
    stake_authority: Address,
    transfer_authority: Address,
    token_account: Address,
    manager_fee_account: Address,
    pool_mint: Address,
    token_program: Address,
    pool_tokens: u64,
) -> InstructionView {
    InstructionView {
        program_id,
        accounts: seq![
            writable(pool),
            writable(validator_list),
            readonly(withdraw_authority),
            writable(stake),
            writable(stake_receiver),
            readonly(stake_authority),
            readonly_signer(transfer_authority),
            writable(token_account),
            writable(manager_fee_account),
            writable(pool_mint),
            readonly(CLOCK_SYSVAR),
            readonly(token_program),
            readonly(STAKE_PROGRAM),
        ],
        data: seq![10u8] + spec_u64_to_le_bytes(pool_tokens),
    }
}

/// Calls `spl_stake_pool::instruction::withdraw_stake`. The authority over the
/// transfer of pool tokens signs.
#[verifier::external_body]
pub(crate) fn withdraw_stake(
    program_id: Address,
    pool: Address,
    validator_list: Address,
    withdraw_authority: Address,
    stake: Address,
    stake_receiver: Address,
    stake_authority: Address,
    transfer_authority: Address,
    token_account: Address,
    manager_fee_account: Address,
    pool_mint: Address,
    token_program: Address,
    pool_tokens: u64,
) -> (r: Instruction)
    ensures
        r@ == withdraw_stake_instruction(
            program_id,
            pool,
            validator_list,
            withdraw_authority,
            stake,
            stake_receiver,
            stake_authority,
            transfer_authority,
            token_account,
            manager_fee_account,
            pool_mint,
            token_program,
            pool_tokens,
        ),
        forall|a: Address| #[trigger] signs(r@, a) <==> a == transfer_authority,
{
    let ix = pool_program::withdraw_stake(
        &program_id.into(), &pool.into(), &validator_list.into(), &withdraw_authority.into(),
        &stake.into(), &stake_receiver.into(), &stake_authority.into(),
        &transfer_authority.into(), &token_account.into(), &manager_fee_account.into(),
        &pool_mint.into(), &token_program.into(), pool_tokens
    );
    Instruction {
        program_id: ix.program_id.to_bytes(),
        accounts: ix.accounts.iter().map(|m| AccountMeta(m.pubkey.to_bytes(), m.is_signer, m.is_writable)).collect(),
        data: ix.data }
}

/// The instruction that withdraws lamports from the reserve of a pool for pool tokens.
pub open spec fn withdraw_sol_instruction(
    program_id: Address,
    pool: Address,
    withdraw_authority: Address,
    transfer_authority: Address,
    token_account: Address,
    reserve_stake: Address,
    sol_receiver: Address,
    manager_fee_account: Address,
    pool_mint: Address,
    token_program: Address,
    pool_tokens: u64,
) -> InstructionView {
    InstructionView {
        program_id,
        accounts: seq![
            writable(pool),
            readonly(withdraw_authority),
            readonly_signer(transfer_authority),
            writable(token_account),
            writable(reserve_stake),
            writable(sol_receiver),
            writable(manager_fee_account),
            writable(pool_mint),
            readonly(CLOCK_SYSVAR),
            readonly(STAKE_HISTORY_SYSVAR),
            readonly(STAKE_PROGRAM),
            readonly(token_program),
        ],
        data: seq![16u8] + spec_u64_to_le_bytes(pool_tokens),
    }
}

/// Calls `spl_stake_pool::instruction::withdraw_sol`. The authority over the
/// transfer of pool tokens signs.
#[verifier::external_body]
pub(crate) fn withdraw_sol(
    program_id: Address,
    pool: Address,
    withdraw_authority: Address,
    transfer_authority: Address,
    token_account: Address,
    reserve_stake: Address,
    sol_receiver: Address,
    manager_fee_account: Address,
    pool_mint: Address,
    token_program: Address,
    pool_tokens: u64,
) -> (r: Instruction)
    ensures
        r@ == withdraw_sol_instruction(
            program_id,
            pool,
            withdraw_authority,
            transfer_authority,
            token_account,
            reserve_stake,
            sol_receiver,
            manager_fee_account,
            pool_mint,
            token_program,
            pool_tokens,
        ),
        forall|a: Address| #[trigger] signs(r@, a) <==> a == transfer_authority,
{
    let ix = pool_program::withdraw_sol(
        &program_id.into(), &pool.into(), &withdraw_authority.into(),
        &transfer_authority.into(), &token_account.into(), &reserve_stake.into(),
        &sol_receiver.into(), &manager_fee_account.into(), &pool_mint.into(),
        &token_program.into(), pool_tokens
    );
    Instruction {
        program_id: ix.program_id.to_bytes(),
        accounts: ix.accounts.iter().map(|m| AccountMeta(m.pubkey.to_bytes(), m.is_signer, m.is_writable)).collect(),
        data: ix.data }
}

/// The instruction that withdraws lamports from the reserve of a pool for pool tokens,
/// with its authority.
pub open spec fn withdraw_sol_with_authority_instruction(
    program_id: Address,
    pool: Address,
    sol_withdraw_authority: Address,
    withdraw_authority: Address,
    transfer_authority: Address,
    token_account: Address,
    reserve_stake: Address,
    sol_receiver: Address,
    manager_fee_account: Address,
    pool_mint: Address,
    token_program: Address,
    pool_tokens: u64,
) -> InstructionView {
    InstructionView {
        program_id,
        accounts: seq![
            writable(pool),
            readonly(withdraw_authority),
            readonly_signer(transfer_authority),
            writable(token_account),
            writable(reserve_stake),
            writable(sol_receiver),
            writable(manager_fee_account),
            writable(pool_mint),
            readonly(CLOCK_SYSVAR),
            readonly(STAKE_HISTORY_SYSVAR),
            readonly(STAKE_PROGRAM),
            readonly(token_program),
            readonly_signer(sol_withdraw_authority),
        ],
        data: seq![16u8] + spec_u64_to_le_bytes(pool_tokens),
    }
}

/// Calls `spl_stake_pool::instruction::withdraw_sol_with_authority`. The
/// authority over the transfer of pool tokens and the authority over
/// withdrawals sign.
#[verifier::external_body]
pub(crate) fn withdraw_sol_with_authority(
    program_id: Address,
    pool: Address,
    sol_withdraw_authority: Address,
    withdraw_authority: Address,
    transfer_authority: Address,
    token_account: Address,
    reserve_stake: Address,
    sol_receiver: Address,
    manager_fee_account: Address,
    pool_mint: Address,
    token_program: Address,
    pool_tokens: u64,
) -> (r: Instruction)
    ensures
        r@ == withdraw_sol_with_authority_instruction(
            program_id,
            pool,
            sol_withdraw_authority,
            withdraw_authority,
            transfer_authority,
            token_account,
            reserve_stake,
            sol_receiver,
            manager_fee_account,
            pool_mint,
            token_program,
            pool_tokens,
        ),
        forall|a: Address| #[trigger] signs(r@, a) <==> (a == transfer_authority || a
            == sol_withdraw_authority),
{
    let ix = pool_program::withdraw_sol_with_authority(
        &program_id.into(), &pool.into(), &sol_withdraw_authority.into(),
        &withdraw_authority.into(), &transfer_authority.into(), &token_account.into(),
        &reserve_stake.into(), &sol_receiver.into(), &manager_fee_account.into(),
        &pool_mint.into(), &token_program.into(), pool_tokens
    );
    Instruction {
        program_id: ix.program_id.to_bytes(),
        accounts: ix.accounts.iter().map(|m| AccountMeta(m.pubkey.to_bytes(), m.is_signer, m.is_writable)).collect(),
        data: ix.data }
}

/// The instruction that names a new manager and a new receiver of fees.
pub open spec fn set_manager_instruction(
    program_id: Address,
    pool: Address,
    manager: Address,
    new_manager: Address,
    new_fee_receiver: Address,
) -> InstructionView {
    InstructionView {
        program_id,
        accounts: seq![
            writable(pool),
            readonly_signer(manager),
            readonly_signer(new_manager),
            readonly(new_fee_receiver),
        ],
        data: seq![11u8],
    }
}

/// Calls `spl_stake_pool::instruction::set_manager`. Both managers sign.
#[verifier::external_body]
pub(crate) fn set_manager(
    program_id: Address,
    pool: Address,
    manager: Address,
    new_manager: Address,
    new_fee_receiver: Address,
) -> (r: Instruction)
    ensures
        r@ == set_manager_instruction(
            program_id,
            pool,
            manager,
            new_manager,
            new_fee_receiver,
        ),
        forall|a: Address| #[trigger] signs(r@, a) <==> (a == manager || a == new_manager),
{
    let ix = pool_program::set_manager(
        &program_id.into(), &pool.into(), &manager.into(), &new_manager.into(),
        &new_fee_receiver.into()
    );
    Instruction {
        program_id: ix.program_id.to_bytes(),
        accounts: ix.accounts.iter().map(|m| AccountMeta(m.pubkey.to_bytes(), m.is_signer, m.is_writable)).collect(),
        data: ix.data }
}

/// The instruction that names a new staker.
pub open spec fn set_staker_instruction(
    program_id: Address,
    pool: Address,
    manager: Address,
    new_staker: Address,
) -> InstructionView {
    InstructionView {
        program_id,
        accounts: seq![writable(pool), readonly_signer(manager), readonly(new_staker)],
        data: seq![13u8],
    }
}

/// Calls `spl_stake_pool::instruction::set_staker`. The manager signs.
#[verifier::external_body]
pub(crate) fn set_staker(
    program_id: Address,
    pool: Address,
    manager: Address,
    new_staker: Address,
) -> (r: Instruction)
    ensures
        r@ == set_staker_instruction(
            program_id,
            pool,
            manager,
            new_staker,
        ),
        forall|a: Address| #[trigger] signs(r@, a) <==> a == manager,
{
    let ix = pool_program::set_staker(
        &program_id.into(), &pool.into(), &manager.into(), &new_staker.into()
    );
    Instruction {
        program_id: ix.program_id.to_bytes(),
        accounts: ix.accounts.iter().map(|m| AccountMeta(m.pubkey.to_bytes(), m.is_signer, m.is_writable)).collect(),
        data: ix.data }
}

/// The instruction that names the authority over a kind of funding, or none.
pub open spec fn set_funding_authority_instruction(
    program_id: Address,
    pool: Address,
    manager: Address,
    new_authority: Option<Address>,
    funding_type: FundingType,
) -> InstructionView {
    InstructionView {
        program_id,
        accounts: seq![writable(pool), readonly_signer(manager)] + match new_authority {
            Some(a) => seq![readonly(a)],
            None => seq![],
        },
        data: seq![
            15u8,
            match funding_type {
                FundingType::StakeDeposit => 0,
                FundingType::SolDeposit => 1,
                FundingType::SolWithdraw => 2,
            },
        ],
    }
}

/// Calls `spl_stake_pool::instruction::set_funding_authority`. The manager
/// signs.
#[verifier::external_body]
pub(crate) fn set_funding_authority(
    program_id: Address,
    pool: Address,
    manager: Address,
    new_authority: Option<Address>,
    funding_type: FundingType,
) -> (r: Instruction)
    ensures
        r@ == set_funding_authority_instruction(
            program_id,
            pool,
            manager,
            new_authority,
            funding_type,
        ),
        forall|a: Address| #[trigger] signs(r@, a) <==> a == manager,
{
    let kind = match funding_type {
        FundingType::StakeDeposit => pool_program::FundingType::StakeDeposit,
        FundingType::SolDeposit => pool_program::FundingType::SolDeposit,
        FundingType::SolWithdraw => pool_program::FundingType::SolWithdraw,
    };
    let ix = pool_program::set_funding_authority(
        &program_id.into(), &pool.into(), &manager.into(),
        new_authority.map(Into::into).as_ref(), kind
    );
    Instruction {
        program_id: ix.program_id.to_bytes(),
        accounts: ix.accounts.iter().map(|m| AccountMeta(m.pubkey.to_bytes(), m.is_signer, m.is_writable)).collect(),
        data: ix.data }
}

/// How an instruction writes a fee: a tag for its kind, then the percentage of a
/// referral or the denominator and the numerator of a rate.
pub open spec fn fee_bytes(fee: FeeType) -> Seq<u8> {
    match fee {
        FeeType::SolReferral(percentage) => seq![0u8, percentage],
        FeeType::StakeReferral(percentage) => seq![1u8, percentage],
        FeeType::Epoch(rate) => seq![2u8] + rate_bytes(rate),
        FeeType::StakeWithdrawal(rate) => seq![3u8] + rate_bytes(rate),
        FeeType::SolDeposit(rate) => seq![4u8] + rate_bytes(rate),
        FeeType::StakeDeposit(rate) => seq![5u8] + rate_bytes(rate),
        FeeType::SolWithdrawal(rate) => seq![6u8] + rate_bytes(rate),
    }
}

/// How an instruction writes a rate.
pub open spec fn rate_bytes(rate: Fee) -> Seq<u8> {
    spec_u64_to_le_bytes(rate.denominator) + spec_u64_to_le_bytes(rate.numerator)
}

/// The instruction that sets a fee.
pub open spec fn set_fee_instruction(
    program_id: Address,
    pool: Address,
    manager: Address,
    fee: FeeType,
) -> InstructionView {
    InstructionView {
        program_id,
        accounts: seq![writable(pool), readonly_signer(manager)],
        data: seq![12u8] + fee_bytes(fee),
    }
}

/// Calls `spl_stake_pool::instruction::set_fee` with the fee of that kind, which
/// holds the rate or, for a referral, the percentage. The manager signs.
#[verifier::external_body]
pub(crate) fn set_fee(
    program_id: Address,
    pool: Address,
    manager: Address,
    kind: FeeKind,
    rate: Fee,
    percentage: u8,
) -> (r: Instruction)
    ensures
        r@ == set_fee_instruction(
            program_id,
            pool,
            manager,
            fee_of_kind(kind, rate, percentage),
        ),
        forall|a: Address| #[trigger] signs(r@, a) <==> a == manager,
{
    let rate = PoolFee { numerator: rate.numerator, denominator: rate.denominator };
    let fee = match kind {
        FeeKind::SolReferral => PoolFeeType::SolReferral(percentage),
        FeeKind::StakeReferral => PoolFeeType::StakeReferral(percentage),
        FeeKind::Epoch => PoolFeeType::Epoch(rate),
        FeeKind::StakeWithdrawal => PoolFeeType::StakeWithdrawal(rate),
        FeeKind::SolDeposit => PoolFeeType::SolDeposit(rate),
        FeeKind::StakeDeposit => PoolFeeType::StakeDeposit(rate),
        FeeKind::SolWithdrawal => PoolFeeType::SolWithdrawal(rate),
    };
    let ix = pool_program::set_fee(&program_id.into(), &pool.into(), &manager.into(), fee);
    Instruction {
        program_id: ix.program_id.to_bytes(),
        accounts: ix.accounts.iter().map(|m| AccountMeta(m.pubkey.to_bytes(), m.is_signer, m.is_writable)).collect(),
        data: ix.data }
}

/// The address that
/// `spl_stake_pool::inline_mpl_token_metadata::pda::find_metadata_account` derives.
pub uninterp spec fn metadata_address(pool_mint: Seq<u8>) -> Address;

/// A text as instructions hold it: the number of its bytes, and its bytes in UTF-8.
pub open spec fn text_data(text: Seq<char>) -> Seq<u8> {
    spec_u32_to_le_bytes(encode_utf8(text).len() as u32) + encode_utf8(text)
}

/// The instruction that creates the metadata of a pool's token, which is kept at
/// `metadata`.
pub open spec fn create_token_metadata_instruction(
    program_id: Address,
    pool: Address,
    manager: Address,
    pool_mint: Address,
    payer: Address,
    metadata: Address,
    name: Seq<char>,
    symbol: Seq<char>,
    uri: Seq<char>,
) -> InstructionView {
    InstructionView {
        program_id,
        accounts: seq![
            readonly(pool),
            readonly_signer(manager),
            readonly(withdraw_authority_address(program_id@, pool@)),
            readonly(pool_mint),
            writable_signer(payer),
            writable(metadata),
            readonly(TOKEN_METADATA_PROGRAM),
            readonly(SYSTEM_PROGRAM),
        ],
        data: seq![17u8] + text_data(name) + text_data(symbol) + text_data(uri),
    }
}

/// Calls `spl_stake_pool::instruction::create_token_metadata`, which panics on a
/// text whose length does not fit 32 bits, and as `find_withdraw_authority` does.
/// The manager and the payer sign.
#[verifier::external_body]
pub(crate) fn create_token_metadata(
    program_id: Address,
    pool: Address,
    manager: Address,
    pool_mint: Address,
    payer: Address,
    name: String,
    symbol: String,
    uri: String,
) -> (r: Instruction)
    requires
        encode_utf8(name@).len() <= u32::MAX,
        encode_utf8(symbol@).len() <= u32::MAX,
        encode_utf8(uri@).len() <= u32::MAX,
    ensures
        r@ == create_token_metadata_instruction(
            program_id,
            pool,
            manager,
            pool_mint,
            payer,
            metadata_address(pool_mint@),
            name@,
            symbol@,
            uri@,
        ),
        forall|a: Address| #[trigger] signs(r@, a) <==> (a == manager || a == payer),
{
    let ix = pool_program::create_token_metadata(
        &program_id.into(), &pool.into(), &manager.into(), &pool_mint.into(), &payer.into(),
        name, symbol, uri
    );
    Instruction {
        program_id: ix.program_id.to_bytes(),
        accounts: ix.accounts.iter().map(|m| AccountMeta(m.pubkey.to_bytes(), m.is_signer, m.is_writable)).collect(),
        data: ix.data }
}

/// The instruction that changes the metadata of a pool's token, which is kept at
/// `metadata`.
pub open spec fn update_token_metadata_instruction(
    program_id: Address,
    pool: Address,
    manager: Address,
    metadata: Address,
    name: Seq<char>,
    symbol: Seq<char>,
    uri: Seq<char>,
) -> InstructionView {
    InstructionView {
        program_id,
        accounts: seq![
            readonly(pool),
            readonly_signer(manager),
            readonly(withdraw_authority_address(program_id@, pool@)),
            writable(metadata),
            readonly(TOKEN_METADATA_PROGRAM),
        ],
        data: seq![18u8] + text_data(name) + text_data(symbol) + text_data(uri),
    }
}

/// Calls `spl_stake_pool::instruction::update_token_metadata`, which panics on a
/// text whose length does not fit 32 bits, and as `find_withdraw_authority` does.
/// The manager signs.
#[verifier::external_body]
pub(crate) fn update_token_metadata(
    program_id: Address,
    pool: Address,
    manager: Address,
    pool_mint: Address,
    name: String,
    symbol: String,
    uri: String,
) -> (r: Instruction)
    requires
        encode_utf8(name@).len() <= u32::MAX,
        encode_utf8(symbol@).len() <= u32::MAX,
        encode_utf8(uri@).len() <= u32::MAX,
    ensures
        r@ == update_token_metadata_instruction(
            program_id,
            pool,
            manager,
            metadata_address(pool_mint@),
            name@,
            symbol@,
            uri@,
        ),
        forall|a: Address| #[trigger] signs(r@, a) <==> a == manager,
{
    let ix = pool_program::update_token_metadata(
        &program_id.into(), &pool.into(), &manager.into(), &pool_mint.into(), name, symbol, uri
    );
    Instruction {
        program_id: ix.program_id.to_bytes(),
        accounts: ix.accounts.iter().map(|m| AccountMeta(m.pubkey.to_bytes(), m.is_signer, m.is_writable)).collect(),
        data: ix.data }
}

/// A validator list as the stake pool program's crate holds it.
#[verifier::external_type_specification]
#[verifier::external_body]
pub struct OutsideValidatorList(spl_stake_pool::state::ValidatorList);

/// What the entries of a list of the stake pool program's crate hold.
pub uninterp spec fn validator_entries(
    list: spl_stake_pool::state::ValidatorList,
) -> Seq<ValidatorStakeInfo>;

/// Writes entries as a `spl_stake_pool::state::ValidatorList`, part by part.
#[verifier::external_body]
pub(crate) fn to_validator_list(entries: &Vec<ValidatorStakeInfo>) -> (r:
    spl_stake_pool::state::ValidatorList)
    ensures
        validator_entries(r) == entries@,
{
    let validators = entries.iter().map(|v| pool_state::ValidatorStakeInfo {
        active_stake_lamports: v.active_stake_lamports.into(),
        transient_stake_lamports: v.transient_stake_lamports.into(),
        last_update_epoch: v.last_update_epoch.into(),
        transient_seed_suffix: v.transient_seed_suffix.into(),
        validator_seed_suffix: v.validator_seed_suffix.into(),
        vote_account_address: v.vote_account_address.into(),
        ..Default::default()
    }).collect();
    pool_state::ValidatorList { validators, ..Default::default() }
}

/// The accounts of the entries of a list: of each its stake account and its transient
/// stake account.
pub open spec fn entry_accounts(
    program_id: Address,
    pool: Address,
    entries: Seq<ValidatorStakeInfo>,
) -> Seq<AccountMeta> {
    Seq::new(
        2 * entries.len(),
        |i: int|
            {
                let entry = entries[i / 2];
                if i % 2 == 0 {
                    writable(
                        validator_stake_address(
                            program_id@,
                            entry.vote_account_address@,
                            pool@,
                            entry.validator_seed_suffix,
                        ),
                    )
                } else {
                    writable(
                        transient_stake_address(
                            program_id@,
                            entry.vote_account_address@,
                            pool@,
                            entry.transient_seed_suffix,
                        ),
                    )
                }
            },
    )
}

/// The four entries from place `start` on, or those that are left.
pub open spec fn four_from(entries: Seq<ValidatorStakeInfo>, start: int) -> Seq<
    ValidatorStakeInfo,
> {
    entries.subrange(
        start,
        if start + 4 <= entries.len() {
            start + 4
        } else {
            entries.len() as int
        },
    )
}

/// How many fours the entries make, the last of which may be smaller.
pub open spec fn fours_in(entries: Seq<ValidatorStakeInfo>) -> nat {
    (entries.len() + 3) / 4
}

/// The instruction that updates the balances of the four entries from place `start` on.
pub open spec fn update_four_instruction(
    program_id: Address,
    pool: Address,
    validator_list: Address,
    reserve_stake: Address,
    entries: Seq<ValidatorStakeInfo>,
    start: int,
    no_merge: bool,
) -> InstructionView {
    InstructionView {
        program_id,
        accounts: seq![
            readonly(pool),
            readonly(withdraw_authority_address(program_id@, pool@)),
            writable(validator_list),
            writable(reserve_stake),
            readonly(CLOCK_SYSVAR),
            readonly(STAKE_HISTORY_SYSVAR),
            readonly(STAKE_PROGRAM),
        ] + entry_accounts(program_id, pool, four_from(entries, start)),
        data: seq![6u8] + spec_u32_to_le_bytes(start as u32) + seq![
            if no_merge {
                1u8
            } else {
                0u8
            },
        ],
    }
}

/// The instructions that update the balances of the fours that begin at `starts`.
pub open spec fn update_fours(
    program_id: Address,
    pool: Address,
    validator_list: Address,
    reserve_stake: Address,
    entries: Seq<ValidatorStakeInfo>,
    starts: Seq<int>,
    no_merge: bool,
) -> Seq<InstructionView> {
    Seq::new(
        starts.len(),
        |k: int|
            update_four_instruction(
                program_id,
                pool,
                validator_list,
                reserve_stake,
                entries,
                starts[k],
                no_merge,
            ),
    )
}

/// The places at which the first `count` fours begin.
pub open spec fn all_starts(count: nat) -> Seq<int> {
    Seq::new(count, |k: int| 4 * k)
}

/// One of the entries was last updated before `epoch`.
pub open spec fn any_stale(entries: Seq<ValidatorStakeInfo>, epoch: u64) -> bool {
    exists|i: int| 0 <= i < entries.len() && (#[trigger] entries[i]).last_update_epoch < epoch
}

/// The places at which those of the first `count` fours begin that hold an entry last
/// updated before `epoch`.
pub open spec fn stale_starts(entries: Seq<ValidatorStakeInfo>, epoch: u64, count: nat) -> Seq<int>
    decreases count,
{
    if count == 0 {
        seq![]
    } else {
        let before = stale_starts(entries, epoch, (count - 1) as nat);
        if any_stale(four_from(entries, 4 * (count - 1)), epoch) {
            before.push(4 * (count - 1))
        } else {
            before
        }
    }
}

/// The instructions that come after those for the entries: one updates the balance of
/// the pool, the other takes removed validators from its list.
pub open spec fn update_rest(
    program_id: Address,
    validator_list: Address,
    reserve_stake: Address,
    manager_fee_account: Address,
    pool_mint: Address,
    token_program: Address,
    pool: Address,
) -> Seq<InstructionView> {
    seq![
        InstructionView {
            program_id,
            accounts: seq![
                writable(pool),
                readonly(withdraw_authority_address(program_id@, pool@)),
                writable(validator_list),
                readonly(reserve_stake),
                writable(manager_fee_account),
                writable(pool_mint),
                readonly(token_program),
            ],
            data: seq![7u8],
        },
        InstructionView {
            program_id,
            accounts: seq![readonly(pool), writable(validator_list)],
            data: seq![8u8],
        },
    ]
}

/// Calls `spl_stake_pool::instruction::update_stake_pool`, which panics on a list
/// with more entries than 32 bits can number, and as `find_withdraw_authority` does.
/// The builder reads these five parts of the pool and no other. It builds one
/// instruction for every four entries or part of four, and two after them.
#[verifier::external_body]
pub(crate) fn update_pool(
    program_id: Address,
    validator_list: Address,
    reserve_stake: Address,
    manager_fee_account: Address,
    pool_mint: Address,
    token_program: Address,
    pool: Address,
    list: &spl_stake_pool::state::ValidatorList,
    no_merge: bool,
) -> (r: (Vec<Instruction>, Vec<Instruction>))
    requires
        validator_entries(*list).len() <= u32::MAX,
    ensures
        views(r.0@) == update_fours(
            program_id,
            pool,
            validator_list,
            reserve_stake,
            validator_entries(*list),
            all_starts(fours_in(validator_entries(*list))),
            no_merge,
        ),
        views(r.1@) == update_rest(
            program_id,
            validator_list,
            reserve_stake,
            manager_fee_account,
            pool_mint,
            token_program,
            pool,
        ),
{
    let stake_pool = pool_state::StakePool {
        validator_list: validator_list.into(), reserve_stake: reserve_stake.into(),
        manager_fee_account: manager_fee_account.into(), pool_mint: pool_mint.into(),
        token_program_id: token_program.into(), ..Default::default()
    };
    let (updates, rest) = pool_program::update_stake_pool(
        &program_id.into(), &stake_pool, list, &pool.into(), no_merge,
    );
    let [updates, rest] = [updates, rest].map(|ixs| ixs.into_iter().map(|ix| Instruction {
        program_id: ix.program_id.to_bytes(),
        accounts: ix.accounts.iter().map(|m| AccountMeta(m.pubkey.to_bytes(), m.is_signer, m.is_writable)).collect(),
        data: ix.data,
    }).collect());
    (updates, rest)
}

/// Calls `spl_stake_pool::instruction::update_stale_stake_pool`, which panics on a
/// list with more entries than 32 bits can number, and as `find_withdraw_authority`
/// does. The builder reads these five parts of the pool and no other. Of every four
/// entries or part of four it skips those that are all updated in `epoch`; two
/// instructions come after the others.
#[verifier::external_body]
pub(crate) fn update_stale_pool(
    program_id: Address,
    validator_list: Address,
    reserve_stake: Address,
    manager_fee_account: Address,
    pool_mint: Address,
    token_program: Address,
    pool: Address,
    list: &spl_stake_pool::state::ValidatorList,
    no_merge: bool,
    epoch: u64,
) -> (r: (Vec<Instruction>, Vec<Instruction>))
    requires
        validator_entries(*list).len() <= u32::MAX,
    ensures
        views(r.0@) == update_fours(
            program_id,
            pool,
            validator_list,
            reserve_stake,
            validator_entries(*list),
            stale_starts(validator_entries(*list), epoch, fours_in(validator_entries(*list))),
            no_merge,
        ),
        views(r.1@) == update_rest(
            program_id,
            validator_list,
            reserve_stake,
            manager_fee_account,
            pool_mint,
            token_program,
            pool,
        ),
{
    let stake_pool = pool_state::StakePool {
        validator_list: validator_list.into(), reserve_stake: reserve_stake.into(),
        manager_fee_account: manager_fee_account.into(), pool_mint: pool_mint.into(),
        token_program_id: token_program.into(), ..Default::default()
    };
    let (updates, rest) = pool_program::update_stale_stake_pool(
        &program_id.into(), &stake_pool, list, &pool.into(), no_merge, epoch,
    );
    let [updates, rest] = [updates, rest].map(|ixs| ixs.into_iter().map(|ix| Instruction {
        program_id: ix.program_id.to_bytes(),
        accounts: ix.accounts.iter().map(|m| AccountMeta(m.pubkey.to_bytes(), m.is_signer, m.is_writable)).collect(),
        data: ix.data,
    }).collect());
    (updates, rest)
}

} // verus!
