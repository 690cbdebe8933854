//! What the manager of a pool decides: its manager, staker, authorities, fees and the
//! metadata of its token.
use vstd::bytes::spec_u64_to_le_bytes;
use vstd::prelude::*;

use crate::address::{same_address, Address};
use crate::config::Config;
use crate::error::CliError;
use crate::instruction::{
    add_instruction, add_signer, law_plan_keeps_instructions_and_signers, no_instructions,
    plan_single, plan_transaction, signed_by, views, AccountMeta, InstructionView, TransactionPlan,
};
use crate::programs::pool::{
    create_token_metadata_instruction, metadata_address, set_fee, set_fee_instruction,
    set_funding_authority, set_funding_authority_instruction, set_manager, set_manager_instruction,
    set_staker, set_staker_instruction, text_data, update_token_metadata_instruction,
};
use crate::state::{Fee, FeeKind, FeeType, FundingType, StakePool};

verus! {

/// `plan` sends one instruction that the manager signs.
pub open spec fn is_manager_plan(
    plan: TransactionPlan,
    config: Config,
    instruction: InstructionView,
) -> bool {
    plan.comprises(seq![instruction], seq![config.fee_payer, config.manager], 0)
}

/// Plans the creation of the metadata of a pool's token.
pub fn create_token_metadata(
    config: &Config,
    pool: &StakePool,
    pool_address: &Address,
    name: String,
    symbol: String,
    uri: String,
) -> (plan: TransactionPlan)
    requires
        vstd::utf8::encode_utf8(name@).len() <= u32::MAX,
        vstd::utf8::encode_utf8(symbol@).len() <= u32::MAX,
        vstd::utf8::encode_utf8(uri@).len() <= u32::MAX,
    ensures
        is_manager_plan(
            plan,
            *config,
            create_token_metadata_instruction(
                config.stake_pool_program_id,
                *pool_address,
                pool.manager,
                pool.pool_mint,
                config.fee_payer,
                metadata_address(pool.pool_mint@),
                name@,
                symbol@,
                uri@,
            ),
        ),
        config.manager == pool.manager ==> plan.signed_exactly(config.fee_payer),
        ({
            let step = plan.instructions@[0];
            &&& plan.instructions@.len() == 1
            &&& step.program_id == config.stake_pool_program_id
            &&& step.accounts@.len() == 8
            &&& step.accounts@[0] == AccountMeta(*pool_address, false, false)
            &&& step.accounts@[1] == AccountMeta(pool.manager, true, false)
            &&& step.accounts@[3] == AccountMeta(pool.pool_mint, false, false)
            &&& step.accounts@[4] == AccountMeta(config.fee_payer, true, true)
            &&& step.accounts@[5] == AccountMeta(metadata_address(pool.pool_mint@), false, true)
            &&& step.data@ == seq![17u8] + text_data(name@) + text_data(symbol@) + text_data(uri@)
        }),
        forall|a: Address| #[trigger]
            plan.signers@.contains(a) <==> a == config.fee_payer || a == config.manager,
{
    let instruction = crate::programs::pool::create_token_metadata(
        config.stake_pool_program_id,
        *pool_address,
        pool.manager,
        pool.pool_mint,
        config.fee_payer,
        name,
        symbol,
        uri,
    );
    let ghost changed = instruction@;
    let plan = plan_single(config.fee_payer, config.manager, instruction);
    proof {
        law_manager_plan_is_signed_by_the_callers_manager(plan, *config, changed);
    }
    plan
}

/// Plans a change of the metadata of a pool's token.
pub fn update_token_metadata(
    config: &Config,
    pool: &StakePool,
    pool_address: &Address,
    name: String,
    symbol: String,
    uri: String,
) -> (plan: TransactionPlan)
    requires
        vstd::utf8::encode_utf8(name@).len() <= u32::MAX,
        vstd::utf8::encode_utf8(symbol@).len() <= u32::MAX,
        vstd::utf8::encode_utf8(uri@).len() <= u32::MAX,
    ensures
        is_manager_plan(
            plan,
            *config,
            update_token_metadata_instruction(
                config.stake_pool_program_id,
                *pool_address,
                pool.manager,
                metadata_address(pool.pool_mint@),
                name@,
                symbol@,
                uri@,
            ),
        ),
        config.manager == pool.manager ==> plan.signed_exactly(config.fee_payer),
        ({
            let step = plan.instructions@[0];
            &&& plan.instructions@.len() == 1
            &&& step.program_id == config.stake_pool_program_id
            &&& step.accounts@.len() == 5
            &&& step.accounts@[0] == AccountMeta(*pool_address, false, false)
            &&& step.accounts@[1] == AccountMeta(pool.manager, true, false)
            &&& step.accounts@[3] == AccountMeta(metadata_address(pool.pool_mint@), false, true)
            &&& step.data@ == seq![18u8] + text_data(name@) + text_data(symbol@) + text_data(uri@)
        }),
        forall|a: Address| #[trigger]
            plan.signers@.contains(a) <==> a == config.fee_payer || a == config.manager,
{
    let instruction = crate::programs::pool::update_token_metadata(
        config.stake_pool_program_id,
        *pool_address,
        pool.manager,
        pool.pool_mint,
        name,
        symbol,
        uri,
    );
    let ghost changed = instruction@;
    let plan = plan_single(config.fee_payer, config.manager, instruction);
    proof {
        law_manager_plan_is_signed_by_the_callers_manager(plan, *config, changed);
    }
    plan
}

/// An account that is to receive the fees of a pool, and the mint of its tokens.
#[derive(Clone, Copy, PartialEq, Eq, Debug)]
pub struct FeeReceiver {
    pub account: Address,
    pub mint: Address,
}

/// The manager that a pool is to have: the new one, or the one it has.
pub open spec fn manager_after(pool: StakePool, new_manager: Option<Address>) -> Address {
    match new_manager {
        Some(manager) => manager,
        None => pool.manager,
    }
}

/// The account that is to receive the fees of a pool: the new one, or the one it has.
pub open spec fn fee_receiver_after(
    pool: StakePool,
    new_fee_receiver: Option<FeeReceiver>,
) -> Address {
    match new_fee_receiver {
        Some(receiver) => receiver.account,
        None => pool.manager_fee_account,
    }
}

/// The signers of a change of manager: the new manager, where there is one, the payer
/// and the manager.
pub open spec fn set_manager_signers(config: Config, new_manager: Option<Address>) -> Seq<Address> {
    (match new_manager {
        Some(manager) => seq![manager],
        None => seq![],
    }) + seq![config.fee_payer, config.manager]
}

/// Plans a change of the manager of a pool and of the account that receives its fees.
/// It fails where a new receiver holds other tokens than the pool's.
pub fn command_set_manager(
    config: &Config,
    pool: &StakePool,
    pool_address: &Address,
    new_manager: &Option<Address>,
    new_fee_receiver: &Option<FeeReceiver>,
) -> (r: Result<TransactionPlan, CliError>)
    ensures
        r is Err <==> new_fee_receiver is Some && new_fee_receiver->0.mint != pool.pool_mint,
        r matches Err(error) ==> error == CliError::WrongFeeReceiverMint,
        r matches Ok(plan) ==> plan.comprises(
            seq![
                set_manager_instruction(
                    config.stake_pool_program_id,
                    *pool_address,
                    config.manager,
                    manager_after(*pool, *new_manager),
                    fee_receiver_after(*pool, *new_fee_receiver),
                ),
            ],
            set_manager_signers(*config, *new_manager),
            0,
        ),
        r matches Ok(plan) ==> ({
            let step = plan.instructions@[0];
            &&& plan.instructions@.len() == 1
            &&& step.program_id == config.stake_pool_program_id
            &&& step.accounts@.len() == 4
            &&& step.accounts@[0] == AccountMeta(*pool_address, false, true)
            &&& step.accounts@[1] == AccountMeta(config.manager, true, false)
            &&& step.accounts@[2].1
            &&& *new_manager matches Some(manager) ==> step.accounts@[2].0 == manager
            &&& new_manager is None ==> step.accounts@[2].0 == pool.manager
            &&& !step.accounts@[3].1
            &&& *new_fee_receiver matches Some(receiver) ==> step.accounts@[3].0 == receiver.account
            &&& new_fee_receiver is None ==> step.accounts@[3].0 == pool.manager_fee_account
            &&& step.data@ == seq![11u8]
        }),
        r matches Ok(plan) ==> forall|a: Address| #[trigger]
            plan.signers@.contains(a) <==> a == config.fee_payer || a == config.manager
                || *new_manager == Some(a),
        r matches Ok(plan) ==> new_manager is Some || pool.manager == config.manager
            ==> plan.signed_exactly(config.fee_payer),
{
    let fee_receiver: Address = match new_fee_receiver {
        Some(receiver) => {
            if !same_address(&receiver.mint, &pool.pool_mint) {
                return Err(CliError::WrongFeeReceiverMint);
            }
            receiver.account
        },
        None => pool.manager_fee_account,
    };
    let (manager, mut signers) = match new_manager {
        Some(manager) => {
            let mut signers = signed_by(*manager);
            add_signer(&mut signers, config.fee_payer);
            (*manager, signers)
        },
        None => (pool.manager, signed_by(config.fee_payer)),
    };
    add_signer(&mut signers, config.manager);
    let mut instructions = no_instructions();
    add_instruction(
        &mut instructions,
        set_manager(
            config.stake_pool_program_id,
            *pool_address,
            config.manager,
            manager,
            fee_receiver,
        ),
    );
    assert(views(instructions@) =~= seq![
        set_manager_instruction(
            config.stake_pool_program_id,
            *pool_address,
            config.manager,
            manager_after(*pool, *new_manager),
            fee_receiver_after(*pool, *new_fee_receiver),
        ),
    ]);
    assert(signers@ =~= set_manager_signers(*config, *new_manager));
    let ghost step = instructions@[0]@;
    proof {
        assert(views(instructions@)[0] == step);
    }
    let plan = plan_transaction(instructions, &signers, 0);
    proof {
        assert forall|a: Address| #[trigger] plan.signers@.contains(a) <==> a == config.fee_payer
            || a == config.manager || *new_manager == Some(a) by {
            law_change_of_manager_is_signed_by_both(*config, *new_manager, a);
        }
    }
    Ok(plan)
}

/// Plans a change of the staker of a pool.
pub fn command_set_staker(config: &Config, pool_address: &Address, new_staker: &Address) -> (plan:
    TransactionPlan)
    ensures
        is_manager_plan(
            plan,
            *config,
            set_staker_instruction(
                config.stake_pool_program_id,
                *pool_address,
                config.manager,
                *new_staker,
            ),
        ),
        plan.signed_exactly(config.fee_payer),
        ({
            let step = plan.instructions@[0];
            &&& plan.instructions@.len() == 1
            &&& step.program_id == config.stake_pool_program_id
            &&& step.accounts@.len() == 3
            &&& step.accounts@[0] == AccountMeta(*pool_address, false, true)
            &&& step.accounts@[1] == AccountMeta(config.manager, true, false)
            &&& step.accounts@[2] == AccountMeta(*new_staker, false, false)
            &&& step.data@ == seq![13u8]
        }),
        forall|a: Address| #[trigger]
            plan.signers@.contains(a) <==> a == config.fee_payer || a == config.manager,
{
    let instruction = set_staker(
        config.stake_pool_program_id,
        *pool_address,
        config.manager,
        *new_staker,
    );
    let ghost changed = instruction@;
    let plan = plan_single(config.fee_payer, config.manager, instruction);
    proof {
        law_manager_plan_is_signed_by_the_callers_manager(plan, *config, changed);
    }
    plan
}

/// Plans a change of an authority over the funds of a pool.
pub fn command_set_funding_authority(
    config: &Config,
    pool_address: &Address,
    new_authority: &Option<Address>,
    funding_type: FundingType,
) -> (plan: TransactionPlan)
    ensures
        is_manager_plan(
            plan,
            *config,
            set_funding_authority_instruction(
                config.stake_pool_program_id,
                *pool_address,
                config.manager,
                *new_authority,
                funding_type,
            ),
        ),
        plan.signed_exactly(config.fee_payer),
        ({
            let step = plan.instructions@[0];
            &&& plan.instructions@.len() == 1
            &&& step.program_id == config.stake_pool_program_id
            &&& step.accounts@.len() == (if new_authority is Some {
                3int
            } else {
                2
            })
            &&& step.accounts@[0] == AccountMeta(*pool_address, false, true)
            &&& step.accounts@[1] == AccountMeta(config.manager, true, false)
            &&& *new_authority matches Some(authority) ==> step.accounts@[2] == AccountMeta(
                authority,
                false,
                false,
            )
            &&& step.data@.len() == 2
            &&& step.data@[0] == 15
            &&& funding_type == FundingType::StakeDeposit ==> step.data@[1] == 0
            &&& funding_type == FundingType::SolDeposit ==> step.data@[1] == 1
            &&& funding_type == FundingType::SolWithdraw ==> step.data@[1] == 2
        }),
        forall|a: Address| #[trigger]
            plan.signers@.contains(a) <==> a == config.fee_payer || a == config.manager,
{
    let instruction = set_funding_authority(
        config.stake_pool_program_id,
        *pool_address,
        config.manager,
        *new_authority,
        funding_type,
    );
    let ghost changed = instruction@;
    let plan = plan_single(config.fee_payer, config.manager, instruction);
    proof {
        law_manager_plan_is_signed_by_the_callers_manager(plan, *config, changed);
    }
    plan
}

/// Plans a change of a fee of a pool.
pub fn command_set_fee(config: &Config, pool_address: &Address, new_fee: FeeType) -> (plan:
    TransactionPlan)
    ensures
        is_manager_plan(
            plan,
            *config,
            set_fee_instruction(
                config.stake_pool_program_id,
                *pool_address,
                config.manager,
                new_fee,
            ),
        ),
        plan.signed_exactly(config.fee_payer),
        ({
            let step = plan.instructions@[0];
            &&& plan.instructions@.len() == 1
            &&& step.program_id == config.stake_pool_program_id
            &&& step.accounts@.len() == 2
            &&& step.accounts@[0] == AccountMeta(*pool_address, false, true)
            &&& step.accounts@[1] == AccountMeta(config.manager, true, false)
            &&& new_fee matches FeeType::SolReferral(percentage) ==> step.data@ == seq![
                12u8,
                0,
                percentage,
            ]
            &&& new_fee matches FeeType::StakeReferral(percentage) ==> step.data@ == seq![
                12u8,
                1,
                percentage,
            ]
            &&& new_fee matches FeeType::Epoch(rate) ==> step.data@ == seq![12u8, 2] + spec_u64_to_le_bytes(
                rate.denominator,
            ) + spec_u64_to_le_bytes(rate.numerator)
            &&& new_fee matches FeeType::StakeWithdrawal(rate) ==> step.data@ == seq![12u8, 3] + spec_u64_to_le_bytes(
                rate.denominator,
            ) + spec_u64_to_le_bytes(rate.numerator)
            &&& new_fee matches FeeType::SolDeposit(rate) ==> step.data@ == seq![12u8, 4] + spec_u64_to_le_bytes(
                rate.denominator,
            ) + spec_u64_to_le_bytes(rate.numerator)
            &&& new_fee matches FeeType::StakeDeposit(rate) ==> step.data@ == seq![12u8, 5] + spec_u64_to_le_bytes(
                rate.denominator,
            ) + spec_u64_to_le_bytes(rate.numerator)
            &&& new_fee matches FeeType::SolWithdrawal(rate) ==> step.data@ == seq![12u8, 6] + spec_u64_to_le_bytes(
                rate.denominator,
            ) + spec_u64_to_le_bytes(rate.numerator)
        }),
        forall|a: Address| #[trigger]
            plan.signers@.contains(a) <==> a == config.fee_payer || a == config.manager,
{
    let none = Fee { numerator: 0, denominator: 0 };
    let (kind, rate, percentage): (FeeKind, Fee, u8) = match new_fee {
        FeeType::SolReferral(percentage) => (FeeKind::SolReferral, none, percentage),
        FeeType::StakeReferral(percentage) => (FeeKind::StakeReferral, none, percentage),
        FeeType::Epoch(rate) => (FeeKind::Epoch, rate, 0),
        FeeType::StakeWithdrawal(rate) => (FeeKind::StakeWithdrawal, rate, 0),
        FeeType::SolDeposit(rate) => (FeeKind::SolDeposit, rate, 0),
        FeeType::StakeDeposit(rate) => (FeeKind::StakeDeposit, rate, 0),
        FeeType::SolWithdrawal(rate) => (FeeKind::SolWithdrawal, rate, 0),
    };
    let instruction = set_fee(
        config.stake_pool_program_id,
        *pool_address,
        config.manager,
        kind,
        rate,
        percentage,
    );
    let ghost changed = instruction@;
    let plan = plan_single(config.fee_payer, config.manager, instruction);
    proof {
        law_manager_plan_is_signed_by_the_callers_manager(plan, *config, changed);
        let step = plan.instructions@[0];
        match new_fee {
            FeeType::SolReferral(percentage) => {
                assert(step.data@ =~= seq![12u8, 0, percentage]);
            },
            FeeType::StakeReferral(percentage) => {
                assert(step.data@ =~= seq![12u8, 1, percentage]);
            },
            FeeType::Epoch(rate) => {
                assert(step.data@ =~= seq![12u8, 2] + spec_u64_to_le_bytes(rate.denominator)
                    + spec_u64_to_le_bytes(rate.numerator));
            },
            FeeType::StakeWithdrawal(rate) => {
                assert(step.data@ =~= seq![12u8, 3] + spec_u64_to_le_bytes(rate.denominator)
                    + spec_u64_to_le_bytes(rate.numerator));
            },
            FeeType::SolDeposit(rate) => {
                assert(step.data@ =~= seq![12u8, 4] + spec_u64_to_le_bytes(rate.denominator)
                    + spec_u64_to_le_bytes(rate.numerator));
            },
            FeeType::StakeDeposit(rate) => {
                assert(step.data@ =~= seq![12u8, 5] + spec_u64_to_le_bytes(rate.denominator)
                    + spec_u64_to_le_bytes(rate.numerator));
            },
            FeeType::SolWithdrawal(rate) => {
                assert(step.data@ =~= seq![12u8, 6] + spec_u64_to_le_bytes(rate.denominator)
                    + spec_u64_to_le_bytes(rate.numerator));
            },
        }
    }
    plan
}

/// A plan of the manager holds the one instruction and is signed by the payer and the caller's
/// own manager, and by nobody else. Its payer spends nothing besides the fee.
pub proof fn law_manager_plan_is_signed_by_the_callers_manager(
    plan: TransactionPlan,
    config: Config,
    instruction: InstructionView,
)
    requires
        is_manager_plan(plan, config, instruction),
    ensures
        plan.instructions@.len() == 1,
        plan.instructions@[0]@ == instruction,
        forall|a: Address| #[trigger]
            plan.signers@.contains(a) <==> a == config.fee_payer || a == config.manager,
        plan.additional_fee == 0,
{
    law_plan_keeps_instructions_and_signers(
        plan,
        seq![instruction],
        seq![config.fee_payer, config.manager],
        0,
    );
    assert(plan.instructions@[0]@ =~= instruction);
    let listed = seq![config.fee_payer, config.manager];
    assert forall|a: Address| #[trigger] plan.signers@.contains(a) <==> a == config.fee_payer || a
        == config.manager by {
        assert(plan.signers@.contains(a) <==> listed.contains(a));
        assert(listed[0] == config.fee_payer && listed[1] == config.manager);
    }
}

/// A change of manager keeps what it is not asked to change: without a new manager the pool
/// keeps its own, and without a new receiver of fees the account that it has.
pub proof fn law_unchanged_parts_are_kept(
    pool: StakePool,
    manager: Address,
    receiver: FeeReceiver,
)
    ensures
        manager_after(pool, None) == pool.manager,
        manager_after(pool, Some(manager)) == manager,
        fee_receiver_after(pool, None) == pool.manager_fee_account,
        fee_receiver_after(pool, Some(receiver)) == receiver.account,
{
}

/// A change of manager is signed by the payer, by the caller's own manager and by the new
/// manager, where there is one, and by nobody else.
pub proof fn law_change_of_manager_is_signed_by_both(
    config: Config,
    new_manager: Option<Address>,
    a: Address,
)
    ensures
        set_manager_signers(config, new_manager).contains(a) <==> a == config.fee_payer || a
            == config.manager || new_manager == Some(a),
{
    let listed = set_manager_signers(config, new_manager);
    if new_manager is Some {
        assert(listed[0] == new_manager->0 && listed[1] == config.fee_payer && listed[2]
            == config.manager);
    } else {
        assert(listed[0] == config.fee_payer && listed[1] == config.manager);
    }
}

} // verus!
