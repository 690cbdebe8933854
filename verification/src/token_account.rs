//! The accounts that hold pool tokens.
use vstd::prelude::*;

use crate::address::Address;
use crate::config::Config;
use crate::instruction::{
    add_instruction, any_signs, views, AccountMeta, Instruction, InstructionView,
};
use crate::programs::associated_token::{
    associated_token_address, create_associated_token, create_associated_token_instruction,
    find_associated_token,
};
use crate::programs::ids::ASSOCIATED_TOKEN_PROGRAM;
use crate::state::StakePool;

verus! {

/// The pool token account of the token owner: the given one, or the associated one.
pub open spec fn token_account_for(
    config: Config,
    pool: StakePool,
    given: Option<Address>,
) -> Address {
    match given {
        Some(account) => account,
        None => associated_token_address(
            config.token_owner@,
            pool.pool_mint@,
            pool.token_program_id@,
        ),
    }
}

/// Finds the pool token account of the token owner.
pub fn pool_token_account(config: &Config, pool: &StakePool, given: &Option<Address>) -> (r:
    Address)
    ensures
        r == token_account_for(*config, *pool, *given),
{
    match given {
        Some(account) => *account,
        None => find_associated_token(config.token_owner, pool.pool_mint, pool.token_program_id),
    }
}

/// The instructions that create the associated token account of `owner` where it is
/// missing.
pub open spec fn creation_if_missing(
    config: Config,
    mint: Address,
    token_program: Address,
    owner: Address,
    missing_rent: Option<u64>,
) -> Seq<InstructionView> {
    if missing_rent is Some {
        seq![create_associated_token_instruction(config.fee_payer, owner, mint, token_program)]
    } else {
        seq![]
    }
}

/// The rent of an account where it is missing.
pub open spec fn rent_if_missing(missing_rent: Option<u64>) -> u64 {
    match missing_rent {
        Some(rent) => rent,
        None => 0,
    }
}

/// Finds the associated token account of `owner`. Where it is missing, which
/// `missing_rent` says with the rent that it needs, its creation is added to the
/// instructions and its rent to the balances.
pub fn add_associated_token_account(
    config: &Config,
    mint: &Address,
    token_program: &Address,
    owner: &Address,
    missing_rent: &Option<u64>,
    instructions: &mut Vec<Instruction>,
    rent_free_balances: &mut u64,
) -> (account: Address)
    requires
        *old(rent_free_balances) + rent_if_missing(*missing_rent) <= u64::MAX,
    ensures
        account == associated_token_address(owner@, mint@, token_program@),
        views(final(instructions)@) == views(old(instructions)@) + creation_if_missing(
            *config,
            *mint,
            *token_program,
            *owner,
            *missing_rent,
        ),
        final(instructions)@.len() == old(instructions)@.len() + (if missing_rent is Some {
            1int
        } else {
            0
        }),
        *final(rent_free_balances) == *old(rent_free_balances) + rent_if_missing(*missing_rent),
        forall|a: Address| #[trigger]
            any_signs(views(final(instructions)@), a) <==> (any_signs(
                views(old(instructions)@),
                a,
            ) || (missing_rent is Some && a == config.fee_payer)),
{
    let account = find_associated_token(*owner, *mint, *token_program);
    if let Some(rent) = missing_rent {
        add_instruction(
            instructions,
            create_associated_token(config.fee_payer, *owner, *mint, *token_program),
        );
        *rent_free_balances = *rent_free_balances + *rent;
    }
    assert(views(instructions@) =~= views(old(instructions)@) + creation_if_missing(
        *config,
        *mint,
        *token_program,
        *owner,
        *missing_rent,
    ));
    account
}

/// The rent of the associated token account that is created for pool tokens: none
/// where an account is given to receive them.
pub open spec fn receiver_rent(
    token_receiver: Option<Address>,
    missing_rent: Option<u64>,
) -> Option<u64> {
    match token_receiver {
        Some(_) => None,
        None => missing_rent,
    }
}

/// The instructions that create the account that receives pool tokens: none where
/// one is given or the associated one exists.
pub open spec fn receiver_creation(
    config: Config,
    pool: StakePool,
    token_receiver: Option<Address>,
    missing_rent: Option<u64>,
) -> Seq<InstructionView> {
    creation_if_missing(
        config,
        pool.pool_mint,
        pool.token_program_id,
        config.token_owner,
        receiver_rent(token_receiver, missing_rent),
    )
}

/// Finds the account that receives pool tokens: the given one, or the associated one
/// of the token owner. Only where none is given and the associated one is missing is
/// its creation added to the instructions and its rent to the balances.
pub fn add_token_receiver(
    config: &Config,
    pool: &StakePool,
    token_receiver: &Option<Address>,
    missing_rent: &Option<u64>,
    instructions: &mut Vec<Instruction>,
    rent_free_balances: &mut u64,
) -> (account: Address)
    requires
        *old(rent_free_balances) + rent_if_missing(receiver_rent(*token_receiver, *missing_rent))
            <= u64::MAX,
    ensures
        account == token_account_for(*config, *pool, *token_receiver),
        views(final(instructions)@) == views(old(instructions)@) + receiver_creation(
            *config,
            *pool,
            *token_receiver,
            *missing_rent,
        ),
        final(instructions)@.len() == old(instructions)@.len() + (if token_receiver is None
            && missing_rent is Some {
            1int
        } else {
            0
        }),
        *final(rent_free_balances) == *old(rent_free_balances) + rent_if_missing(
            receiver_rent(*token_receiver, *missing_rent),
        ),
        forall|a: Address| #[trigger]
            any_signs(views(final(instructions)@), a) <==> (any_signs(
                views(old(instructions)@),
                a,
            ) || (token_receiver is None && missing_rent is Some && a == config.fee_payer)),
{
    match token_receiver {
        Some(account) => {
            assert(views(instructions@) =~= views(old(instructions)@) + receiver_creation(
                *config,
                *pool,
                *token_receiver,
                *missing_rent,
            ));
            *account
        },
        None => add_associated_token_account(
            config,
            &pool.pool_mint,
            &pool.token_program_id,
            &config.token_owner,
            missing_rent,
            instructions,
            rent_free_balances,
        ),
    }
}

/// An account that is given to receive pool tokens is never created, nor is one beside
/// it, and no rent is paid.
pub proof fn law_given_receiver_creates_nothing(
    config: Config,
    pool: StakePool,
    account: Address,
    missing_rent: Option<u64>,
)
    ensures
        token_account_for(config, pool, Some(account)) == account,
        receiver_creation(config, pool, Some(account), missing_rent) == Seq::<
            InstructionView,
        >::empty(),
        rent_if_missing(receiver_rent(Some(account), missing_rent)) == 0,
{
}

/// Where no account is given to receive pool tokens, they go to the associated account of the
/// token owner. It is created exactly where it is missing, by one instruction: the payer pays
/// for it, and it belongs to the token owner and holds the pool's tokens.
pub proof fn law_missing_receiver_is_created_for_the_token_owner(
    config: Config,
    pool: StakePool,
    missing_rent: Option<u64>,
)
    ensures
        token_account_for(config, pool, None) == associated_token_address(
            config.token_owner@,
            pool.pool_mint@,
            pool.token_program_id@,
        ),
        receiver_creation(config, pool, None, missing_rent).len() == if missing_rent is Some {
            1int
        } else {
            0
        },
        missing_rent is Some ==> ({
            let creation = receiver_creation(config, pool, None, missing_rent)[0];
            &&& creation.program_id == ASSOCIATED_TOKEN_PROGRAM
            &&& creation.accounts.len() == 6
            &&& creation.accounts[0] == AccountMeta(config.fee_payer, true, true)
            &&& creation.accounts[1] == AccountMeta(
                associated_token_address(
                    config.token_owner@,
                    pool.pool_mint@,
                    pool.token_program_id@,
                ),
                false,
                true,
            )
            &&& creation.accounts[2] == AccountMeta(config.token_owner, false, false)
            &&& creation.accounts[3] == AccountMeta(pool.pool_mint, false, false)
            &&& creation.accounts[5] == AccountMeta(pool.token_program_id, false, false)
        }),
        missing_rent matches Some(rent) ==> rent_if_missing(receiver_rent(None, missing_rent))
            == rent,
        missing_rent is None ==> rent_if_missing(receiver_rent(None, missing_rent)) == 0,
{
}

/// The creation of an associated account is paid by the payer, for the owner that it is
/// created for, whoever that is.
pub proof fn law_creation_is_for_its_owner(
    config: Config,
    mint: Address,
    token_program: Address,
    owner: Address,
    missing_rent: Option<u64>,
)
    ensures
        missing_rent is None ==> creation_if_missing(
            config,
            mint,
            token_program,
            owner,
            missing_rent,
        ).len() == 0,
        missing_rent is Some ==> ({
            let creations = creation_if_missing(config, mint, token_program, owner, missing_rent);
            &&& creations.len() == 1
            &&& creations[0].accounts[0] == AccountMeta(config.fee_payer, true, true)
            &&& creations[0].accounts[1] == AccountMeta(
                associated_token_address(owner@, mint@, token_program@),
                false,
                true,
            )
            &&& creations[0].accounts[2] == AccountMeta(owner, false, false)
            &&& creations[0].accounts[3] == AccountMeta(mint, false, false)
        }),
{
}

} // verus!
