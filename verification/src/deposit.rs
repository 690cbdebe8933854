//! Depositing stake and SOL into a pool.
use vstd::bytes::{spec_u32_to_le_bytes, spec_u64_to_le_bytes};
use vstd::prelude::*;

use crate::address::{same_address, Address};
use crate::config::Config;
use crate::error::CliError;
use crate::instruction::{
    add_instruction, add_signer, any_signs, append_instructions,
    law_plan_keeps_instructions_and_signers, no_instructions, plan_transaction, signed_by, views,
    AccountMeta, Instruction, InstructionView, TransactionPlan,
};
use crate::programs::associated_token::associated_token_address;
use crate::programs::ids::{ASSOCIATED_TOKEN_PROGRAM, STAKE_PROGRAM, SYSTEM_PROGRAM};
use crate::programs::pool::{
    deposit_authority_address, deposit_sol, deposit_sol_instruction, deposit_sol_with_authority,
    deposit_sol_with_authority_instruction, deposit_stake, deposit_stake_instructions,
    deposit_stake_with_authority, find_withdraw_authority, validator_stake_address,
    withdraw_authority_address,
};
use crate::programs::system::{transfer, transfer_instruction};
use crate::state::{has_entry, PoolValidators, StakePool, StakeState};
use crate::token_account::{
    add_token_receiver, pool_token_account, receiver_creation, receiver_rent, rent_if_missing,
    token_account_for,
};
use crate::withdraw::{
    find_stake_account, is_stake_account_of, law_stake_account_is_that_of_the_first_entry,
};

verus! {

/// Reads the validator that a stake to deposit is delegated to.
pub fn deposited_vote_account(state: &StakeState) -> (r: Result<Address, CliError>)
    ensures
        r == match *state {
            StakeState::Stake(vote_account) => Ok(vote_account),
            _ => Err(CliError::StakeNotDelegated),
        },
{
    match state {
        StakeState::Stake(vote_account) => Ok(*vote_account),
        _ => Err(CliError::StakeNotDelegated),
    }
}

/// Finds the stake account of the pool that a deposit goes into.
pub fn deposit_stake_account(
    config: &Config,
    pool_address: &Address,
    validators: &PoolValidators,
    vote_account: &Address,
) -> (r: Result<Address, CliError>)
    ensures
        r is Ok <==> has_entry(validators.validators@, *vote_account),
        r matches Ok(stake_account) ==> is_stake_account_of(
            stake_account,
            config.stake_pool_program_id,
            *pool_address,
            *validators,
            *vote_account,
        ),
        r matches Err(error) ==> error == CliError::VoteAccountNotInPool,
{
    match find_stake_account(config, pool_address, validators, vote_account) {
        Some(stake_account) => Ok(stake_account),
        None => Err(CliError::VoteAccountNotInPool),
    }
}

/// The authority that a deposit of stake is signed with: none where none is given,
/// else the given one, which must be the pool's.
pub open spec fn stake_deposit_authority(config: Config, pool: StakePool) -> Result<
    Option<Address>,
    CliError,
> {
    match config.funding_authority {
        None => Ok(None),
        Some(received) => if received == pool.stake_deposit_authority {
            Ok(Some(received))
        } else {
            Err(
                CliError::InvalidDepositAuthority {
                    expected: pool.stake_deposit_authority,
                    received,
                },
            )
        },
    }
}

/// Checks the authority that a deposit of stake is signed with.
pub fn check_stake_deposit_authority(config: &Config, pool: &StakePool) -> (r: Result<
    Option<Address>,
    CliError,
>)
    ensures
        r == stake_deposit_authority(*config, *pool),
{
    match config.funding_authority {
        None => Ok(None),
        Some(received) => {
            if same_address(&received, &pool.stake_deposit_authority) {
                Ok(Some(received))
            } else {
                Err(
                    CliError::InvalidDepositAuthority {
                        expected: pool.stake_deposit_authority,
                        received,
                    },
                )
            }
        },
    }
}

/// The accounts that a deposit of stake is made of.
#[derive(Clone, Copy, PartialEq, Eq, Debug)]
pub struct StakeDeposit {
    /// The pool.
    pub pool_address: Address,
    /// The stake that is deposited.
    pub stake: Address,
    /// The withdraw authority of that stake.
    pub stake_authority: Address,
    /// The pool's stake account that it goes into.
    pub validator_stake: Address,
    /// The account that is to receive pool tokens, where one is given.
    pub token_receiver: Option<Address>,
    /// The account that is to receive referral fees, where one is given.
    pub referrer: Option<Address>,
}

/// The account that receives referral fees: the given one, or the one that receives
/// the pool tokens.
pub open spec fn referrer_for(
    config: Config,
    pool: StakePool,
    token_receiver: Option<Address>,
    referrer: Option<Address>,
) -> Address {
    match referrer {
        Some(account) => account,
        None => token_account_for(config, pool, token_receiver),
    }
}

impl StakeDeposit {
    /// The instructions that deposit the stake, with the given deposit authority or with
    /// the one that the pool's address derives, which does not sign.
    pub open spec fn instructions(
        self,
        config: Config,
        pool: StakePool,
        authority: Option<Address>,
    ) -> Seq<InstructionView> {
        let program_id = config.stake_pool_program_id;
        let withdraw_authority = withdraw_authority_address(program_id@, self.pool_address@);
        let receiver = token_account_for(config, pool, self.token_receiver);
        let referrer = referrer_for(config, pool, self.token_receiver, self.referrer);
        let deposit_authority = match authority {
            Some(given) => given,
            None => deposit_authority_address(program_id@, self.pool_address@),
        };
        deposit_stake_instructions(
            program_id,
            self.pool_address,
            pool.validator_list,
            deposit_authority,
            authority is Some,
            withdraw_authority,
            self.stake,
            self.stake_authority,
            self.validator_stake,
            pool.reserve_stake,
            receiver,
            pool.manager_fee_account,
            referrer,
            pool.pool_mint,
            pool.token_program_id,
        )
    }

    /// The signers of the deposit, with or without an authority.
    pub open spec fn signers(self, config: Config, authority: Option<Address>) -> Seq<Address> {
        match authority {
            Some(deposit_authority) => seq![
                config.fee_payer,
                self.stake_authority,
                deposit_authority,
            ],
            None => seq![config.fee_payer, self.stake_authority],
        }
    }
}

/// Builds the instructions that deposit a stake whose tokens go to `receiver`.
fn build_stake_deposit(
    config: &Config,
    pool: &StakePool,
    deposit: &StakeDeposit,
    authority: &Option<Address>,
    receiver: Address,
) -> (r: Vec<Instruction>)
    requires
        receiver == token_account_for(*config, *pool, deposit.token_receiver),
    ensures
        views(r@) == deposit.instructions(*config, *pool, *authority),
        forall|a: Address| #[trigger]
            any_signs(views(r@), a) <==> (a == deposit.stake_authority || *authority == Some(a)),
{
    let referrer: Address = match deposit.referrer {
        Some(account) => account,
        None => receiver,
    };
    let withdraw_authority = find_withdraw_authority(
        config.stake_pool_program_id,
        deposit.pool_address,
    );
    match authority {
        Some(deposit_authority) => deposit_stake_with_authority(
            config.stake_pool_program_id,
            deposit.pool_address,
            pool.validator_list,
            *deposit_authority,
            withdraw_authority,
            deposit.stake,
            deposit.stake_authority,
            deposit.validator_stake,
            pool.reserve_stake,
            receiver,
            pool.manager_fee_account,
            referrer,
            pool.pool_mint,
            pool.token_program_id,
        ),
        None => deposit_stake(
            config.stake_pool_program_id,
            deposit.pool_address,
            pool.validator_list,
            withdraw_authority,
            deposit.stake,
            deposit.stake_authority,
            deposit.validator_stake,
            pool.reserve_stake,
            receiver,
            pool.manager_fee_account,
            referrer,
            pool.pool_mint,
            pool.token_program_id,
        ),
    }
}

/// Lists the signers of a deposit of stake.
fn stake_deposit_signers(
    config: &Config,
    deposit: &StakeDeposit,
    authority: &Option<Address>,
) -> (r: Vec<Address>)
    ensures
        r@ == deposit.signers(*config, *authority),
        forall|a: Address| #[trigger]
            r@.contains(a) <==> (a == config.fee_payer || a == deposit.stake_authority
                || *authority == Some(a)),
{
    let mut signers = signed_by(config.fee_payer);
    add_signer(&mut signers, deposit.stake_authority);
    if let Some(deposit_authority) = authority {
        add_signer(&mut signers, *deposit_authority);
    }
    assert(signers@ =~= deposit.signers(*config, *authority));
    signers
}

/// Plans a deposit of stake. Where no account is given to receive the
/// pool tokens, the associated one of the token owner is created if it is missing,
/// which `missing_rent` says with the rent that it needs. The plan fails where a given
/// authority is not the pool's.
pub fn command_deposit_stake(
    config: &Config,
    pool: &StakePool,
    deposit: &StakeDeposit,
    missing_rent: &Option<u64>,
) -> (r: Result<TransactionPlan, CliError>)
    ensures
        match stake_deposit_authority(*config, *pool) {
            Err(error) => r == Err::<TransactionPlan, CliError>(error),
            Ok(authority) => r is Ok && r->Ok_0.comprises(
                receiver_creation(*config, *pool, deposit.token_receiver, *missing_rent)
                    + deposit.instructions(*config, *pool, authority),
                deposit.signers(*config, authority),
                rent_if_missing(receiver_rent(deposit.token_receiver, *missing_rent)),
            ) && r->Ok_0.signed_exactly(config.fee_payer),
        },
        r matches Ok(plan) ==> ({
            let step = plan.instructions@.last();
            let receiver = token_account_for(*config, *pool, deposit.token_receiver);
            &&& deposit.token_receiver matches Some(account) ==> step.accounts@[7].0 == account
            &&& step.accounts@[7].0 == receiver
            &&& deposit.referrer matches Some(account) ==> step.accounts@[9].0 == account
            &&& deposit.referrer is None ==> step.accounts@[9].0 == receiver
            &&& step.accounts@[4].0 == deposit.stake
            &&& step.accounts@[5].0 == deposit.validator_stake
        }),
{
    let mut instructions = no_instructions();
    let mut total_rent_free_balances: u64 = 0;
    let receiver = add_token_receiver(
        config,
        pool,
        &deposit.token_receiver,
        missing_rent,
        &mut instructions,
        &mut total_rent_free_balances,
    );
    let authority = match check_stake_deposit_authority(config, pool) {
        Ok(authority) => authority,
        Err(error) => {
            return Err(error);
        },
    };
    let signers = stake_deposit_signers(config, deposit, &authority);
    append_instructions(
        &mut instructions,
        build_stake_deposit(config, pool, deposit, &authority, receiver),
    );
    assert(views(instructions@) =~= receiver_creation(
        *config,
        *pool,
        deposit.token_receiver,
        *missing_rent,
    ) + deposit.instructions(*config, *pool, authority));
    proof {
        law_deposit_fills_the_given_accounts(*config, *pool, *deposit, authority);
        assert(views(instructions@).last() == instructions@.last()@);
    }
    Ok(plan_transaction(instructions, &signers, total_rent_free_balances))
}

/// Plans the transaction that creates the token owner's associated token account
/// before all stake is deposited. There is none where another account is given to
/// receive the pool tokens, nor where the associated one exists.
pub fn plan_token_account(
    config: &Config,
    pool: &StakePool,
    token_receiver: &Option<Address>,
    missing_rent: &Option<u64>,
) -> (r: Option<TransactionPlan>)
    ensures
        r is Some <==> missing_rent is Some && token_receiver is None,
        r matches Some(plan) ==> plan.comprises(
            receiver_creation(*config, *pool, *token_receiver, *missing_rent),
            seq![config.fee_payer],
            rent_if_missing(receiver_rent(*token_receiver, *missing_rent)),
        ) && plan.signed_exactly(config.fee_payer),
{
    let mut instructions = no_instructions();
    let mut total_rent_free_balances: u64 = 0;
    let _receiver = add_token_receiver(
        config,
        pool,
        token_receiver,
        missing_rent,
        &mut instructions,
        &mut total_rent_free_balances,
    );
    assert(views(instructions@) =~= receiver_creation(
        *config,
        *pool,
        *token_receiver,
        *missing_rent,
    ));
    assert(instructions@.len() == views(instructions@).len());
    if instructions.len() > 0 {
        let signers = signed_by(config.fee_payer);
        Some(plan_transaction(instructions, &signers, total_rent_free_balances))
    } else {
        None
    }
}

/// Plans one of the deposits by which all stake is deposited, with the authority
/// that was checked before the first of them.
pub fn command_deposit_all_stake(
    config: &Config,
    pool: &StakePool,
    deposit: &StakeDeposit,
    authority: &Option<Address>,
) -> (plan: TransactionPlan)
    ensures
        plan.comprises(
            deposit.instructions(*config, *pool, *authority),
            deposit.signers(*config, *authority),
            0,
        ),
        plan.signed_exactly(config.fee_payer),
        ({
            let step = plan.instructions@.last();
            let receiver = token_account_for(*config, *pool, deposit.token_receiver);
            &&& deposit.token_receiver matches Some(account) ==> step.accounts@[7].0 == account
            &&& step.accounts@[7].0 == receiver
            &&& deposit.referrer matches Some(account) ==> step.accounts@[9].0 == account
            &&& deposit.referrer is None ==> step.accounts@[9].0 == receiver
            &&& step.accounts@[4].0 == deposit.stake
            &&& step.accounts@[5].0 == deposit.validator_stake
        }),
{
    let receiver = pool_token_account(config, pool, &deposit.token_receiver);
    let signers = stake_deposit_signers(config, deposit, authority);
    let instructions = build_stake_deposit(config, pool, deposit, authority, receiver);
    proof {
        law_deposit_fills_the_given_accounts(*config, *pool, *deposit, *authority);
        assert(views(instructions@).last() == instructions@.last()@);
    }
    plan_transaction(instructions, &signers, 0)
}

/// What all the deposits have in common by which all stake is deposited.
#[derive(Clone, Copy, PartialEq, Eq, Debug)]
pub struct DepositTerms {
    /// The withdraw authority of every stake.
    pub stake_authority: Address,
    /// The account that is to receive pool tokens, where one is given.
    pub token_receiver: Option<Address>,
    /// The account that is to receive referral fees, where one is given.
    pub referrer: Option<Address>,
}

impl DepositTerms {
    /// The deposit of one stake on these terms.
    pub open spec fn deposit_of(
        self,
        pool_address: Address,
        stake: Address,
        validator_stake: Address,
    ) -> StakeDeposit {
        StakeDeposit {
            pool_address,
            stake,
            stake_authority: self.stake_authority,
            validator_stake,
            token_receiver: self.token_receiver,
            referrer: self.referrer,
        }
    }
}

/// Why a stake in this state cannot be deposited into the pool of these validators:
/// it is not delegated, or not to one of them.
pub open spec fn deposit_refusal(validators: PoolValidators, state: StakeState) -> Option<
    CliError,
> {
    match state {
        StakeState::Stake(vote_account) => if has_entry(validators.validators@, vote_account) {
            None
        } else {
            Some(CliError::VoteAccountNotInPool)
        },
        _ => Some(CliError::StakeNotDelegated),
    }
}

/// `plan` deposits `stake`, which is delegated to `vote_account`, into the pool's stake
/// account of that validator.
pub open spec fn deposits_stake(
    plan: TransactionPlan,
    config: Config,
    pool: StakePool,
    pool_address: Address,
    validators: PoolValidators,
    stake: Address,
    vote_account: Address,
    common: DepositTerms,
    authority: Option<Address>,
) -> bool {
    exists|validator_stake: Address| #[trigger]
        is_stake_account_of(
            validator_stake,
            config.stake_pool_program_id,
            pool_address,
            validators,
            vote_account,
        ) && plan.comprises(
            common.deposit_of(pool_address, stake, validator_stake).instructions(
                config,
                pool,
                authority,
            ),
            common.deposit_of(pool_address, stake, validator_stake).signers(config, authority),
            0,
        ) && plan.signed_exactly(config.fee_payer)
}

/// `r` is what comes of a stake in this state when all stake is deposited: the plan of
/// its deposit, or the reason against it.
pub open spec fn is_deposit_result(
    r: Result<TransactionPlan, CliError>,
    config: Config,
    pool: StakePool,
    pool_address: Address,
    validators: PoolValidators,
    stake: Address,
    state: StakeState,
    common: DepositTerms,
    authority: Option<Address>,
) -> bool {
    match deposit_refusal(validators, state) {
        Some(error) => r == Err::<TransactionPlan, CliError>(error),
        None => r is Ok && deposits_stake(
            r->Ok_0,
            config,
            pool,
            pool_address,
            validators,
            stake,
            state->Stake_0,
            common,
            authority,
        ),
    }
}

/// Plans the deposit of the stake at place `next` when all stake is deposited, given the
/// state of that stake and the authority that was checked before the first deposit. It
/// fails where the stake is not delegated, or not to a validator of the pool.
pub fn next_deposit(
    config: &Config,
    pool: &StakePool,
    pool_address: &Address,
    validators: &PoolValidators,
    stakes: &Vec<Address>,
    next: usize,
    state: &StakeState,
    common: &DepositTerms,
    authority: &Option<Address>,
) -> (r: Result<TransactionPlan, CliError>)
    requires
        next < stakes@.len(),
    ensures
        is_deposit_result(
            r,
            *config,
            *pool,
            *pool_address,
            *validators,
            stakes@[next as int],
            *state,
            *common,
            *authority,
        ),
{
    let vote_account = match deposited_vote_account(state) {
        Ok(vote_account) => vote_account,
        Err(error) => {
            return Err(error);
        },
    };
    let validator_stake = match deposit_stake_account(
        config,
        pool_address,
        validators,
        &vote_account,
    ) {
        Ok(validator_stake) => validator_stake,
        Err(error) => {
            return Err(error);
        },
    };
    let deposit = StakeDeposit {
        pool_address: *pool_address,
        stake: stakes[next],
        stake_authority: common.stake_authority,
        validator_stake,
        token_receiver: common.token_receiver,
        referrer: common.referrer,
    };
    assert(deposit == common.deposit_of(*pool_address, stakes@[next as int], validator_stake));
    Ok(command_deposit_all_stake(config, pool, &deposit, authority))
}

/// What the deposit of all stake does next.
#[derive(PartialEq, Eq, Debug)]
pub enum DepositStep {
    /// It reads the state of the stake at its place.
    Read,
    /// It deposits the stake at its place, and goes on to the place that follows.
    Deposit(TransactionPlan, usize),
    /// It ends with an error.
    Refused(CliError),
    /// It ends: there is no stake left.
    Done,
}

/// `plans` are the deposits of the first stakes, in their order and all on the same terms.
pub open spec fn deposits_so_far(
    plans: Seq<TransactionPlan>,
    config: Config,
    pool: StakePool,
    pool_address: Address,
    validators: PoolValidators,
    stakes: Seq<Address>,
    states: Seq<StakeState>,
    common: DepositTerms,
) -> bool {
    match stake_deposit_authority(config, pool) {
        Err(_) => plans.len() == 0,
        Ok(authority) => {
            &&& plans.len() <= stakes.len()
            &&& forall|i: int|
                0 <= i < plans.len() ==> is_deposit_result(
                    Ok(#[trigger] plans[i]),
                    config,
                    pool,
                    pool_address,
                    validators,
                    stakes[i],
                    states[i],
                    common,
                    authority,
                )
        },
    }
}

/// The deposit of all stake makes the deposits of `plans`, in their order, and ends with
/// the error of `end`, or with none. It ends with the first error: that of the authority,
/// or that of the first stake that is refused.
pub open spec fn is_deposit_run(
    plans: Seq<TransactionPlan>,
    end: Option<CliError>,
    config: Config,
    pool: StakePool,
    pool_address: Address,
    validators: PoolValidators,
    stakes: Seq<Address>,
    states: Seq<StakeState>,
    common: DepositTerms,
) -> bool {
    &&& deposits_so_far(
        plans,
        config,
        pool,
        pool_address,
        validators,
        stakes,
        states,
        common,
    )
    &&& end == match stake_deposit_authority(config, pool) {
        Err(error) => Some(error),
        Ok(_) => if plans.len() < stakes.len() {
            deposit_refusal(validators, states[plans.len() as int])
        } else {
            None
        },
    }
    &&& end is None ==> plans.len() == stakes.len()
}

/// `state`, where it is read, is the state of the stake at place `next`.
pub open spec fn is_state_at(
    state: Option<StakeState>,
    states: Seq<StakeState>,
    next: int,
) -> bool {
    state matches Some(seen) ==> states[next] == seen
}

/// The step leads from the deposits of `plans` to those up to the place that follows, or
/// ends the run that they are.
pub open spec fn extends_deposits(
    step: DepositStep,
    plans: Seq<TransactionPlan>,
    config: Config,
    pool: StakePool,
    pool_address: Address,
    validators: PoolValidators,
    stakes: Seq<Address>,
    states: Seq<StakeState>,
    common: DepositTerms,
) -> bool {
    match step {
        DepositStep::Read => plans.len() < stakes.len(),
        DepositStep::Deposit(plan, following) => following == plans.push(plan).len()
            && deposits_so_far(
            plans.push(plan),
            config,
            pool,
            pool_address,
            validators,
            stakes,
            states,
            common,
        ),
        DepositStep::Refused(error) => is_deposit_run(
            plans,
            Some(error),
            config,
            pool,
            pool_address,
            validators,
            stakes,
            states,
            common,
        ),
        DepositStep::Done => is_deposit_run(
            plans,
            None,
            config,
            pool,
            pool_address,
            validators,
            stakes,
            states,
            common,
        ),
    }
}

/// Decides what the deposit of all stake does next. `next` is the place of the stake whose
/// turn it is, and `state` its state, once that is read. From the deposits of the stakes
/// before that place, whatever they are, it makes those up to the place that follows, or a
/// whole run.
pub fn next_deposit_step(
    config: &Config,
    pool: &StakePool,
    pool_address: &Address,
    validators: &PoolValidators,
    stakes: &Vec<Address>,
    next: usize,
    state: &Option<StakeState>,
    common: &DepositTerms,
) -> (r: DepositStep)
    requires
        next <= stakes@.len(),
    ensures
        match stake_deposit_authority(*config, *pool) {
            Err(error) => r == DepositStep::Refused(error),
            Ok(authority) => if next == stakes@.len() {
                r == DepositStep::Done
            } else {
                match *state {
                    None => r == DepositStep::Read,
                    Some(state) => match deposit_refusal(*validators, state) {
                        Some(error) => r == DepositStep::Refused(error),
                        None => r is Deposit && r->Deposit_1 == next + 1 && deposits_stake(
                            r->Deposit_0,
                            *config,
                            *pool,
                            *pool_address,
                            *validators,
                            stakes@[next as int],
                            state->Stake_0,
                            *common,
                            authority,
                        ),
                    },
                }
            },
        },
        forall|plans: Seq<TransactionPlan>, states: Seq<StakeState>| #[trigger]
            deposits_so_far(
                plans,
                *config,
                *pool,
                *pool_address,
                *validators,
                stakes@,
                states,
                *common,
            ) && plans.len() == next && is_state_at(*state, states, next as int) ==> extends_deposits(
                r,
                plans,
                *config,
                *pool,
                *pool_address,
                *validators,
                stakes@,
                states,
                *common,
            ),
{
    let authority = match check_stake_deposit_authority(config, pool) {
        Ok(authority) => authority,
        Err(error) => {
            return DepositStep::Refused(error);
        },
    };
    if next == stakes.len() {
        return DepositStep::Done;
    }
    let state = match state {
        Some(state) => state,
        None => {
            return DepositStep::Read;
        },
    };
    let plan = match next_deposit(
        config,
        pool,
        pool_address,
        validators,
        stakes,
        next,
        state,
        common,
        &authority,
    ) {
        Ok(plan) => plan,
        Err(error) => {
            return DepositStep::Refused(error);
        },
    };
    let r = DepositStep::Deposit(plan, next + 1);
    proof {
        assert forall|plans: Seq<TransactionPlan>, states: Seq<StakeState>| #[trigger]
            deposits_so_far(
                plans,
                *config,
                *pool,
                *pool_address,
                *validators,
                stakes@,
                states,
                *common,
            ) && plans.len() == next && states[next as int] == *state implies extends_deposits(
            r,
            plans,
            *config,
            *pool,
            *pool_address,
            *validators,
            stakes@,
            states,
            *common,
        ) by {
            let longer = plans.push(plan);
            assert forall|i: int| 0 <= i < longer.len() implies is_deposit_result(
                Ok(#[trigger] longer[i]),
                *config,
                *pool,
                *pool_address,
                *validators,
                stakes@[i],
                states[i],
                *common,
                authority,
            ) by {
                if i < next {
                    assert(longer[i] == plans[i]);
                }
            }
        }
    }
    r
}

/// The first `count` stakes can be deposited, and the one behind them, where there is
/// one, cannot.
pub open spec fn deposits_until(
    validators: PoolValidators,
    states: Seq<StakeState>,
    count: int,
) -> bool {
    &&& 0 <= count <= states.len()
    &&& forall|i: int|
        0 <= i < count ==> deposit_refusal(validators, #[trigger] states[i]) is None
    &&& count < states.len() ==> deposit_refusal(validators, states[count]) is Some
}

/// When all stake is deposited, the stakes before the first that is refused are
/// deposited, in their order and all on the same terms. The refused one ends the run with
/// its error, and none behind it is reached. Where the authority is refused, no stake is
/// deposited and the run ends with that error.
pub proof fn law_deposits_end_at_the_first_refusal(
    plans: Seq<TransactionPlan>,
    end: Option<CliError>,
    config: Config,
    pool: StakePool,
    pool_address: Address,
    validators: PoolValidators,
    stakes: Seq<Address>,
    states: Seq<StakeState>,
    common: DepositTerms,
    count: int,
)
    requires
        states.len() == stakes.len(),
        is_deposit_run(
            plans,
            end,
            config,
            pool,
            pool_address,
            validators,
            stakes,
            states,
            common,
        ),
        deposits_until(validators, states, count),
    ensures
        match stake_deposit_authority(config, pool) {
            Err(error) => plans.len() == 0 && end == Some(error),
            Ok(authority) => {
                &&& plans.len() == count
                &&& forall|i: int|
                    0 <= i < count ==> deposits_stake(
                        #[trigger] plans[i],
                        config,
                        pool,
                        pool_address,
                        validators,
                        stakes[i],
                        states[i]->Stake_0,
                        common,
                        authority,
                    )
                &&& end == if count < stakes.len() {
                    deposit_refusal(validators, states[count])
                } else {
                    None
                }
            },
        },
{
    if let Ok(authority) = stake_deposit_authority(config, pool) {
        if plans.len() > count {
            assert(is_deposit_result(
                Ok(plans[count]),
                config,
                pool,
                pool_address,
                validators,
                stakes[count],
                states[count],
                common,
                authority,
            ));
        }
        if plans.len() < count {
            assert(deposit_refusal(validators, states[plans.len() as int]) is None);
        }
    }
}

/// Where every stake can be deposited and the authority is accepted, there is one
/// deposit for each stake, in their order and all on the same terms, and no error.
pub proof fn law_all_stake_is_deposited(
    plans: Seq<TransactionPlan>,
    end: Option<CliError>,
    config: Config,
    pool: StakePool,
    pool_address: Address,
    validators: PoolValidators,
    stakes: Seq<Address>,
    states: Seq<StakeState>,
    common: DepositTerms,
    authority: Option<Address>,
)
    requires
        states.len() == stakes.len(),
        is_deposit_run(
            plans,
            end,
            config,
            pool,
            pool_address,
            validators,
            stakes,
            states,
            common,
        ),
        stake_deposit_authority(config, pool) == Ok::<Option<Address>, CliError>(authority),
        forall|i: int|
            0 <= i < states.len() ==> deposit_refusal(validators, #[trigger] states[i]) is None,
    ensures
        end is None,
        plans.len() == stakes.len(),
        forall|i: int|
            0 <= i < stakes.len() ==> deposits_stake(
                #[trigger] plans[i],
                config,
                pool,
                pool_address,
                validators,
                stakes[i],
                states[i]->Stake_0,
                common,
                authority,
            ),
{
    law_deposits_end_at_the_first_refusal(
        plans,
        end,
        config,
        pool,
        pool_address,
        validators,
        stakes,
        states,
        common,
        stakes.len() as int,
    );
}

/// The account that gives the SOL of a deposit: the given one, or the payer.
pub open spec fn sol_source(config: Config, from: Option<Address>) -> Address {
    match from {
        Some(account) => account,
        None => config.fee_payer,
    }
}

/// Finds the account that gives the SOL of a deposit.
pub fn sol_source_account(config: &Config, from: &Option<Address>) -> (r: Address)
    ensures
        r == sol_source(*config, *from),
{
    match from {
        Some(account) => *account,
        None => config.fee_payer,
    }
}

/// Checks that an account holds the lamports that are to be deposited.
pub fn check_sol_balance(balance: u64, lamports: u64) -> (r: Result<(), CliError>)
    ensures
        r is Ok <==> lamports <= balance,
        r matches Err(error) ==> error == (CliError::NotEnoughSol { lamports, balance }),
{
    if balance < lamports {
        Err(CliError::NotEnoughSol { lamports, balance })
    } else {
        Ok(())
    }
}

/// The authority that a deposit of SOL is signed with: none where none is given,
/// else the given one, which must be the pool's.
pub open spec fn sol_deposit_authority(config: Config, pool: StakePool) -> Result<
    Option<Address>,
    CliError,
> {
    match (config.funding_authority, pool.sol_deposit_authority) {
        (None, _) => Ok(None),
        (Some(_), None) => Err(CliError::NoSolDepositAuthority),
        (Some(received), Some(expected)) => if received == expected {
            Ok(Some(received))
        } else {
            Err(CliError::InvalidDepositAuthority { expected, received })
        },
    }
}

/// The accounts and the amount that a deposit of SOL is made of.
#[derive(Clone, Copy, PartialEq, Eq, Debug)]
pub struct SolDeposit {
    /// The pool.
    pub pool_address: Address,
    /// The account that gives the SOL, where one is given.
    pub from: Option<Address>,
    /// The account that the SOL passes through.
    pub transfer_account: Address,
    /// The account that is to receive pool tokens, where one is given.
    pub token_receiver: Option<Address>,
    /// The account that is to receive referral fees, where one is given.
    pub referrer: Option<Address>,
    /// The lamports that are deposited.
    pub lamports: u64,
}

impl SolDeposit {
    /// The instruction that deposits the SOL, with or without an authority.
    pub open spec fn deposit_instruction(
        self,
        config: Config,
        pool: StakePool,
        authority: Option<Address>,
    ) -> InstructionView {
        let program_id = config.stake_pool_program_id;
        let withdraw_authority = withdraw_authority_address(program_id@, self.pool_address@);
        let receiver = token_account_for(config, pool, self.token_receiver);
        let referrer = referrer_for(config, pool, self.token_receiver, self.referrer);
        match authority {
            Some(deposit_authority) => deposit_sol_with_authority_instruction(
                program_id,
                self.pool_address,
                deposit_authority,
                withdraw_authority,
                pool.reserve_stake,
                self.transfer_account,
                receiver,
                pool.manager_fee_account,
                referrer,
                pool.pool_mint,
                pool.token_program_id,
                self.lamports,
            ),
            None => deposit_sol_instruction(
                program_id,
                self.pool_address,
                withdraw_authority,
                pool.reserve_stake,
                self.transfer_account,
                receiver,
                pool.manager_fee_account,
                referrer,
                pool.pool_mint,
                pool.token_program_id,
                self.lamports,
            ),
        }
    }

    /// All instructions of the deposit.
    pub open spec fn instructions(
        self,
        config: Config,
        pool: StakePool,
        authority: Option<Address>,
        missing_rent: Option<u64>,
    ) -> Seq<InstructionView> {
        seq![
            transfer_instruction(
                sol_source(config, self.from),
                self.transfer_account,
                self.lamports,
            ),
        ] + receiver_creation(config, pool, self.token_receiver, missing_rent) + seq![self.deposit_instruction(config, pool, authority)]
    }

    /// All signers of the deposit.
    pub open spec fn signers(self, config: Config, authority: Option<Address>) -> Seq<Address> {
        seq![config.fee_payer, self.transfer_account] + (match self.from {
            Some(account) => seq![account],
            None => seq![],
        }) + (match authority {
            Some(deposit_authority) => seq![deposit_authority],
            None => seq![],
        })
    }
}

/// Plans a deposit of SOL. Where no account is given to receive the
/// pool tokens, the associated one of the token owner is created if it is missing,
/// which `missing_rent` says with the rent that it needs. The plan fails where a given
/// authority is not the pool's.
pub fn command_deposit_sol(
    config: &Config,
    pool: &StakePool,
    deposit: &SolDeposit,
    missing_rent: &Option<u64>,
) -> (r: Result<TransactionPlan, CliError>)
    ensures
        match sol_deposit_authority(*config, *pool) {
            Err(error) => r == Err::<TransactionPlan, CliError>(error),
            Ok(authority) => r is Ok && r->Ok_0.comprises(
                deposit.instructions(*config, *pool, authority, *missing_rent),
                deposit.signers(*config, authority),
                rent_if_missing(receiver_rent(deposit.token_receiver, *missing_rent)),
            ) && r->Ok_0.signed_exactly(config.fee_payer),
        },
        r matches Ok(plan) ==> ({
            let step = plan.instructions@.last();
            let receiver = token_account_for(*config, *pool, deposit.token_receiver);
            &&& deposit.token_receiver matches Some(account) ==> step.accounts@[4].0 == account
            &&& step.accounts@[4].0 == receiver
            &&& deposit.referrer matches Some(account) ==> step.accounts@[6].0 == account
            &&& deposit.referrer is None ==> step.accounts@[6].0 == receiver
            &&& step.accounts@[3].0 == deposit.transfer_account
            &&& step.data@ == seq![14u8] + spec_u64_to_le_bytes(deposit.lamports)
        }),
{
    let from = sol_source_account(config, &deposit.from);
    let mut signers = signed_by(config.fee_payer);
    add_signer(&mut signers, deposit.transfer_account);
    if let Some(account) = deposit.from {
        add_signer(&mut signers, account);
    }
    let mut instructions = no_instructions();
    add_instruction(
        &mut instructions,
        transfer(from, deposit.transfer_account, deposit.lamports),
    );
    let mut total_rent_free_balances: u64 = 0;
    let receiver = add_token_receiver(
        config,
        pool,
        &deposit.token_receiver,
        missing_rent,
        &mut instructions,
        &mut total_rent_free_balances,
    );
    let referrer: Address = match deposit.referrer {
        Some(account) => account,
        None => receiver,
    };
    let withdraw_authority = find_withdraw_authority(
        config.stake_pool_program_id,
        deposit.pool_address,
    );
    let instruction = match config.funding_authority {
        Some(received) => {
            let expected = match pool.sol_deposit_authority {
                Some(expected) => expected,
                None => {
                    return Err(CliError::NoSolDepositAuthority);
                },
            };
            if !same_address(&received, &expected) {
                return Err(CliError::InvalidDepositAuthority { expected, received });
            }
            add_signer(&mut signers, received);
            deposit_sol_with_authority(
                config.stake_pool_program_id,
                deposit.pool_address,
                received,
                withdraw_authority,
                pool.reserve_stake,
                deposit.transfer_account,
                receiver,
                pool.manager_fee_account,
                referrer,
                pool.pool_mint,
                pool.token_program_id,
                deposit.lamports,
            )
        },
        None => deposit_sol(
            config.stake_pool_program_id,
            deposit.pool_address,
            withdraw_authority,
            pool.reserve_stake,
            deposit.transfer_account,
            receiver,
            pool.manager_fee_account,
            referrer,
            pool.pool_mint,
            pool.token_program_id,
            deposit.lamports,
        ),
    };
    add_instruction(&mut instructions, instruction);
    proof {
        let authority = sol_deposit_authority(*config, *pool)->Ok_0;
        assert(views(instructions@) =~= deposit.instructions(
            *config,
            *pool,
            authority,
            *missing_rent,
        ));
        assert(signers@ =~= deposit.signers(*config, authority));
        law_deposited_sol_fills_the_given_accounts(
            *config,
            *pool,
            *deposit,
            authority,
            *missing_rent,
        );
        assert(views(instructions@).last() == instructions@.last()@);
    }
    Ok(plan_transaction(instructions, &signers, total_rent_free_balances))
}

/// The accounts that a deposit of stake fills do not depend on who signs as its authority.
/// The pool tokens go to the given receiver, else to the associated account of the token
/// owner, and the referral fees to the given referrer, else to that receiver. The stake goes
/// into the pool's stake account and is the one that was given.
pub proof fn law_deposit_fills_the_given_accounts(
    config: Config,
    pool: StakePool,
    deposit: StakeDeposit,
    authority: Option<Address>,
)
    ensures
        deposit.instructions(config, pool, authority).len() == 3,
        ({
            let step = deposit.instructions(config, pool, authority)[2];
            let receiver = match deposit.token_receiver {
                Some(account) => account,
                None => associated_token_address(
                    config.token_owner@,
                    pool.pool_mint@,
                    pool.token_program_id@,
                ),
            };
            &&& step.program_id == config.stake_pool_program_id
            &&& step.accounts.len() == 15
            &&& step.accounts[0] == AccountMeta(deposit.pool_address, false, true)
            &&& step.accounts[1] == AccountMeta(pool.validator_list, false, true)
            &&& step.accounts[3] == AccountMeta(
                withdraw_authority_address(config.stake_pool_program_id@, deposit.pool_address@),
                false,
                false,
            )
            &&& step.accounts[4] == AccountMeta(deposit.stake, false, true)
            &&& step.accounts[5] == AccountMeta(deposit.validator_stake, false, true)
            &&& step.accounts[6] == AccountMeta(pool.reserve_stake, false, true)
            &&& step.accounts[7] == AccountMeta(receiver, false, true)
            &&& step.accounts[8] == AccountMeta(pool.manager_fee_account, false, true)
            &&& step.accounts[9] == AccountMeta(
                match deposit.referrer {
                    Some(account) => account,
                    None => receiver,
                },
                false,
                true,
            )
            &&& step.accounts[10] == AccountMeta(pool.pool_mint, false, true)
            &&& step.accounts[13] == AccountMeta(pool.token_program_id, false, false)
            &&& step.data == seq![9u8]
        }),
{
}

/// Before the stake is deposited, its owner gives the staking and the withdrawal of it to the
/// authority over the deposit: the given one, which signs the deposit, else the one that the
/// pool's address derives, which does not.
pub proof fn law_deposited_stake_is_handed_over_first(
    config: Config,
    pool: StakePool,
    deposit: StakeDeposit,
    authority: Option<Address>,
    k: int,
)
    requires
        0 <= k < 2,
    ensures
        ({
            let taker = match authority {
                Some(given) => given,
                None => deposit_authority_address(
                    config.stake_pool_program_id@,
                    deposit.pool_address@,
                ),
            };
            let steps = deposit.instructions(config, pool, authority);
            &&& steps[k].program_id == STAKE_PROGRAM
            &&& steps[k].accounts.len() == 3
            &&& steps[k].accounts[0] == AccountMeta(deposit.stake, false, true)
            &&& steps[k].accounts[2] == AccountMeta(deposit.stake_authority, true, false)
            &&& steps[k].data == spec_u32_to_le_bytes(1) + taker@ + spec_u32_to_le_bytes(k as u32)
            &&& steps[2].accounts[2] == AccountMeta(taker, authority is Some, false)
        }),
{
}

/// A deposit with an authority and one without name the same accounts in the same places, but
/// for the authority over the deposit itself.
pub proof fn law_authority_changes_only_itself(
    config: Config,
    pool: StakePool,
    deposit: StakeDeposit,
    authority: Option<Address>,
    other: Option<Address>,
    k: int,
)
    requires
        0 <= k < 15,
        k != 2,
    ensures
        deposit.instructions(config, pool, authority)[2].accounts[k] == deposit.instructions(
            config,
            pool,
            other,
        )[2].accounts[k],
        deposit.instructions(config, pool, authority)[2].data == deposit.instructions(
            config,
            pool,
            other,
        )[2].data,
{
}

/// The instructions of a deposit of stake depend on the pool's list, reserve, mint, account
/// for fees and token program alone: two pools that differ in their manager, staker or
/// authorities give the same ones.
pub proof fn law_deposit_does_not_depend_on_the_staker_of_the_pool(
    config: Config,
    pool: StakePool,
    other: StakePool,
    deposit: StakeDeposit,
    authority: Option<Address>,
)
    requires
        pool.validator_list == other.validator_list,
        pool.reserve_stake == other.reserve_stake,
        pool.pool_mint == other.pool_mint,
        pool.manager_fee_account == other.manager_fee_account,
        pool.token_program_id == other.token_program_id,
    ensures
        deposit.instructions(config, pool, authority) == deposit.instructions(
            config,
            other,
            authority,
        ),
{
}

/// A deposit of stake is signed by the payer, by the owner of the stake and by the given
/// authority, where there is one, and by nobody else.
pub proof fn law_deposit_is_signed_by_the_owner_of_the_stake(
    config: Config,
    deposit: StakeDeposit,
    authority: Option<Address>,
    a: Address,
)
    ensures
        deposit.signers(config, authority).contains(a) <==> a == config.fee_payer || a
            == deposit.stake_authority || authority == Some(a),
{
    let listed = deposit.signers(config, authority);
    assert(listed[0] == config.fee_payer && listed[1] == deposit.stake_authority);
    assert(authority is Some ==> listed[2] == authority->0);
}

/// The authority over deposits of stake is asked only where the caller gives one, and must
/// then be the pool's.
pub proof fn law_stake_deposit_needs_the_authority_of_the_pool(config: Config, pool: StakePool)
    ensures
        config.funding_authority is None ==> stake_deposit_authority(config, pool) == Ok::<
            Option<Address>,
            CliError,
        >(None),
        config.funding_authority matches Some(received) ==> (stake_deposit_authority(config, pool)
            == if received == pool.stake_deposit_authority {
            Ok::<Option<Address>, CliError>(Some(received))
        } else {
            Err(
                CliError::InvalidDepositAuthority {
                    expected: pool.stake_deposit_authority,
                    received,
                },
            )
        }),
{
}

/// The plan of a deposit of stake holds its three instructions last, and before them only the
/// creation of the token owner's associated account, where no receiver is given and it is
/// missing. The payer spends the rent of that account besides the fee.
pub proof fn law_deposit_plan_ends_with_the_deposit(
    plan: TransactionPlan,
    config: Config,
    pool: StakePool,
    deposit: StakeDeposit,
    authority: Option<Address>,
    missing_rent: Option<u64>,
    k: int,
)
    requires
        plan.comprises(
            receiver_creation(config, pool, deposit.token_receiver, missing_rent)
                + deposit.instructions(config, pool, authority),
            deposit.signers(config, authority),
            rent_if_missing(receiver_rent(deposit.token_receiver, missing_rent)),
        ),
        0 <= k < 3,
    ensures
        ({
            let created = deposit.token_receiver is None && missing_rent is Some;
            &&& plan.instructions@.len() == if created {
                4int
            } else {
                3
            }
            &&& plan.instructions@[plan.instructions@.len() - 3 + k]@ == deposit.instructions(
                config,
                pool,
                authority,
            )[k]
            &&& created ==> plan.instructions@[0]@.program_id == ASSOCIATED_TOKEN_PROGRAM
                && plan.instructions@[0]@.accounts[2] == AccountMeta(
                config.token_owner,
                false,
                false,
            )
            &&& plan.additional_fee == if created {
                missing_rent->0
            } else {
                0
            }
        }),
{
    law_plan_keeps_instructions_and_signers(
        plan,
        receiver_creation(config, pool, deposit.token_receiver, missing_rent)
            + deposit.instructions(config, pool, authority),
        deposit.signers(config, authority),
        rent_if_missing(receiver_rent(deposit.token_receiver, missing_rent)),
    );
}

/// A stake can be deposited exactly where it is delegated to a validator in the pool's list.
pub proof fn law_only_stake_of_the_pool_is_deposited(
    validators: PoolValidators,
    state: StakeState,
)
    ensures
        deposit_refusal(validators, state) is None <==> state is Stake && exists|i: int|
            0 <= i < validators.validators@.len() && (
            #[trigger] validators.validators@[i]).vote_account_address == state->Stake_0,
        !(state is Stake) ==> deposit_refusal(validators, state) == Some(
            CliError::StakeNotDelegated,
        ),
        state is Stake && deposit_refusal(validators, state) is Some ==> deposit_refusal(
            validators,
            state,
        ) == Some(CliError::VoteAccountNotInPool),
{
}

/// Each of the deposits by which all stake is deposited puts its own stake into the stake
/// account of the validator that it is delegated to. The pool tokens of all of them go to one
/// receiver, and their referral fees to one referrer.
pub proof fn law_each_deposit_puts_its_stake_with_its_validator(
    plan: TransactionPlan,
    config: Config,
    pool: StakePool,
    pool_address: Address,
    validators: PoolValidators,
    stake: Address,
    vote_account: Address,
    common: DepositTerms,
    authority: Option<Address>,
    i: int,
)
    requires
        deposits_stake(
            plan,
            config,
            pool,
            pool_address,
            validators,
            stake,
            vote_account,
            common,
            authority,
        ),
        0 <= i < validators.validators@.len(),
        validators.validators@[i].vote_account_address == vote_account,
        forall|j: int|
            0 <= j < i ==> (#[trigger] validators.validators@[j]).vote_account_address
                != vote_account,
    ensures
        plan.instructions@.len() == 3,
        plan.additional_fee == 0,
        ({
            let step = plan.instructions@[2]@;
            let receiver = match common.token_receiver {
                Some(account) => account,
                None => associated_token_address(
                    config.token_owner@,
                    pool.pool_mint@,
                    pool.token_program_id@,
                ),
            };
            &&& step.accounts[0] == AccountMeta(pool_address, false, true)
            &&& step.accounts[4] == AccountMeta(stake, false, true)
            &&& step.accounts[5] == AccountMeta(
                validator_stake_address(
                    config.stake_pool_program_id@,
                    vote_account@,
                    pool_address@,
                    validators.validators@[i].validator_seed_suffix,
                ),
                false,
                true,
            )
            &&& step.accounts[7] == AccountMeta(receiver, false, true)
            &&& step.accounts[9] == AccountMeta(
                match common.referrer {
                    Some(account) => account,
                    None => receiver,
                },
                false,
                true,
            )
            &&& plan.instructions@[0]@.accounts[2] == AccountMeta(
                common.stake_authority,
                true,
                false,
            )
        }),
        forall|a: Address| #[trigger]
            plan.signers@.contains(a) <==> a == config.fee_payer || a == common.stake_authority
                || authority == Some(a),
{
    let validator_stake = choose|validator_stake: Address| #[trigger]
        is_stake_account_of(
            validator_stake,
            config.stake_pool_program_id,
            pool_address,
            validators,
            vote_account,
        ) && plan.comprises(
            common.deposit_of(pool_address, stake, validator_stake).instructions(
                config,
                pool,
                authority,
            ),
            common.deposit_of(pool_address, stake, validator_stake).signers(config, authority),
            0,
        ) && plan.signed_exactly(config.fee_payer);
    let deposit = common.deposit_of(pool_address, stake, validator_stake);
    law_stake_account_is_that_of_the_first_entry(
        validator_stake,
        config.stake_pool_program_id,
        pool_address,
        validators,
        vote_account,
        i,
    );
    law_plan_keeps_instructions_and_signers(
        plan,
        deposit.instructions(config, pool, authority),
        deposit.signers(config, authority),
        0,
    );
    law_deposit_fills_the_given_accounts(config, pool, deposit, authority);
    law_deposited_stake_is_handed_over_first(config, pool, deposit, authority, 0);
    assert forall|a: Address| #[trigger] plan.signers@.contains(a) <==> a == config.fee_payer || a
        == common.stake_authority || authority == Some(a) by {
        law_deposit_is_signed_by_the_owner_of_the_stake(config, deposit, authority, a);
    }
}

/// A deposit of SOL begins with the transfer of its lamports from the given account, else from
/// the payer, to the account that they pass through, and ends with the deposit of as many from
/// there.
pub proof fn law_deposited_sol_comes_from_its_source(
    config: Config,
    pool: StakePool,
    deposit: SolDeposit,
    authority: Option<Address>,
    missing_rent: Option<u64>,
)
    ensures
        ({
            let steps = deposit.instructions(config, pool, authority, missing_rent);
            let source = match deposit.from {
                Some(account) => account,
                None => config.fee_payer,
            };
            let created = deposit.token_receiver is None && missing_rent is Some;
            &&& steps.len() == if created {
                3int
            } else {
                2
            }
            &&& steps[0].program_id == SYSTEM_PROGRAM
            &&& steps[0].accounts.len() == 2
            &&& steps[0].accounts[0] == AccountMeta(source, true, true)
            &&& steps[0].accounts[1] == AccountMeta(deposit.transfer_account, false, true)
            &&& steps[0].data == spec_u32_to_le_bytes(2) + spec_u64_to_le_bytes(deposit.lamports)
            &&& created ==> steps[1].program_id == ASSOCIATED_TOKEN_PROGRAM && steps[1].accounts[2]
                == AccountMeta(config.token_owner, false, false)
            &&& steps.last().program_id == config.stake_pool_program_id
            &&& steps.last().accounts[3] == AccountMeta(deposit.transfer_account, true, true)
            &&& steps.last().data == seq![14u8] + spec_u64_to_le_bytes(deposit.lamports)
        }),
{
}

/// A deposit of SOL fills the same accounts with an authority and without one: the pool tokens
/// go to the given receiver, else to the associated account of the token owner, and the
/// referral fees to the given referrer, else to that receiver. The lamports go to the reserve.
/// An authority is named last, and signs.
pub proof fn law_deposited_sol_fills_the_given_accounts(
    config: Config,
    pool: StakePool,
    deposit: SolDeposit,
    authority: Option<Address>,
    missing_rent: Option<u64>,
)
    ensures
        ({
            let step = deposit.instructions(config, pool, authority, missing_rent).last();
            let receiver = match deposit.token_receiver {
                Some(account) => account,
                None => associated_token_address(
                    config.token_owner@,
                    pool.pool_mint@,
                    pool.token_program_id@,
                ),
            };
            &&& step.accounts.len() == if authority is Some {
                11int
            } else {
                10
            }
            &&& step.accounts[0] == AccountMeta(deposit.pool_address, false, true)
            &&& step.accounts[1] == AccountMeta(
                withdraw_authority_address(config.stake_pool_program_id@, deposit.pool_address@),
                false,
                false,
            )
            &&& step.accounts[2] == AccountMeta(pool.reserve_stake, false, true)
            &&& step.accounts[4] == AccountMeta(receiver, false, true)
            &&& step.accounts[5] == AccountMeta(pool.manager_fee_account, false, true)
            &&& step.accounts[6] == AccountMeta(
                match deposit.referrer {
                    Some(account) => account,
                    None => receiver,
                },
                false,
                true,
            )
            &&& step.accounts[7] == AccountMeta(pool.pool_mint, false, true)
            &&& step.accounts[9] == AccountMeta(pool.token_program_id, false, false)
            &&& authority matches Some(a) ==> step.accounts[10] == AccountMeta(a, true, false)
        }),
{
}

/// A deposit of SOL is signed by the payer, by the account that the lamports pass through, by
/// the account that gives them, where one is given, and by the authority, where there is one.
/// Nobody else signs.
pub proof fn law_sol_deposit_is_signed_by_its_source(
    config: Config,
    deposit: SolDeposit,
    authority: Option<Address>,
    a: Address,
)
    ensures
        deposit.signers(config, authority).contains(a) <==> a == config.fee_payer || a
            == deposit.transfer_account || deposit.from == Some(a) || authority == Some(a),
{
    let listed = deposit.signers(config, authority);
    assert(listed[0] == config.fee_payer && listed[1] == deposit.transfer_account);
    if deposit.from is Some {
        assert(listed[2] == deposit.from->0);
        assert(authority is Some ==> listed[3] == authority->0);
    } else {
        assert(authority is Some ==> listed[2] == authority->0);
    }
}

/// The instructions of a deposit of SOL depend on the pool's reserve, mint, account for fees
/// and token program alone.
pub proof fn law_sol_deposit_does_not_depend_on_the_staker_of_the_pool(
    config: Config,
    pool: StakePool,
    other: StakePool,
    deposit: SolDeposit,
    authority: Option<Address>,
    missing_rent: Option<u64>,
)
    requires
        pool.reserve_stake == other.reserve_stake,
        pool.pool_mint == other.pool_mint,
        pool.manager_fee_account == other.manager_fee_account,
        pool.token_program_id == other.token_program_id,
    ensures
        deposit.instructions(config, pool, authority, missing_rent) == deposit.instructions(
            config,
            other,
            authority,
            missing_rent,
        ),
{
}

/// The authority over deposits of SOL is asked only where the caller gives one. It must then
/// be the pool's, and a pool that has none refuses every one.
pub proof fn law_sol_deposit_needs_the_authority_of_the_pool(config: Config, pool: StakePool)
    ensures
        config.funding_authority is None ==> sol_deposit_authority(config, pool) == Ok::<
            Option<Address>,
            CliError,
        >(None),
        config.funding_authority is Some ==> (sol_deposit_authority(config, pool) is Ok
            <==> pool.sol_deposit_authority == config.funding_authority),
        config.funding_authority is Some && sol_deposit_authority(config, pool) is Ok
            ==> sol_deposit_authority(config, pool)->Ok_0 == config.funding_authority,
        config.funding_authority is Some && pool.sol_deposit_authority is None
            ==> sol_deposit_authority(config, pool) == Err::<Option<Address>, CliError>(
            CliError::NoSolDepositAuthority,
        ),
        config.funding_authority is Some && pool.sol_deposit_authority is Some
            && config.funding_authority != pool.sol_deposit_authority ==> sol_deposit_authority(
            config,
            pool,
        ) == Err::<Option<Address>, CliError>(
            CliError::InvalidDepositAuthority {
                expected: pool.sol_deposit_authority->0,
                received: config.funding_authority->0,
            },
        ),
{
}

/// When all stake is deposited, a stake is planned for exactly where it is delegated to a
/// validator in the pool's list. Otherwise it is refused, for not being delegated or for its
/// validator.
pub proof fn law_stake_of_the_pool_is_always_planned_for(
    r: Result<TransactionPlan, CliError>,
    config: Config,
    pool: StakePool,
    pool_address: Address,
    validators: PoolValidators,
    stake: Address,
    state: StakeState,
    common: DepositTerms,
    authority: Option<Address>,
)
    requires
        is_deposit_result(
            r,
            config,
            pool,
            pool_address,
            validators,
            stake,
            state,
            common,
            authority,
        ),
    ensures
        r is Ok <==> state is Stake && exists|i: int|
            0 <= i < validators.validators@.len() && (
            #[trigger] validators.validators@[i]).vote_account_address == state->Stake_0,
        !(state is Stake) ==> r == Err::<TransactionPlan, CliError>(CliError::StakeNotDelegated),
        state is Stake && r is Err ==> r == Err::<TransactionPlan, CliError>(
            CliError::VoteAccountNotInPool,
        ),
        r matches Ok(plan) ==> plan.instructions@.len() == 3 && plan.instructions@[2]@.accounts[4]
            == AccountMeta(stake, false, true),
{
    law_only_stake_of_the_pool_is_deposited(validators, state);
    if let Ok(plan) = r {
        let vote_account = state->Stake_0;
        let i = choose|i: int|
            0 <= i < validators.validators@.len() && (
            #[trigger] validators.validators@[i]).vote_account_address == vote_account;
        let validator_stake = choose|validator_stake: Address| #[trigger]
            is_stake_account_of(
                validator_stake,
                config.stake_pool_program_id,
                pool_address,
                validators,
                vote_account,
            ) && plan.comprises(
                common.deposit_of(pool_address, stake, validator_stake).instructions(
                    config,
                    pool,
                    authority,
                ),
                common.deposit_of(pool_address, stake, validator_stake).signers(config, authority),
                0,
            ) && plan.signed_exactly(config.fee_payer);
        let deposit = common.deposit_of(pool_address, stake, validator_stake);
        law_plan_keeps_instructions_and_signers(
            plan,
            deposit.instructions(config, pool, authority),
            deposit.signers(config, authority),
            0,
        );
    }
}

} // verus!
