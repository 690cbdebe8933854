//! Withdrawing stake and SOL from a pool.
use vstd::bytes::{spec_u32_to_le_bytes, spec_u64_to_le_bytes};
use vstd::prelude::*;

use crate::address::{address_bytes, same_address, Address};
use crate::config::Config;
use crate::error::CliError;
use crate::instruction::{
    add_instruction, add_signer, any_signs, append_instructions,
    law_plan_keeps_instructions_and_signers, no_instructions, plan_transaction, signed_by, views,
    AccountMeta, Instruction, InstructionView, TransactionPlan,
};
use crate::programs::ids::{STAKE_PROGRAM, SYSTEM_PROGRAM};
use crate::programs::pool::{
    find_validator_stake, find_withdraw_authority, validator_stake_address,
    withdraw_authority_address, withdraw_sol, withdraw_sol_instruction,
    withdraw_sol_with_authority, withdraw_sol_with_authority_instruction, withdraw_stake,
    withdraw_stake_instruction,
};
use crate::programs::pool_amounts::{
    calc_lamports_withdraw_amount, lamports_of_tokens, minimum_delegation, pool_minimum_delegation,
};
use crate::programs::stake::{
    delegation_in, merge, merge_instruction, read_delegation, stake_program_id,
};
use crate::programs::system::{create_account, create_account_instruction};
use crate::programs::token::{approve, approve_instruction, is_token_program};
use crate::selection::{total_withdrawn, WithdrawAccount};
use crate::state::{
    first_entry_at, has_entry, law_first_entry_is_the_earliest, Account, PoolValidators, StakePool,
};

verus! {

/// The bytes of a stake account.
pub const STAKE_STATE_LEN: usize = 200;

/// Checks that a token account holds the amount that is to be withdrawn.
pub fn check_token_balance(available: u64, pool_amount: u64, decimals: u8) -> (r: Result<
    (),
    CliError,
>)
    ensures
        r is Ok <==> pool_amount <= available,
        r matches Err(error) ==> error == (CliError::NotEnoughTokens {
            pool_amount,
            available,
            decimals,
        }),
{
    if available < pool_amount {
        Err(CliError::NotEnoughTokens { pool_amount, available, decimals })
    } else {
        Ok(())
    }
}

/// The bytes of the vote account that the stake in an account is delegated to, where the
/// account belongs to the stake program and its stake is delegated.
pub open spec fn delegation_of(account: Account) -> Option<Seq<u8>> {
    match delegation_in(account.data@) {
        Some(Some(vote_account)) => if account.owner == STAKE_PROGRAM {
            Some(vote_account)
        } else {
            None
        },
        _ => None,
    }
}

/// Reads the validator that the stake of a receiver is delegated to. There is none
/// where the receiver is not given or does not exist.
pub fn receiver_delegation(receiver: &Option<Account>) -> (r: Option<Address>)
    ensures
        address_bytes(r) == match *receiver {
            Some(account) => delegation_of(account),
            None => None,
        },
{
    match receiver {
        Some(account) => delegation_to(
            read_delegation(&account.data),
            same_address(&account.owner, &stake_program_id()),
        ),
        None => None,
    }
}

/// Keeps the validator that a stake account's data names, where the account
/// belongs to the stake program.
pub fn delegation_to(
    delegation: Option<Option<Address>>,
    owned_by_stake_program: bool,
) -> (r: Option<Address>)
    ensures
        r == match delegation {
            Some(Some(vote_account)) => if owned_by_stake_program {
                Some(vote_account)
            } else {
                None
            },
            _ => None,
        },
{
    match delegation {
        Some(Some(vote_account)) => {
            if owned_by_stake_program {
                Some(vote_account)
            } else {
                None
            }
        },
        _ => None,
    }
}

/// Where a withdrawal takes stake from.
#[derive(Clone, Copy, PartialEq, Eq, Debug)]
pub enum WithdrawFrom {
    /// The reserve of the pool.
    Reserve,
    /// The validator that the receiver's stake is delegated to.
    ReceiverValidator(Address),
    /// The validator that was asked for.
    Validator(Address),
    /// Any stake account of the pool.
    Any,
}

/// Decides where a withdrawal takes stake from. A receiver whose stake is delegated
/// decides before the validator that was asked for, which must then be the same.
pub fn withdraw_from(
    use_reserve: bool,
    receiver_delegation: &Option<Address>,
    vote_account: &Option<Address>,
) -> (r: Result<WithdrawFrom, CliError>)
    ensures
        use_reserve ==> r == Ok::<WithdrawFrom, CliError>(WithdrawFrom::Reserve),
        !use_reserve ==> match (*receiver_delegation, *vote_account) {
            (Some(delegated), Some(provided)) => r == if provided == delegated {
                Ok(WithdrawFrom::ReceiverValidator(delegated))
            } else {
                Err(CliError::VoteAccountMismatch { provided, delegated })
            },
            (Some(delegated), None) => r == Ok::<WithdrawFrom, CliError>(
                WithdrawFrom::ReceiverValidator(delegated),
            ),
            (None, Some(provided)) => r == Ok::<WithdrawFrom, CliError>(
                WithdrawFrom::Validator(provided),
            ),
            (None, None) => r == Ok::<WithdrawFrom, CliError>(WithdrawFrom::Any),
        },
{
    if use_reserve {
        return Ok(WithdrawFrom::Reserve);
    }
    match (receiver_delegation, vote_account) {
        (Some(delegated), Some(provided)) => {
            if same_address(provided, delegated) {
                Ok(WithdrawFrom::ReceiverValidator(*delegated))
            } else {
                Err(CliError::VoteAccountMismatch { provided: *provided, delegated: *delegated })
            }
        },
        (Some(delegated), None) => Ok(WithdrawFrom::ReceiverValidator(*delegated)),
        (None, Some(provided)) => Ok(WithdrawFrom::Validator(*provided)),
        (None, None) => Ok(WithdrawFrom::Any),
    }
}

/// The one account of a withdrawal from the reserve.
pub fn withdraw_from_reserve(pool: &StakePool, pool_amount: u64) -> (r: Vec<WithdrawAccount>)
    ensures
        r@ == seq![
            WithdrawAccount { stake_address: pool.reserve_stake, vote_address: None, pool_amount },
        ],
        total_withdrawn(r@) == pool_amount,
{
    let mut r: Vec<WithdrawAccount> = Vec::new();
    r.push(WithdrawAccount { stake_address: pool.reserve_stake, vote_address: None, pool_amount });
    proof {
        assert(r@ =~= seq![
            WithdrawAccount { stake_address: pool.reserve_stake, vote_address: None, pool_amount },
        ]);
        lemma_one_withdrawn(r@);
    }
    r
}

/// The stake account, in a pool, of the first entry that votes with `vote_account`.
pub open spec fn is_stake_account_of(
    stake_account: Address,
    program_id: Address,
    pool_address: Address,
    validators: PoolValidators,
    vote_account: Address,
) -> bool {
    exists|i: int|
        first_entry_at(validators.validators@, vote_account, i) && stake_account
            == validator_stake_address(
            program_id@,
            vote_account@,
            pool_address@,
            validators.validators@[i].validator_seed_suffix,
        )
}

/// Finds the stake account of a validator in a pool. There is none where the
/// validator is not in the pool.
pub fn find_stake_account(
    config: &Config,
    pool_address: &Address,
    validators: &PoolValidators,
    vote_account: &Address,
) -> (r: Option<Address>)
    ensures
        r is Some <==> has_entry(validators.validators@, *vote_account),
        r matches Some(stake_account) ==> is_stake_account_of(
            stake_account,
            config.stake_pool_program_id,
            *pool_address,
            *validators,
            *vote_account,
        ),
{
    match validators.find(vote_account) {
        Some(entry) => Some(
            find_validator_stake(
                config.stake_pool_program_id,
                *vote_account,
                *pool_address,
                entry.validator_seed_suffix,
            ),
        ),
        None => None,
    }
}

/// Finds the stake account that a withdrawal from one validator draws on.
pub fn validator_stake_account(
    config: &Config,
    pool_address: &Address,
    validators: &PoolValidators,
    vote_account: &Address,
    named_by_receiver: bool,
) -> (r: Result<Address, CliError>)
    ensures
        r is Ok <==> has_entry(validators.validators@, *vote_account),
        r matches Ok(stake_account) ==> is_stake_account_of(
            stake_account,
            config.stake_pool_program_id,
            *pool_address,
            *validators,
            *vote_account,
        ),
        r matches Err(error) ==> error == if named_by_receiver {
            CliError::ReceiverNotInPool { vote_account: *vote_account }
        } else {
            CliError::ValidatorNotInPool { vote_account: *vote_account }
        },
{
    match find_stake_account(config, pool_address, validators, vote_account) {
        Some(stake_account) => Ok(stake_account),
        None => {
            if named_by_receiver {
                Err(CliError::ReceiverNotInPool { vote_account: *vote_account })
            } else {
                Err(CliError::ValidatorNotInPool { vote_account: *vote_account })
            }
        },
    }
}

/// The lamports in a validator's stake account that it does not have to keep.
pub open spec fn spare_lamports(
    stake_lamports: u64,
    stake_minimum_delegation: u64,
    rent: u64,
) -> u64 {
    let spare = stake_lamports - pool_minimum_delegation(stake_minimum_delegation) - rent;
    if spare >= 0 {
        spare as u64
    } else {
        0
    }
}

/// What a withdrawal from one validator may take.
pub open spec fn available_from(
    pool: StakePool,
    stake_lamports: u64,
    stake_minimum_delegation: u64,
    rent: u64,
) -> Option<u64> {
    lamports_of_tokens(
        pool.total_lamports,
        pool.pool_token_supply,
        spare_lamports(stake_lamports, stake_minimum_delegation, rent),
    )
}

/// Computes what a withdrawal from one validator may take, where it fits 64 bits.
pub fn available_from_validator(
    pool: &StakePool,
    stake_lamports: u64,
    stake_minimum_delegation: u64,
    rent: u64,
) -> (r: Option<u64>)
    ensures
        r == available_from(*pool, stake_lamports, stake_minimum_delegation, rent),
{
    let spare = stake_lamports.saturating_sub(
        minimum_delegation(stake_minimum_delegation),
    ).saturating_sub(rent);
    calc_lamports_withdraw_amount(pool.total_lamports, pool.pool_token_supply, spare)
}

/// The one account of a withdrawal from one validator. It fails where the amount is
/// more than what the withdrawal may take.
pub fn withdraw_from_validator(
    stake_account: &Address,
    vote_account: &Address,
    available: u64,
    pool_amount: u64,
) -> (r: Result<Vec<WithdrawAccount>, CliError>)
    ensures
        r is Ok <==> pool_amount <= available,
        r matches Ok(accounts) ==> accounts@ == seq![
            WithdrawAccount {
                stake_address: *stake_account,
                vote_address: Some(*vote_account),
                pool_amount,
            },
        ],
        r matches Ok(accounts) ==> total_withdrawn(accounts@) == pool_amount,
        r matches Err(error) ==> error == (CliError::NotEnoughStake {
            stake_account: *stake_account,
            asked: pool_amount,
            available,
        }),
{
    if available < pool_amount {
        return Err(
            CliError::NotEnoughStake {
                stake_account: *stake_account,
                asked: pool_amount,
                available,
            },
        );
    }
    let mut r: Vec<WithdrawAccount> = Vec::new();
    r.push(
        WithdrawAccount {
            stake_address: *stake_account,
            vote_address: Some(*vote_account),
            pool_amount,
        },
    );
    proof {
        assert(r@ =~= seq![
            WithdrawAccount {
                stake_address: *stake_account,
                vote_address: Some(*vote_account),
                pool_amount,
            },
        ]);
        lemma_one_withdrawn(r@);
    }
    Ok(r)
}

proof fn lemma_one_withdrawn(accounts: Seq<WithdrawAccount>)
    requires
        accounts.len() == 1,
    ensures
        total_withdrawn(accounts) == accounts[0].pool_amount,
{
    assert(total_withdrawn(accounts.drop_last()) == 0);
}

/// Computes the lamports that the pool tokens of a withdrawal are worth, where they
/// fit 64 bits.
pub fn withdrawn_lamports(pool: &StakePool, pool_amount: u64) -> (r: Option<u64>)
    ensures
        r == lamports_of_tokens(pool.total_lamports, pool.pool_token_supply, pool_amount),
{
    calc_lamports_withdraw_amount(pool.total_lamports, pool.pool_token_supply, pool_amount)
}

/// Every account of a withdrawal gets a new stake account: the receiver is not given,
/// or its stake is delegated and is merged with the new ones.
pub open spec fn needs_new_stakes(receiver: Option<Address>, receiver_is_delegated: bool) -> bool {
    receiver is None || receiver_is_delegated
}

/// Counts the new stake accounts that a withdrawal needs.
pub fn new_stakes_needed(
    accounts: &Vec<WithdrawAccount>,
    receiver: &Option<Address>,
    receiver_is_delegated: bool,
) -> (r: usize)
    ensures
        r == if needs_new_stakes(*receiver, receiver_is_delegated) {
            accounts@.len()
        } else {
            0
        },
{
    if receiver.is_none() || receiver_is_delegated {
        accounts.len()
    } else {
        0
    }
}

/// The account that the stake withdrawn from the account at place `i` goes to.
pub open spec fn stake_receiver_at(
    receiver: Option<Address>,
    receiver_is_delegated: bool,
    new_stakes: Seq<Address>,
    i: int,
) -> Address {
    if needs_new_stakes(receiver, receiver_is_delegated) {
        new_stakes[i]
    } else {
        receiver->0
    }
}

/// The accounts and amounts that a withdrawal of stake is made of.
pub struct StakeWithdrawal {
    /// The pool.
    pub pool_address: Address,
    /// The token account that the pool tokens come from.
    pub pool_token_account: Address,
    /// All pool tokens that are withdrawn.
    pub pool_amount: u64,
    /// The stake accounts that are drawn on.
    pub accounts: Vec<WithdrawAccount>,
    /// The account that is to receive the stake, where one is given.
    pub receiver: Option<Address>,
    /// The stake of the receiver is delegated.
    pub receiver_is_delegated: bool,
    /// The stake accounts that are made for the withdrawal.
    pub new_stakes: Vec<Address>,
    /// The account that moves the pool tokens for their owner.
    pub transfer_authority: Address,
    /// The rent of a stake account.
    pub rent: u64,
}

impl StakeWithdrawal {
    /// The accounts give all the pool tokens that are approved. There are as many new
    /// stake accounts as the withdrawal needs, and their rent fits 64 bits.
    pub open spec fn wf(self) -> bool {
        &&& total_withdrawn(self.accounts@) == self.pool_amount
        &&& self.new_stakes@.len() == if needs_new_stakes(
            self.receiver,
            self.receiver_is_delegated,
        ) {
            self.accounts@.len()
        } else {
            0
        }
        &&& self.new_stakes@.len() * self.rent <= u64::MAX
        &&& self.receiver_is_delegated ==> self.receiver is Some
    }

    /// The instruction that withdraws from the account at place `i`.
    pub open spec fn withdrawal_at(self, config: Config, pool: StakePool, i: int) -> InstructionView {
        withdraw_stake_instruction(
            config.stake_pool_program_id,
            self.pool_address,
            pool.validator_list,
            withdraw_authority_address(config.stake_pool_program_id@, self.pool_address@),
            self.accounts@[i].stake_address,
            stake_receiver_at(
                self.receiver,
                self.receiver_is_delegated,
                self.new_stakes@,
                i,
            ),
            config.staker,
            self.transfer_authority,
            self.pool_token_account,
            pool.manager_fee_account,
            pool.pool_mint,
            pool.token_program_id,
            self.accounts@[i].pool_amount,
        )
    }

    /// The instructions for the account at place `i`: the creation of a new stake
    /// account, where one is needed, and the withdrawal into it.
    pub open spec fn steps_at(self, config: Config, pool: StakePool, i: int) -> Seq<
        InstructionView,
    > {
        let withdrawal = self.withdrawal_at(config, pool, i);
        if needs_new_stakes(self.receiver, self.receiver_is_delegated) {
            seq![
                create_account_instruction(
                    config.fee_payer,
                    self.new_stakes@[i],
                    self.rent,
                    STAKE_STATE_LEN as u64,
                    STAKE_PROGRAM,
                ),
                withdrawal,
            ]
        } else {
            seq![withdrawal]
        }
    }

    /// The instructions for the first `n` accounts.
    pub open spec fn steps(self, config: Config, pool: StakePool, n: int) -> Seq<InstructionView>
        decreases n,
    {
        if n <= 0 {
            seq![]
        } else {
            self.steps(config, pool, n - 1) + self.steps_at(config, pool, n - 1)
        }
    }

    /// The instructions that merge the new stake accounts with the receiver, where
    /// its stake is delegated.
    pub open spec fn merges(self, config: Config) -> Seq<InstructionView> {
        if self.receiver_is_delegated {
            Seq::new(
                self.new_stakes@.len(),
                |i: int| merge_instruction(self.receiver->0, self.new_stakes@[i], config.fee_payer),
            )
        } else {
            seq![]
        }
    }

    /// The instruction that lets the transfer authority take the pool tokens.
    pub open spec fn approval(self, config: Config, pool: StakePool) -> InstructionView {
        approve_instruction(
            pool.token_program_id,
            self.pool_token_account,
            self.transfer_authority,
            config.token_owner,
            self.pool_amount,
        )
    }

    /// All instructions of the withdrawal.
    pub open spec fn instructions(self, config: Config, pool: StakePool) -> Seq<InstructionView> {
        seq![self.approval(config, pool)] + self.steps(
            config,
            pool,
            self.accounts@.len() as int,
        ) + self.merges(config)
    }

    /// All signers of the withdrawal.
    pub open spec fn signers(self, config: Config) -> Seq<Address> {
        seq![config.fee_payer, config.token_owner, self.transfer_authority] + self.new_stakes@
    }
}

/// Plans a withdrawal of stake. It fails where no token program owns the pool's
/// mint.
pub fn command_withdraw_stake(
    config: &Config,
    pool: &StakePool,
    withdrawal: &StakeWithdrawal,
) -> (r: Result<TransactionPlan, CliError>)
    requires
        withdrawal.wf(),
    ensures
        r is Ok <==> is_token_program(pool.token_program_id),
        r matches Err(error) ==> error == CliError::WrongTokenProgram,
        r matches Ok(plan) ==> plan.comprises(
            withdrawal.instructions(*config, *pool),
            withdrawal.signers(*config),
            (withdrawal.new_stakes@.len() * withdrawal.rent) as u64,
        ),
        r matches Ok(plan) ==> withdrawal.accounts@.len() > 0 ==> plan.signed_exactly(
            config.fee_payer,
        ),
        r matches Ok(plan) ==> forall|i: int|
            0 <= i < withdrawal.accounts@.len() ==> ({
                let drawn = #[trigger] withdrawal.accounts@[i];
                let step = plan.instructions@[if withdrawal.receiver is None
                    || withdrawal.receiver_is_delegated {
                    2 * i + 2
                } else {
                    i + 1
                }];
                &&& step.accounts@[3].0 == drawn.stake_address
                &&& step.accounts@[5] == AccountMeta(config.staker, false, false)
                &&& step.data@ == seq![10u8] + spec_u64_to_le_bytes(drawn.pool_amount)
            }),
{
    let approval = match approve(
        pool.token_program_id,
        withdrawal.pool_token_account,
        withdrawal.transfer_authority,
        config.token_owner,
        withdrawal.pool_amount,
    ) {
        Some(instruction) => instruction,
        None => {
            return Err(CliError::WrongTokenProgram);
        },
    };
    let mut instructions = no_instructions();
    add_instruction(&mut instructions, approval);
    assert(views(instructions@) =~= seq![withdrawal.approval(*config, *pool)]);
    let additional_fee = add_withdrawal_steps(config, pool, withdrawal, &mut instructions);
    add_merges(config, withdrawal, &mut instructions);
    let mut signers = signed_by(config.fee_payer);
    add_signer(&mut signers, config.token_owner);
    add_signer(&mut signers, withdrawal.transfer_authority);
    let ghost leading = signers@;
    let mut i: usize = 0;
    assert(leading + withdrawal.new_stakes@.take(0) =~= leading);
    while i < withdrawal.new_stakes.len()
        invariant
            i <= withdrawal.new_stakes.len(),
            signers@ == leading + withdrawal.new_stakes@.take(i as int),
            forall|a: Address| #[trigger]
                signers@.contains(a) <==> (leading.contains(a) || withdrawal.new_stakes@.take(
                    i as int,
                ).contains(a)),
        decreases withdrawal.new_stakes.len() - i,
    {
        add_signer(&mut signers, withdrawal.new_stakes[i]);
        proof {
            let shorter = withdrawal.new_stakes@.take(i as int);
            let longer = withdrawal.new_stakes@.take(i + 1);
            assert(longer =~= shorter.push(withdrawal.new_stakes@[i as int]));
            assert(signers@ =~= leading + longer);
            assert forall|a: Address| #[trigger]
                longer.contains(a) <==> (shorter.contains(a) || a
                    == withdrawal.new_stakes@[i as int]) by {
                if shorter.contains(a) {
                    let j = choose|j: int| 0 <= j < shorter.len() && shorter[j] == a;
                    assert(longer[j] == a);
                }
                assert(longer[i as int] == withdrawal.new_stakes@[i as int]);
            }
        }
        i = i + 1;
    }
    assert(withdrawal.new_stakes@.take(withdrawal.new_stakes@.len() as int)
        =~= withdrawal.new_stakes@);
    assert(signers@ =~= withdrawal.signers(*config));
    let plan = plan_transaction(instructions, &signers, additional_fee);
    proof {
        assert forall|i: int| 0 <= i < withdrawal.accounts@.len() implies ({
            let drawn = #[trigger] withdrawal.accounts@[i];
            let step = plan.instructions@[if withdrawal.receiver is None
                || withdrawal.receiver_is_delegated {
                2 * i + 2
            } else {
                i + 1
            }];
            &&& step.accounts@[3].0 == drawn.stake_address
            &&& step.accounts@[5] == AccountMeta(config.staker, false, false)
            &&& step.data@ == seq![10u8] + spec_u64_to_le_bytes(drawn.pool_amount)
        }) by {
            law_withdrawn_stake_belongs_to_the_caller(plan, *config, *pool, *withdrawal, i);
        }
    }
    Ok(plan)
}

/// Adds the instructions for the accounts of a withdrawal, and gives the rent of the
/// stake accounts that they create.
fn add_withdrawal_steps(
    config: &Config,
    pool: &StakePool,
    withdrawal: &StakeWithdrawal,
    instructions: &mut Vec<Instruction>,
) -> (total_rent: u64)
    requires
        withdrawal.wf(),
    ensures
        total_rent == withdrawal.new_stakes@.len() * withdrawal.rent,
        views(final(instructions)@) == views(old(instructions)@) + withdrawal.steps(
            *config,
            *pool,
            withdrawal.accounts@.len() as int,
        ),
        forall|a: Address| #[trigger]
            any_signs(views(final(instructions)@), a) <==> (any_signs(
                views(old(instructions)@),
                a,
            ) || (withdrawal.accounts@.len() > 0 && a == withdrawal.transfer_authority) || (
            withdrawal.new_stakes@.len() > 0 && a == config.fee_payer)
                || withdrawal.new_stakes@.contains(a)),
{
    let ghost before = views(instructions@);
    let new_stakes = withdrawal.receiver.is_none() || withdrawal.receiver_is_delegated;
    let withdraw_authority = find_withdraw_authority(
        config.stake_pool_program_id,
        withdrawal.pool_address,
    );
    let mut total_rent: u64 = 0;
    let mut i: usize = 0;
    assert(before + withdrawal.steps(*config, *pool, 0) =~= before);
    while i < withdrawal.accounts.len()
        invariant
            i <= withdrawal.accounts.len(),
            withdrawal.wf(),
            new_stakes == needs_new_stakes(withdrawal.receiver, withdrawal.receiver_is_delegated),
            withdraw_authority == withdraw_authority_address(
                config.stake_pool_program_id@,
                withdrawal.pool_address@,
            ),
            before == views(old(instructions)@),
            total_rent == if new_stakes {
                i * withdrawal.rent
            } else {
                0
            },
            views(instructions@) == before + withdrawal.steps(*config, *pool, i as int),
            forall|a: Address| #[trigger]
                any_signs(views(instructions@), a) <==> (any_signs(before, a) || (i > 0 && a
                    == withdrawal.transfer_authority) || (new_stakes && i > 0 && a
                    == config.fee_payer) || (new_stakes && withdrawal.new_stakes@.take(
                    i as int,
                ).contains(a))),
        decreases withdrawal.accounts.len() - i,
    {
        let account = withdrawal.accounts[i];
        let ghost at_start = views(instructions@);
        let stake_receiver: Address = if new_stakes {
            let stake = withdrawal.new_stakes[i];
            add_instruction(
                instructions,
                create_account(
                    config.fee_payer,
                    stake,
                    withdrawal.rent,
                    STAKE_STATE_LEN as u64,
                    stake_program_id(),
                ),
            );
            assert(i * withdrawal.rent + withdrawal.rent <= withdrawal.new_stakes@.len()
                * withdrawal.rent && (i + 1) * withdrawal.rent == i * withdrawal.rent
                + withdrawal.rent) by (nonlinear_arith)
                requires
                    i < withdrawal.new_stakes@.len(),
            ;
            total_rent = total_rent + withdrawal.rent;
            stake
        } else {
            withdrawal.receiver.unwrap()
        };
        add_instruction(
            instructions,
            withdraw_stake(
                config.stake_pool_program_id,
                withdrawal.pool_address,
                pool.validator_list,
                withdraw_authority,
                account.stake_address,
                stake_receiver,
                config.staker,
                withdrawal.transfer_authority,
                withdrawal.pool_token_account,
                pool.manager_fee_account,
                pool.pool_mint,
                pool.token_program_id,
                account.pool_amount,
            ),
        );
        proof {
            assert(views(instructions@) =~= at_start + withdrawal.steps_at(
                *config,
                *pool,
                i as int,
            ));
            assert(views(instructions@) =~= before + withdrawal.steps(*config, *pool, i + 1));
            if new_stakes {
                let shorter = withdrawal.new_stakes@.take(i as int);
                let longer = withdrawal.new_stakes@.take(i + 1);
                assert forall|a: Address| #[trigger]
                    longer.contains(a) <==> (shorter.contains(a) || a
                        == withdrawal.new_stakes@[i as int]) by {
                    if shorter.contains(a) {
                        let j = choose|j: int| 0 <= j < shorter.len() && shorter[j] == a;
                        assert(longer[j] == a);
                    }
                    assert(longer[i as int] == withdrawal.new_stakes@[i as int]);
                    if longer.contains(a) {
                        let j = choose|j: int| 0 <= j < longer.len() && longer[j] == a;
                        if j < i {
                            assert(shorter[j] == a);
                        }
                    }
                }
            }
        }
        i = i + 1;
    }
    assert(withdrawal.new_stakes@.take(withdrawal.new_stakes@.len() as int)
        =~= withdrawal.new_stakes@);
    total_rent
}

/// Adds the instructions that merge the new stake accounts with the receiver.
fn add_merges(config: &Config, withdrawal: &StakeWithdrawal, instructions: &mut Vec<Instruction>)
    requires
        withdrawal.wf(),
    ensures
        views(final(instructions)@) == views(old(instructions)@) + withdrawal.merges(*config),
        forall|a: Address| #[trigger]
            any_signs(views(final(instructions)@), a) <==> (any_signs(
                views(old(instructions)@),
                a,
            ) || (withdrawal.receiver_is_delegated && withdrawal.new_stakes@.len() > 0 && a
                == config.fee_payer)),
{
    let ghost before = views(instructions@);
    if !withdrawal.receiver_is_delegated {
        assert(before + withdrawal.merges(*config) =~= before);
        return;
    }
    let receiver = withdrawal.receiver.unwrap();
    let mut i: usize = 0;
    assert(before + withdrawal.merges(*config).take(0) =~= before);
    while i < withdrawal.new_stakes.len()
        invariant
            i <= withdrawal.new_stakes.len(),
            withdrawal.receiver == Some(receiver),
            withdrawal.receiver_is_delegated,
            before == views(old(instructions)@),
            views(instructions@) == before + withdrawal.merges(*config).take(i as int),
            forall|a: Address| #[trigger]
                any_signs(views(instructions@), a) <==> (any_signs(before, a) || (i > 0 && a
                    == config.fee_payer)),
        decreases withdrawal.new_stakes.len() - i,
    {
        let ghost at_start = views(instructions@);
        let instruction = merge(receiver, withdrawal.new_stakes[i], config.fee_payer);
        append_instructions(instructions, instruction);
        proof {
            let all = withdrawal.merges(*config);
            assert(all.take(i + 1) =~= all.take(i as int).push(all[i as int]));
            assert(views(instructions@) =~= before + all.take(i + 1));
        }
        i = i + 1;
    }
    assert(withdrawal.merges(*config).take(withdrawal.new_stakes@.len() as int)
        =~= withdrawal.merges(*config));
}

/// The authority that a withdrawal of SOL is signed with: none where none is given,
/// else the given one, which must be the pool's.
pub open spec fn sol_withdrawal_authority(config: Config, pool: StakePool) -> Result<
    Option<Address>,
    CliError,
> {
    match (config.funding_authority, pool.sol_withdraw_authority) {
        (None, _) => Ok(None),
        (Some(_), None) => Err(CliError::NoSolWithdrawAuthority),
        (Some(received), Some(expected)) => if received == expected {
            Ok(Some(received))
        } else {
            Err(CliError::InvalidWithdrawAuthority { expected, received })
        },
    }
}

/// The accounts and the amount that a withdrawal of SOL is made of.
#[derive(Clone, Copy, PartialEq, Eq, Debug)]
pub struct SolWithdrawal {
    /// The pool.
    pub pool_address: Address,
    /// The token account that the pool tokens come from.
    pub pool_token_account: Address,
    /// The account that receives the lamports.
    pub sol_receiver: Address,
    /// The pool tokens that are withdrawn.
    pub pool_amount: u64,
    /// The account that moves the pool tokens for their owner.
    pub transfer_authority: Address,
}

impl SolWithdrawal {
    /// The instructions of the withdrawal, with or without an authority over it.
    pub open spec fn instructions(
        self,
        config: Config,
        pool: StakePool,
        authority: Option<Address>,
    ) -> Seq<InstructionView> {
        let withdraw_authority = withdraw_authority_address(
            config.stake_pool_program_id@,
            self.pool_address@,
        );
        seq![
            approve_instruction(
                pool.token_program_id,
                self.pool_token_account,
                self.transfer_authority,
                config.token_owner,
                self.pool_amount,
            ),
            match authority {
                Some(sol_withdraw_authority) => withdraw_sol_with_authority_instruction(
                    config.stake_pool_program_id,
                    self.pool_address,
                    sol_withdraw_authority,
                    withdraw_authority,
                    self.transfer_authority,
                    self.pool_token_account,
                    pool.reserve_stake,
                    self.sol_receiver,
                    pool.manager_fee_account,
                    pool.pool_mint,
                    pool.token_program_id,
                    self.pool_amount,
                ),
                None => withdraw_sol_instruction(
                    config.stake_pool_program_id,
                    self.pool_address,
                    withdraw_authority,
                    self.transfer_authority,
                    self.pool_token_account,
                    pool.reserve_stake,
                    self.sol_receiver,
                    pool.manager_fee_account,
                    pool.pool_mint,
                    pool.token_program_id,
                    self.pool_amount,
                ),
            },
        ]
    }

    /// The signers of the withdrawal, with or without an authority over it.
    pub open spec fn signers(self, config: Config, authority: Option<Address>) -> Seq<Address> {
        let signers = seq![config.fee_payer, config.token_owner, self.transfer_authority];
        match authority {
            Some(sol_withdraw_authority) => signers.push(sol_withdraw_authority),
            None => signers,
        }
    }
}

/// Plans a withdrawal of SOL from the reserve. It fails where no token program owns
/// the pool's mint, and where a given authority is not the pool's.
pub fn command_withdraw_sol(
    config: &Config,
    pool: &StakePool,
    withdrawal: &SolWithdrawal,
) -> (r: Result<TransactionPlan, CliError>)
    ensures
        !is_token_program(pool.token_program_id) ==> r == Err::<TransactionPlan, CliError>(
            CliError::WrongTokenProgram,
        ),
        is_token_program(pool.token_program_id) ==> match sol_withdrawal_authority(*config, *pool) {
            Err(error) => r == Err::<TransactionPlan, CliError>(error),
            Ok(authority) => r is Ok && r->Ok_0.comprises(
                withdrawal.instructions(*config, *pool, authority),
                withdrawal.signers(*config, authority),
                0,
            ) && r->Ok_0.signed_exactly(config.fee_payer),
        },
{
    let approval = match approve(
        pool.token_program_id,
        withdrawal.pool_token_account,
        withdrawal.transfer_authority,
        config.token_owner,
        withdrawal.pool_amount,
    ) {
        Some(instruction) => instruction,
        None => {
            return Err(CliError::WrongTokenProgram);
        },
    };
    let mut signers = signed_by(config.fee_payer);
    add_signer(&mut signers, config.token_owner);
    add_signer(&mut signers, withdrawal.transfer_authority);
    let mut instructions = no_instructions();
    add_instruction(&mut instructions, approval);
    let withdraw_authority = find_withdraw_authority(
        config.stake_pool_program_id,
        withdrawal.pool_address,
    );
    let instruction = match config.funding_authority {
        Some(received) => {
            let expected = match pool.sol_withdraw_authority {
                Some(expected) => expected,
                None => {
                    return Err(CliError::NoSolWithdrawAuthority);
                },
            };
            if !same_address(&received, &expected) {
                return Err(CliError::InvalidWithdrawAuthority { expected, received });
            }
            add_signer(&mut signers, received);
            withdraw_sol_with_authority(
                config.stake_pool_program_id,
                withdrawal.pool_address,
                received,
                withdraw_authority,
                withdrawal.transfer_authority,
                withdrawal.pool_token_account,
                pool.reserve_stake,
                withdrawal.sol_receiver,
                pool.manager_fee_account,
                pool.pool_mint,
                pool.token_program_id,
                withdrawal.pool_amount,
            )
        },
        None => withdraw_sol(
            config.stake_pool_program_id,
            withdrawal.pool_address,
            withdraw_authority,
            withdrawal.transfer_authority,
            withdrawal.pool_token_account,
            pool.reserve_stake,
            withdrawal.sol_receiver,
            pool.manager_fee_account,
            pool.pool_mint,
            pool.token_program_id,
            withdrawal.pool_amount,
        ),
    };
    add_instruction(&mut instructions, instruction);
    proof {
        let authority = sol_withdrawal_authority(*config, *pool)->Ok_0;
        assert(views(instructions@) =~= withdrawal.instructions(*config, *pool, authority));
        assert(signers@ =~= withdrawal.signers(*config, authority));
    }
    Ok(plan_transaction(instructions, &signers, 0))
}

proof fn lemma_step_places(withdrawal: StakeWithdrawal, config: Config, pool: StakePool, n: int, i: int)
    requires
        0 <= n,
        0 <= i,
    ensures
        ({
            let fresh = withdrawal.receiver is None || withdrawal.receiver_is_delegated;
            let steps = withdrawal.steps(config, pool, n);
            &&& steps.len() == if fresh {
                2 * n
            } else {
                n
            }
            &&& i < n && fresh ==> steps[2 * i] == withdrawal.steps_at(config, pool, i)[0] && steps[2
                * i + 1] == withdrawal.steps_at(config, pool, i)[1]
            &&& i < n && !fresh ==> steps[i] == withdrawal.steps_at(config, pool, i)[0]
        }),
    decreases n,
{
    if n > 0 {
        lemma_step_places(withdrawal, config, pool, n - 1, i);
        let before = withdrawal.steps(config, pool, n - 1);
        let steps = withdrawal.steps(config, pool, n);
        assert(steps == before + withdrawal.steps_at(config, pool, n - 1));
    }
}

/// The stake withdrawn from each account is given to the caller: the instruction hands it to
/// the caller's own staker, whoever the staker of the pool is, and into the receiver or, where
/// none is given or its stake is delegated, into the new stake account made for it. It draws
/// on the stake account that was selected, burns as many pool tokens as were selected for it,
/// and takes them from the given token account.
pub proof fn law_withdrawn_stake_belongs_to_the_caller(
    plan: TransactionPlan,
    config: Config,
    pool: StakePool,
    withdrawal: StakeWithdrawal,
    i: int,
)
    requires
        withdrawal.wf(),
        plan.comprises(
            withdrawal.instructions(config, pool),
            withdrawal.signers(config),
            (withdrawal.new_stakes@.len() * withdrawal.rent) as u64,
        ),
        0 <= i < withdrawal.accounts@.len(),
    ensures
        ({
            let fresh = withdrawal.receiver is None || withdrawal.receiver_is_delegated;
            let place = if fresh {
                2 * i + 2
            } else {
                i + 1
            };
            let step = plan.instructions@[place]@;
            &&& place < plan.instructions@.len()
            &&& step.program_id == config.stake_pool_program_id
            &&& step.accounts.len() == 13
            &&& step.accounts[0] == AccountMeta(withdrawal.pool_address, false, true)
            &&& step.accounts[1] == AccountMeta(pool.validator_list, false, true)
            &&& step.accounts[2] == AccountMeta(
                withdraw_authority_address(
                    config.stake_pool_program_id@,
                    withdrawal.pool_address@,
                ),
                false,
                false,
            )
            &&& step.accounts[3] == AccountMeta(withdrawal.accounts@[i].stake_address, false, true)
            &&& step.accounts[4] == AccountMeta(
                if fresh {
                    withdrawal.new_stakes@[i]
                } else {
                    withdrawal.receiver->0
                },
                false,
                true,
            )
            &&& step.accounts[5] == AccountMeta(config.staker, false, false)
            &&& step.accounts[6] == AccountMeta(withdrawal.transfer_authority, true, false)
            &&& step.accounts[7] == AccountMeta(withdrawal.pool_token_account, false, true)
            &&& step.accounts[8] == AccountMeta(pool.manager_fee_account, false, true)
            &&& step.accounts[9] == AccountMeta(pool.pool_mint, false, true)
            &&& step.accounts[11] == AccountMeta(pool.token_program_id, false, false)
            &&& step.data == seq![10u8] + spec_u64_to_le_bytes(withdrawal.accounts@[i].pool_amount)
        }),
{
    law_plan_keeps_instructions_and_signers(
        plan,
        withdrawal.instructions(config, pool),
        withdrawal.signers(config),
        (withdrawal.new_stakes@.len() * withdrawal.rent) as u64,
    );
    lemma_step_places(withdrawal, config, pool, withdrawal.accounts@.len() as int, i);
}

/// Where no receiver is given, or its stake is delegated, each withdrawal follows the creation
/// of its new stake account: the caller's payer makes it, with the rent of a stake account,
/// for the stake program.
pub proof fn law_new_stake_is_created_before_its_withdrawal(
    plan: TransactionPlan,
    config: Config,
    pool: StakePool,
    withdrawal: StakeWithdrawal,
    i: int,
)
    requires
        withdrawal.wf(),
        plan.comprises(
            withdrawal.instructions(config, pool),
            withdrawal.signers(config),
            (withdrawal.new_stakes@.len() * withdrawal.rent) as u64,
        ),
        withdrawal.receiver is None || withdrawal.receiver_is_delegated,
        0 <= i < withdrawal.accounts@.len(),
    ensures
        ({
            let creation = plan.instructions@[2 * i + 1]@;
            &&& 2 * i + 1 < plan.instructions@.len()
            &&& creation.program_id == SYSTEM_PROGRAM
            &&& creation.accounts.len() == 2
            &&& creation.accounts[0] == AccountMeta(config.fee_payer, true, true)
            &&& creation.accounts[1] == AccountMeta(withdrawal.new_stakes@[i], true, true)
            &&& creation.data == spec_u32_to_le_bytes(0) + spec_u64_to_le_bytes(withdrawal.rent)
                + spec_u64_to_le_bytes(200) + STAKE_PROGRAM@
        }),
{
    law_plan_keeps_instructions_and_signers(
        plan,
        withdrawal.instructions(config, pool),
        withdrawal.signers(config),
        (withdrawal.new_stakes@.len() * withdrawal.rent) as u64,
    );
    lemma_step_places(withdrawal, config, pool, withdrawal.accounts@.len() as int, i);
}

/// A withdrawal begins with the approval of all its pool tokens: the owner of the token
/// account lets the transfer authority take exactly the amount that the withdrawals burn
/// together. Behind the withdrawals the new stakes are merged with the receiver, one by one,
/// where its stake is delegated, and not otherwise.
pub proof fn law_withdrawal_approves_first_and_merges_last(
    plan: TransactionPlan,
    config: Config,
    pool: StakePool,
    withdrawal: StakeWithdrawal,
    i: int,
)
    requires
        withdrawal.wf(),
        plan.comprises(
            withdrawal.instructions(config, pool),
            withdrawal.signers(config),
            (withdrawal.new_stakes@.len() * withdrawal.rent) as u64,
        ),
    ensures
        ({
            let fresh = withdrawal.receiver is None || withdrawal.receiver_is_delegated;
            let n = withdrawal.accounts@.len() as int;
            plan.instructions@.len() == 1 + (if fresh {
                2 * n
            } else {
                n
            }) + (if withdrawal.receiver_is_delegated {
                n
            } else {
                0
            })
        }),
        ({
            let approval = plan.instructions@[0]@;
            &&& approval.program_id == pool.token_program_id
            &&& approval.accounts.len() == 3
            &&& approval.accounts[0] == AccountMeta(withdrawal.pool_token_account, false, true)
            &&& approval.accounts[1] == AccountMeta(withdrawal.transfer_authority, false, false)
            &&& approval.accounts[2] == AccountMeta(config.token_owner, true, false)
            &&& approval.data == seq![4u8] + spec_u64_to_le_bytes(withdrawal.pool_amount)
        }),
        withdrawal.receiver_is_delegated && 0 <= i < withdrawal.accounts@.len() ==> ({
            let merge = plan.instructions@[1 + 2 * withdrawal.accounts@.len() + i]@;
            &&& merge.program_id == STAKE_PROGRAM
            &&& merge.accounts.len() == 5
            &&& merge.accounts[0] == AccountMeta(withdrawal.receiver->0, false, true)
            &&& merge.accounts[1] == AccountMeta(withdrawal.new_stakes@[i], false, true)
            &&& merge.accounts[4] == AccountMeta(config.fee_payer, true, false)
            &&& merge.data == spec_u32_to_le_bytes(7)
        }),
{
    law_plan_keeps_instructions_and_signers(
        plan,
        withdrawal.instructions(config, pool),
        withdrawal.signers(config),
        (withdrawal.new_stakes@.len() * withdrawal.rent) as u64,
    );
    lemma_step_places(withdrawal, config, pool, withdrawal.accounts@.len() as int, 0);
}

/// The plan of a withdrawal of stake depends on four parts of the pool: its list of
/// validators, the account for its fees, its mint and its token program. Two pools that
/// differ in anything else, such as their staker, give the same instructions.
pub proof fn law_withdrawal_does_not_depend_on_the_staker_of_the_pool(
    config: Config,
    pool: StakePool,
    other: StakePool,
    withdrawal: StakeWithdrawal,
)
    requires
        pool.validator_list == other.validator_list,
        pool.manager_fee_account == other.manager_fee_account,
        pool.pool_mint == other.pool_mint,
        pool.token_program_id == other.token_program_id,
    ensures
        withdrawal.instructions(config, pool) == withdrawal.instructions(config, other),
{
    lemma_steps_depend_on_four_parts(
        config,
        pool,
        other,
        withdrawal,
        withdrawal.accounts@.len() as int,
    );
}

proof fn lemma_steps_depend_on_four_parts(
    config: Config,
    pool: StakePool,
    other: StakePool,
    withdrawal: StakeWithdrawal,
    n: int,
)
    requires
        pool.validator_list == other.validator_list,
        pool.manager_fee_account == other.manager_fee_account,
        pool.pool_mint == other.pool_mint,
        pool.token_program_id == other.token_program_id,
    ensures
        withdrawal.steps(config, pool, n) == withdrawal.steps(config, other, n),
    decreases n,
{
    if n > 0 {
        lemma_steps_depend_on_four_parts(config, pool, other, withdrawal, n - 1);
    }
}

/// A withdrawal is signed by the payer, by the owner of the pool tokens, by the authority
/// that moves them and by every new stake account, and by nobody else. Its payer spends the
/// rent of the new stake accounts besides the fee.
pub proof fn law_withdrawal_is_signed_by_the_owner_of_the_tokens(
    plan: TransactionPlan,
    config: Config,
    pool: StakePool,
    withdrawal: StakeWithdrawal,
    a: Address,
)
    requires
        withdrawal.wf(),
        plan.comprises(
            withdrawal.instructions(config, pool),
            withdrawal.signers(config),
            (withdrawal.new_stakes@.len() * withdrawal.rent) as u64,
        ),
    ensures
        plan.signers@.contains(a) <==> a == config.fee_payer || a == config.token_owner || a
            == withdrawal.transfer_authority || withdrawal.new_stakes@.contains(a),
        plan.additional_fee == withdrawal.rent * (if withdrawal.receiver is None
            || withdrawal.receiver_is_delegated {
            withdrawal.accounts@.len()
        } else {
            0
        }),
{
    let listed = withdrawal.signers(config);
    assert(plan.signers@.contains(a) <==> listed.contains(a));
    assert(listed[0] == config.fee_payer && listed[1] == config.token_owner && listed[2]
        == withdrawal.transfer_authority);
    if withdrawal.new_stakes@.contains(a) {
        let k = choose|k: int|
            0 <= k < withdrawal.new_stakes@.len() && withdrawal.new_stakes@[k] == a;
        assert(listed[3 + k] == a);
    }
    if listed.contains(a) {
        let k = choose|k: int| 0 <= k < listed.len() && listed[k] == a;
        if k >= 3 {
            assert(withdrawal.new_stakes@[k - 3] == a);
        }
    }
    assert(withdrawal.new_stakes@.len() * withdrawal.rent == withdrawal.rent
        * withdrawal.new_stakes@.len()) by (nonlinear_arith);
    assert(withdrawal.rent * 0 == 0) by (nonlinear_arith);
}

/// New stake accounts are needed, one for each account, exactly where no receiver is given or
/// its stake is delegated. Otherwise all the stake goes to the receiver.
pub proof fn law_a_receiver_without_delegation_takes_all(
    receiver: Address,
    new_stakes: Seq<Address>,
    i: int,
)
    ensures
        needs_new_stakes(None, false),
        needs_new_stakes(None, true),
        needs_new_stakes(Some(receiver), true),
        !needs_new_stakes(Some(receiver), false),
        stake_receiver_at(Some(receiver), false, new_stakes, i) == receiver,
        stake_receiver_at(None, false, new_stakes, i) == new_stakes[i],
        stake_receiver_at(Some(receiver), true, new_stakes, i) == new_stakes[i],
{
}

/// What a validator's stake account does not have to keep, its rent and the minimum of its
/// delegation make up all its lamports. The minimum is the larger of the stake program's and
/// the pool's. Where the account holds less than both, there is nothing to spare.
pub proof fn law_spare_and_kept_make_up_the_stake(
    stake_lamports: u64,
    stake_minimum_delegation: u64,
    rent: u64,
    minimum: u64,
)
    requires
        minimum >= stake_minimum_delegation,
        minimum >= 1_000_000,
        minimum == stake_minimum_delegation || minimum == 1_000_000,
    ensures
        stake_lamports >= minimum + rent ==> spare_lamports(
            stake_lamports,
            stake_minimum_delegation,
            rent,
        ) + minimum + rent == stake_lamports,
        stake_lamports <= minimum + rent ==> spare_lamports(
            stake_lamports,
            stake_minimum_delegation,
            rent,
        ) == 0,
{
}

/// What a withdrawal from one validator may take is the share of the pool's lamports that the
/// spare lamports are of its tokens, rounded down: no more than that share, and less than one
/// below it.
pub proof fn law_available_is_the_share_of_the_spare(
    pool: StakePool,
    stake_lamports: u64,
    stake_minimum_delegation: u64,
    rent: u64,
    available: u64,
)
    requires
        pool.pool_token_supply > 0,
        available_from(pool, stake_lamports, stake_minimum_delegation, rent) == Some(available),
    ensures
        ({
            let spare = spare_lamports(stake_lamports, stake_minimum_delegation, rent);
            &&& available * pool.pool_token_supply <= spare * pool.total_lamports
            &&& spare * pool.total_lamports < (available + 1) * pool.pool_token_supply
        }),
{
    let spare = spare_lamports(stake_lamports, stake_minimum_delegation, rent);
    let product = spare * pool.total_lamports;
    let supply = pool.pool_token_supply as int;
    assert(available == product / supply);
    assert(available * supply <= product < (available + 1) * supply) by (nonlinear_arith)
        requires
            supply > 0,
            available == product / supply,
    ;
}

/// The account of a receiver tells its validator only where the stake program owns it and its
/// data is a delegated stake, whose vote account stands behind the first 124 bytes.
pub proof fn law_delegation_is_read_from_stake_accounts_alone(account: Account)
    ensures
        account.owner != STAKE_PROGRAM ==> delegation_of(account) is None,
        account.data@.len() < 197 ==> delegation_of(account) is None,
        account.data@.len() >= 4 && account.data@[0] != 2 ==> delegation_of(account) is None,
        account.owner == STAKE_PROGRAM && account.data@.len() >= 197 && account.data@.take(4)
            == seq![2u8, 0, 0, 0] ==> delegation_of(account) == Some(
            account.data@.subrange(124, 156),
        ),
{
    if account.data@.len() >= 4 {
        let tag = account.data@.take(4);
        assert(tag[0] == account.data@[0]);
        assert(seq![2u8, 0, 0, 0][0] == 2);
        assert(seq![0u8, 0, 0, 0][0] == 0 && seq![1u8, 0, 0, 0][0] == 1 && seq![3u8, 0, 0, 0][0]
            == 3);
    }
}

/// The stake account of a validator is the one that its first entry's seed derives, and of no
/// other entry: every account that fits is the same.
pub proof fn law_stake_account_is_that_of_the_first_entry(
    stake_account: Address,
    program_id: Address,
    pool_address: Address,
    validators: PoolValidators,
    vote_account: Address,
    i: int,
)
    requires
        is_stake_account_of(stake_account, program_id, pool_address, validators, vote_account),
        0 <= i < validators.validators@.len(),
        validators.validators@[i].vote_account_address == vote_account,
        forall|j: int|
            0 <= j < i ==> (#[trigger] validators.validators@[j]).vote_account_address
                != vote_account,
    ensures
        stake_account == validator_stake_address(
            program_id@,
            vote_account@,
            pool_address@,
            validators.validators@[i].validator_seed_suffix,
        ),
{
    let k = choose|k: int|
        first_entry_at(validators.validators@, vote_account, k) && stake_account
            == validator_stake_address(
            program_id@,
            vote_account@,
            pool_address@,
            validators.validators@[k].validator_seed_suffix,
        );
    law_first_entry_is_the_earliest(validators.validators@, vote_account, k, i);
}

/// A withdrawal of SOL approves its pool tokens, which their owner lets the transfer authority
/// take, and then takes lamports for them from the reserve and gives them to the receiver.
/// With an authority the pool's authority is named behind the accounts that are named without
/// one.
pub proof fn law_withdrawn_sol_goes_to_the_receiver(
    plan: TransactionPlan,
    config: Config,
    pool: StakePool,
    withdrawal: SolWithdrawal,
    authority: Option<Address>,
)
    requires
        plan.comprises(
            withdrawal.instructions(config, pool, authority),
            withdrawal.signers(config, authority),
            0,
        ),
    ensures
        plan.additional_fee == 0,
        plan.instructions@.len() == 2,
        ({
            let approval = plan.instructions@[0]@;
            &&& approval.program_id == pool.token_program_id
            &&& approval.accounts.len() == 3
            &&& approval.accounts[0] == AccountMeta(withdrawal.pool_token_account, false, true)
            &&& approval.accounts[1] == AccountMeta(withdrawal.transfer_authority, false, false)
            &&& approval.accounts[2] == AccountMeta(config.token_owner, true, false)
            &&& approval.data == seq![4u8] + spec_u64_to_le_bytes(withdrawal.pool_amount)
        }),
        ({
            let step = plan.instructions@[1]@;
            &&& step.program_id == config.stake_pool_program_id
            &&& step.accounts.len() == if authority is Some {
                13int
            } else {
                12
            }
            &&& step.accounts[0] == AccountMeta(withdrawal.pool_address, false, true)
            &&& step.accounts[1] == AccountMeta(
                withdraw_authority_address(
                    config.stake_pool_program_id@,
                    withdrawal.pool_address@,
                ),
                false,
                false,
            )
            &&& step.accounts[2] == AccountMeta(withdrawal.transfer_authority, true, false)
            &&& step.accounts[3] == AccountMeta(withdrawal.pool_token_account, false, true)
            &&& step.accounts[4] == AccountMeta(pool.reserve_stake, false, true)
            &&& step.accounts[5] == AccountMeta(withdrawal.sol_receiver, false, true)
            &&& step.accounts[6] == AccountMeta(pool.manager_fee_account, false, true)
            &&& step.accounts[7] == AccountMeta(pool.pool_mint, false, true)
            &&& step.accounts[11] == AccountMeta(pool.token_program_id, false, false)
            &&& authority matches Some(a) ==> step.accounts[12] == AccountMeta(a, true, false)
            &&& step.data == seq![16u8] + spec_u64_to_le_bytes(withdrawal.pool_amount)
        }),
{
    law_plan_keeps_instructions_and_signers(
        plan,
        withdrawal.instructions(config, pool, authority),
        withdrawal.signers(config, authority),
        0,
    );
}

/// A withdrawal of SOL is signed by the payer, by the owner of the pool tokens, by the
/// authority that moves them and by the pool's authority, where it is asked, and by nobody
/// else.
pub proof fn law_sol_withdrawal_is_signed_by_the_owner_of_the_tokens(
    plan: TransactionPlan,
    config: Config,
    pool: StakePool,
    withdrawal: SolWithdrawal,
    authority: Option<Address>,
    a: Address,
)
    requires
        plan.comprises(
            withdrawal.instructions(config, pool, authority),
            withdrawal.signers(config, authority),
            0,
        ),
    ensures
        plan.signers@.contains(a) <==> a == config.fee_payer || a == config.token_owner || a
            == withdrawal.transfer_authority || authority == Some(a),
{
    let listed = withdrawal.signers(config, authority);
    assert(plan.signers@.contains(a) <==> listed.contains(a));
    assert(listed[0] == config.fee_payer && listed[1] == config.token_owner && listed[2]
        == withdrawal.transfer_authority);
    assert(authority is Some ==> listed[3] == authority->0);
}

/// The authority over withdrawals of SOL is asked only where the caller gives one. It must
/// then be the pool's, and a pool that has none refuses every one.
pub proof fn law_sol_withdrawal_needs_the_authority_of_the_pool(config: Config, pool: StakePool)
    ensures
        config.funding_authority is None ==> sol_withdrawal_authority(config, pool) == Ok::<
            Option<Address>,
            CliError,
        >(None),
        config.funding_authority is Some ==> (sol_withdrawal_authority(config, pool) is Ok
            <==> pool.sol_withdraw_authority == config.funding_authority),
        config.funding_authority is Some && sol_withdrawal_authority(config, pool) is Ok
            ==> sol_withdrawal_authority(config, pool)->Ok_0 == config.funding_authority,
        config.funding_authority is Some && pool.sol_withdraw_authority is None
            ==> sol_withdrawal_authority(config, pool) == Err::<Option<Address>, CliError>(
            CliError::NoSolWithdrawAuthority,
        ),
        config.funding_authority is Some && pool.sol_withdraw_authority is Some
            && config.funding_authority != pool.sol_withdraw_authority ==> sol_withdrawal_authority(
            config,
            pool,
        ) == Err::<Option<Address>, CliError>(
            CliError::InvalidWithdrawAuthority {
                expected: pool.sol_withdraw_authority->0,
                received: config.funding_authority->0,
            },
        ),
{
}

} // verus!
