//! Creating a pool: its reserve, its mint, the account for its fees, its list of
//! validators and the pool itself.
use vstd::bytes::{spec_u32_to_le_bytes, spec_u64_to_le_bytes};
use vstd::prelude::*;

use crate::address::{same_address, same_optional_address, Address};
use crate::config::Config;
use crate::error::CliError;
use crate::fees::check_stake_pool_fees;
use crate::instruction::{
    add_instruction, add_signer, law_plan_keeps_instructions_and_signers, no_instructions,
    plan_transaction, signed_by, views, AccountMeta, InstructionView, TransactionPlan,
};
use crate::programs::associated_token::{associated_token_address, find_associated_token};
use crate::programs::ids::{STAKE_PROGRAM, SYSTEM_PROGRAM, TOKEN_2022_PROGRAM, TOKEN_PROGRAM};
use crate::programs::pool::{
    find_withdraw_authority, initialize, initialize_instruction, withdraw_authority_address,
};
use crate::programs::pool_amounts::{
    minimum_reserve_lamports, stake_pool_len, validator_list_len, validator_list_len_for,
    MINIMUM_RESERVE_LAMPORTS, STAKE_POOL_LEN,
};
use crate::programs::stake::{
    initialize_stake, initialize_stake_instruction, stake_program_id,
};
use crate::programs::system::{create_account, create_account_instruction};
use crate::programs::token::{
    check_token_program, initialize_mint, initialize_mint_instruction, is_token_program,
    mint_authority_in, mint_len, native_decimals, read_mint_authority, token_account_len,
    token_program_id, MINT_LEN, NATIVE_DECIMALS, TOKEN_ACCOUNT_LEN,
};
use crate::state::{all_zero, is_all_zero, Account, Fee};
use crate::token_account::{add_associated_token_account, creation_if_missing, rent_if_missing};
use crate::withdraw::STAKE_STATE_LEN;

verus! {

/// What a new pool is made with: the authority that its accounts answer to, the
/// decimals of its tokens, and the bytes of its accounts.
#[derive(Clone, Copy, PartialEq, Eq, Debug)]
pub struct PoolCreation {
    pub withdraw_authority: Address,
    pub decimals: u8,
    pub reserve_stake_size: usize,
    pub mint_size: usize,
    pub fee_account_size: usize,
    pub stake_pool_size: usize,
    pub validator_list_size: usize,
}

/// Tells whether a list of that many validators fits the memory that a machine can give.
pub fn check_validator_list_fits(max_validators: u32) -> (r: bool)
    ensures
        r == (validator_list_len_for(max_validators) <= isize::MAX),
{
    9 + 73 * (max_validators as u64) <= isize::MAX as u64
}

/// Prepares the creation of a pool. It fails where the pool would be made without
/// fees, unless that is asked for.
pub fn command_create_pool(
    config: &Config,
    pool_address: &Address,
    epoch_fee: &Fee,
    withdrawal_fee: &Fee,
    deposit_fee: &Fee,
    max_validators: u32,
    unsafe_fees: bool,
) -> (r: Result<PoolCreation, CliError>)
    requires
        validator_list_len_for(max_validators) <= isize::MAX,
    ensures
        !unsafe_fees && epoch_fee.is_nothing() ==> r == Err::<PoolCreation, CliError>(
            CliError::EpochFeeIsZero,
        ),
        !unsafe_fees && !epoch_fee.is_nothing() && withdrawal_fee.is_nothing()
            && deposit_fee.is_nothing() ==> r == Err::<PoolCreation, CliError>(
            CliError::WithdrawalAndDepositFeesAreZero,
        ),
        r is Ok <==> unsafe_fees || epoch_fee.numerator > 0 && epoch_fee.denominator > 0 && (
        withdrawal_fee.numerator > 0 && withdrawal_fee.denominator > 0 || deposit_fee.numerator > 0
            && deposit_fee.denominator > 0),
        r matches Err(error) ==> error == if epoch_fee.numerator == 0 || epoch_fee.denominator == 0 {
            CliError::EpochFeeIsZero
        } else {
            CliError::WithdrawalAndDepositFeesAreZero
        },
        unsafe_fees || !(epoch_fee.is_nothing() || withdrawal_fee.is_nothing()
            && deposit_fee.is_nothing()) ==> r == Ok::<PoolCreation, CliError>(
            PoolCreation {
                withdraw_authority: withdraw_authority_address(
                    config.stake_pool_program_id@,
                    pool_address@,
                ),
                decimals: NATIVE_DECIMALS,
                reserve_stake_size: STAKE_STATE_LEN,
                mint_size: MINT_LEN,
                fee_account_size: TOKEN_ACCOUNT_LEN,
                stake_pool_size: STAKE_POOL_LEN,
                validator_list_size: validator_list_len_for(max_validators) as usize,
            },
        ),
{
    if !unsafe_fees {
        if let Err(error) = check_stake_pool_fees(epoch_fee, withdrawal_fee, deposit_fee) {
            return Err(error);
        }
    }
    Ok(
        PoolCreation {
            withdraw_authority: find_withdraw_authority(
                config.stake_pool_program_id,
                *pool_address,
            ),
            decimals: native_decimals(),
            reserve_stake_size: STAKE_STATE_LEN,
            mint_size: mint_len(),
            fee_account_size: token_account_len(),
            stake_pool_size: stake_pool_len(),
            validator_list_size: validator_list_len(max_validators).unwrap(),
        },
    )
}

/// The balances of the accounts of a new pool, and their sum.
#[derive(Clone, Copy, PartialEq, Eq, Debug)]
pub struct PoolBalances {
    pub reserve_stake: u64,
    pub mint: u64,
    pub fee_account: u64,
    pub stake_pool: u64,
    pub validator_list: u64,
    pub total: u64,
}

/// Tells whether the balances of the accounts of a new pool fit 64 bits together.
pub fn check_pool_balances_fit(
    reserve_stake_rent: u64,
    mint_rent: u64,
    fee_account_rent: u64,
    stake_pool_rent: u64,
    validator_list_rent: u64,
) -> (r: bool)
    ensures
        r == (reserve_stake_rent + MINIMUM_RESERVE_LAMPORTS + mint_rent + fee_account_rent
            + stake_pool_rent + validator_list_rent <= u64::MAX),
{
    reserve_stake_rent as u128 + minimum_reserve_lamports() as u128 + mint_rent as u128
        + fee_account_rent as u128 + stake_pool_rent as u128 + validator_list_rent as u128
        <= u64::MAX as u128
}

/// Computes the balances of the accounts of a new pool from their rents: each is the
/// account's rent, and the reserve holds its minimum too.
pub fn pool_balances(
    reserve_stake_rent: u64,
    mint_rent: u64,
    fee_account_rent: u64,
    stake_pool_rent: u64,
    validator_list_rent: u64,
) -> (r: PoolBalances)
    requires
        reserve_stake_rent + MINIMUM_RESERVE_LAMPORTS + mint_rent + fee_account_rent
            + stake_pool_rent + validator_list_rent <= u64::MAX,
    ensures
        r.reserve_stake == reserve_stake_rent + MINIMUM_RESERVE_LAMPORTS,
        r.mint == mint_rent,
        r.fee_account == fee_account_rent,
        r.stake_pool == stake_pool_rent,
        r.validator_list == validator_list_rent,
        r.total == r.reserve_stake + r.mint + r.fee_account + r.stake_pool + r.validator_list,
{
    let reserve_stake = reserve_stake_rent + minimum_reserve_lamports();
    PoolBalances {
        reserve_stake,
        mint: mint_rent,
        fee_account: fee_account_rent,
        stake_pool: stake_pool_rent,
        validator_list: validator_list_rent,
        total: reserve_stake + mint_rent + fee_account_rent + stake_pool_rent
            + validator_list_rent,
    }
}

/// What is to be done about an account that a new pool needs.
#[derive(PartialEq, Eq, Debug)]
pub enum AccountSetup {
    /// Nothing: it is there and ready.
    Ready,
    /// It is there, and is to be initialized.
    Initialize(TransactionPlan),
    /// It is to be created and initialized.
    Create(TransactionPlan),
}

/// The account is there and belongs to the program.
pub open spec fn belongs_to(account: Option<Account>, program: Address) -> bool {
    account is Some && account->0.owner == program
}

/// Decides how the reserve of a new pool is set up: an account of the stake program
/// that holds data is ready, one that holds none is initialized, and otherwise the
/// account is created.
pub fn setup_reserve_stake_account(
    config: &Config,
    reserve: &Address,
    account: &Option<Account>,
    reserve_stake_balance: u64,
    withdraw_authority: &Address,
) -> (r: AccountSetup)
    ensures
        belongs_to(*account, STAKE_PROGRAM) && !all_zero(account->0.data@) ==> r
            == AccountSetup::Ready,
        belongs_to(*account, STAKE_PROGRAM) && all_zero(account->0.data@) ==> r is Initialize
            && r->Initialize_0.comprises(
            seq![initialize_stake_instruction(*reserve, *withdraw_authority)],
            seq![config.fee_payer],
            0,
        ) && r->Initialize_0.signed_exactly(config.fee_payer),
        !belongs_to(*account, STAKE_PROGRAM) ==> r is Create && r->Create_0.comprises(
            seq![
                create_account_instruction(
                    config.fee_payer,
                    *reserve,
                    reserve_stake_balance,
                    STAKE_STATE_LEN as u64,
                    STAKE_PROGRAM,
                ),
                initialize_stake_instruction(*reserve, *withdraw_authority),
            ],
            seq![config.fee_payer, *reserve],
            0,
        ) && r->Create_0.signed_exactly(config.fee_payer),
{
    let mut instructions = no_instructions();
    let mut signers = signed_by(config.fee_payer);
    if let Some(account) = account {
        if same_address(&account.owner, &stake_program_id()) {
            if !is_all_zero(&account.data) {
                return AccountSetup::Ready;
            }
            add_instruction(&mut instructions, initialize_stake(*reserve, *withdraw_authority));
            assert(views(instructions@) =~= seq![
                initialize_stake_instruction(*reserve, *withdraw_authority),
            ]);
            return AccountSetup::Initialize(plan_transaction(instructions, &signers, 0));
        }
    }
    add_instruction(
        &mut instructions,
        create_account(
            config.fee_payer,
            *reserve,
            reserve_stake_balance,
            STAKE_STATE_LEN as u64,
            stake_program_id(),
        ),
    );
    add_instruction(&mut instructions, initialize_stake(*reserve, *withdraw_authority));
    add_signer(&mut signers, *reserve);
    assert(views(instructions@) =~= seq![
        create_account_instruction(
            config.fee_payer,
            *reserve,
            reserve_stake_balance,
            STAKE_STATE_LEN as u64,
            STAKE_PROGRAM,
        ),
        initialize_stake_instruction(*reserve, *withdraw_authority),
    ]);
    assert(signers@ =~= seq![config.fee_payer, *reserve]);
    AccountSetup::Create(plan_transaction(instructions, &signers, 0))
}

/// Checks a mint that is there: its data must be that of a mint, and its authority
/// the pool's.
pub fn check_mint(
    mint: &Address,
    withdraw_authority: &Address,
    authority: Option<Option<Address>>,
) -> (r: Result<(), CliError>)
    ensures
        r == match authority {
            None => Err(CliError::NotAMint { mint: *mint }),
            Some(authority) => if authority == Some(*withdraw_authority) {
                Ok(())
            } else {
                Err(
                    CliError::WrongMintAuthority {
                        mint: *mint,
                        withdraw_authority: *withdraw_authority,
                    },
                )
            },
        },
{
    match authority {
        None => Err(CliError::NotAMint { mint: *mint }),
        Some(authority) => {
            if same_optional_address(&authority, &Some(*withdraw_authority)) {
                Ok(())
            } else {
                Err(
                    CliError::WrongMintAuthority {
                        mint: *mint,
                        withdraw_authority: *withdraw_authority,
                    },
                )
            }
        },
    }
}

/// How the mint of a new pool is set up, and the token program that it belongs to.
#[derive(PartialEq, Eq, Debug)]
pub struct MintSetup {
    pub setup: AccountSetup,
    pub token_program: Address,
}

/// The account is there and belongs to a token program.
pub open spec fn belongs_to_token_program(account: Option<Account>) -> bool {
    account is Some && is_token_program(account->0.owner)
}

/// Decides how the mint of a new pool is set up. An account of a token program that
/// holds data must be a mint of the pool's authority and is then ready; one that
/// holds none is initialized. Otherwise the mint is created.
pub fn setup_mint_account(
    config: &Config,
    mint: &Address,
    account: &Option<Account>,
    mint_account_balance: u64,
    withdraw_authority: &Address,
    default_decimals: u8,
) -> (r: Result<MintSetup, CliError>)
    ensures
        belongs_to_token_program(*account) && !all_zero(account->0.data@) ==> match
        mint_authority_in(account->0.data@) {
            None => r == Err::<MintSetup, CliError>(CliError::NotAMint { mint: *mint }),
            Some(authority) => if authority == Some(withdraw_authority@) {
                r == Ok::<MintSetup, CliError>(
                    MintSetup { setup: AccountSetup::Ready, token_program: account->0.owner },
                )
            } else {
                r == Err::<MintSetup, CliError>(
                    CliError::WrongMintAuthority {
                        mint: *mint,
                        withdraw_authority: *withdraw_authority,
                    },
                )
            },
        },
        belongs_to_token_program(*account) && all_zero(account->0.data@) ==> r is Ok
            && r->Ok_0.token_program == account->0.owner && r->Ok_0.setup is Initialize
            && r->Ok_0.setup->Initialize_0.comprises(
            seq![
                initialize_mint_instruction(
                    account->0.owner,
                    *mint,
                    *withdraw_authority,
                    default_decimals,
                ),
            ],
            seq![config.fee_payer],
            0,
        ) && r->Ok_0.setup->Initialize_0.signed_exactly(config.fee_payer),
        !belongs_to_token_program(*account) ==> r is Ok && r->Ok_0.token_program == TOKEN_PROGRAM
            && r->Ok_0.setup is Create && r->Ok_0.setup->Create_0.comprises(
            seq![
                create_account_instruction(
                    config.fee_payer,
                    *mint,
                    mint_account_balance,
                    MINT_LEN as u64,
                    TOKEN_PROGRAM,
                ),
                initialize_mint_instruction(
                    TOKEN_PROGRAM,
                    *mint,
                    *withdraw_authority,
                    default_decimals,
                ),
            ],
            seq![config.fee_payer, *mint],
            0,
        ) && r->Ok_0.setup->Create_0.signed_exactly(config.fee_payer),
{
    let mut instructions = no_instructions();
    let mut signers = signed_by(config.fee_payer);
    if let Some(account) = account {
        if check_token_program(account.owner) {
            if !is_all_zero(&account.data) {
                let authority = read_mint_authority(&account.data);
                proof {
                    if let Some(Some(a)) = authority {
                        assert(a@ == withdraw_authority@ ==> a =~= *withdraw_authority);
                    }
                }
                return match check_mint(mint, withdraw_authority, authority) {
                    Ok(()) => Ok(
                        MintSetup { setup: AccountSetup::Ready, token_program: account.owner },
                    ),
                    Err(error) => Err(error),
                };
            }
            add_instruction(
                &mut instructions,
                initialize_mint(
                    account.owner,
                    *mint,
                    *withdraw_authority,
                    default_decimals,
                ).unwrap(),
            );
            assert(views(instructions@) =~= seq![
                initialize_mint_instruction(
                    account.owner,
                    *mint,
                    *withdraw_authority,
                    default_decimals,
                ),
            ]);
            return Ok(
                MintSetup {
                    setup: AccountSetup::Initialize(plan_transaction(instructions, &signers, 0)),
                    token_program: account.owner,
                },
            );
        }
    }
    let token_program = token_program_id();
    add_instruction(
        &mut instructions,
        create_account(
            config.fee_payer,
            *mint,
            mint_account_balance,
            mint_len() as u64,
            token_program,
        ),
    );
    add_instruction(
        &mut instructions,
        initialize_mint(token_program, *mint, *withdraw_authority, default_decimals).unwrap(),
    );
    add_signer(&mut signers, *mint);
    assert(views(instructions@) =~= seq![
        create_account_instruction(
            config.fee_payer,
            *mint,
            mint_account_balance,
            MINT_LEN as u64,
            TOKEN_PROGRAM,
        ),
        initialize_mint_instruction(TOKEN_PROGRAM, *mint, *withdraw_authority, default_decimals),
    ]);
    assert(signers@ =~= seq![config.fee_payer, *mint]);
    Ok(
        MintSetup {
            setup: AccountSetup::Create(plan_transaction(instructions, &signers, 0)),
            token_program,
        },
    )
}

/// The account that receives the fees of a new pool: the associated token account of
/// its manager.
pub open spec fn fee_account_of(config: Config, mint: Address, token_program: Address) -> Address {
    associated_token_address(config.manager@, mint@, token_program@)
}

/// Finds the account that receives the fees of a new pool.
pub fn pool_fee_account(config: &Config, mint: &Address, token_program: &Address) -> (r: Address)
    ensures
        r == fee_account_of(*config, *mint, *token_program),
{
    find_associated_token(config.manager, *mint, *token_program)
}

/// Tells whether an account of a token program stands where the fees of a new pool go.
pub fn has_pool_fee_account(account: &Option<Account>) -> (r: bool)
    ensures
        r == belongs_to_token_program(*account),
{
    match account {
        Some(account) => check_token_program(account.owner),
        None => false,
    }
}

/// Plans the creation of the account that receives the fees of a new pool. There is
/// nothing to plan where an account of a token program stands there. Otherwise the
/// account is created where it is missing, which `missing_rent` says with the rent
/// that it needs and that is added to the balances.
pub fn setup_pool_fee_account(
    config: &Config,
    mint: &Address,
    token_program: &Address,
    account: &Option<Account>,
    missing_rent: &Option<u64>,
    total_rent_free_balances: &mut u64,
) -> (r: Option<TransactionPlan>)
    requires
        *old(total_rent_free_balances) + rent_if_missing(*missing_rent) <= u64::MAX,
    ensures
        r is None <==> belongs_to_token_program(*account),
        r matches Some(plan) ==> plan.comprises(
            creation_if_missing(*config, *mint, *token_program, config.manager, *missing_rent),
            seq![config.fee_payer],
            0,
        ) && plan.signed_exactly(config.fee_payer),
        *final(total_rent_free_balances) == *old(total_rent_free_balances) + (if r is Some {
            rent_if_missing(*missing_rent)
        } else {
            0
        }),
{
    if has_pool_fee_account(account) {
        return None;
    }
    let mut instructions = no_instructions();
    let _account = add_associated_token_account(
        config,
        mint,
        token_program,
        &config.manager,
        missing_rent,
        &mut instructions,
        total_rent_free_balances,
    );
    assert(views(instructions@) =~= creation_if_missing(
        *config,
        *mint,
        *token_program,
        config.manager,
        *missing_rent,
    ));
    let signers = signed_by(config.fee_payer);
    Some(plan_transaction(instructions, &signers, 0))
}

/// The accounts and settings of a new pool.
#[derive(Clone, Copy, PartialEq, Eq, Debug)]
pub struct NewPool {
    pub pool: Address,
    pub validator_list: Address,
    pub reserve: Address,
    pub mint: Address,
    pub token_program: Address,
    pub fee_account: Address,
    pub deposit_authority: Option<Address>,
    pub epoch_fee: Fee,
    pub withdrawal_fee: Fee,
    pub deposit_fee: Fee,
    pub referral_fee: u8,
    pub max_validators: u32,
    pub withdraw_authority: Address,
    pub stake_pool_balance: u64,
    pub validator_list_balance: u64,
    pub validator_list_size: usize,
}

impl NewPool {
    /// The instruction that initializes the pool.
    pub open spec fn initialization(self, config: Config) -> InstructionView {
        initialize_instruction(
            config.stake_pool_program_id,
            self.pool,
            config.manager,
            config.staker,
            self.withdraw_authority,
            self.validator_list,
            self.reserve,
            self.mint,
            self.fee_account,
            self.token_program,
            self.deposit_authority,
            self.epoch_fee,
            self.withdrawal_fee,
            self.deposit_fee,
            self.referral_fee,
            self.max_validators,
        )
    }

    /// The instructions that create the list and the pool, where they are missing,
    /// and initialize the pool.
    pub open spec fn instructions(
        self,
        config: Config,
        list_is_missing: bool,
        pool_is_missing: bool,
    ) -> Seq<InstructionView> {
        (if list_is_missing {
            seq![
                create_account_instruction(
                    config.fee_payer,
                    self.validator_list,
                    self.validator_list_balance,
                    self.validator_list_size as u64,
                    config.stake_pool_program_id,
                ),
            ]
        } else {
            seq![]
        }) + (if pool_is_missing {
            seq![
                create_account_instruction(
                    config.fee_payer,
                    self.pool,
                    self.stake_pool_balance,
                    STAKE_POOL_LEN as u64,
                    config.stake_pool_program_id,
                ),
            ]
        } else {
            seq![]
        }) + seq![self.initialization(config)]
    }

    /// The signers of those instructions.
    pub open spec fn signers(self, config: Config, list_is_missing: bool) -> Seq<Address> {
        seq![config.fee_payer, config.manager] + (if list_is_missing {
            seq![self.validator_list]
        } else {
            seq![]
        }) + seq![self.pool] + (match self.deposit_authority {
            Some(authority) => seq![authority],
            None => seq![],
        })
    }
}

/// How a pool and its list are set up.
#[derive(PartialEq, Eq, Debug)]
pub enum PoolSetup {
    /// The list is there and initialized.
    ListInitialized,
    /// The pool is there and initialized.
    PoolInitialized,
    /// They are to be initialized.
    Initialize(TransactionPlan),
}

/// The account belongs to the program and holds data.
pub open spec fn is_initialized(account: Option<Account>, program: Address) -> bool {
    belongs_to(account, program) && !all_zero(account->0.data@)
}

/// Decides how a pool and its list of validators are set up. There is nothing to do
/// where either of them is initialized. Otherwise those that are missing are created,
/// and the pool is initialized. The pool signs, so the signers are exactly the needed
/// ones where it is created.
pub fn setup_and_initialize_validator_list_with_stake_pool(
    config: &Config,
    new_pool: &NewPool,
    pool_account: &Option<Account>,
    list_account: &Option<Account>,
) -> (r: PoolSetup)
    ensures
        is_initialized(*list_account, config.stake_pool_program_id) ==> r
            == PoolSetup::ListInitialized,
        !is_initialized(*list_account, config.stake_pool_program_id) && is_initialized(
            *pool_account,
            config.stake_pool_program_id,
        ) ==> r == PoolSetup::PoolInitialized,
        !is_initialized(*list_account, config.stake_pool_program_id) && !is_initialized(
            *pool_account,
            config.stake_pool_program_id,
        ) ==> r is Initialize && r->Initialize_0.comprises(
            new_pool.instructions(*config, list_account is None, pool_account is None),
            new_pool.signers(*config, list_account is None),
            0,
        ) && (pool_account is None ==> r->Initialize_0.signed_exactly(config.fee_payer)),
{
    let mut instructions = no_instructions();
    let mut signers = signed_by(config.fee_payer);
    add_signer(&mut signers, config.manager);
    match list_account {
        Some(account) => {
            if same_address(&account.owner, &config.stake_pool_program_id) && !is_all_zero(
                &account.data,
            ) {
                return PoolSetup::ListInitialized;
            }
        },
        None => {
            add_instruction(
                &mut instructions,
                create_account(
                    config.fee_payer,
                    new_pool.validator_list,
                    new_pool.validator_list_balance,
                    new_pool.validator_list_size as u64,
                    config.stake_pool_program_id,
                ),
            );
            add_signer(&mut signers, new_pool.validator_list);
        },
    }
    match pool_account {
        Some(account) => {
            if same_address(&account.owner, &config.stake_pool_program_id) && !is_all_zero(
                &account.data,
            ) {
                return PoolSetup::PoolInitialized;
            }
        },
        None => {
            add_instruction(
                &mut instructions,
                create_account(
                    config.fee_payer,
                    new_pool.pool,
                    new_pool.stake_pool_balance,
                    stake_pool_len() as u64,
                    config.stake_pool_program_id,
                ),
            );
        },
    }
    add_instruction(
        &mut instructions,
        initialize(
            config.stake_pool_program_id,
            new_pool.pool,
            config.manager,
            config.staker,
            new_pool.withdraw_authority,
            new_pool.validator_list,
            new_pool.reserve,
            new_pool.mint,
            new_pool.fee_account,
            new_pool.token_program,
            new_pool.deposit_authority,
            new_pool.epoch_fee,
            new_pool.withdrawal_fee,
            new_pool.deposit_fee,
            new_pool.referral_fee,
            new_pool.max_validators,
        ),
    );
    add_signer(&mut signers, new_pool.pool);
    if let Some(authority) = new_pool.deposit_authority {
        add_signer(&mut signers, authority);
    }
    assert(views(instructions@) =~= new_pool.instructions(
        *config,
        list_account is None,
        pool_account is None,
    ));
    assert(signers@ =~= new_pool.signers(*config, list_account is None));
    PoolSetup::Initialize(plan_transaction(instructions, &signers, 0))
}

/// A pool whose epoch fee has both numbers above zero, and whose withdrawal fee or deposit
/// fee has both above zero, is not refused for its fees, however small they are. A zero in
/// the epoch fee refuses it, and so does a zero in both of the others.
pub proof fn law_fees_above_zero_are_never_refused(
    epoch_fee: Fee,
    withdrawal_fee: Fee,
    deposit_fee: Fee,
)
    ensures
        epoch_fee.numerator > 0 && epoch_fee.denominator > 0 && withdrawal_fee.numerator > 0
            && withdrawal_fee.denominator > 0 ==> !(epoch_fee.is_nothing()
            || withdrawal_fee.is_nothing() && deposit_fee.is_nothing()),
        epoch_fee.numerator > 0 && epoch_fee.denominator > 0 && deposit_fee.numerator > 0
            && deposit_fee.denominator > 0 ==> !(epoch_fee.is_nothing()
            || withdrawal_fee.is_nothing() && deposit_fee.is_nothing()),
        epoch_fee.numerator == 0 || epoch_fee.denominator == 0 ==> epoch_fee.is_nothing(),
        (withdrawal_fee.numerator == 0 || withdrawal_fee.denominator == 0) && (deposit_fee.numerator
            == 0 || deposit_fee.denominator == 0) ==> withdrawal_fee.is_nothing()
            && deposit_fee.is_nothing(),
{
}

/// An account that is missing belongs to no program, and one that is there to its owner
/// alone. It is initialized where it also holds a byte other than zero.
pub proof fn law_accounts_belong_to_their_owner(account: Account, program: Address)
    ensures
        !belongs_to(None, program),
        !is_initialized(None, program),
        !belongs_to_token_program(None),
        belongs_to(Some(account), program) <==> account.owner == program,
        belongs_to_token_program(Some(account)) <==> account.owner == TOKEN_PROGRAM
            || account.owner == TOKEN_2022_PROGRAM,
        is_initialized(Some(account), program) <==> account.owner == program && exists|i: int|
            0 <= i < account.data@.len() && #[trigger] account.data@[i] != 0,
{
}

/// The pool's manager, and not its payer or its staker, owns the account that its fees go
/// to.
pub proof fn law_fees_go_to_the_manager(
    config: Config,
    other: Config,
    mint: Address,
    token_program: Address,
)
    ensures
        fee_account_of(config, mint, token_program) == associated_token_address(
            config.manager@,
            mint@,
            token_program@,
        ),
        config.manager == other.manager ==> fee_account_of(config, mint, token_program)
            == fee_account_of(other, mint, token_program),
{
}

/// A new pool is initialized by the last instruction of its transaction, behind the
/// creation of whichever of its two accounts is missing. That instruction gives the pool to
/// the manager and the staker of the caller, names the reserve, the mint, the account for
/// fees and the token program of the pool, and carries the fees in the order of epoch,
/// withdrawal and deposit.
pub proof fn law_new_pool_is_initialized_as_asked(
    plan: TransactionPlan,
    config: Config,
    new_pool: NewPool,
    list_is_missing: bool,
    pool_is_missing: bool,
)
    requires
        plan.comprises(
            new_pool.instructions(config, list_is_missing, pool_is_missing),
            new_pool.signers(config, list_is_missing),
            0,
        ),
    ensures
        plan.additional_fee == 0,
        plan.instructions@.len() == 1 + (if list_is_missing {
            1int
        } else {
            0
        }) + (if pool_is_missing {
            1int
        } else {
            0
        }),
        ({
            let last = plan.instructions@.last()@;
            &&& last.program_id == config.stake_pool_program_id
            &&& last.accounts.len() == if new_pool.deposit_authority is Some {
                10int
            } else {
                9
            }
            &&& last.accounts[0] == AccountMeta(new_pool.pool, false, true)
            &&& last.accounts[1] == AccountMeta(config.manager, true, false)
            &&& last.accounts[2] == AccountMeta(config.staker, false, false)
            &&& last.accounts[3] == AccountMeta(new_pool.withdraw_authority, false, false)
            &&& last.accounts[4] == AccountMeta(new_pool.validator_list, false, true)
            &&& last.accounts[5] == AccountMeta(new_pool.reserve, false, false)
            &&& last.accounts[6] == AccountMeta(new_pool.mint, false, true)
            &&& last.accounts[7] == AccountMeta(new_pool.fee_account, false, true)
            &&& last.accounts[8] == AccountMeta(new_pool.token_program, false, false)
            &&& new_pool.deposit_authority matches Some(authority) ==> last.accounts[9]
                == AccountMeta(authority, true, false)
            &&& last.data == seq![0u8] + spec_u64_to_le_bytes(new_pool.epoch_fee.denominator)
                + spec_u64_to_le_bytes(new_pool.epoch_fee.numerator) + spec_u64_to_le_bytes(
                new_pool.withdrawal_fee.denominator,
            ) + spec_u64_to_le_bytes(new_pool.withdrawal_fee.numerator) + spec_u64_to_le_bytes(
                new_pool.deposit_fee.denominator,
            ) + spec_u64_to_le_bytes(new_pool.deposit_fee.numerator) + seq![new_pool.referral_fee]
                + spec_u32_to_le_bytes(new_pool.max_validators)
        }),
{
    law_plan_keeps_instructions_and_signers(
        plan,
        new_pool.instructions(config, list_is_missing, pool_is_missing),
        new_pool.signers(config, list_is_missing),
        0,
    );
    assert(plan.instructions@.last()@.data =~= seq![0u8] + spec_u64_to_le_bytes(
        new_pool.epoch_fee.denominator,
    ) + spec_u64_to_le_bytes(new_pool.epoch_fee.numerator) + spec_u64_to_le_bytes(
        new_pool.withdrawal_fee.denominator,
    ) + spec_u64_to_le_bytes(new_pool.withdrawal_fee.numerator) + spec_u64_to_le_bytes(
        new_pool.deposit_fee.denominator,
    ) + spec_u64_to_le_bytes(new_pool.deposit_fee.numerator) + seq![new_pool.referral_fee]
        + spec_u32_to_le_bytes(new_pool.max_validators));
}

/// The accounts of a new pool that are missing are created by its payer, with their own
/// balances and sizes, and belong to the stake pool program: the list first, the pool
/// directly before its initialization.
pub proof fn law_missing_accounts_of_a_pool_are_created(
    plan: TransactionPlan,
    config: Config,
    new_pool: NewPool,
    list_is_missing: bool,
    pool_is_missing: bool,
)
    requires
        plan.comprises(
            new_pool.instructions(config, list_is_missing, pool_is_missing),
            new_pool.signers(config, list_is_missing),
            0,
        ),
    ensures
        list_is_missing ==> ({
            let first = plan.instructions@[0]@;
            &&& first.program_id == SYSTEM_PROGRAM
            &&& first.accounts.len() == 2
            &&& first.accounts[0] == AccountMeta(config.fee_payer, true, true)
            &&& first.accounts[1] == AccountMeta(new_pool.validator_list, true, true)
            &&& first.data == spec_u32_to_le_bytes(0) + spec_u64_to_le_bytes(
                new_pool.validator_list_balance,
            ) + spec_u64_to_le_bytes(new_pool.validator_list_size as u64)
                + config.stake_pool_program_id@
        }),
        pool_is_missing ==> ({
            let creation = plan.instructions@[plan.instructions@.len() - 2]@;
            &&& plan.instructions@.len() >= 2
            &&& creation.program_id == SYSTEM_PROGRAM
            &&& creation.accounts.len() == 2
            &&& creation.accounts[0] == AccountMeta(config.fee_payer, true, true)
            &&& creation.accounts[1] == AccountMeta(new_pool.pool, true, true)
            &&& creation.data == spec_u32_to_le_bytes(0) + spec_u64_to_le_bytes(
                new_pool.stake_pool_balance,
            ) + spec_u64_to_le_bytes(611) + config.stake_pool_program_id@
        }),
{
    law_plan_keeps_instructions_and_signers(
        plan,
        new_pool.instructions(config, list_is_missing, pool_is_missing),
        new_pool.signers(config, list_is_missing),
        0,
    );
}

/// The transaction of a new pool is signed by its payer, its manager and the pool, by the
/// authority over deposits, where there is one, and by the list, where that is created. It
/// is signed by nobody else.
pub proof fn law_new_pool_is_signed_by_its_owners(
    plan: TransactionPlan,
    config: Config,
    new_pool: NewPool,
    list_is_missing: bool,
    pool_is_missing: bool,
    a: Address,
)
    requires
        plan.comprises(
            new_pool.instructions(config, list_is_missing, pool_is_missing),
            new_pool.signers(config, list_is_missing),
            0,
        ),
    ensures
        plan.signers@.contains(a) <==> a == config.fee_payer || a == config.manager || a
            == new_pool.pool || new_pool.deposit_authority == Some(a) || list_is_missing && a
            == new_pool.validator_list,
{
    let listed = new_pool.signers(config, list_is_missing);
    assert(plan.signers@.contains(a) <==> listed.contains(a));
    assert(listed[0] == config.fee_payer && listed[1] == config.manager);
    if list_is_missing {
        assert(listed[2] == new_pool.validator_list && listed[3] == new_pool.pool);
        assert(new_pool.deposit_authority is Some ==> listed[4] == new_pool.deposit_authority->0);
    } else {
        assert(listed[2] == new_pool.pool);
        assert(new_pool.deposit_authority is Some ==> listed[3] == new_pool.deposit_authority->0);
    }
}

} // verus!
