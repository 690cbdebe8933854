use solana_program::borsh1::{get_instance_packed_len, get_packed_len};
use solana_program::instruction::Instruction as OutsideInstruction;
use solana_program::program_option::COption;
use solana_program::program_pack::Pack;
use solana_program::pubkey::Pubkey;
use solana_stake_interface::state::{Authorized, Lockup};
use spl_associated_token_account::instruction::create_associated_token_account;
use spl_associated_token_account_client::address::get_associated_token_address_with_program_id;
use spl_stake_pool::state::{Fee as OutsideFee, StakePool as OutsidePool, ValidatorList};
use stake_pool_cli::config::Config;
use stake_pool_cli::create::{
    check_mint, check_pool_balances_fit, check_validator_list_fits, command_create_pool,
    has_pool_fee_account, pool_balances, pool_fee_account, setup_and_initialize_validator_list_with_stake_pool,
    setup_mint_account, setup_pool_fee_account, setup_reserve_stake_account, AccountSetup,
    NewPool, PoolSetup,
};
use stake_pool_cli::error::CliError;
use stake_pool_cli::fees::check_stake_pool_fees;
use stake_pool_cli::instruction::{AccountMeta, Instruction};
use stake_pool_cli::options::ComputeUnitLimit;
use stake_pool_cli::state::{Account, Fee};

fn key(n: u8) -> Pubkey {
    Pubkey::from([n; 32])
}

fn plain(ix: &OutsideInstruction) -> Instruction {
    Instruction {
        program_id: ix.program_id.to_bytes(),
        accounts: ix
            .accounts
            .iter()
            .map(|m| AccountMeta(m.pubkey.to_bytes(), m.is_signer, m.is_writable))
            .collect(),
        data: ix.data.clone(),
    }
}

fn all_plain(ixs: &[OutsideInstruction]) -> Vec<Instruction> {
    ixs.iter().map(plain).collect()
}

fn config() -> Config {
    Config {
        stake_pool_program_id: spl_stake_pool::id().to_bytes(),
        manager: [11; 32],
        staker: [12; 32],
        funding_authority: None,
        token_owner: [13; 32],
        fee_payer: [14; 32],
        dry_run: false,
        no_update: false,
        compute_unit_price: None,
        compute_unit_limit: ComputeUnitLimit::Default,
    }
}

fn fee(numerator: u64, denominator: u64) -> Fee {
    Fee { numerator, denominator }
}

#[test]
fn a_pool_needs_an_epoch_fee() {
    let some = fee(1, 100);
    for none in [fee(0, 100), fee(1, 0), fee(0, 0)] {
        assert_eq!(check_stake_pool_fees(&none, &some, &some), Err(CliError::EpochFeeIsZero));
    }
    assert_eq!(check_stake_pool_fees(&some, &some, &some), Ok(()));
}

#[test]
fn a_pool_needs_a_withdrawal_fee_or_a_deposit_fee() {
    let some = fee(1, 100);
    let none = fee(0, 0);
    assert_eq!(check_stake_pool_fees(&some, &none, &some), Ok(()));
    assert_eq!(check_stake_pool_fees(&some, &some, &none), Ok(()));
    assert_eq!(
        check_stake_pool_fees(&some, &none, &none),
        Err(CliError::WithdrawalAndDepositFeesAreZero)
    );
    assert_eq!(check_stake_pool_fees(&none, &none, &none), Err(CliError::EpochFeeIsZero));
}

#[test]
fn the_sizes_of_the_accounts_are_those_of_the_programs() {
    let creation =
        command_create_pool(&config(), &[40; 32], &fee(1, 9), &fee(1, 9), &fee(1, 9), 25, false)
            .unwrap();
    assert_eq!(creation.reserve_stake_size, 200);
    assert_eq!(creation.mint_size, spl_token_2022::state::Mint::LEN);
    assert_eq!(creation.fee_account_size, spl_token_2022::state::Account::LEN);
    assert_eq!(creation.stake_pool_size, get_packed_len::<OutsidePool>());
    assert_eq!(creation.stake_pool_size, 611);
    assert_eq!(
        creation.validator_list_size,
        get_instance_packed_len(&ValidatorList::new(25)).unwrap()
    );
    assert_eq!(creation.validator_list_size, 9 + 73 * 25);
    assert_eq!(creation.decimals, 9);
    assert_eq!(
        creation.withdraw_authority,
        spl_stake_pool::find_withdraw_authority_program_address(&spl_stake_pool::id(), &key(40))
            .0
            .to_bytes()
    );
}

#[test]
fn a_pool_without_fees_is_made_only_when_asked_for() {
    let none = fee(0, 0);
    let some = fee(1, 9);
    let create = |e: &Fee, w: &Fee, d: &Fee, force: bool| {
        command_create_pool(&config(), &[40; 32], e, w, d, 0, force)
    };
    assert_eq!(create(&none, &some, &some, false), Err(CliError::EpochFeeIsZero));
    assert_eq!(
        create(&some, &none, &none, false),
        Err(CliError::WithdrawalAndDepositFeesAreZero)
    );
    assert!(create(&none, &none, &none, true).is_ok());
    assert_eq!(create(&none, &none, &none, true).unwrap().validator_list_size, 9);
}

#[test]
fn the_balances_of_a_pool_add_up() {
    let balances = pool_balances(1, 20, 300, 4000, 50_000);
    assert_eq!(balances.reserve_stake, 1 + spl_stake_pool::MINIMUM_RESERVE_LAMPORTS);
    assert_eq!(balances.mint, 20);
    assert_eq!(balances.fee_account, 300);
    assert_eq!(balances.stake_pool, 4000);
    assert_eq!(balances.validator_list, 50_000);
    assert_eq!(balances.total, 54_321);
}

fn stake_initialization() -> OutsideInstruction {
    solana_stake_interface::instruction::initialize(
        &key(30),
        &Authorized { staker: key(31), withdrawer: key(31) },
        &Lockup::default(),
    )
}

#[test]
fn a_missing_reserve_is_created() {
    let creation = solana_system_interface::instruction::create_account(
        &key(14),
        &key(30),
        77,
        200,
        &solana_stake_interface::program::id(),
    );
    let foreign = Account { lamports: 1, owner: [9; 32], data: vec![1] };
    for account in [None, Some(foreign)] {
        match setup_reserve_stake_account(&config(), &[30; 32], &account, 77, &[31; 32]) {
            AccountSetup::Create(plan) => {
                assert_eq!(
                    plan.instructions,
                    all_plain(&[creation.clone(), stake_initialization()])
                );
                assert_eq!(plan.signers, vec![[14; 32], [30; 32]]);
                assert_eq!(plan.additional_fee, 0);
            }
            other => panic!("{:?}", other),
        }
    }
}

#[test]
fn an_empty_reserve_is_initialized() {
    let owner = solana_stake_interface::program::id().to_bytes();
    let account = Some(Account { lamports: 1, owner, data: vec![0; 200] });
    match setup_reserve_stake_account(&config(), &[30; 32], &account, 77, &[31; 32]) {
        AccountSetup::Initialize(plan) => {
            assert_eq!(plan.instructions, all_plain(&[stake_initialization()]));
            assert_eq!(plan.signers, vec![[14; 32]]);
        }
        other => panic!("{:?}", other),
    }
}

#[test]
fn an_initialized_reserve_is_left_alone() {
    let owner = solana_stake_interface::program::id().to_bytes();
    let mut data = vec![0; 200];
    data[199] = 1;
    let account = Some(Account { lamports: 1, owner, data });
    assert_eq!(
        setup_reserve_stake_account(&config(), &[30; 32], &account, 77, &[31; 32]),
        AccountSetup::Ready
    );
}

fn mint_data(authority: COption<Pubkey>) -> Vec<u8> {
    let mint = spl_token_2022::state::Mint {
        mint_authority: authority,
        supply: 5,
        decimals: 9,
        is_initialized: true,
        freeze_authority: COption::None,
    };
    let mut data = vec![0; spl_token_2022::state::Mint::LEN];
    Pack::pack(mint, &mut data).unwrap();
    data
}

fn mint_initialization(program: &Pubkey) -> OutsideInstruction {
    spl_token_2022::instruction::initialize_mint(program, &key(32), &key(31), None, 9).unwrap()
}

#[test]
fn a_missing_mint_is_created_in_the_token_program() {
    let setup = setup_mint_account(&config(), &[32; 32], &None, 88, &[31; 32], 9).unwrap();
    assert_eq!(setup.token_program, spl_token::id().to_bytes());
    let creation = solana_system_interface::instruction::create_account(
        &key(14),
        &key(32),
        88,
        82,
        &spl_token::id(),
    );
    match setup.setup {
        AccountSetup::Create(plan) => {
            assert_eq!(
                plan.instructions,
                all_plain(&[creation, mint_initialization(&spl_token::id())])
            );
            assert_eq!(plan.signers, vec![[14; 32], [32; 32]]);
        }
        other => panic!("{:?}", other),
    }
}

#[test]
fn an_empty_mint_is_initialized_in_its_own_program() {
    let owner = spl_token_2022::id().to_bytes();
    let account = Some(Account { lamports: 1, owner, data: vec![0; 82] });
    let setup = setup_mint_account(&config(), &[32; 32], &account, 88, &[31; 32], 9).unwrap();
    assert_eq!(setup.token_program, owner);
    match setup.setup {
        AccountSetup::Initialize(plan) => {
            assert_eq!(
                plan.instructions,
                all_plain(&[mint_initialization(&spl_token_2022::id())])
            );
            assert_eq!(plan.signers, vec![[14; 32]]);
        }
        other => panic!("{:?}", other),
    }
}

#[test]
fn a_mint_must_answer_to_the_pool() {
    let owner = spl_token::id().to_bytes();
    let with = |data: Vec<u8>| {
        let account = Some(Account { lamports: 1, owner, data });
        setup_mint_account(&config(), &[32; 32], &account, 88, &[31; 32], 9)
    };
    let ready = with(mint_data(COption::Some(key(31)))).unwrap();
    assert_eq!(ready.setup, AccountSetup::Ready);
    assert_eq!(ready.token_program, owner);
    let wrong =
        CliError::WrongMintAuthority { mint: [32; 32], withdraw_authority: [31; 32] };
    assert_eq!(with(mint_data(COption::Some(key(33)))), Err(wrong));
    assert_eq!(with(mint_data(COption::None)), Err(wrong));
    assert_eq!(with(vec![1, 2, 3]), Err(CliError::NotAMint { mint: [32; 32] }));
    assert_eq!(check_mint(&[32; 32], &[31; 32], Some(Some([31; 32]))), Ok(()));
    assert_eq!(check_mint(&[32; 32], &[31; 32], Some(None)), Err(wrong));
    assert_eq!(
        check_mint(&[32; 32], &[31; 32], None),
        Err(CliError::NotAMint { mint: [32; 32] })
    );
}

#[test]
fn the_fee_account_belongs_to_the_manager() {
    let program = spl_token::id();
    assert_eq!(
        pool_fee_account(&config(), &[32; 32], &program.to_bytes()),
        get_associated_token_address_with_program_id(&key(11), &key(32), &program).to_bytes()
    );
}

#[test]
fn a_missing_fee_account_is_created() {
    let program = spl_token::id();
    let mut total: u64 = 100;
    let plan = setup_pool_fee_account(
        &config(),
        &[32; 32],
        &program.to_bytes(),
        &None,
        &Some(7),
        &mut total,
    )
    .unwrap();
    assert_eq!(
        plan.instructions,
        all_plain(&[create_associated_token_account(&key(14), &key(11), &key(32), &program)])
    );
    assert_eq!(plan.signers, vec![[14; 32]]);
    assert_eq!(plan.additional_fee, 0);
    assert_eq!(total, 107);
}

#[test]
fn an_existing_fee_account_is_left_alone() {
    let program = spl_token::id().to_bytes();
    let mut total: u64 = 100;
    let account = Some(Account { lamports: 1, owner: program, data: vec![] });
    let plan =
        setup_pool_fee_account(&config(), &[32; 32], &program, &account, &Some(7), &mut total);
    assert_eq!(plan, None);
    assert_eq!(total, 100);
    assert!(has_pool_fee_account(&account));
    assert!(!has_pool_fee_account(&None));
}

fn new_pool() -> NewPool {
    NewPool {
        pool: [40; 32],
        validator_list: [41; 32],
        reserve: [42; 32],
        mint: [43; 32],
        token_program: spl_token::id().to_bytes(),
        fee_account: [44; 32],
        deposit_authority: None,
        epoch_fee: fee(1, 2),
        withdrawal_fee: fee(3, 4),
        deposit_fee: fee(5, 6),
        referral_fee: 7,
        max_validators: 8,
        withdraw_authority: [45; 32],
        stake_pool_balance: 1111,
        validator_list_balance: 2222,
        validator_list_size: 593,
    }
}

fn initialization(deposit_authority: Option<Pubkey>) -> OutsideInstruction {
    let rate = |numerator: u64, denominator: u64| OutsideFee { numerator, denominator };
    spl_stake_pool::instruction::initialize(
        &spl_stake_pool::id(),
        &key(40),
        &key(11),
        &key(12),
        &key(45),
        &key(41),
        &key(42),
        &key(43),
        &key(44),
        &spl_token::id(),
        deposit_authority,
        rate(1, 2),
        rate(3, 4),
        rate(5, 6),
        7,
        8,
    )
}

fn list_creation() -> OutsideInstruction {
    solana_system_interface::instruction::create_account(
        &key(14),
        &key(41),
        2222,
        593,
        &spl_stake_pool::id(),
    )
}

fn pool_creation() -> OutsideInstruction {
    solana_system_interface::instruction::create_account(
        &key(14),
        &key(40),
        1111,
        611,
        &spl_stake_pool::id(),
    )
}

fn owned(data: Vec<u8>) -> Option<Account> {
    Some(Account { lamports: 1, owner: spl_stake_pool::id().to_bytes(), data })
}

#[test]
fn a_missing_list_and_pool_are_created() {
    match setup_and_initialize_validator_list_with_stake_pool(&config(), &new_pool(), &None, &None) {
        PoolSetup::Initialize(plan) => {
            assert_eq!(
                plan.instructions,
                all_plain(&[list_creation(), pool_creation(), initialization(None)])
            );
            assert_eq!(plan.signers, vec![[11; 32], [14; 32], [40; 32], [41; 32]]);
            assert_eq!(plan.additional_fee, 0);
        }
        other => panic!("{:?}", other),
    }
}

#[test]
fn a_deposit_authority_signs_the_initialization() {
    let mut new = new_pool();
    new.deposit_authority = Some([46; 32]);
    match setup_and_initialize_validator_list_with_stake_pool(&config(), &new, &None, &owned(vec![0])) {
        PoolSetup::Initialize(plan) => {
            assert_eq!(
                plan.instructions,
                all_plain(&[pool_creation(), initialization(Some(key(46)))])
            );
            assert_eq!(plan.signers, vec![[11; 32], [14; 32], [40; 32], [46; 32]]);
        }
        other => panic!("{:?}", other),
    }
}

#[test]
fn accounts_that_exist_are_not_created() {
    let foreign = Some(Account { lamports: 1, owner: [9; 32], data: vec![1] });
    match setup_and_initialize_validator_list_with_stake_pool(&config(), &new_pool(), &owned(vec![0, 0]), &foreign) {
        PoolSetup::Initialize(plan) => {
            assert_eq!(plan.instructions, all_plain(&[initialization(None)]));
            assert_eq!(plan.signers, vec![[11; 32], [14; 32], [40; 32]]);
        }
        other => panic!("{:?}", other),
    }
}

#[test]
fn an_initialized_list_or_pool_is_left_alone() {
    let used = owned(vec![0, 1]);
    assert_eq!(
        setup_and_initialize_validator_list_with_stake_pool(&config(), &new_pool(), &used, &used),
        PoolSetup::ListInitialized
    );
    assert_eq!(
        setup_and_initialize_validator_list_with_stake_pool(&config(), &new_pool(), &used, &None),
        PoolSetup::PoolInitialized
    );
}

#[test]
fn the_instruction_of_an_initialization_is_written_account_by_account() {
    let mut new = new_pool();
    new.deposit_authority = Some([46; 32]);
    let setup =
        setup_and_initialize_validator_list_with_stake_pool(&config(), &new, &None, &None);
    let plan = match setup {
        PoolSetup::Initialize(plan) => plan,
        other => panic!("{:?}", other),
    };
    let step = &plan.instructions[2];
    assert_eq!(
        step.accounts,
        vec![
            AccountMeta([40; 32], false, true),
            AccountMeta([11; 32], true, false),
            AccountMeta([12; 32], false, false),
            AccountMeta([45; 32], false, false),
            AccountMeta([41; 32], false, true),
            AccountMeta([42; 32], false, false),
            AccountMeta([43; 32], false, true),
            AccountMeta([44; 32], false, true),
            AccountMeta(spl_token::id().to_bytes(), false, false),
            AccountMeta([46; 32], true, false),
        ]
    );
    let mut data = vec![0u8];
    for number in [2u64, 1, 4, 3, 6, 5] {
        data.extend_from_slice(&number.to_le_bytes());
    }
    data.push(7);
    data.extend_from_slice(&8u32.to_le_bytes());
    assert_eq!(step.data, data);
}

#[test]
fn the_instruction_of_a_stake_initialization_is_written_byte_by_byte() {
    match setup_reserve_stake_account(&config(), &[30; 32], &None, 258, &[31; 32]) {
        AccountSetup::Create(plan) => {
            let mut data = vec![0u8; 4];
            data.extend_from_slice(&[31; 64]);
            data.extend_from_slice(&[0; 48]);
            assert_eq!(plan.instructions[1].data, data);
            assert_eq!(
                plan.instructions[1].accounts,
                vec![
                    AccountMeta([30; 32], false, true),
                    AccountMeta(stake_pool_cli::programs::ids::RENT_SYSVAR, false, false),
                ]
            );
            let mut data = vec![0u8; 4];
            data.extend_from_slice(&258u64.to_le_bytes());
            data.extend_from_slice(&200u64.to_le_bytes());
            data.extend_from_slice(&stake_pool_cli::programs::ids::STAKE_PROGRAM);
            assert_eq!(plan.instructions[0].data, data);
        }
        other => panic!("{:?}", other),
    }
}

#[test]
fn the_instruction_of_a_mint_initialization_is_written_byte_by_byte() {
    let setup = setup_mint_account(&config(), &[32; 32], &None, 88, &[31; 32], 9).unwrap();
    match setup.setup {
        AccountSetup::Create(plan) => {
            let mut data = vec![0u8, 9];
            data.extend_from_slice(&[31; 32]);
            data.push(0);
            assert_eq!(plan.instructions[1].data, data);
        }
        other => panic!("{:?}", other),
    }
}

#[test]
fn sizes_and_balances_that_do_not_fit_are_found_beforehand() {
    assert!(check_validator_list_fits(0));
    assert_eq!(
        check_validator_list_fits(u32::MAX),
        9 + 73 * (u32::MAX as u128) <= isize::MAX as u128
    );
    let most = u64::MAX - spl_stake_pool::MINIMUM_RESERVE_LAMPORTS - 10;
    assert!(check_pool_balances_fit(1, 2, 3, 4, most));
    assert!(!check_pool_balances_fit(1, 2, 3, 5, most));
    assert!(!check_pool_balances_fit(u64::MAX, u64::MAX, 0, 0, 0));
    assert_eq!(pool_balances(1, 2, 3, 4, most).total, u64::MAX);
}

#[test]
fn a_mint_is_read_byte_by_byte() {
    let not_a_mint = CliError::NotAMint { mint: [32; 32] };
    let wrong =
        CliError::WrongMintAuthority { mint: [32; 32], withdraw_authority: [31; 32] };
    let with = |data: &[u8]| {
        let owner = spl_token_2022::id().to_bytes();
        let account = Some(Account { lamports: 1, owner, data: data.to_vec() });
        setup_mint_account(&config(), &[32; 32], &account, 88, &[31; 32], 9).map(|m| m.setup)
    };
    let mut mint = vec![0u8; 82];
    mint[0] = 1;
    mint[4..36].copy_from_slice(&[31; 32]);
    assert_eq!(with(&mint), Err(not_a_mint));
    mint[45] = 2;
    assert_eq!(with(&mint), Err(not_a_mint));
    mint[45] = 1;
    assert_eq!(with(&mint), Ok(AccountSetup::Ready));
    mint[46] = 1;
    assert_eq!(with(&mint), Ok(AccountSetup::Ready));
    mint[46] = 2;
    assert_eq!(with(&mint), Err(not_a_mint));
    mint[46] = 0;
    mint[0] = 0;
    assert_eq!(with(&mint), Err(wrong));
    mint[0] = 2;
    assert_eq!(with(&mint), Err(not_a_mint));
    mint[0] = 1;
    mint[1] = 1;
    assert_eq!(with(&mint), Err(not_a_mint));
    mint[1] = 0;
    assert_eq!(with(&mint[..81]), Err(not_a_mint));

    mint.resize(166, 0);
    assert_eq!(with(&mint), Err(not_a_mint));
    mint[165] = 2;
    assert_eq!(with(&mint), Err(not_a_mint));
    mint[165] = 1;
    assert_eq!(with(&mint), Ok(AccountSetup::Ready));
    assert_eq!(with(&mint[..165]), Err(not_a_mint));
    mint[164] = 1;
    assert_eq!(with(&mint), Err(not_a_mint));
    mint[164] = 0;
    for (size, expected) in [
        (354, Ok(AccountSetup::Ready)),
        (355, Err(not_a_mint)),
        (356, Ok(AccountSetup::Ready)),
    ] {
        mint.resize(size, 7);
        assert_eq!(with(&mint), expected);
    }
}
