use solana_program::instruction::Instruction as OutsideInstruction;
use solana_program::pubkey::Pubkey;
use spl_associated_token_account::instruction::create_associated_token_account;
use spl_associated_token_account_client::address::get_associated_token_address_with_program_id;
use stake_pool_cli::config::Config;
use stake_pool_cli::deposit::{
    check_sol_balance, check_stake_deposit_authority, command_deposit_all_stake,
    command_deposit_sol, command_deposit_stake, deposit_stake_account, deposited_vote_account,
    next_deposit, next_deposit_step, plan_token_account, sol_source_account, DepositStep,
    DepositTerms, SolDeposit, StakeDeposit,
};
use stake_pool_cli::error::CliError;
use stake_pool_cli::instruction::{AccountMeta, Instruction};
use stake_pool_cli::options::ComputeUnitLimit;
use stake_pool_cli::state::{Fee, PoolValidators, StakePool, StakeState, ValidatorStakeInfo};

fn key(n: u8) -> Pubkey {
    Pubkey::from([n; 32])
}

fn plain(ix: &OutsideInstruction) -> Instruction {
    Instruction {
        program_id: ix.program_id.to_bytes(),
        accounts: ix
            .accounts
            .iter()
            .map(|m| AccountMeta(m.pubkey.to_bytes(), m.is_signer, m.is_writable))
            .collect(),
        data: ix.data.clone(),
    }
}

fn all_plain(ixs: &[OutsideInstruction]) -> Vec<Instruction> {
    ixs.iter().map(plain).collect()
}

fn config() -> Config {
    Config {
        stake_pool_program_id: spl_stake_pool::id().to_bytes(),
        manager: [11; 32],
        staker: [12; 32],
        funding_authority: None,
        token_owner: [13; 32],
        fee_payer: [14; 32],
        dry_run: false,
        no_update: false,
        compute_unit_price: None,
        compute_unit_limit: ComputeUnitLimit::Default,
    }
}

fn pool() -> StakePool {
    StakePool {
        manager: [11; 32],
        staker: [12; 32],
        stake_deposit_authority: [21; 32],
        validator_list: [22; 32],
        reserve_stake: [23; 32],
        pool_mint: [24; 32],
        manager_fee_account: [25; 32],
        token_program_id: spl_token::id().to_bytes(),
        total_lamports: 1000,
        pool_token_supply: 500,
        last_update_epoch: 5,
        preferred_withdraw_validator_vote_address: None,
        stake_withdrawal_fee: Fee { numerator: 0, denominator: 1 },
        sol_deposit_authority: None,
        sol_withdraw_authority: None,
    }
}

fn entry(n: u8, epoch: u64) -> ValidatorStakeInfo {
    ValidatorStakeInfo {
        active_stake_lamports: 1000 + n as u64,
        transient_stake_lamports: 100 + n as u64,
        last_update_epoch: epoch,
        transient_seed_suffix: 2 * n as u64,
        validator_seed_suffix: n as u32,
        vote_account_address: [n; 32],
    }
}

fn deposit() -> StakeDeposit {
    StakeDeposit {
        pool_address: [40; 32],
        stake: [61; 32],
        stake_authority: [62; 32],
        validator_stake: [63; 32],
        token_receiver: None,
        referrer: None,
    }
}

fn authority() -> Pubkey {
    spl_stake_pool::find_withdraw_authority_program_address(&spl_stake_pool::id(), &key(40)).0
}

fn associated() -> Pubkey {
    get_associated_token_address_with_program_id(&key(13), &key(24), &spl_token::id())
}

fn creation() -> OutsideInstruction {
    create_associated_token_account(&key(14), &key(13), &key(24), &spl_token::id())
}

fn deposit_steps(receiver: Pubkey, referrer: Pubkey) -> Vec<OutsideInstruction> {
    spl_stake_pool::instruction::deposit_stake(
        &spl_stake_pool::id(),
        &key(40),
        &key(22),
        &authority(),
        &key(61),
        &key(62),
        &key(63),
        &key(23),
        &receiver,
        &key(25),
        &referrer,
        &key(24),
        &spl_token::id(),
    )
}

#[test]
fn stake_is_deposited_into_the_existing_associated_account() {
    let plan = command_deposit_stake(&config(), &pool(), &deposit(), &None).unwrap();
    assert_eq!(plan.instructions, all_plain(&deposit_steps(associated(), associated())));
    assert_eq!(plan.signers, vec![[14; 32], [62; 32]]);
    assert_eq!(plan.additional_fee, 0);
}

#[test]
fn a_missing_associated_account_is_created() {
    let plan = command_deposit_stake(&config(), &pool(), &deposit(), &Some(2_039_280)).unwrap();
    let mut expected = vec![creation()];
    expected.extend(deposit_steps(associated(), associated()));
    assert_eq!(plan.instructions, all_plain(&expected));
    assert_eq!(plan.signers, vec![[14; 32], [62; 32]]);
    assert_eq!(plan.additional_fee, 2_039_280);
}

#[test]
fn a_given_receiver_takes_the_tokens_and_the_referral_fees() {
    let mut d = deposit();
    d.token_receiver = Some([70; 32]);
    let plan = command_deposit_stake(&config(), &pool(), &d, &Some(5)).unwrap();
    assert_eq!(plan.instructions, all_plain(&deposit_steps(key(70), key(70))));
    assert_eq!(plan.additional_fee, 0);
    d.referrer = Some([71; 32]);
    let plan = command_deposit_stake(&config(), &pool(), &d, &None).unwrap();
    assert_eq!(plan.instructions, all_plain(&deposit_steps(key(70), key(71))));
}

#[test]
fn stake_is_deposited_with_the_authority_of_the_pool() {
    let mut c = config();
    c.funding_authority = Some([21; 32]);
    let plan = command_deposit_stake(&c, &pool(), &deposit(), &None).unwrap();
    let expected = spl_stake_pool::instruction::deposit_stake_with_authority(
        &spl_stake_pool::id(),
        &key(40),
        &key(22),
        &key(21),
        &authority(),
        &key(61),
        &key(62),
        &key(63),
        &key(23),
        &associated(),
        &key(25),
        &associated(),
        &key(24),
        &spl_token::id(),
    );
    assert_eq!(plan.instructions, all_plain(&expected));
    assert_eq!(plan.signers, vec![[14; 32], [21; 32], [62; 32]]);
    let all = command_deposit_all_stake(&c, &pool(), &deposit(), &Some([21; 32]));
    assert_eq!(all, plan);
}

#[test]
fn another_deposit_authority_is_refused() {
    let mut c = config();
    assert_eq!(check_stake_deposit_authority(&c, &pool()), Ok(None));
    c.funding_authority = Some([99; 32]);
    let error = CliError::InvalidDepositAuthority { expected: [21; 32], received: [99; 32] };
    assert_eq!(check_stake_deposit_authority(&c, &pool()), Err(error));
    assert_eq!(command_deposit_stake(&c, &pool(), &deposit(), &None), Err(error));
    c.funding_authority = Some([21; 32]);
    assert_eq!(check_stake_deposit_authority(&c, &pool()), Ok(Some([21; 32])));
}

#[test]
fn all_stake_is_deposited_one_by_one() {
    let plan = command_deposit_all_stake(&config(), &pool(), &deposit(), &None);
    assert_eq!(plan.instructions, all_plain(&deposit_steps(associated(), associated())));
    assert_eq!(plan.signers, vec![[14; 32], [62; 32]]);
    assert_eq!(plan.additional_fee, 0);
}

#[test]
fn the_associated_account_is_created_before_all_stake() {
    assert_eq!(plan_token_account(&config(), &pool(), &None, &None), None);
    assert_eq!(plan_token_account(&config(), &pool(), &Some([70; 32]), &None), None);
    assert_eq!(plan_token_account(&config(), &pool(), &Some([70; 32]), &Some(9)), None);
    let plan = plan_token_account(&config(), &pool(), &None, &Some(9)).unwrap();
    assert_eq!(plan.instructions, all_plain(&[creation()]));
    assert_eq!(plan.signers, vec![[14; 32]]);
    assert_eq!(plan.additional_fee, 9);
}

#[test]
fn only_delegated_stake_is_deposited() {
    assert_eq!(deposited_vote_account(&StakeState::Stake([5; 32])), Ok([5; 32]));
    for state in [StakeState::Uninitialized, StakeState::Initialized, StakeState::RewardsPool] {
        assert_eq!(deposited_vote_account(&state), Err(CliError::StakeNotDelegated));
    }
}

#[test]
fn stake_goes_to_a_validator_of_the_pool() {
    let validators = PoolValidators { max_validators: 3, validators: vec![entry(5, 1)] };
    let expected = spl_stake_pool::find_stake_program_address(
        &spl_stake_pool::id(),
        &key(5),
        &key(40),
        std::num::NonZeroU32::new(5),
    )
    .0
    .to_bytes();
    assert_eq!(
        deposit_stake_account(&config(), &[40; 32], &validators, &[5; 32]),
        Ok(expected)
    );
    assert_eq!(
        deposit_stake_account(&config(), &[40; 32], &validators, &[6; 32]),
        Err(CliError::VoteAccountNotInPool)
    );
}

fn sol_deposit() -> SolDeposit {
    SolDeposit {
        pool_address: [40; 32],
        from: None,
        transfer_account: [64; 32],
        token_receiver: None,
        referrer: None,
        lamports: 12_345,
    }
}

fn sol_step(receiver: Pubkey, referrer: Pubkey) -> OutsideInstruction {
    spl_stake_pool::instruction::deposit_sol(
        &spl_stake_pool::id(),
        &key(40),
        &authority(),
        &key(23),
        &key(64),
        &receiver,
        &key(25),
        &referrer,
        &key(24),
        &spl_token::id(),
        12_345,
    )
}

fn transfer(from: u8) -> OutsideInstruction {
    solana_system_interface::instruction::transfer(&key(from), &key(64), 12_345)
}

#[test]
fn sol_of_the_payer_is_deposited() {
    let plan = command_deposit_sol(&config(), &pool(), &sol_deposit(), &None).unwrap();
    assert_eq!(
        plan.instructions,
        all_plain(&[transfer(14), sol_step(associated(), associated())])
    );
    assert_eq!(plan.signers, vec![[14; 32], [64; 32]]);
    assert_eq!(plan.additional_fee, 0);
}

#[test]
fn sol_of_another_account_is_deposited() {
    let mut d = sol_deposit();
    d.from = Some([65; 32]);
    d.token_receiver = Some([70; 32]);
    d.referrer = Some([71; 32]);
    let plan = command_deposit_sol(&config(), &pool(), &d, &Some(3)).unwrap();
    assert_eq!(
        plan.instructions,
        all_plain(&[transfer(65), sol_step(key(70), key(71))])
    );
    assert_eq!(plan.signers, vec![[14; 32], [64; 32], [65; 32]]);
    assert_eq!(plan.additional_fee, 0);
    d.token_receiver = None;
    let plan = command_deposit_sol(&config(), &pool(), &d, &Some(3)).unwrap();
    assert_eq!(
        plan.instructions,
        all_plain(&[transfer(65), creation(), sol_step(associated(), key(71))])
    );
    assert_eq!(plan.additional_fee, 3);
}

#[test]
fn sol_is_deposited_with_the_authority_of_the_pool() {
    let mut c = config();
    c.funding_authority = Some([80; 32]);
    let mut p = pool();
    assert_eq!(
        command_deposit_sol(&c, &p, &sol_deposit(), &None),
        Err(CliError::NoSolDepositAuthority)
    );
    p.sol_deposit_authority = Some([81; 32]);
    assert_eq!(
        command_deposit_sol(&c, &p, &sol_deposit(), &None),
        Err(CliError::InvalidDepositAuthority { expected: [81; 32], received: [80; 32] })
    );
    p.sol_deposit_authority = Some([80; 32]);
    let plan = command_deposit_sol(&c, &p, &sol_deposit(), &None).unwrap();
    let expected = spl_stake_pool::instruction::deposit_sol_with_authority(
        &spl_stake_pool::id(),
        &key(40),
        &key(80),
        &authority(),
        &key(23),
        &key(64),
        &associated(),
        &key(25),
        &associated(),
        &key(24),
        &spl_token::id(),
        12_345,
    );
    assert_eq!(plan.instructions, all_plain(&[transfer(14), expected]));
    assert_eq!(plan.signers, vec![[14; 32], [64; 32], [80; 32]]);
}

#[test]
fn sol_comes_from_the_given_account_or_the_payer() {
    assert_eq!(sol_source_account(&config(), &None), [14; 32]);
    assert_eq!(sol_source_account(&config(), &Some([65; 32])), [65; 32]);
    assert_eq!(check_sol_balance(5, 5), Ok(()));
    assert_eq!(
        check_sol_balance(4, 5),
        Err(CliError::NotEnoughSol { lamports: 5, balance: 4 })
    );
}

#[test]
fn the_instruction_of_a_sol_deposit_is_written_account_by_account() {
    let mut c = config();
    c.funding_authority = Some([80; 32]);
    let mut p = pool();
    p.sol_deposit_authority = Some([80; 32]);
    let plan = command_deposit_sol(&c, &p, &sol_deposit(), &Some(1)).unwrap();
    let step = &plan.instructions[2];
    let receiver = associated().to_bytes();
    assert_eq!(step.data, vec![14, 57, 48, 0, 0, 0, 0, 0, 0]);
    assert_eq!(
        step.accounts,
        vec![
            AccountMeta([40; 32], false, true),
            AccountMeta(authority().to_bytes(), false, false),
            AccountMeta([23; 32], false, true),
            AccountMeta([64; 32], true, true),
            AccountMeta(receiver, false, true),
            AccountMeta([25; 32], false, true),
            AccountMeta(receiver, false, true),
            AccountMeta([24; 32], false, true),
            AccountMeta(stake_pool_cli::programs::ids::SYSTEM_PROGRAM, false, false),
            AccountMeta(stake_pool_cli::programs::ids::TOKEN_PROGRAM, false, false),
            AccountMeta([80; 32], true, false),
        ]
    );
    let transfer = &plan.instructions[0];
    assert_eq!(transfer.data, vec![2, 0, 0, 0, 57, 48, 0, 0, 0, 0, 0, 0]);
    assert_eq!(
        transfer.accounts,
        vec![AccountMeta([14; 32], true, true), AccountMeta([64; 32], false, true)]
    );
    let creation = &plan.instructions[1];
    assert_eq!(
        creation.program_id,
        stake_pool_cli::programs::ids::ASSOCIATED_TOKEN_PROGRAM
    );
    assert_eq!(creation.data, vec![0]);
    assert_eq!(creation.accounts[0], AccountMeta([14; 32], true, true));
    assert_eq!(creation.accounts[1], AccountMeta(receiver, false, true));
    let plan = command_deposit_sol(&config(), &p, &sol_deposit(), &None).unwrap();
    assert_eq!(plan.instructions[1].accounts, step.accounts[..10]);
}

fn terms() -> DepositTerms {
    DepositTerms {
        stake_authority: [62; 32],
        token_receiver: Some([70; 32]),
        referrer: Some([71; 32]),
    }
}

fn stake_of(n: u8) -> Pubkey {
    spl_stake_pool::find_stake_program_address(
        &spl_stake_pool::id(),
        &key(n),
        &key(40),
        std::num::NonZeroU32::new(n as u32),
    )
    .0
}

fn run(
    c: &Config,
    stakes: &Vec<[u8; 32]>,
    states: &[StakeState],
) -> (Vec<Vec<Instruction>>, Option<CliError>) {
    let validators =
        PoolValidators { max_validators: 3, validators: vec![entry(5, 1), entry(6, 1)] };
    let mut sent = vec![];
    let mut next = 0;
    let mut state = None;
    loop {
        let step = next_deposit_step(
            c,
            &pool(),
            &[40; 32],
            &validators,
            stakes,
            next,
            &state,
            &terms(),
        );
        match step {
            DepositStep::Read => state = Some(states[next]),
            DepositStep::Deposit(plan, following) => {
                assert_eq!(following, next + 1);
                assert_eq!(plan.signers, vec![[14; 32], [62; 32]]);
                assert_eq!(plan.additional_fee, 0);
                sent.push(plan.instructions);
                next = following;
                state = None;
            }
            DepositStep::Refused(error) => return (sent, Some(error)),
            DepositStep::Done => return (sent, None),
        }
    }
}

fn deposit_of(stake: u8, vote: u8) -> Vec<Instruction> {
    all_plain(&spl_stake_pool::instruction::deposit_stake(
        &spl_stake_pool::id(),
        &key(40),
        &key(22),
        &authority(),
        &key(stake),
        &key(62),
        &stake_of(vote),
        &key(23),
        &key(70),
        &key(25),
        &key(71),
        &key(24),
        &spl_token::id(),
    ))
}

#[test]
fn every_stake_is_deposited_in_its_order_to_one_receiver() {
    let stakes = vec![[81; 32], [82; 32], [83; 32]];
    let states = [
        StakeState::Stake([6; 32]),
        StakeState::Stake([5; 32]),
        StakeState::Stake([6; 32]),
    ];
    assert_eq!(
        run(&config(), &stakes, &states),
        (vec![deposit_of(81, 6), deposit_of(82, 5), deposit_of(83, 6)], None)
    );
    assert_eq!(run(&config(), &vec![], &[]), (vec![], None));
}

#[test]
fn the_first_refused_stake_ends_the_deposits() {
    let stakes = vec![[81; 32], [82; 32], [83; 32]];
    let states = [
        StakeState::Stake([6; 32]),
        StakeState::Stake([7; 32]),
        StakeState::Stake([5; 32]),
    ];
    assert_eq!(
        run(&config(), &stakes, &states),
        (vec![deposit_of(81, 6)], Some(CliError::VoteAccountNotInPool))
    );
    let states = [StakeState::Initialized, StakeState::Stake([6; 32]), StakeState::Stake([5; 32])];
    assert_eq!(run(&config(), &stakes, &states), (vec![], Some(CliError::StakeNotDelegated)));
}

#[test]
fn a_refused_authority_ends_the_deposits_before_the_first() {
    let mut c = config();
    c.funding_authority = Some([99; 32]);
    let error = CliError::InvalidDepositAuthority { expected: [21; 32], received: [99; 32] };
    let states = [StakeState::Stake([6; 32])];
    assert_eq!(run(&c, &vec![[81; 32]], &states), (vec![], Some(error)));
    assert_eq!(run(&c, &vec![], &[]), (vec![], Some(error)));
}

#[test]
fn the_next_stake_is_deposited_with_the_checked_authority() {
    let mut c = config();
    c.funding_authority = Some([21; 32]);
    let checked = check_stake_deposit_authority(&c, &pool()).unwrap();
    let validators = PoolValidators { max_validators: 3, validators: vec![entry(5, 1)] };
    let stakes = vec![[81; 32]];
    let state = StakeState::Stake([5; 32]);
    let plan =
        next_deposit(&c, &pool(), &[40; 32], &validators, &stakes, 0, &state, &terms(), &checked)
            .unwrap();
    assert_eq!(plan.signers, vec![[14; 32], [21; 32], [62; 32]]);
    assert_eq!(plan.instructions[2].accounts[2], AccountMeta([21; 32], true, false));
}

#[test]
fn the_instructions_of_a_stake_deposit_are_written_account_by_account() {
    let plan = command_deposit_stake(&config(), &pool(), &deposit(), &None).unwrap();
    let clock = stake_pool_cli::programs::ids::CLOCK_SYSVAR;
    let history = stake_pool_cli::programs::ids::STAKE_HISTORY_SYSVAR;
    let stake_program = stake_pool_cli::programs::ids::STAKE_PROGRAM;
    let derived =
        spl_stake_pool::find_deposit_authority_program_address(&spl_stake_pool::id(), &key(40))
            .0
            .to_bytes();
    let receiver = associated().to_bytes();
    for (i, role) in [(0, 0u8), (1, 1)] {
        let step = &plan.instructions[i];
        assert_eq!(step.program_id, stake_program);
        assert_eq!(
            step.accounts,
            vec![
                AccountMeta([61; 32], false, true),
                AccountMeta(clock, false, false),
                AccountMeta([62; 32], true, false),
            ]
        );
        let mut data = vec![1, 0, 0, 0];
        data.extend_from_slice(&derived);
        data.extend_from_slice(&[role, 0, 0, 0]);
        assert_eq!(step.data, data);
    }
    let step = &plan.instructions[2];
    assert_eq!(step.data, vec![9]);
    let mut accounts = vec![
        AccountMeta([40; 32], false, true),
        AccountMeta([22; 32], false, true),
        AccountMeta(derived, false, false),
        AccountMeta(authority().to_bytes(), false, false),
        AccountMeta([61; 32], false, true),
        AccountMeta([63; 32], false, true),
        AccountMeta([23; 32], false, true),
        AccountMeta(receiver, false, true),
        AccountMeta([25; 32], false, true),
        AccountMeta(receiver, false, true),
        AccountMeta([24; 32], false, true),
        AccountMeta(clock, false, false),
        AccountMeta(history, false, false),
        AccountMeta(spl_token::id().to_bytes(), false, false),
        AccountMeta(stake_program, false, false),
    ];
    assert_eq!(step.accounts, accounts);
    let mut c = config();
    c.funding_authority = Some([21; 32]);
    let plan = command_deposit_stake(&c, &pool(), &deposit(), &None).unwrap();
    accounts[2] = AccountMeta([21; 32], true, false);
    assert_eq!(plan.instructions[2].accounts, accounts);
    assert_eq!(plan.instructions[0].data[4..36], [21; 32]);
}
