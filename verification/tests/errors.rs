use solana_program::pubkey::Pubkey;
use stake_pool_cli::error::{CliError, FEES_REFERENCE};

fn text(address: [u8; 32]) -> String {
    Pubkey::from(address).to_string()
}

#[test]
fn a_payer_without_balance_is_told_both_amounts() {
    let error = CliError::InsufficientFeePayerBalance {
        fee_payer: [1; 32],
        required: 1_500_000_000,
        available: 7,
    };
    assert_eq!(
        error.message(),
        format!(
            "Fee payer, {}, has insufficient balance: \u{25ce}1.500000000 required, \u{25ce}0.000000007 available",
            text([1; 32])
        )
    );
}

#[test]
fn amounts_of_sol_have_nine_decimals() {
    let error = CliError::NotEnoughSol { lamports: u64::MAX, balance: 1_000_000_000 };
    assert_eq!(
        error.message(),
        "Not enough SOL to deposit into pool: \u{25ce}18446744073.709551615.\nMaximum deposit amount is \u{25ce}1.000000000 SOL."
    );
}

#[test]
fn missing_fees_come_with_advice() {
    assert_eq!(
        FEES_REFERENCE,
        "Consider setting a minimal fee. \
         See https://spl.solana.com/stake-pool/fees for more \
         information about fees and best practices. If you are \
         aware of the possible risks of a stake pool with no fees, \
         you may force pool creation with the --unsafe-fees flag."
    );
    assert_eq!(
        CliError::EpochFeeIsZero.message(),
        format!("Epoch fee should not be 0. {}", FEES_REFERENCE)
    );
    assert_eq!(
        CliError::WithdrawalAndDepositFeesAreZero.message(),
        format!("Withdrawal and deposit fee should not both be 0. {}", FEES_REFERENCE)
    );
}

#[test]
fn mint_errors_name_the_mint() {
    assert_eq!(
        CliError::WrongMintAuthority { mint: [2; 32], withdraw_authority: [3; 32] }.message(),
        format!(
            "Mint account exists with the incorrect mint authority. Set mint authority with `spl-token authorize {} mint {}",
            text([2; 32]),
            text([3; 32])
        )
    );
    assert_eq!(
        CliError::NotAMint { mint: [2; 32] }.message(),
        format!("Account {} already exists, but is not a valid mint", text([2; 32]))
    );
}

#[test]
fn errors_without_details_are_sentences() {
    assert_eq!(
        CliError::VoteAccountNotListed.message(),
        "Vote account not found in validator list"
    );
    assert_eq!(
        CliError::StakeNotDelegated.message(),
        "Wrong stake account state, must be delegated to validator"
    );
    assert_eq!(
        CliError::VoteAccountNotInPool.message(),
        "Vote account not found in the stake pool"
    );
    assert_eq!(
        CliError::NoSolDepositAuthority.message(),
        "SOL deposit authority specified in arguments but stake pool has none"
    );
    assert_eq!(
        CliError::NoSolWithdrawAuthority.message(),
        "SOL withdraw authority specified in arguments but stake pool has none"
    );
    assert_eq!(
        CliError::WrongFeeReceiverMint.message(),
        "Fee receiver account belongs to a different mint"
    );
    assert_eq!(
        CliError::WrongTokenProgram.message(),
        solana_program::program_error::ProgramError::IncorrectProgramId.to_string()
    );
}

#[test]
fn authority_errors_name_both_authorities() {
    assert_eq!(
        CliError::InvalidDepositAuthority { expected: [4; 32], received: [5; 32] }.message(),
        format!(
            "Invalid deposit authority specified, expected {}, received {}",
            text([4; 32]),
            text([5; 32])
        )
    );
    assert_eq!(
        CliError::InvalidWithdrawAuthority { expected: [4; 32], received: [5; 32] }.message(),
        format!(
            "Invalid deposit withdraw specified, expected {}, received {}",
            text([4; 32]),
            text([5; 32])
        )
    );
}

#[test]
fn token_amounts_are_written_with_the_decimals_of_the_mint() {
    assert_eq!(
        CliError::NotEnoughTokens { pool_amount: 1_500_000_000, available: 2, decimals: 9 }
            .message(),
        "Not enough token balance to withdraw 1.5 pool tokens.\nMaximum withdraw amount is 0.000000002 pool tokens."
    );
    assert_eq!(
        CliError::NoStakeAccounts { pool_amount: 12, decimals: 0 }.message(),
        "No stake accounts found in this pool with enough balance to withdraw 12 pool tokens."
    );
}

#[test]
fn validator_errors_name_the_validator() {
    assert_eq!(
        CliError::VoteAccountMismatch { provided: [6; 32], delegated: [7; 32] }.message(),
        format!("Provided withdrawal vote account {} does not match delegation on stake receiver account {},
                remove this flag or provide a different stake account delegated to {}", text([6; 32]), text([7; 32]), text([6; 32]))
    );
    assert_eq!(
        CliError::ReceiverNotInPool { vote_account: [6; 32] }.message(),
        format!("Provided stake account is delegated to a vote account {} which does not exist in the stake pool", text([6; 32]))
    );
    assert_eq!(
        CliError::ValidatorNotInPool { vote_account: [6; 32] }.message(),
        format!("Provided vote account address {} does not exist in the stake pool", text([6; 32]))
    );
    assert_eq!(
        CliError::NotEnoughStake { stake_account: [8; 32], asked: 100, available: 99 }.message(),
        format!(
            "Not enough lamports available for withdrawal from {}, 100 asked, 99 available",
            text([8; 32])
        )
    );
}

#[test]
fn amounts_that_cannot_be_written_are_found_beforehand() {
    let most = if usize::BITS == 64 { 19u8 } else { 9 };
    let error = |decimals: u8| CliError::NoStakeAccounts { pool_amount: 1, decimals };
    assert!(error(0).is_writable());
    assert!(error(most).is_writable());
    assert!(!error(most + 1).is_writable());
    assert!(!error(255).is_writable());
    let error = CliError::NotEnoughTokens { pool_amount: 1, available: 0, decimals: most + 1 };
    assert!(!error.is_writable());
    assert!(CliError::StakeNotDelegated.is_writable());
}
