//! Why a command refuses, and the words in which it says so.
use vstd::prelude::*;

use crate::address::Address;
use crate::text::{
    address_text, check_decimals_fit, decimal, decimals_fit, sol_text, tokens_text, u64_text, written_address,
    written_sol, written_tokens,
};

verus! {

/// Why a command refuses.
#[derive(Clone, Copy, PartialEq, Eq, Debug)]
pub enum CliError {
    /// The payer cannot pay for a transaction.
    InsufficientFeePayerBalance { fee_payer: Address, required: u64, available: u64 },
    /// A pool would be made without an epoch fee.
    EpochFeeIsZero,
    /// A pool would be made without a withdrawal fee and without a deposit fee.
    WithdrawalAndDepositFeesAreZero,
    /// The mint has another authority than the pool's.
    WrongMintAuthority { mint: Address, withdraw_authority: Address },
    /// The account of the mint holds something else.
    NotAMint { mint: Address },
    /// The pool's list has no entry for the vote account.
    VoteAccountNotListed,
    /// The stake to deposit is not delegated.
    StakeNotDelegated,
    /// The stake to deposit is delegated to a validator outside the pool.
    VoteAccountNotInPool,
    /// The given authority is not the pool's authority over deposits.
    InvalidDepositAuthority { expected: Address, received: Address },
    /// The pool has no authority over deposits of SOL.
    NoSolDepositAuthority,
    /// The pool has no authority over withdrawals of SOL.
    NoSolWithdrawAuthority,
    /// The given authority is not the pool's authority over withdrawals.
    InvalidWithdrawAuthority { expected: Address, received: Address },
    /// The account holds less than is to be deposited.
    NotEnoughSol { lamports: u64, balance: u64 },
    /// The token account holds less than is to be withdrawn.
    NotEnoughTokens { pool_amount: u64, available: u64, decimals: u8 },
    /// No token program owns the pool's mint.
    WrongTokenProgram,
    /// The receiver's stake is delegated to another validator than the given one.
    VoteAccountMismatch { provided: Address, delegated: Address },
    /// The receiver's stake is delegated to a validator outside the pool.
    ReceiverNotInPool { vote_account: Address },
    /// The given validator is not in the pool.
    ValidatorNotInPool { vote_account: Address },
    /// The validator's stake is too small for the withdrawal.
    NotEnoughStake { stake_account: Address, asked: u64, available: u64 },
    /// All of the pool's stake is too small for the withdrawal.
    NoStakeAccounts { pool_amount: u64, decimals: u8 },
    /// The account that is to receive fees holds other tokens.
    WrongFeeReceiverMint,
}

/// The advice that goes with a refusal to make a pool without fees.
pub const FEES_REFERENCE: &'static str =
    "Consider setting a minimal fee. See https://spl.solana.com/stake-pool/fees for more information about fees and best practices. If you are aware of the possible risks of a stake pool with no fees, you may force pool creation with the --unsafe-fees flag.";

impl CliError {
    /// The decimals in which the error writes amounts can be written.
    pub open spec fn writable(self) -> bool {
        match self {
            CliError::NotEnoughTokens { decimals, .. } => decimals_fit(decimals),
            CliError::NoStakeAccounts { decimals, .. } => decimals_fit(decimals),
            _ => true,
        }
    }

    /// Tells whether the decimals in which the error writes amounts can be written.
    pub fn is_writable(&self) -> (r: bool)
        ensures
            r == self.writable(),
    {
        match self {
            CliError::NotEnoughTokens { decimals, .. } => check_decimals_fit(*decimals),
            CliError::NoStakeAccounts { decimals, .. } => check_decimals_fit(*decimals),
            _ => true,
        }
    }

    /// The words of the error.
    pub open spec fn words(self) -> Seq<char> {
        match self {
            CliError::InsufficientFeePayerBalance { fee_payer, required, available } => {
                "Fee payer, "@
                    + written_address(fee_payer@)
                    + ", has insufficient balance: "@
                    + written_sol(required)
                    + " required, "@
                    + written_sol(available)
                    + " available"@
            },
            CliError::EpochFeeIsZero => "Epoch fee should not be 0. "@ + FEES_REFERENCE@,
            CliError::WithdrawalAndDepositFeesAreZero => {
                "Withdrawal and deposit fee should not both be 0. "@
                    + FEES_REFERENCE@
            },
            CliError::WrongMintAuthority { mint, withdraw_authority } => {
                "Mint account exists with the incorrect mint authority. Set mint authority with `spl-token authorize "@
                    + written_address(mint@)
                    + " mint "@
                    + written_address(withdraw_authority@)
            },
            CliError::NotAMint { mint } => {
                "Account "@
                    + written_address(mint@)
                    + " already exists, but is not a valid mint"@
            },
            CliError::VoteAccountNotListed => "Vote account not found in validator list"@,
            CliError::StakeNotDelegated => {
                "Wrong stake account state, must be delegated to validator"@
            },
            CliError::VoteAccountNotInPool => "Vote account not found in the stake pool"@,
            CliError::InvalidDepositAuthority { expected, received } => {
                "Invalid deposit authority specified, expected "@
                    + written_address(expected@)
                    + ", received "@
                    + written_address(received@)
            },
            CliError::NoSolDepositAuthority => {
                "SOL deposit authority specified in arguments but stake pool has none"@
            },
            CliError::NoSolWithdrawAuthority => {
                "SOL withdraw authority specified in arguments but stake pool has none"@
            },
            CliError::InvalidWithdrawAuthority { expected, received } => {
                "Invalid deposit withdraw specified, expected "@
                    + written_address(expected@)
                    + ", received "@
                    + written_address(received@)
            },
            CliError::NotEnoughSol { lamports, balance } => {
                "Not enough SOL to deposit into pool: "@
                    + written_sol(lamports)
                    + ".\nMaximum deposit amount is "@
                    + written_sol(balance)
                    + " SOL."@
            },
            CliError::NotEnoughTokens { pool_amount, available, decimals } => {
                "Not enough token balance to withdraw "@
                    + written_tokens(pool_amount, decimals)
                    + " pool tokens.\nMaximum withdraw amount is "@
                    + written_tokens(available, decimals)
                    + " pool tokens."@
            },
            CliError::WrongTokenProgram => "The account did not have the expected program id"@,
            CliError::VoteAccountMismatch { provided, delegated } => {
                "Provided withdrawal vote account "@
                    + written_address(provided@)
                    + " does not match delegation on stake receiver account "@
                    + written_address(delegated@)
                    + ",\n                remove this flag or provide a different stake account delegated to "@
                    + written_address(provided@)
            },
            CliError::ReceiverNotInPool { vote_account } => {
                "Provided stake account is delegated to a vote account "@
                    + written_address(vote_account@)
                    + " which does not exist in the stake pool"@
            },
            CliError::ValidatorNotInPool { vote_account } => {
                "Provided vote account address "@
                    + written_address(vote_account@)
                    + " does not exist in the stake pool"@
            },
            CliError::NotEnoughStake { stake_account, asked, available } => {
                "Not enough lamports available for withdrawal from "@
                    + written_address(stake_account@)
                    + ", "@
                    + decimal(asked as nat)
                    + " asked, "@
                    + decimal(available as nat)
                    + " available"@
            },
            CliError::NoStakeAccounts { pool_amount, decimals } => {
                "No stake accounts found in this pool with enough balance to withdraw "@
                    + written_tokens(pool_amount, decimals)
                    + " pool tokens."@
            },
            CliError::WrongFeeReceiverMint => "Fee receiver account belongs to a different mint"@,
        }
    }

    /// Writes the error in words.
    pub fn message(&self) -> (r: String)
        requires
            self.writable(),
        ensures
            r@ == self.words(),
    {
        match self {
            CliError::InsufficientFeePayerBalance { fee_payer, required, available } =>
                "Fee payer, ".to_owned()
                .concat(&address_text(*fee_payer))
                .concat(", has insufficient balance: ")
                .concat(&sol_text(*required))
                .concat(" required, ")
                .concat(&sol_text(*available))
                .concat(" available"),
            CliError::EpochFeeIsZero => "Epoch fee should not be 0. ".to_owned()
                .concat(FEES_REFERENCE),
            CliError::WithdrawalAndDepositFeesAreZero =>
                "Withdrawal and deposit fee should not both be 0. ".to_owned()
                .concat(FEES_REFERENCE),
            CliError::WrongMintAuthority { mint, withdraw_authority } =>
                "Mint account exists with the incorrect mint authority. Set mint authority with `spl-token authorize ".to_owned()
                .concat(&address_text(*mint))
                .concat(" mint ")
                .concat(&address_text(*withdraw_authority)),
            CliError::NotAMint { mint } => "Account ".to_owned()
                .concat(&address_text(*mint))
                .concat(" already exists, but is not a valid mint"),
            CliError::VoteAccountNotListed => "Vote account not found in validator list".to_owned(),
            CliError::StakeNotDelegated => {
                "Wrong stake account state, must be delegated to validator".to_owned()
            },
            CliError::VoteAccountNotInPool => "Vote account not found in the stake pool".to_owned(),
            CliError::InvalidDepositAuthority { expected, received } =>
                "Invalid deposit authority specified, expected ".to_owned()
                .concat(&address_text(*expected))
                .concat(", received ")
                .concat(&address_text(*received)),
            CliError::NoSolDepositAuthority => {
                "SOL deposit authority specified in arguments but stake pool has none".to_owned()
            },
            CliError::NoSolWithdrawAuthority => {
                "SOL withdraw authority specified in arguments but stake pool has none".to_owned()
            },
            CliError::InvalidWithdrawAuthority { expected, received } =>
                "Invalid deposit withdraw specified, expected ".to_owned()
                .concat(&address_text(*expected))
                .concat(", received ")
                .concat(&address_text(*received)),
            CliError::NotEnoughSol { lamports, balance } =>
                "Not enough SOL to deposit into pool: ".to_owned()
                .concat(&sol_text(*lamports))
                .concat(".\nMaximum deposit amount is ")
                .concat(&sol_text(*balance))
                .concat(" SOL."),
            CliError::NotEnoughTokens { pool_amount, available, decimals } =>
                "Not enough token balance to withdraw ".to_owned()
                .concat(&tokens_text(*pool_amount, *decimals))
                .concat(" pool tokens.\nMaximum withdraw amount is ")
                .concat(&tokens_text(*available, *decimals))
                .concat(" pool tokens."),
            CliError::WrongTokenProgram => {
                "The account did not have the expected program id".to_owned()
            },
            CliError::VoteAccountMismatch { provided, delegated } =>
                "Provided withdrawal vote account ".to_owned()
                .concat(&address_text(*provided))
                .concat(" does not match delegation on stake receiver account ")
                .concat(&address_text(*delegated))
                .concat(",\n                remove this flag or provide a different stake account delegated to ")
                .concat(&address_text(*provided)),
            CliError::ReceiverNotInPool { vote_account } =>
                "Provided stake account is delegated to a vote account ".to_owned()
                .concat(&address_text(*vote_account))
                .concat(" which does not exist in the stake pool"),
            CliError::ValidatorNotInPool { vote_account } =>
                "Provided vote account address ".to_owned()
                .concat(&address_text(*vote_account))
                .concat(" does not exist in the stake pool"),
            CliError::NotEnoughStake { stake_account, asked, available } =>
                "Not enough lamports available for withdrawal from ".to_owned()
                .concat(&address_text(*stake_account))
                .concat(", ")
                .concat(&u64_text(*asked))
                .concat(" asked, ")
                .concat(&u64_text(*available))
                .concat(" available"),
            CliError::NoStakeAccounts { pool_amount, decimals } =>
                "No stake accounts found in this pool with enough balance to withdraw ".to_owned()
                .concat(&tokens_text(*pool_amount, *decimals))
                .concat(" pool tokens."),
            CliError::WrongFeeReceiverMint => {
                "Fee receiver account belongs to a different mint".to_owned()
            },
        }
    }
}

/// The words are the fixed texts with the parts between them.
pub open spec fn says(
    words: Seq<char>,
    texts: (Seq<char>, Seq<char>, Seq<char>, Seq<char>),
    parts: (Seq<char>, Seq<char>, Seq<char>),
) -> bool {
    words == texts.0 + parts.0 + texts.1 + parts.1 + texts.2 + parts.2 + texts.3
}

/// Two refusals of an authority differ only in the two addresses: each names the expected
/// authority first and the received one behind it.
pub proof fn law_authority_errors_name_expected_and_received(
    expected: Address,
    received: Address,
    other_expected: Address,
    other_received: Address,
)
    ensures
        exists|texts: (Seq<char>, Seq<char>, Seq<char>, Seq<char>)| #[trigger]
            says(
                CliError::InvalidDepositAuthority { expected, received }.words(),
                texts,
                (written_address(expected@), written_address(received@), seq![]),
            ) && says(
                (CliError::InvalidDepositAuthority {
                    expected: other_expected,
                    received: other_received,
                }).words(),
                texts,
                (written_address(other_expected@), written_address(other_received@), seq![]),
            ),
        exists|texts: (Seq<char>, Seq<char>, Seq<char>, Seq<char>)| #[trigger]
            says(
                CliError::InvalidWithdrawAuthority { expected, received }.words(),
                texts,
                (written_address(expected@), written_address(received@), seq![]),
            ) && says(
                (CliError::InvalidWithdrawAuthority {
                    expected: other_expected,
                    received: other_received,
                }).words(),
                texts,
                (written_address(other_expected@), written_address(other_received@), seq![]),
            ),
{
    let none = Seq::<char>::empty();
    let deposit = (
        "Invalid deposit authority specified, expected "@,
        ", received "@,
        none,
        none,
    );
    let withdraw = (
        "Invalid deposit withdraw specified, expected "@,
        ", received "@,
        none,
        none,
    );
    let parts = (written_address(expected@), written_address(received@), none);
    let other_parts = (written_address(other_expected@), written_address(other_received@), none);
    let other = CliError::InvalidDepositAuthority {
        expected: other_expected,
        received: other_received,
    };
    assert(says(other.words(), deposit, other_parts));
    assert(says(
        CliError::InvalidDepositAuthority { expected, received }.words(),
        deposit,
        parts,
    ));
    let other = CliError::InvalidWithdrawAuthority {
        expected: other_expected,
        received: other_received,
    };
    assert(says(other.words(), withdraw, other_parts));
    assert(says(
        CliError::InvalidWithdrawAuthority { expected, received }.words(),
        withdraw,
        parts,
    ));
}

/// Two refusals for want of a balance differ only in what they name: the account, where there
/// is one, then the amount that is asked for, then the amount that there is.
pub proof fn law_balance_errors_name_what_is_asked_and_what_there_is(
    account: Address,
    asked: u64,
    held: u64,
    decimals: u8,
    other_account: Address,
    other_asked: u64,
    other_held: u64,
    other_decimals: u8,
)
    ensures
        exists|texts: (Seq<char>, Seq<char>, Seq<char>, Seq<char>)| #[trigger]
            says(
                (CliError::InsufficientFeePayerBalance {
                    fee_payer: account,
                    required: asked,
                    available: held,
                }).words(),
                texts,
                (written_address(account@), written_sol(asked), written_sol(held)),
            ) && says(
                (CliError::InsufficientFeePayerBalance {
                    fee_payer: other_account,
                    required: other_asked,
                    available: other_held,
                }).words(),
                texts,
                (written_address(other_account@), written_sol(other_asked), written_sol(other_held)),
            ),
        exists|texts: (Seq<char>, Seq<char>, Seq<char>, Seq<char>)| #[trigger]
            says(
                (CliError::NotEnoughStake { stake_account: account, asked, available: held }).words(),
                texts,
                (written_address(account@), decimal(asked as nat), decimal(held as nat)),
            ) && says(
                (CliError::NotEnoughStake {
                    stake_account: other_account,
                    asked: other_asked,
                    available: other_held,
                }).words(),
                texts,
                (
                    written_address(other_account@),
                    decimal(other_asked as nat),
                    decimal(other_held as nat),
                ),
            ),
        exists|texts: (Seq<char>, Seq<char>, Seq<char>, Seq<char>)| #[trigger]
            says(
                (CliError::NotEnoughSol { lamports: asked, balance: held }).words(),
                texts,
                (written_sol(asked), written_sol(held), seq![]),
            ) && says(
                (CliError::NotEnoughSol { lamports: other_asked, balance: other_held }).words(),
                texts,
                (written_sol(other_asked), written_sol(other_held), seq![]),
            ),
        exists|texts: (Seq<char>, Seq<char>, Seq<char>, Seq<char>)| #[trigger]
            says(
                (CliError::NotEnoughTokens {
                    pool_amount: asked,
                    available: held,
                    decimals,
                }).words(),
                texts,
                (written_tokens(asked, decimals), written_tokens(held, decimals), seq![]),
            ) && says(
                (CliError::NotEnoughTokens {
                    pool_amount: other_asked,
                    available: other_held,
                    decimals: other_decimals,
                }).words(),
                texts,
                (
                    written_tokens(other_asked, other_decimals),
                    written_tokens(other_held, other_decimals),
                    seq![],
                ),
            ),
{
    let none = Seq::<char>::empty();
    let texts = (
        "Fee payer, "@,
        ", has insufficient balance: "@,
        " required, "@,
        " available"@,
    );
    let other = CliError::InsufficientFeePayerBalance {
        fee_payer: other_account,
        required: other_asked,
        available: other_held,
    };
    assert(says(
        other.words(),
        texts,
        (written_address(other_account@), written_sol(other_asked), written_sol(other_held)),
    ));
    let error = CliError::InsufficientFeePayerBalance {
        fee_payer: account,
        required: asked,
        available: held,
    };
    assert(says(
        error.words(),
        texts,
        (written_address(account@), written_sol(asked), written_sol(held)),
    ));
    let texts = (
        "Not enough lamports available for withdrawal from "@,
        ", "@,
        " asked, "@,
        " available"@,
    );
    let other = CliError::NotEnoughStake {
        stake_account: other_account,
        asked: other_asked,
        available: other_held,
    };
    assert(says(
        other.words(),
        texts,
        (written_address(other_account@), decimal(other_asked as nat), decimal(other_held as nat)),
    ));
    let error = CliError::NotEnoughStake { stake_account: account, asked, available: held };
    assert(says(
        error.words(),
        texts,
        (written_address(account@), decimal(asked as nat), decimal(held as nat)),
    ));
    let texts = (
        "Not enough SOL to deposit into pool: "@,
        ".\nMaximum deposit amount is "@,
        " SOL."@,
        none,
    );
    let other = CliError::NotEnoughSol { lamports: other_asked, balance: other_held };
    assert(says(other.words(), texts, (written_sol(other_asked), written_sol(other_held), none)));
    let error = CliError::NotEnoughSol { lamports: asked, balance: held };
    assert(says(error.words(), texts, (written_sol(asked), written_sol(held), none)));
    let texts = (
        "Not enough token balance to withdraw "@,
        " pool tokens.\nMaximum withdraw amount is "@,
        " pool tokens."@,
        none,
    );
    let other = CliError::NotEnoughTokens {
        pool_amount: other_asked,
        available: other_held,
        decimals: other_decimals,
    };
    assert(says(
        other.words(),
        texts,
        (
            written_tokens(other_asked, other_decimals),
            written_tokens(other_held, other_decimals),
            none,
        ),
    ));
    let error = CliError::NotEnoughTokens { pool_amount: asked, available: held, decimals };
    assert(says(
        error.words(),
        texts,
        (written_tokens(asked, decimals), written_tokens(held, decimals), none),
    ));
}

/// Two refusals of an account differ only in the accounts that they name: the mint, then its
/// proper authority; the given validator, the one that the stake is delegated to, then the
/// given one again; or the validator alone.
pub proof fn law_account_errors_name_their_accounts(
    first: Address,
    second: Address,
    other_first: Address,
    other_second: Address,
)
    ensures
        exists|texts: (Seq<char>, Seq<char>, Seq<char>, Seq<char>)| #[trigger]
            says(
                (CliError::WrongMintAuthority { mint: first, withdraw_authority: second }).words(),
                texts,
                (written_address(first@), written_address(second@), seq![]),
            ) && says(
                (CliError::WrongMintAuthority {
                    mint: other_first,
                    withdraw_authority: other_second,
                }).words(),
                texts,
                (written_address(other_first@), written_address(other_second@), seq![]),
            ),
        exists|texts: (Seq<char>, Seq<char>, Seq<char>, Seq<char>)| #[trigger]
            says(
                (CliError::VoteAccountMismatch { provided: first, delegated: second }).words(),
                texts,
                (written_address(first@), written_address(second@), written_address(first@)),
            ) && says(
                (CliError::VoteAccountMismatch {
                    provided: other_first,
                    delegated: other_second,
                }).words(),
                texts,
                (
                    written_address(other_first@),
                    written_address(other_second@),
                    written_address(other_first@),
                ),
            ),
        exists|texts: (Seq<char>, Seq<char>, Seq<char>, Seq<char>)| #[trigger]
            says(
                (CliError::ReceiverNotInPool { vote_account: first }).words(),
                texts,
                (written_address(first@), seq![], seq![]),
            ) && says(
                (CliError::ReceiverNotInPool { vote_account: other_first }).words(),
                texts,
                (written_address(other_first@), seq![], seq![]),
            ),
        exists|texts: (Seq<char>, Seq<char>, Seq<char>, Seq<char>)| #[trigger]
            says(
                (CliError::ValidatorNotInPool { vote_account: first }).words(),
                texts,
                (written_address(first@), seq![], seq![]),
            ) && says(
                (CliError::ValidatorNotInPool { vote_account: other_first }).words(),
                texts,
                (written_address(other_first@), seq![], seq![]),
            ),
{
    let none = Seq::<char>::empty();
    let texts = (
        "Mint account exists with the incorrect mint authority. Set mint authority with `spl-token authorize "@,
        " mint "@,
        none,
        none,
    );
    let other = CliError::WrongMintAuthority {
        mint: other_first,
        withdraw_authority: other_second,
    };
    assert(says(
        other.words(),
        texts,
        (written_address(other_first@), written_address(other_second@), none),
    ));
    let error = CliError::WrongMintAuthority { mint: first, withdraw_authority: second };
    assert(says(error.words(), texts, (written_address(first@), written_address(second@), none)));
    let texts = (
        "Provided withdrawal vote account "@,
        " does not match delegation on stake receiver account "@,
        ",\n                remove this flag or provide a different stake account delegated to "@,
        none,
    );
    let other = CliError::VoteAccountMismatch { provided: other_first, delegated: other_second };
    assert(says(
        other.words(),
        texts,
        (
            written_address(other_first@),
            written_address(other_second@),
            written_address(other_first@),
        ),
    ));
    let error = CliError::VoteAccountMismatch { provided: first, delegated: second };
    assert(says(
        error.words(),
        texts,
        (written_address(first@), written_address(second@), written_address(first@)),
    ));
    let texts = (
        "Provided stake account is delegated to a vote account "@,
        " which does not exist in the stake pool"@,
        none,
        none,
    );
    let other = CliError::ReceiverNotInPool { vote_account: other_first };
    assert(says(other.words(), texts, (written_address(other_first@), none, none)));
    let error = CliError::ReceiverNotInPool { vote_account: first };
    assert(says(error.words(), texts, (written_address(first@), none, none)));
    let texts = (
        "Provided vote account address "@,
        " does not exist in the stake pool"@,
        none,
        none,
    );
    let other = CliError::ValidatorNotInPool { vote_account: other_first };
    assert(says(other.words(), texts, (written_address(other_first@), none, none)));
    let error = CliError::ValidatorNotInPool { vote_account: first };
    assert(says(error.words(), texts, (written_address(first@), none, none)));
}

} // verus!
