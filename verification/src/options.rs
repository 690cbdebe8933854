//! The options of the command line and what they stand for.
use vstd::prelude::*;

use crate::address::Address;
use crate::programs::ids::{STAKE_POOL_DEVNET_PROGRAM, STAKE_POOL_PROGRAM};
use crate::programs::pool_amounts::{stake_pool_devnet_program_id, stake_pool_program_id};
use crate::state::{Fee, FeeType, FundingType, PreferredValidatorType};
use crate::text::{
    contains_text, decimal, holds_text, is_digit, lamports_in, law_decimal_is_read_back, parse_u32,
    read_lamports, same_text, u32_in, without_plus,
};

verus! {

/// How the compute units of a transaction are limited.
#[derive(Clone, Copy, PartialEq, Eq, Structural, Debug)]
pub enum ComputeUnitLimit {
    /// By the cluster's default.
    Default,
    /// By this number.
    Static(u32),
    /// By what a simulation of the transaction consumes.
    Simulated,
}

/// What a text says of the limit on compute units: a number, or the keyword
/// `DEFAULT`.
pub open spec fn compute_unit_limit_in(s: Seq<char>) -> Option<ComputeUnitLimit> {
    match u32_in(s) {
        Some(units) => Some(ComputeUnitLimit::Static(units)),
        None => if s == "DEFAULT"@ {
            Some(ComputeUnitLimit::Default)
        } else {
            None
        },
    }
}

/// Checks that a text is a limit on compute units.
pub fn is_compute_unit_limit_or_simulated(string: &str) -> (r: Result<(), String>)
    ensures
        r is Ok <==> compute_unit_limit_in(string@) is Some,
        r matches Err(message) ==> message@
            == "Unable to parse input compute unit limit as integer or DEFAULT, provided: "@
            + string@,
{
    if parse_u32(string).is_some() || same_text(string, "DEFAULT") {
        Ok(())
    } else {
        let message: String =
            "Unable to parse input compute unit limit as integer or DEFAULT, provided: ".to_owned();
        Err(message.concat(string))
    }
}

/// Reads a limit on compute units.
pub fn parse_compute_unit_limit(string: &str) -> (r: Result<ComputeUnitLimit, String>)
    ensures
        r matches Ok(limit) ==> compute_unit_limit_in(string@) == Some(limit),
        r matches Err(message) ==> compute_unit_limit_in(string@) is None && message@
            == "Unable to parse compute unit limit, provided: "@ + string@,
{
    match parse_u32(string) {
        Some(units) => Ok(ComputeUnitLimit::Static(units)),
        None => {
            if same_text(string, "DEFAULT") {
                Ok(ComputeUnitLimit::Default)
            } else {
                let message: String = "Unable to parse compute unit limit, provided: ".to_owned();
                Err(message.concat(string))
            }
        },
    }
}

/// Decides how compute units are limited: as asked for, else by a simulation.
pub fn compute_unit_limit_or_default(limit: Option<ComputeUnitLimit>) -> (r: ComputeUnitLimit)
    ensures
        r == match limit {
            Some(limit) => limit,
            None => ComputeUnitLimit::Simulated,
        },
{
    match limit {
        Some(limit) => limit,
        None => ComputeUnitLimit::Simulated,
    }
}

/// The stake pool program of the cluster behind a URL: the one of the development cluster
/// where the URL names that, else the one of the main cluster.
pub fn default_stake_pool_id(json_rpc_url: &str) -> (r: Address)
    ensures
        r == if holds_text(json_rpc_url@, "devnet"@) {
            STAKE_POOL_DEVNET_PROGRAM
        } else {
            STAKE_POOL_PROGRAM
        },
{
    if contains_text(json_rpc_url, "devnet") {
        stake_pool_devnet_program_id()
    } else {
        stake_pool_program_id()
    }
}

/// How results are written.
#[derive(Clone, Copy, PartialEq, Eq, Structural, Debug)]
pub enum OutputFormat {
    Display,
    DisplayVerbose,
    Json,
    JsonCompact,
}

/// Reads how results are written. Without a keyword they are displayed, with more said
/// where `verbose` is set. Other keywords than `json` and `json-compact` mean nothing.
pub fn parse_output_format(keyword: Option<&str>, verbose: bool) -> (r: Option<OutputFormat>)
    ensures
        r == match keyword {
            Some(word) => if word@ == "json"@ {
                Some(OutputFormat::Json)
            } else if word@ == "json-compact"@ {
                Some(OutputFormat::JsonCompact)
            } else {
                None
            },
            None => if verbose {
                Some(OutputFormat::DisplayVerbose)
            } else {
                Some(OutputFormat::Display)
            },
        },
{
    match keyword {
        Some(word) => {
            if same_text(word, "json") {
                Some(OutputFormat::Json)
            } else if same_text(word, "json-compact") {
                Some(OutputFormat::JsonCompact)
            } else {
                None
            }
        },
        None => {
            if verbose {
                Some(OutputFormat::DisplayVerbose)
            } else {
                Some(OutputFormat::Display)
            }
        },
    }
}

/// Reads the operation for which a validator is preferred.
pub fn parse_preferred_type(word: &str) -> (r: Option<PreferredValidatorType>)
    ensures
        r == if word@ == "deposit"@ {
            Some(PreferredValidatorType::Deposit)
        } else if word@ == "withdraw"@ {
            Some(PreferredValidatorType::Withdraw)
        } else {
            None
        },
{
    if same_text(word, "deposit") {
        Some(PreferredValidatorType::Deposit)
    } else if same_text(word, "withdraw") {
        Some(PreferredValidatorType::Withdraw)
    } else {
        None
    }
}

/// Reads what a funding authority is asked for.
pub fn parse_funding_type(word: &str) -> (r: Option<FundingType>)
    ensures
        r == if word@ == "sol-deposit"@ {
            Some(FundingType::SolDeposit)
        } else if word@ == "stake-deposit"@ {
            Some(FundingType::StakeDeposit)
        } else if word@ == "sol-withdraw"@ {
            Some(FundingType::SolWithdraw)
        } else {
            None
        },
{
    if same_text(word, "sol-deposit") {
        Some(FundingType::SolDeposit)
    } else if same_text(word, "stake-deposit") {
        Some(FundingType::StakeDeposit)
    } else if same_text(word, "sol-withdraw") {
        Some(FundingType::SolWithdraw)
    } else {
        None
    }
}

/// Reads which fee is to have a rate.
pub fn parse_fee_type(word: &str, rate: Fee) -> (r: Option<FeeType>)
    ensures
        r == if word@ == "epoch"@ {
            Some(FeeType::Epoch(rate))
        } else if word@ == "stake-deposit"@ {
            Some(FeeType::StakeDeposit(rate))
        } else if word@ == "sol-deposit"@ {
            Some(FeeType::SolDeposit(rate))
        } else if word@ == "stake-withdrawal"@ {
            Some(FeeType::StakeWithdrawal(rate))
        } else if word@ == "sol-withdrawal"@ {
            Some(FeeType::SolWithdrawal(rate))
        } else {
            None
        },
{
    if same_text(word, "epoch") {
        Some(FeeType::Epoch(rate))
    } else if same_text(word, "stake-deposit") {
        Some(FeeType::StakeDeposit(rate))
    } else if same_text(word, "sol-deposit") {
        Some(FeeType::SolDeposit(rate))
    } else if same_text(word, "stake-withdrawal") {
        Some(FeeType::StakeWithdrawal(rate))
    } else if same_text(word, "sol-withdrawal") {
        Some(FeeType::SolWithdrawal(rate))
    } else {
        None
    }
}

/// Reads which referral fee is to have a percentage.
pub fn parse_referral_fee_type(word: &str, percentage: u8) -> (r: Option<FeeType>)
    requires
        percentage <= 100,
    ensures
        r == if word@ == "sol"@ {
            Some(FeeType::SolReferral(percentage))
        } else if word@ == "stake"@ {
            Some(FeeType::StakeReferral(percentage))
        } else {
            None
        },
{
    if same_text(word, "sol") {
        Some(FeeType::SolReferral(percentage))
    } else if same_text(word, "stake") {
        Some(FeeType::StakeReferral(percentage))
    } else {
        None
    }
}

/// The fee that a numerator and a denominator make; either is zero where it is not given.
pub fn fee_from(numerator: Option<u64>, denominator: Option<u64>) -> (r: Fee)
    ensures
        r.numerator == (match numerator {
            Some(n) => n,
            None => 0,
        }),
        r.denominator == (match denominator {
            Some(d) => d,
            None => 0,
        }),
{
    Fee { numerator: numerator.unwrap_or(0), denominator: denominator.unwrap_or(0) }
}

/// Reads an amount of SOL as lamports, where the text is one.
pub fn parse_lamports(amount: &str) -> (r: Option<u64>)
    requires
        amount.is_ascii(),
    ensures
        r == lamports_in(amount@),
{
    read_lamports(amount)
}

/// A limit that is written in decimal is accepted and read back as itself.
pub proof fn law_written_limit_is_read_back(units: u32)
    ensures
        compute_unit_limit_in(decimal(units as nat)) == Some(ComputeUnitLimit::Static(units)),
{
    law_decimal_is_read_back(units);
}

/// A limit on compute units is a number of 32 bits or the keyword, and nothing else: the
/// keyword stands for the cluster's default, and a number for itself.
pub proof fn law_limit_is_a_number_or_the_keyword(s: Seq<char>)
    ensures
        compute_unit_limit_in("DEFAULT"@) == Some(ComputeUnitLimit::Default),
        u32_in(s) matches Some(units) ==> compute_unit_limit_in(s) == Some(
            ComputeUnitLimit::Static(units),
        ),
        u32_in(s) is None && s != "DEFAULT"@ ==> compute_unit_limit_in(s) is None,
        compute_unit_limit_in(s) != Some(ComputeUnitLimit::Simulated),
{
    reveal_strlit("DEFAULT");
    let keyword = "DEFAULT"@;
    assert(keyword[0] == 'D');
    assert(!is_digit(without_plus(keyword)[0]));
}

} // verus!
