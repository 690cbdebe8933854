use stake_pool_cli::options::{
    compute_unit_limit_or_default, default_stake_pool_id, fee_from,
    is_compute_unit_limit_or_simulated, parse_compute_unit_limit, parse_fee_type,
    parse_funding_type, parse_lamports, parse_output_format, parse_preferred_type,
    parse_referral_fee_type, ComputeUnitLimit, OutputFormat,
};
use stake_pool_cli::state::{Fee, FeeType, FundingType, PreferredValidatorType};

#[test]
fn compute_unit_limits_are_numbers_or_the_keyword() {
    assert_eq!(parse_compute_unit_limit("200000"), Ok(ComputeUnitLimit::Static(200_000)));
    assert_eq!(parse_compute_unit_limit("0"), Ok(ComputeUnitLimit::Static(0)));
    assert_eq!(parse_compute_unit_limit("+7"), Ok(ComputeUnitLimit::Static(7)));
    assert_eq!(parse_compute_unit_limit("007"), Ok(ComputeUnitLimit::Static(7)));
    assert_eq!(
        parse_compute_unit_limit("4294967295"),
        Ok(ComputeUnitLimit::Static(u32::MAX))
    );
    assert_eq!(parse_compute_unit_limit("DEFAULT"), Ok(ComputeUnitLimit::Default));
    assert_eq!(is_compute_unit_limit_or_simulated("DEFAULT"), Ok(()));
    assert_eq!(is_compute_unit_limit_or_simulated("12"), Ok(()));
}

#[test]
fn other_compute_unit_limits_are_refused() {
    for text in ["", "+", "-1", "4294967296", "default", "SIMULATED", "1 ", "1_000", "0x10"] {
        assert_eq!(
            parse_compute_unit_limit(text),
            Err(format!("Unable to parse compute unit limit, provided: {}", text))
        );
        assert_eq!(
            is_compute_unit_limit_or_simulated(text),
            Err(format!(
                "Unable to parse input compute unit limit as integer or DEFAULT, provided: {}",
                text
            ))
        );
    }
}

#[test]
fn a_written_limit_is_read_back() {
    for units in [0u32, 9, 10, 1_400_000, u32::MAX] {
        assert_eq!(
            parse_compute_unit_limit(&units.to_string()),
            Ok(ComputeUnitLimit::Static(units))
        );
    }
}

#[test]
fn the_limit_is_simulated_where_none_is_set() {
    assert_eq!(compute_unit_limit_or_default(None), ComputeUnitLimit::Simulated);
    assert_eq!(
        compute_unit_limit_or_default(Some(ComputeUnitLimit::Static(5))),
        ComputeUnitLimit::Static(5)
    );
    assert_eq!(
        compute_unit_limit_or_default(Some(ComputeUnitLimit::Default)),
        ComputeUnitLimit::Default
    );
}

#[test]
fn the_program_depends_on_the_cluster() {
    let main = spl_stake_pool::id().to_bytes();
    let devnet = spl_stake_pool::devnet::id().to_bytes();
    assert_eq!(default_stake_pool_id("https://api.mainnet-beta.solana.com"), main);
    assert_eq!(default_stake_pool_id("https://api.devnet.solana.com"), devnet);
    assert_eq!(default_stake_pool_id("devnet"), devnet);
    assert_eq!(default_stake_pool_id(""), main);
    assert_eq!(default_stake_pool_id("http://localhost:8899/devne"), main);
    assert_ne!(main, devnet);
}

#[test]
fn output_formats_are_read() {
    assert_eq!(parse_output_format(Some("json"), true), Some(OutputFormat::Json));
    assert_eq!(parse_output_format(Some("json-compact"), false), Some(OutputFormat::JsonCompact));
    assert_eq!(parse_output_format(Some("yaml"), false), None);
    assert_eq!(parse_output_format(None, false), Some(OutputFormat::Display));
    assert_eq!(parse_output_format(None, true), Some(OutputFormat::DisplayVerbose));
}

#[test]
fn keywords_are_read() {
    assert_eq!(parse_preferred_type("deposit"), Some(PreferredValidatorType::Deposit));
    assert_eq!(parse_preferred_type("withdraw"), Some(PreferredValidatorType::Withdraw));
    assert_eq!(parse_preferred_type("Deposit"), None);
    assert_eq!(parse_funding_type("sol-deposit"), Some(FundingType::SolDeposit));
    assert_eq!(parse_funding_type("stake-deposit"), Some(FundingType::StakeDeposit));
    assert_eq!(parse_funding_type("sol-withdraw"), Some(FundingType::SolWithdraw));
    assert_eq!(parse_funding_type("stake-withdraw"), None);
    let rate = Fee { numerator: 3, denominator: 1000 };
    assert_eq!(parse_fee_type("epoch", rate), Some(FeeType::Epoch(rate)));
    assert_eq!(parse_fee_type("stake-deposit", rate), Some(FeeType::StakeDeposit(rate)));
    assert_eq!(parse_fee_type("sol-deposit", rate), Some(FeeType::SolDeposit(rate)));
    assert_eq!(parse_fee_type("stake-withdrawal", rate), Some(FeeType::StakeWithdrawal(rate)));
    assert_eq!(parse_fee_type("sol-withdrawal", rate), Some(FeeType::SolWithdrawal(rate)));
    assert_eq!(parse_fee_type("referral", rate), None);
    assert_eq!(parse_referral_fee_type("sol", 100), Some(FeeType::SolReferral(100)));
    assert_eq!(parse_referral_fee_type("stake", 0), Some(FeeType::StakeReferral(0)));
    assert_eq!(parse_referral_fee_type("epoch", 1), None);
}

#[test]
fn missing_parts_of_a_fee_are_zero() {
    assert_eq!(fee_from(None, None), Fee { numerator: 0, denominator: 0 });
    assert_eq!(fee_from(Some(2), Some(100)), Fee { numerator: 2, denominator: 100 });
    assert_eq!(fee_from(Some(2), None), Fee { numerator: 2, denominator: 0 });
}

#[test]
fn amounts_of_sol_are_read_as_lamports() {
    assert_eq!(parse_lamports("1"), Some(1_000_000_000));
    assert_eq!(parse_lamports("1.5"), Some(1_500_000_000));
    assert_eq!(parse_lamports(".000000001"), Some(1));
    assert_eq!(parse_lamports("."), None);
    assert_eq!(parse_lamports("abc"), None);
    assert_eq!(parse_lamports("18446744074"), None);
    assert_eq!(parse_lamports(""), Some(0));
    assert_eq!(parse_lamports("2."), Some(2_000_000_000));
    assert_eq!(parse_lamports("+3"), Some(3_000_000_000));
    assert_eq!(parse_lamports(".+5"), Some(50_000_000));
    assert_eq!(parse_lamports("1.0000000019"), Some(1_000_000_001));
    assert_eq!(parse_lamports("1.2.3"), None);
    assert_eq!(parse_lamports("-1"), None);
    assert_eq!(parse_lamports("1.000000000x"), Some(1_000_000_000));
    assert_eq!(parse_lamports("18446744073.709551615"), Some(u64::MAX));
    assert_eq!(parse_lamports("18446744073.709551616"), None);
}
