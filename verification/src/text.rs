//! Texts: how numbers, addresses and amounts are written and read.
use vstd::arithmetic::power::{lemma_pow0, lemma_pow1, lemma_pow_adds, lemma_pow_increases, pow};
use vstd::prelude::*;

use solana_program::pubkey::Pubkey;
use solana_sdk::native_token::{self, Sol};

use crate::address::Address;

verus! {

/// The character of a decimal digit.
pub open spec fn digit_char(digit: nat) -> char {
    (48 + digit) as char
}

/// `c` is a decimal digit.
pub open spec fn is_digit(c: char) -> bool {
    '0' <= c <= '9'
}

/// A number in decimal, without leading zeros.
pub open spec fn decimal(n: nat) -> Seq<char>
    decreases n,
{
    if n < 10 {
        seq![digit_char(n)]
    } else {
        decimal(n / 10).push(digit_char(n % 10))
    }
}

/// The last `width` decimal digits of a number, with leading zeros.
pub open spec fn padded(n: nat, width: nat) -> Seq<char>
    decreases width,
{
    if width == 0 {
        seq![]
    } else {
        padded(n / 10, (width - 1) as nat).push(digit_char(n % 10))
    }
}

/// The number that decimal digits stand for.
pub open spec fn digits_value(digits: Seq<char>) -> int
    decreases digits.len(),
{
    if digits.len() == 0 {
        0
    } else {
        10 * digits_value(digits.drop_last()) + (digits.last() as int - 48)
    }
}

/// The characters are decimal digits.
pub open spec fn all_digits(s: Seq<char>) -> bool {
    forall|i: int| 0 <= i < s.len() ==> is_digit(#[trigger] s[i])
}

/// What follows the plus sign, where a text begins with one.
pub open spec fn without_plus(s: Seq<char>) -> Seq<char> {
    if s.len() > 0 && s[0] == '+' {
        s.skip(1)
    } else {
        s
    }
}

/// The 32-bit number that a text stands for: decimal digits, at least one, with
/// or without a plus sign before them.
pub open spec fn u32_in(s: Seq<char>) -> Option<u32> {
    let digits = without_plus(s);
    if digits.len() > 0 && all_digits(digits) && digits_value(digits) <= u32::MAX {
        Some(digits_value(digits) as u32)
    } else {
        None
    }
}

/// The 64-bit number that a text stands for: decimal digits, at least one, with
/// or without a plus sign before them.
pub open spec fn u64_in(s: Seq<char>) -> Option<u64> {
    let digits = without_plus(s);
    if digits.len() > 0 && all_digits(digits) && digits_value(digits) <= u64::MAX {
        Some(digits_value(digits) as u64)
    } else {
        None
    }
}

/// Calls `str::parse` for a `u32`: it reads an optional plus sign and decimal
/// digits, and fails on anything else and on a number that does not fit.
#[verifier::external_body]
pub(crate) fn parse_u32(s: &str) -> (r: Option<u32>)
    ensures
        r == u32_in(s@),
{
    s.parse::<u32>().ok()
}

/// `part` stands in `s`.
pub open spec fn holds_text(s: Seq<char>, part: Seq<char>) -> bool {
    exists|i: int|
        0 <= i <= s.len() - part.len() && #[trigger] s.subrange(i, i + part.len()) == part
}

/// Calls `str::contains` for a text.
#[verifier::external_body]
pub(crate) fn contains_text(s: &str, part: &str) -> (r: bool)
    ensures
        r == holds_text(s@, part@),
{
    s.contains(part)
}

/// Tells whether two texts are the same.
pub(crate) fn same_text(a: &str, b: &str) -> (r: bool)
    ensures
        r == (a@ == b@),
{
    let x: String = a.to_owned();
    let y: String = b.to_owned();
    x == y
}

/// Calls `u64::to_string`, which writes a number in decimal.
#[verifier::external_body]
pub(crate) fn u64_text(n: u64) -> (r: String)
    ensures
        r@ == decimal(n as nat),
{
    n.to_string()
}

/// The text that an address is written as, as the `Display` of
/// `solana_program::pubkey::Pubkey` writes it.
pub uninterp spec fn written_address(address: Seq<u8>) -> Seq<char>;

/// Writes an address with the `Display` of `solana_program::pubkey::Pubkey`.
#[verifier::external_body]
pub(crate) fn address_text(address: Address) -> (r: String)
    ensures
        r@ == written_address(address@),
{
    Pubkey::from(address).to_string()
}

/// Lamports written as SOL: the sign of the token, the whole part, a point and
/// nine decimals.
pub open spec fn written_sol(lamports: u64) -> Seq<char> {
    seq!['\u{25ce}'] + decimal((lamports / 1_000_000_000) as nat) + seq!['.'] + padded(
        (lamports % 1_000_000_000) as nat,
        9,
    )
}

/// Writes lamports with the `Display` of `solana_sdk::native_token::Sol`.
#[verifier::external_body]
pub(crate) fn sol_text(lamports: u64) -> (r: String)
    ensures
        r@ == written_sol(lamports),
{
    Sol(lamports).to_string()
}

/// The text that an amount of tokens is written as: the `Display` of the number
/// that `spl_token_2022::amount_to_ui_amount` gives.
pub uninterp spec fn written_tokens(amount: u64, decimals: u8) -> Seq<char>;

/// The power of ten by which a mint divides its tokens fits a machine word.
pub open spec fn decimals_fit(decimals: u8) -> bool {
    pow(10, decimals as nat) <= usize::MAX
}

/// Tells whether the power of ten by which a mint divides its tokens fits a machine word.
pub fn check_decimals_fit(decimals: u8) -> (r: bool)
    ensures
        r == decimals_fit(decimals),
{
    let mut power: usize = 1;
    let mut i: u8 = 0;
    assert(pow(10, 0) == 1) by {
        lemma_pow0(10);
    }
    while i < decimals
        invariant
            i <= decimals,
            power == pow(10, i as nat),
        decreases decimals - i,
    {
        assert(pow(10, (i + 1) as nat) == 10 * pow(10, i as nat)) by {
            lemma_pow1(10);
            lemma_pow_adds(10, 1, i as nat);
        }
        match power.checked_mul(10) {
            Some(product) => {
                power = product;
            },
            None => {
                proof {
                    lemma_pow_increases(10, (i + 1) as nat, decimals as nat);
                }
                return false;
            },
        }
        i = i + 1;
    }
    true
}

/// Writes the number that `spl_token_2022::amount_to_ui_amount` gives for an
/// amount, which panics where the power of ten does not fit a machine word.
#[verifier::external_body]
pub(crate) fn tokens_text(amount: u64, decimals: u8) -> (r: String)
    requires
        decimals_fit(decimals),
    ensures
        r@ == written_tokens(amount, decimals),
{
    spl_token_2022::amount_to_ui_amount(amount, decimals).to_string()
}

/// The place of the first point in a text, or its length where there is none.
pub open spec fn point_at(s: Seq<char>) -> int
    decreases s.len(),
{
    if s.len() == 0 || s[0] == '.' {
        0
    } else {
        1 + point_at(s.skip(1))
    }
}

/// The first nine characters of a text, with zeros behind a shorter one.
pub open spec fn nine_decimals(s: Seq<char>) -> Seq<char> {
    Seq::new(9, |i: int| if i < s.len() { s[i] } else { '0' })
}

/// The number of whole SOL before the point, where nothing stands for zero.
pub open spec fn whole_sol_in(s: Seq<char>) -> Option<u64> {
    if s.len() == 0 {
        Some(0)
    } else {
        u64_in(s)
    }
}

/// The lamports behind the point, where nothing stands for zero.
pub open spec fn decimal_lamports_in(s: Seq<char>) -> Option<u64> {
    if s.len() == 0 {
        Some(0)
    } else {
        u64_in(nine_decimals(s))
    }
}

/// The lamports that an amount of SOL in a text stands for. A lamport is the ninth
/// decimal of a SOL, and the decimals that follow it do not count.
pub open spec fn lamports_in(sol: Seq<char>) -> Option<u64> {
    let point = point_at(sol);
    let decimals = if point < sol.len() {
        sol.skip(point + 1)
    } else {
        Seq::empty()
    };
    match (whole_sol_in(sol.take(point)), decimal_lamports_in(decimals)) {
        (Some(whole), Some(lamports)) => if sol == seq!['.'] || 1_000_000_000 * whole + lamports
            > u64::MAX {
            None
        } else {
            Some((1_000_000_000 * whole + lamports) as u64)
        },
        _ => None,
    }
}

/// Calls `solana_sdk::native_token::sol_str_to_lamports`: it reads whole SOL and up to
/// nine decimals, each as `str::parse` reads a `u64`, and fails on a point alone, on
/// anything else and on an amount that does not fit. It panics on some texts that are
/// not ASCII.
#[verifier::external_body]
pub(crate) fn read_lamports(sol: &str) -> (r: Option<u64>)
    requires
        sol.is_ascii(),
    ensures
        r == lamports_in(sol@),
{
    native_token::sol_str_to_lamports(sol)
}

/// A number that is written in decimal is read back as itself.
pub proof fn law_decimal_is_read_back(n: u32)
    ensures
        u32_in(decimal(n as nat)) == Some(n),
{
    lemma_decimal_digits(n as nat);
    let s = decimal(n as nat);
    assert(is_digit(s[0]));
}

proof fn lemma_decimal_digits(n: nat)
    ensures
        decimal(n).len() > 0,
        all_digits(decimal(n)),
        digits_value(decimal(n)) == n,
    decreases n,
{
    if n < 10 {
        let s = decimal(n);
        assert(s.drop_last() =~= Seq::<char>::empty());
        assert(digits_value(s.drop_last()) == 0);
        assert(s.last() == digit_char(n));
    } else {
        lemma_decimal_digits(n / 10);
        let s = decimal(n);
        assert(s.drop_last() =~= decimal(n / 10));
        assert(s.last() == digit_char(n % 10));
    }
}

/// Fewer decimals fit where more do, and the most that fit are those whose power of ten is a
/// machine word.
pub proof fn law_fewer_decimals_fit(fewer: u8, more: u8)
    requires
        fewer <= more,
    ensures
        decimals_fit(more) ==> decimals_fit(fewer),
        decimals_fit(more) <==> pow(10, more as nat) <= usize::MAX,
{
    lemma_pow_increases(10, fewer as nat, more as nat);
}

} // verus!
