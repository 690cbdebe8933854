//! The fees that a new pool asks for.
use vstd::prelude::*;

use crate::error::CliError;
use crate::state::Fee;

verus! {

/// Tells whether a fee takes nothing.
fn takes_nothing(fee: &Fee) -> (r: bool)
    ensures
        r == fee.is_nothing(),
        r <==> fee.numerator == 0 || fee.denominator == 0,
{
    fee.numerator == 0 || fee.denominator == 0
}

/// Checks that a new pool has an epoch fee, and a withdrawal fee or a deposit fee.
pub fn check_stake_pool_fees(epoch_fee: &Fee, withdrawal_fee: &Fee, deposit_fee: &Fee) -> (r:
    Result<(), CliError>)
    ensures
        r == if epoch_fee.is_nothing() {
            Err(CliError::EpochFeeIsZero)
        } else if withdrawal_fee.is_nothing() && deposit_fee.is_nothing() {
            Err(CliError::WithdrawalAndDepositFeesAreZero)
        } else {
            Ok(())
        },
        r is Ok <==> epoch_fee.numerator > 0 && epoch_fee.denominator > 0 && (
        withdrawal_fee.numerator > 0 && withdrawal_fee.denominator > 0 || deposit_fee.numerator > 0
            && deposit_fee.denominator > 0),
        r matches Err(error) ==> error == if epoch_fee.numerator == 0 || epoch_fee.denominator == 0 {
            CliError::EpochFeeIsZero
        } else {
            CliError::WithdrawalAndDepositFeesAreZero
        },
{
    if takes_nothing(epoch_fee) {
        return Err(CliError::EpochFeeIsZero);
    }
    if takes_nothing(withdrawal_fee) && takes_nothing(deposit_fee) {
        return Err(CliError::WithdrawalAndDepositFeesAreZero);
    }
    Ok(())
}

} // verus!
