//! What the commands read of stake pools, validators and accounts.
use vstd::prelude::*;

use crate::address::{same_address, Address};

verus! {

/// A fee as a ratio. It is nothing where either number is zero.
#[derive(Clone, Copy, PartialEq, Eq, Structural, Debug)]
pub struct Fee {
    pub numerator: u64,
    pub denominator: u64,
}

impl Fee {
    /// The fee takes nothing.
    pub open spec fn is_nothing(self) -> bool {
        self.numerator == 0 || self.denominator == 0
    }
}

/// A fee of a stake pool, with the value that it is to have.
#[derive(Clone, Copy, PartialEq, Eq, Structural, Debug)]
pub enum FeeType {
    /// The percentage of the SOL deposit fee that goes to the referrer.
    SolReferral(u8),
    /// The percentage of the stake deposit fee that goes to the referrer.
    StakeReferral(u8),
    /// The fee on the rewards of an epoch.
    Epoch(Fee),
    /// The fee on withdrawals of stake.
    StakeWithdrawal(Fee),
    /// The fee on deposits of SOL.
    SolDeposit(Fee),
    /// The fee on deposits of stake.
    StakeDeposit(Fee),
    /// The fee on withdrawals of SOL.
    SolWithdrawal(Fee),
}

/// Which fee of a stake pool is meant.
#[derive(Clone, Copy, PartialEq, Eq, Structural, Debug)]
pub enum FeeKind {
    SolReferral,
    StakeReferral,
    Epoch,
    StakeWithdrawal,
    SolDeposit,
    StakeDeposit,
    SolWithdrawal,
}

/// The fee of a kind: a referral takes the percentage, any other the rate.
pub open spec fn fee_of_kind(kind: FeeKind, rate: Fee, percentage: u8) -> FeeType {
    match kind {
        FeeKind::SolReferral => FeeType::SolReferral(percentage),
        FeeKind::StakeReferral => FeeType::StakeReferral(percentage),
        FeeKind::Epoch => FeeType::Epoch(rate),
        FeeKind::StakeWithdrawal => FeeType::StakeWithdrawal(rate),
        FeeKind::SolDeposit => FeeType::SolDeposit(rate),
        FeeKind::StakeDeposit => FeeType::StakeDeposit(rate),
        FeeKind::SolWithdrawal => FeeType::SolWithdrawal(rate),
    }
}

/// What an authority over a pool's funds is asked for.
#[derive(Clone, Copy, PartialEq, Eq, Structural, Debug)]
pub enum FundingType {
    StakeDeposit,
    SolDeposit,
    SolWithdraw,
}

/// The operation for which a pool prefers a validator.
#[derive(Clone, Copy, PartialEq, Eq, Structural, Debug)]
pub enum PreferredValidatorType {
    Deposit,
    Withdraw,
}

/// The parts of a stake pool that the commands read.
#[derive(Clone, Copy, PartialEq, Eq, Debug)]
pub struct StakePool {
    pub manager: Address,
    pub staker: Address,
    pub stake_deposit_authority: Address,
    pub validator_list: Address,
    pub reserve_stake: Address,
    pub pool_mint: Address,
    pub manager_fee_account: Address,
    pub token_program_id: Address,
    pub total_lamports: u64,
    pub pool_token_supply: u64,
    pub last_update_epoch: u64,
    pub preferred_withdraw_validator_vote_address: Option<Address>,
    pub stake_withdrawal_fee: Fee,
    pub sol_deposit_authority: Option<Address>,
    pub sol_withdraw_authority: Option<Address>,
}

/// The parts of a validator's entry in a pool that the commands read. A
/// `validator_seed_suffix` of zero stands for no seed.
#[derive(Clone, Copy, PartialEq, Eq, Debug)]
pub struct ValidatorStakeInfo {
    pub active_stake_lamports: u64,
    pub transient_stake_lamports: u64,
    pub last_update_epoch: u64,
    pub transient_seed_suffix: u64,
    pub validator_seed_suffix: u32,
    pub vote_account_address: Address,
}

/// The validators of a pool.
#[derive(PartialEq, Eq, Debug)]
pub struct PoolValidators {
    pub max_validators: u32,
    pub validators: Vec<ValidatorStakeInfo>,
}

/// `i` is the place of the first entry that votes with `vote_account`.
pub open spec fn first_entry_at(
    entries: Seq<ValidatorStakeInfo>,
    vote_account: Address,
    i: int,
) -> bool {
    &&& 0 <= i < entries.len()
    &&& entries[i].vote_account_address == vote_account
    &&& forall|j: int| 0 <= j < i ==> (#[trigger] entries[j]).vote_account_address != vote_account
}

/// One of the entries votes with `vote_account`.
pub open spec fn has_entry(entries: Seq<ValidatorStakeInfo>, vote_account: Address) -> bool {
    exists|i: int|
        0 <= i < entries.len() && (#[trigger] entries[i]).vote_account_address == vote_account
}

impl PoolValidators {
    /// Finds the first entry that votes with `vote_account`.
    pub fn find(&self, vote_account: &Address) -> (r: Option<ValidatorStakeInfo>)
        ensures
            r is Some <==> has_entry(self.validators@, *vote_account),
            r matches Some(entry) ==> exists|i: int|
                first_entry_at(self.validators@, *vote_account, i) && entry == self.validators@[i],
    {
        let mut i: usize = 0;
        while i < self.validators.len()
            invariant
                i <= self.validators.len(),
                forall|j: int|
                    0 <= j < i ==> (#[trigger] self.validators@[j]).vote_account_address
                        != *vote_account,
            decreases self.validators.len() - i,
        {
            if same_address(&self.validators[i].vote_account_address, vote_account) {
                assert(first_entry_at(self.validators@, *vote_account, i as int));
                return Some(self.validators[i]);
            }
            i = i + 1;
        }
        None
    }

    /// Tells whether an entry votes with `vote_account`.
    pub fn contains(&self, vote_account: &Address) -> (r: bool)
        ensures
            r == has_entry(self.validators@, *vote_account),
    {
        self.find(vote_account).is_some()
    }
}

/// What a stake account is used for; the address is the vote account that the
/// stake is delegated to.
#[derive(Clone, Copy, PartialEq, Eq, Debug)]
pub enum StakeState {
    Uninitialized,
    Initialized,
    Stake(Address),
    RewardsPool,
}

/// The data begins with this number in four bytes, the lowest first.
pub open spec fn has_tag(data: Seq<u8>, tag: u8) -> bool {
    data.len() >= 4 && data.take(4) == seq![tag, 0, 0, 0]
}

/// An account as a cluster gives it.
#[derive(PartialEq, Eq, Debug)]
pub struct Account {
    pub lamports: u64,
    pub owner: Address,
    pub data: Vec<u8>,
}

/// Every byte of the account's data is zero.
pub open spec fn all_zero(data: Seq<u8>) -> bool {
    forall|i: int| 0 <= i < data.len() ==> #[trigger] data[i] == 0
}

/// Tells whether every byte is zero.
pub fn is_all_zero(data: &Vec<u8>) -> (r: bool)
    ensures
        r == all_zero(data@),
{
    let mut i: usize = 0;
    while i < data.len()
        invariant
            i <= data.len(),
            forall|j: int| 0 <= j < i ==> #[trigger] data@[j] == 0,
        decreases data.len() - i,
    {
        if data[i] != 0 {
            return false;
        }
        i = i + 1;
    }
    true
}

/// A fee takes nothing only where one of its numbers is zero: however small its ratio is, a
/// fee with both numbers above zero takes something, and no factor makes it take nothing.
pub proof fn law_only_a_zero_makes_a_fee_nothing(fee: Fee, scaled: Fee)
    ensures
        fee.numerator > 0 && fee.denominator > 0 ==> !fee.is_nothing(),
        fee.numerator == 0 ==> fee.is_nothing(),
        fee.denominator == 0 ==> fee.is_nothing(),
        (fee.numerator == 0 <==> scaled.numerator == 0) && (fee.denominator == 0
            <==> scaled.denominator == 0) ==> fee.is_nothing() == scaled.is_nothing(),
{
}

/// The first entry of a vote account, where the list has one, is that of no other place,
/// votes with the account, and has no such entry before it. A list without such an entry
/// holds none that votes with the account.
pub proof fn law_first_entry_is_the_earliest(
    entries: Seq<ValidatorStakeInfo>,
    vote_account: Address,
    i: int,
    j: int,
)
    requires
        0 <= j < entries.len(),
        entries[j].vote_account_address == vote_account,
    ensures
        has_entry(entries, vote_account),
        first_entry_at(entries, vote_account, i) ==> 0 <= i <= j && entries[i].vote_account_address
            == vote_account,
        (forall|k: int|
            0 <= k < j ==> (#[trigger] entries[k]).vote_account_address != vote_account)
            ==> first_entry_at(entries, vote_account, j),
{
}

/// Without an entry that votes with the account, the list has none for it.
pub proof fn law_no_entry_without_a_vote(entries: Seq<ValidatorStakeInfo>, vote_account: Address)
    requires
        forall|k: int|
            0 <= k < entries.len() ==> (#[trigger] entries[k]).vote_account_address != vote_account,
    ensures
        !has_entry(entries, vote_account),
        forall|i: int| !first_entry_at(entries, vote_account, i),
{
}

/// Data is empty of content exactly where no byte of it differs from zero.
pub proof fn law_one_byte_is_content(data: Seq<u8>, i: int)
    requires
        0 <= i < data.len(),
    ensures
        data[i] != 0 ==> !all_zero(data),
        all_zero(data) ==> data[i] == 0,
        data[i] == 0 && all_zero(data.remove(i)) ==> all_zero(data),
{
    if data[i] == 0 && all_zero(data.remove(i)) {
        let rest = data.remove(i);
        assert forall|k: int| 0 <= k < data.len() implies #[trigger] data[k] == 0 by {
            if k < i {
                assert(rest[k] == data[k]);
            } else if k > i {
                assert(rest[k - 1] == data[k]);
            }
        }
    }
}

/// Data without bytes has no content.
pub proof fn law_no_bytes_are_no_content(data: Seq<u8>)
    requires
        data.len() == 0,
    ensures
        all_zero(data),
{
}

} // verus!
