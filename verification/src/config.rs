//! What every command is given: the accounts that act for it and its settings.
use vstd::prelude::*;

use crate::address::Address;
use crate::options::ComputeUnitLimit;

verus! {

/// The accounts and settings that the commands share.
#[derive(Clone, Copy, PartialEq, Eq, Debug)]
pub struct Config {
    /// The stake pool program.
    pub stake_pool_program_id: Address,
    /// The manager of pools.
    pub manager: Address,
    /// The staker of pools.
    pub staker: Address,
    /// The authority that funds are moved with, where one is given.
    pub funding_authority: Option<Address>,
    /// The owner of pool token accounts.
    pub token_owner: Address,
    /// The account that pays for transactions.
    pub fee_payer: Address,
    /// Transactions are simulated and not sent.
    pub dry_run: bool,
    /// Pools are not updated before a command works on them.
    pub no_update: bool,
    /// The price of a compute unit in micro-lamports, where one is set.
    pub compute_unit_price: Option<u64>,
    /// How the compute units of transactions are limited.
    pub compute_unit_limit: ComputeUnitLimit,
}

} // verus!
