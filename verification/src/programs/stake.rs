//! Addresses, instructions and accounts of the stake program.
use vstd::bytes::spec_u32_to_le_bytes;
use vstd::prelude::*;

use solana_stake_interface::instruction as stake_program;
use solana_stake_interface::state as stake_state;

use crate::address::{address_bytes, Address};
use crate::instruction::{
    any_signs, readonly, readonly_signer, signs, views, writable, AccountMeta, Instruction,
    InstructionView,
};
use crate::programs::ids::{CLOCK_SYSVAR, RENT_SYSVAR, STAKE_HISTORY_SYSVAR, STAKE_PROGRAM};
use crate::state::has_tag;

verus! {

/// Calls `solana_stake_interface::program::id`, the address of the stake
/// program.
#[verifier::external_body]
pub(crate) fn stake_program_id() -> (r: Address)
    ensures
        r == STAKE_PROGRAM,
{
    solana_stake_interface::program::id().to_bytes()
}

/// The instruction that initializes a stake account whose staker and withdrawer
/// are both `authority`, without a lockup.
pub open spec fn initialize_stake_instruction(
    stake: Address,
    authority: Address,
) -> InstructionView {
    InstructionView {
        program_id: STAKE_PROGRAM,
        accounts: seq![writable(stake), readonly(RENT_SYSVAR)],
        data: spec_u32_to_le_bytes(0) + authority@ + authority@ + Seq::new(48, |i: int| 0u8),
    }
}

/// Calls `solana_stake_interface::instruction::initialize` with one authority for
/// both roles and the default lockup, whose 48 bytes are all zero. Nobody signs.
#[verifier::external_body]
pub(crate) fn initialize_stake(stake: Address, authority: Address) -> (r: Instruction)
    ensures
        r@ == initialize_stake_instruction(stake, authority),
        forall|a: Address| !(#[trigger] signs(r@, a)),
{
    let authorized = stake_state::Authorized {
        staker: authority.into(),
        withdrawer: authority.into(),
    };
    let ix = stake_program::initialize(
        &stake.into(), &authorized, &stake_state::Lockup::default(),
    );
    Instruction {
        program_id: ix.program_id.to_bytes(),
        accounts: ix.accounts.iter().map(|m| AccountMeta(m.pubkey.to_bytes(), m.is_signer, m.is_writable)).collect(),
        data: ix.data,
    }
}

/// The instruction by which `authority` gives the staking of a stake to
/// `new_authority`.
pub open spec fn authorize_staker_instruction(
    stake: Address,
    authority: Address,
    new_authority: Address,
) -> InstructionView {
    InstructionView {
        program_id: STAKE_PROGRAM,
        accounts: seq![writable(stake), readonly(CLOCK_SYSVAR), readonly_signer(authority)],
        data: spec_u32_to_le_bytes(1) + new_authority@ + spec_u32_to_le_bytes(0),
    }
}

/// The instruction by which `authority` gives the withdrawal of a stake to
/// `new_authority`.
pub open spec fn authorize_withdrawer_instruction(
    stake: Address,
    authority: Address,
    new_authority: Address,
) -> InstructionView {
    InstructionView {
        program_id: STAKE_PROGRAM,
        accounts: seq![writable(stake), readonly(CLOCK_SYSVAR), readonly_signer(authority)],
        data: spec_u32_to_le_bytes(1) + new_authority@ + spec_u32_to_le_bytes(1),
    }
}

/// The instruction that merges the stake `source` into `destination`.
pub open spec fn merge_instruction(
    destination: Address,
    source: Address,
    authority: Address,
) -> InstructionView {
    InstructionView {
        program_id: STAKE_PROGRAM,
        accounts: seq![
            writable(destination),
            writable(source),
            readonly(CLOCK_SYSVAR),
            readonly(STAKE_HISTORY_SYSVAR),
            readonly_signer(authority),
        ],
        data: spec_u32_to_le_bytes(7),
    }
}

/// Calls `solana_stake_interface::instruction::merge`, which builds one
/// instruction. The authority signs.
#[verifier::external_body]
pub(crate) fn merge(destination: Address, source: Address, authority: Address) -> (r: Vec<
    Instruction,
>)
    ensures
        views(r@) == seq![merge_instruction(destination, source, authority)],
        forall|a: Address| #[trigger] any_signs(views(r@), a) <==> a == authority,
{
    stake_program::merge(
        &destination.into(), &source.into(), &authority.into(),
    ).into_iter().map(|ix| Instruction {
        program_id: ix.program_id.to_bytes(),
        accounts: ix.accounts.iter().map(|m| AccountMeta(m.pubkey.to_bytes(), m.is_signer, m.is_writable)).collect(),
        data: ix.data,
    }).collect()
}

/// What the data of a stake account says of its delegation: nothing where the data is no
/// stake account, else the bytes of the vote account, where the stake is delegated. A tag
/// of four bytes tells whether an account is uninitialized, initialized, a stake or a pool
/// of rewards. An initialized one goes on with 120 bytes about its authorities and lockup.
/// A stake has 73 more, which begin with the vote account. Bytes behind these do not count.
pub open spec fn delegation_in(data: Seq<u8>) -> Option<Option<Seq<u8>>> {
    if has_tag(data, 0) || has_tag(data, 3) || has_tag(data, 1) && data.len() >= 124 {
        Some(None)
    } else if has_tag(data, 2) && data.len() >= 197 {
        Some(Some(data.subrange(124, 156)))
    } else {
        None
    }
}

/// Calls `bincode::deserialize` for a `StakeStateV2` and keeps the vote account of
/// its delegation. It reads numbers of fixed width, the lowest byte first, and leaves
/// what follows the state aside.
#[verifier::external_body]
pub(crate) fn read_delegation(data: &Vec<u8>) -> (r: Option<Option<Address>>)
    ensures
        match r {
            Some(delegation) => Some(address_bytes(delegation)),
            None => None,
        } == delegation_in(data@),
{
    let state: Result<stake_state::StakeStateV2, _> = bincode::deserialize(data.as_slice());
    state.ok().map(|s| s.delegation().map(|d| d.voter_pubkey.to_bytes()))
}

} // verus!
