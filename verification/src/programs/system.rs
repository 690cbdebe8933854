//! Instructions of the system program.
use vstd::bytes::{spec_u32_to_le_bytes, spec_u64_to_le_bytes};
use vstd::prelude::*;

use solana_system_interface::instruction as system_program;

use crate::address::Address;
use crate::instruction::{
    signs, writable, writable_signer, AccountMeta, Instruction, InstructionView,
};
use crate::programs::ids::SYSTEM_PROGRAM;

verus! {

/// The instruction that creates the account `to` with `space` bytes of data,
/// owned by the program `owner`, and moves `lamports` to it.
pub open spec fn create_account_instruction(
    from: Address,
    to: Address,
    lamports: u64,
    space: u64,
    owner: Address,
) -> InstructionView {
    InstructionView {
        program_id: SYSTEM_PROGRAM,
        accounts: seq![writable_signer(from), writable_signer(to)],
        data: spec_u32_to_le_bytes(0) + spec_u64_to_le_bytes(lamports) + spec_u64_to_le_bytes(
            space,
        ) + owner@,
    }
}

/// Calls `solana_system_interface::instruction::create_account`. Both accounts
/// sign.
#[verifier::external_body]
pub(crate) fn create_account(
    from: Address,
    to: Address,
    lamports: u64,
    space: u64,
    owner: Address,
) -> (r: Instruction)
    ensures
        r@ == create_account_instruction(from, to, lamports, space, owner),
        forall|a: Address| #[trigger] signs(r@, a) <==> (a == from || a == to),
{
    let ix = system_program::create_account(
        &from.into(), &to.into(), lamports, space, &owner.into(),
    );
    Instruction {
        program_id: ix.program_id.to_bytes(),
        accounts: ix.accounts.iter().map(|m| AccountMeta(m.pubkey.to_bytes(), m.is_signer, m.is_writable)).collect(),
        data: ix.data,
    }
}

/// The instruction that moves lamports from one account to another.
pub open spec fn transfer_instruction(
    from: Address,
    to: Address,
    lamports: u64,
) -> InstructionView {
    InstructionView {
        program_id: SYSTEM_PROGRAM,
        accounts: seq![writable_signer(from), writable(to)],
        data: spec_u32_to_le_bytes(2) + spec_u64_to_le_bytes(lamports),
    }
}

/// Calls `solana_system_interface::instruction::transfer`. The account that
/// gives signs.
#[verifier::external_body]
pub(crate) fn transfer(from: Address, to: Address, lamports: u64) -> (r: Instruction)
    ensures
        r@ == transfer_instruction(from, to, lamports),
        forall|a: Address| #[trigger] signs(r@, a) <==> a == from,
{
    let ix = system_program::transfer(&from.into(), &to.into(), lamports);
    Instruction {
        program_id: ix.program_id.to_bytes(),
        accounts: ix.accounts.iter().map(|m| AccountMeta(m.pubkey.to_bytes(), m.is_signer, m.is_writable)).collect(),
        data: ix.data,
    }
}

} // verus!
