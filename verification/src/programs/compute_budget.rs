//! Instructions of the compute budget program.
use vstd::bytes::{spec_u32_to_le_bytes, spec_u64_to_le_bytes};
use vstd::prelude::*;

use solana_sdk::compute_budget::ComputeBudgetInstruction;

use crate::instruction::{AccountMeta, Instruction, InstructionView};
use crate::programs::ids::COMPUTE_BUDGET_PROGRAM;

verus! {

/// The instruction that sets the price of a compute unit, in micro-lamports.
pub open spec fn unit_price_instruction(micro_lamports: u64) -> InstructionView {
    InstructionView {
        program_id: COMPUTE_BUDGET_PROGRAM,
        accounts: seq![],
        data: seq![3u8] + spec_u64_to_le_bytes(micro_lamports),
    }
}

/// Calls `ComputeBudgetInstruction::set_compute_unit_price`, which names no
/// account and writes a tag of three and the price.
#[verifier::external_body]
pub(crate) fn set_unit_price(micro_lamports: u64) -> (r: Instruction)
    ensures
        r@ == unit_price_instruction(micro_lamports),
{
    let ix = ComputeBudgetInstruction::set_compute_unit_price(micro_lamports);
    Instruction {
        program_id: ix.program_id.to_bytes(),
        accounts: ix.accounts.iter().map(|m| AccountMeta(m.pubkey.to_bytes(), m.is_signer, m.is_writable)).collect(),
        data: ix.data,
    }
}

/// The instruction that limits the compute units of a transaction.
pub open spec fn unit_limit_instruction(units: u32) -> InstructionView {
    InstructionView {
        program_id: COMPUTE_BUDGET_PROGRAM,
        accounts: seq![],
        data: seq![2u8] + spec_u32_to_le_bytes(units),
    }
}

/// Calls `ComputeBudgetInstruction::set_compute_unit_limit`, which names no
/// account and writes a tag of two and the limit.
#[verifier::external_body]
pub(crate) fn set_unit_limit(units: u32) -> (r: Instruction)
    ensures
        r@ == unit_limit_instruction(units),
{
    let ix = ComputeBudgetInstruction::set_compute_unit_limit(units);
    Instruction {
        program_id: ix.program_id.to_bytes(),
        accounts: ix.accounts.iter().map(|m| AccountMeta(m.pubkey.to_bytes(), m.is_signer, m.is_writable)).collect(),
        data: ix.data,
    }
}

} // verus!
