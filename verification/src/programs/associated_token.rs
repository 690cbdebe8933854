//! Addresses and instructions of the associated token account program.
use vstd::prelude::*;

use spl_associated_token_account::instruction as associated_program;
use spl_associated_token_account_client::address as associated_address;

use crate::address::Address;
use crate::instruction::{
    readonly, signs, writable, writable_signer, AccountMeta, Instruction, InstructionView,
};
use crate::programs::ids::{ASSOCIATED_TOKEN_PROGRAM, SYSTEM_PROGRAM};

verus! {

/// The address that `get_associated_token_address_with_program_id` of the crate
/// `spl_associated_token_account_client` derives.
pub uninterp spec fn associated_token_address(
    owner: Seq<u8>,
    mint: Seq<u8>,
    token_program: Seq<u8>,
) -> Address;

/// Calls `get_associated_token_address_with_program_id` of the crate
/// `spl_associated_token_account_client`. The derivation tries every bump seed and
/// panics when none of them gives an address off the curve; no input is known
/// for which that is so.
#[verifier::external_body]
pub(crate) fn find_associated_token(
    owner: Address,
    mint: Address,
    token_program: Address,
) -> (r: Address)
    ensures
        r == associated_token_address(owner@, mint@, token_program@),
{
    associated_address::get_associated_token_address_with_program_id(
        &owner.into(), &mint.into(), &token_program.into(),
    ).to_bytes()
}

/// The instruction that creates the owner's associated token account.
pub open spec fn create_associated_token_instruction(
    funding: Address,
    owner: Address,
    mint: Address,
    token_program: Address,
) -> InstructionView {
    InstructionView {
        program_id: ASSOCIATED_TOKEN_PROGRAM,
        accounts: seq![
            writable_signer(funding),
            writable(associated_token_address(owner@, mint@, token_program@)),
            readonly(owner),
            readonly(mint),
            readonly(SYSTEM_PROGRAM),
            readonly(token_program),
        ],
        data: seq![0u8],
    }
}

/// Calls `spl_associated_token_account::instruction::create_associated_token_account`.
/// The account that pays for the new one signs. It panics as
/// `find_associated_token` does.
#[verifier::external_body]
pub(crate) fn create_associated_token(
    funding: Address,
    owner: Address,
    mint: Address,
    token_program: Address,
) -> (r: Instruction)
    ensures
        r@ == create_associated_token_instruction(funding, owner, mint, token_program),
        forall|a: Address| #[trigger] signs(r@, a) <==> a == funding,
{
    let ix = associated_program::create_associated_token_account(
        &funding.into(), &owner.into(), &mint.into(), &token_program.into(),
    );
    Instruction {
        program_id: ix.program_id.to_bytes(),
        accounts: ix.accounts.iter().map(|m| AccountMeta(m.pubkey.to_bytes(), m.is_signer, m.is_writable)).collect(),
        data: ix.data,
    }
}

} // verus!
