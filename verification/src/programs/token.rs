//! Addresses, instructions and accounts of the token programs.
use vstd::bytes::spec_u64_to_le_bytes;
use vstd::prelude::*;

use solana_program::program_pack::Pack;
use spl_token_2022::extension::StateWithExtensions;
use spl_token_2022::instruction as token_instruction;

use crate::address::{address_bytes, Address};
use crate::instruction::{
    readonly, readonly_signer, signs, writable, AccountMeta, Instruction, InstructionView,
};
use crate::programs::ids::{RENT_SYSVAR, TOKEN_2022_PROGRAM, TOKEN_PROGRAM};
use crate::state::has_tag;

verus! {

/// The bytes of a mint.
pub const MINT_LEN: usize = 82;

/// The bytes of a token account.
pub const TOKEN_ACCOUNT_LEN: usize = 165;

/// The decimals of the native token.
pub const NATIVE_DECIMALS: u8 = 9;

/// `program_id` is one of the two token programs.
pub open spec fn is_token_program(program_id: Address) -> bool {
    program_id == TOKEN_PROGRAM || program_id == TOKEN_2022_PROGRAM
}

/// Calls `spl_token_2022::check_spl_token_program_account`, which accepts the two
/// token programs and nothing else.
#[verifier::external_body]
pub(crate) fn check_token_program(program_id: Address) -> (r: bool)
    ensures
        r == is_token_program(program_id),
{
    spl_token_2022::check_spl_token_program_account(&program_id.into()).is_ok()
}

/// Calls `spl_token::id`, the address of the token program.
#[verifier::external_body]
pub(crate) fn token_program_id() -> (r: Address)
    ensures
        r == TOKEN_PROGRAM,
{
    spl_token::id().to_bytes()
}

/// Reads `spl_token_2022::state::Mint::LEN`.
#[verifier::external_body]
pub(crate) fn mint_len() -> (r: usize)
    ensures
        r == MINT_LEN,
{
    spl_token_2022::state::Mint::LEN
}

/// Reads `spl_token_2022::state::Account::LEN`.
#[verifier::external_body]
pub(crate) fn token_account_len() -> (r: usize)
    ensures
        r == TOKEN_ACCOUNT_LEN,
{
    spl_token_2022::state::Account::LEN
}

/// Reads `spl_token_2022::native_mint::DECIMALS`.
#[verifier::external_body]
pub(crate) fn native_decimals() -> (r: u8)
    ensures
        r == NATIVE_DECIMALS,
{
    spl_token_2022::native_mint::DECIMALS
}

/// The instruction that initializes a mint without a freeze authority.
pub open spec fn initialize_mint_instruction(
    token_program: Address,
    mint: Address,
    authority: Address,
    decimals: u8,
) -> InstructionView {
    InstructionView {
        program_id: token_program,
        accounts: seq![writable(mint), readonly(RENT_SYSVAR)],
        data: seq![0u8, decimals] + authority@ + seq![0u8],
    }
}

/// Calls `spl_token_2022::instruction::initialize_mint` without a freeze
/// authority. It fails where the program is no token program, and only there.
/// Nobody signs.
#[verifier::external_body]
pub(crate) fn initialize_mint(
    token_program: Address,
    mint: Address,
    authority: Address,
    decimals: u8,
) -> (r: Option<Instruction>)
    ensures
        r is Some <==> is_token_program(token_program),
        r matches Some(ix) ==> ix@ == initialize_mint_instruction(
            token_program,
            mint,
            authority,
            decimals,
        ) && forall|a: Address| !(#[trigger] signs(ix@, a)),
{
    let ix = token_instruction::initialize_mint(
        &token_program.into(), &mint.into(), &authority.into(), None, decimals,
    );
    ix.ok().map(|ix| Instruction {
        program_id: ix.program_id.to_bytes(),
        accounts: ix.accounts.iter().map(|m| AccountMeta(m.pubkey.to_bytes(), m.is_signer, m.is_writable)).collect(),
        data: ix.data,
    })
}

/// The instruction by which the owner of a token account lets a delegate move
/// tokens from it.
pub open spec fn approve_instruction(
    token_program: Address,
    token_account: Address,
    delegate: Address,
    owner: Address,
    amount: u64,
) -> InstructionView {
    InstructionView {
        program_id: token_program,
        accounts: seq![writable(token_account), readonly(delegate), readonly_signer(owner)],
        data: seq![4u8] + spec_u64_to_le_bytes(amount),
    }
}

/// Calls `spl_token_2022::instruction::approve` for an owner that is not a
/// multisignature. It fails where the program is no token program, and only
/// there. The owner signs.
#[verifier::external_body]
pub(crate) fn approve(
    token_program: Address,
    token_account: Address,
    delegate: Address,
    owner: Address,
    amount: u64,
) -> (r: Option<Instruction>)
    ensures
        r is Some <==> is_token_program(token_program),
        r matches Some(ix) ==> ix@ == approve_instruction(
            token_program,
            token_account,
            delegate,
            owner,
            amount,
        ) && forall|a: Address| #[trigger] signs(ix@, a) <==> a == owner,
{
    let ix = token_instruction::approve(
        &token_program.into(), &token_account.into(), &delegate.into(), &owner.into(), &[], amount,
    );
    ix.ok().map(|ix| Instruction {
        program_id: ix.program_id.to_bytes(),
        accounts: ix.accounts.iter().map(|m| AccountMeta(m.pubkey.to_bytes(), m.is_signer, m.is_writable)).collect(),
        data: ix.data,
    })
}

/// The bytes of an account with the signers of a multisignature.
pub const MULTISIG_LEN: usize = 355;

/// An optional address stands at the beginning of the data: a tag of four bytes, which
/// tells whether there is one.
pub open spec fn begins_with_option(data: Seq<u8>) -> bool {
    has_tag(data, 0) || has_tag(data, 1)
}

/// What follows a mint is nothing, or the extensions of a mint. These begin where a token
/// account ends: zeros up to there, and a byte that tells a mint.
pub open spec fn is_extended_mint(data: Seq<u8>) -> bool {
    ||| data.len() == MINT_LEN
    ||| {
        &&& data.len() > TOKEN_ACCOUNT_LEN
        &&& data.len() != MULTISIG_LEN
        &&& forall|i: int| MINT_LEN <= i < TOKEN_ACCOUNT_LEN ==> #[trigger] data[i] == 0
        &&& data[TOKEN_ACCOUNT_LEN as int] == 1
    }
}

/// What the data of an account says of the authority of a mint: nothing where the data is
/// no initialized mint, else the bytes of the authority, where there is one. A mint holds
/// its optional authority, its supply in eight bytes, its decimals in one, a byte that is
/// one where it is initialized, and the optional authority that freezes its accounts.
pub open spec fn mint_authority_in(data: Seq<u8>) -> Option<Option<Seq<u8>>> {
    if is_extended_mint(data) && begins_with_option(data) && data[45] == 1 && begins_with_option(
        data.skip(46),
    ) {
        Some(
            if has_tag(data, 1) {
                Some(data.subrange(4, 36))
            } else {
                None
            },
        )
    } else {
        None
    }
}

/// Calls `StateWithExtensions::<Mint>::unpack` and keeps the mint's authority. It fails
/// on data that is no initialized mint with or without extensions, and does not look into
/// the extensions.
#[verifier::external_body]
pub(crate) fn read_mint_authority(data: &Vec<u8>) -> (r: Option<Option<Address>>)
    ensures
        match r {
            Some(authority) => Some(address_bytes(authority)),
            None => None,
        } == mint_authority_in(data@),
{
    let mint = StateWithExtensions::<spl_token_2022::state::Mint>::unpack(data.as_slice());
    mint.ok().map(|m| Option::from(m.base.mint_authority.map(|a| a.to_bytes())))
}

} // verus!
