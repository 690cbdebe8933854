//! Messages: what is signed and sent of a transaction.
use vstd::prelude::*;

use solana_program::instruction::{AccountMeta as OutsideMeta, Instruction as OutsideInstruction};
use solana_program::pubkey::Pubkey;
use solana_sdk::message::Message;

use crate::address::Address;
use crate::instruction::{any_signs, views, Instruction, InstructionView};

verus! {

/// An instruction of a message: the place of its program among the message's accounts,
/// the places of its accounts, and its data.
#[derive(PartialEq, Eq, Debug)]
pub struct CompiledInstruction(pub u8, pub Vec<u8>, pub Vec<u8>);

impl View for CompiledInstruction {
    type V = (u8, Seq<u8>, Seq<u8>);

    open spec fn view(&self) -> (u8, Seq<u8>, Seq<u8>) {
        (self.0, self.1@, self.2@)
    }
}

/// A message. Its header counts the signatures that it requires, the accounts that sign
/// and are not written to, and those that do neither. The first accounts sign.
#[derive(PartialEq, Eq, Debug)]
pub struct CompiledMessage {
    pub header: [u8; 3],
    pub account_keys: Vec<Address>,
    pub blockhash: Address,
    pub instructions: Vec<CompiledInstruction>,
}

/// What a message says.
#[verifier::ext_equal]
pub struct MessageView {
    pub header: [u8; 3],
    pub account_keys: Seq<Address>,
    pub blockhash: Address,
    pub instructions: Seq<(u8, Seq<u8>, Seq<u8>)>,
}

impl View for CompiledMessage {
    type V = MessageView;

    open spec fn view(&self) -> MessageView {
        MessageView {
            header: self.header,
            account_keys: self.account_keys@,
            blockhash: self.blockhash,
            instructions: Seq::new(self.instructions@.len(), |i: int| self.instructions@[i]@),
        }
    }
}

impl MessageView {
    /// The signature of `address` is required.
    pub open spec fn requires_signature(self, address: Address) -> bool {
        exists|i: int|
            0 <= i < self.header[0] && i < self.account_keys.len() && (
            #[trigger] self.account_keys[i]) == address
    }
}

/// One of the instructions names `address`, as its program or among its accounts.
pub open spec fn any_names(instructions: Seq<InstructionView>, address: Address) -> bool {
    exists|i: int| 0 <= i < instructions.len() && names(#[trigger] instructions[i], address)
}

/// The instruction names `address`, as its program or among its accounts.
pub open spec fn names(instruction: InstructionView, address: Address) -> bool {
    instruction.program_id == address || exists|k: int|
        0 <= k < instruction.accounts.len() && (#[trigger] instruction.accounts[k]).address()
            == address
}

/// One of the instructions may write to `address`.
pub open spec fn any_writes(instructions: Seq<InstructionView>, address: Address) -> bool {
    exists|i: int| 0 <= i < instructions.len() && writes(#[trigger] instructions[i], address)
}

/// The instruction may write to `address`.
pub open spec fn writes(instruction: InstructionView, address: Address) -> bool {
    exists|k: int|
        0 <= k < instruction.accounts.len() && (#[trigger] instruction.accounts[k]).is_writable()
            && instruction.accounts[k].address() == address
}

/// The accounts that sign a message of these instructions.
pub open spec fn signing_accounts(
    instructions: Seq<InstructionView>,
    payer: Address,
) -> spec_fn(Address) -> bool {
    |a: Address| a == payer || any_signs(instructions, a)
}

/// The accounts that a message of these instructions names and that neither sign nor are
/// written to.
pub open spec fn readonly_unsigned_accounts(
    instructions: Seq<InstructionView>,
    payer: Address,
) -> spec_fn(Address) -> bool {
    |a: Address|
        any_names(instructions, a) && a != payer && !any_signs(instructions, a) && !any_writes(
            instructions,
            a,
        )
}

/// No more than `n` addresses are meant.
pub open spec fn no_more_than(n: nat, meant: spec_fn(Address) -> bool) -> bool {
    exists|listed: Seq<Address>| #[trigger] covers(listed, meant) && listed.len() <= n
}

/// Every address that is meant is listed.
pub open spec fn covers(listed: Seq<Address>, meant: spec_fn(Address) -> bool) -> bool {
    forall|a: Address| #[trigger] meant(a) ==> listed.contains(a)
}

/// The accounts of a message can be counted in the bytes of its header.
pub open spec fn message_fits(instructions: Seq<InstructionView>, payer: Address) -> bool {
    &&& no_more_than(255, signing_accounts(instructions, payer))
    &&& no_more_than(255, readonly_unsigned_accounts(instructions, payer))
}

/// The message that `Message::new_with_blockhash` of the crate `solana_sdk` makes.
pub uninterp spec fn message_of(
    instructions: Seq<InstructionView>,
    payer: Seq<u8>,
    blockhash: Seq<u8>,
) -> MessageView;

/// Calls `solana_sdk::message::Message::new_with_blockhash`, which panics where the
/// accounts that sign, or those that are neither signed nor written to, are more than a
/// byte can count. The payer is the first account, the blockhash is kept, and the
/// accounts whose signatures are required are the payer and those whose signature an
/// instruction asks for.
#[verifier::external_body]
pub(crate) fn new_message(instructions: &Vec<Instruction>, payer: Address, blockhash: Address) -> (r:
    CompiledMessage)
    requires
        message_fits(views(instructions@), payer),
    ensures
        r@ == message_of(views(instructions@), payer@, blockhash@),
        r.blockhash == blockhash,
        r.account_keys@.len() > 0,
        r.account_keys@[0] == payer,
        forall|a: Address| #[trigger]
            r@.requires_signature(a) <==> (a == payer || any_signs(views(instructions@), a)),
{
    let ixs: Vec<_> = instructions.iter().map(|ix| OutsideInstruction::new_with_bytes(
        ix.program_id.into(), &ix.data,
        ix.accounts.iter().map(|m| OutsideMeta { pubkey: m.0.into(), is_signer: m.1, is_writable: m.2 }).collect()
    )).collect();
    let m = Message::new_with_blockhash(&ixs, Some(&payer.into()), &blockhash.into());
    let h = m.header;
    CompiledMessage {
        header: [h.num_required_signatures, h.num_readonly_signed_accounts, h.num_readonly_unsigned_accounts],
        account_keys: m.account_keys.into_iter().map(Pubkey::to_bytes).collect(),
        blockhash,
        instructions: m.instructions.into_iter().map(|c| CompiledInstruction(c.program_id_index, c.accounts, c.data)).collect()
    }
}

} // verus!
