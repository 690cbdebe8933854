//! Instructions and the transactions that are planned from them.
use vstd::prelude::*;

use crate::address::{law_address_order_is_strict, unique_of, unique_signers, Address};

verus! {

/// An account that an instruction names: its address, whether the account
/// must sign, and whether the instruction may write to it.
#[derive(Clone, Copy, PartialEq, Eq, Debug)]
pub struct AccountMeta(pub Address, pub bool, pub bool);

impl AccountMeta {
    pub open spec fn address(self) -> Address {
        self.0
    }

    pub open spec fn is_signer(self) -> bool {
        self.1
    }

    pub open spec fn is_writable(self) -> bool {
        self.2
    }
}

/// An account that the instruction reads.
pub open spec fn readonly(address: Address) -> AccountMeta {
    AccountMeta(address, false, false)
}

/// An account that the instruction may write to.
pub open spec fn writable(address: Address) -> AccountMeta {
    AccountMeta(address, false, true)
}

/// An account that signs and is read.
pub open spec fn readonly_signer(address: Address) -> AccountMeta {
    AccountMeta(address, true, false)
}

/// An account that signs and may be written to.
pub open spec fn writable_signer(address: Address) -> AccountMeta {
    AccountMeta(address, true, true)
}

/// One instruction to one program.
#[derive(PartialEq, Eq, Debug)]
pub struct Instruction {
    pub program_id: Address,
    pub accounts: Vec<AccountMeta>,
    pub data: Vec<u8>,
}

/// What an instruction says.
#[verifier::ext_equal]
pub struct InstructionView {
    pub program_id: Address,
    pub accounts: Seq<AccountMeta>,
    pub data: Seq<u8>,
}

impl View for Instruction {
    type V = InstructionView;

    open spec fn view(&self) -> InstructionView {
        InstructionView {
            program_id: self.program_id,
            accounts: self.accounts@,
            data: self.data@,
        }
    }
}

/// What each of a list of instructions says.
pub open spec fn views(instructions: Seq<Instruction>) -> Seq<InstructionView> {
    Seq::new(instructions.len(), |i: int| instructions[i]@)
}

/// The instruction asks for a signature of `address`.
pub open spec fn signs(instruction: InstructionView, address: Address) -> bool {
    exists|k: int|
        0 <= k < instruction.accounts.len() && (#[trigger] instruction.accounts[k]).is_signer()
            && instruction.accounts[k].address() == address
}

/// One of the instructions asks for a signature of `address`.
pub open spec fn any_signs(instructions: Seq<InstructionView>, address: Address) -> bool {
    exists|i: int| 0 <= i < instructions.len() && signs(#[trigger] instructions[i], address)
}

/// A transaction that is to be sent: its instructions, the accounts that sign
/// it, and the lamports that its payer spends besides the fee.
#[derive(PartialEq, Eq, Debug)]
pub struct TransactionPlan {
    pub instructions: Vec<Instruction>,
    pub signers: Vec<Address>,
    pub additional_fee: u64,
}

impl TransactionPlan {
    /// The plan holds these instructions and this additional fee, and its
    /// signers are the listed ones in their unique form.
    pub open spec fn comprises(
        self,
        instructions: Seq<InstructionView>,
        listed_signers: Seq<Address>,
        additional_fee: u64,
    ) -> bool {
        &&& views(self.instructions@) == instructions
        &&& unique_of(self.signers@, listed_signers)
        &&& self.additional_fee == additional_fee
    }

    /// The signers are the payer of the fee and the accounts whose signature
    /// the instructions ask for, and nobody else.
    pub open spec fn signed_exactly(self, fee_payer: Address) -> bool {
        forall|a: Address| #[trigger]
            self.signers@.contains(a) <==> (a == fee_payer || any_signs(
                views(self.instructions@),
                a,
            ))
    }
}

/// Begins a list of instructions.
pub fn no_instructions() -> (r: Vec<Instruction>)
    ensures
        views(r@) == Seq::<InstructionView>::empty(),
        forall|a: Address| !(#[trigger] any_signs(views(r@), a)),
{
    let r: Vec<Instruction> = Vec::new();
    assert(views(r@) =~= Seq::<InstructionView>::empty());
    r
}

/// Puts an instruction at the end of a list.
pub fn add_instruction(instructions: &mut Vec<Instruction>, instruction: Instruction)
    ensures
        views(final(instructions)@) == views(old(instructions)@).push(instruction@),
        final(instructions)@.len() == old(instructions)@.len() + 1,
        forall|a: Address| #[trigger]
            any_signs(views(final(instructions)@), a) <==> (any_signs(
                views(old(instructions)@),
                a,
            ) || signs(instruction@, a)),
{
    let ghost added = seq![instruction@];
    instructions.push(instruction);
    proof {
        let before = views(old(instructions)@);
        assert(views(instructions@) =~= before.push(instruction@));
        assert(before.push(instruction@) =~= before + added);
        assert forall|a: Address| #[trigger] any_signs(before + added, a) <==> (any_signs(before, a)
            || signs(instruction@, a)) by {
            lemma_any_signs_joined(before, added, a);
            if any_signs(added, a) {
                assert(added[0] == instruction@);
            }
            if signs(instruction@, a) {
                assert(signs(added[0], a));
            }
        }
    }
}

/// Puts the instructions of `more` at the end of a list.
pub fn append_instructions(instructions: &mut Vec<Instruction>, more: Vec<Instruction>)
    ensures
        views(final(instructions)@) == views(old(instructions)@) + views(more@),
        final(instructions)@.len() == old(instructions)@.len() + more@.len(),
        forall|a: Address| #[trigger]
            any_signs(views(final(instructions)@), a) <==> (any_signs(
                views(old(instructions)@),
                a,
            ) || any_signs(views(more@), a)),
{
    let ghost added = more@;
    let mut more = more;
    instructions.append(&mut more);
    proof {
        let before = views(old(instructions)@);
        assert(views(instructions@) =~= before + views(added));
        assert forall|a: Address| #[trigger]
            any_signs(before + views(added), a) <==> (any_signs(before, a) || any_signs(
                views(added),
                a,
            )) by {
            lemma_any_signs_joined(before, views(added), a);
        }
    }
}

/// Begins a list of signers with the one that pays.
pub fn signed_by(fee_payer: Address) -> (r: Vec<Address>)
    ensures
        r@ == seq![fee_payer],
        forall|a: Address| #[trigger] r@.contains(a) <==> a == fee_payer,
{
    let mut r: Vec<Address> = Vec::new();
    r.push(fee_payer);
    proof {
        assert(r@ =~= seq![fee_payer]);
        assert(r@[0] == fee_payer);
    }
    r
}

/// Puts a signer at the end of a list.
pub fn add_signer(signers: &mut Vec<Address>, signer: Address)
    ensures
        final(signers)@ == old(signers)@.push(signer),
        forall|a: Address| #[trigger]
            final(signers)@.contains(a) <==> (old(signers)@.contains(a) || a == signer),
{
    signers.push(signer);
    proof {
        let before = old(signers)@;
        assert forall|a: Address| #[trigger] signers@.contains(a) <==> (before.contains(a) || a
            == signer) by {
            if before.contains(a) {
                let j = choose|j: int| 0 <= j < before.len() && before[j] == a;
                assert(signers@[j] == a);
            }
            assert(signers@[before.len() as int] == signer);
        }
    }
}

/// Plans a transaction: its signers are the listed ones, sorted and each once.
pub fn plan_transaction(
    instructions: Vec<Instruction>,
    listed_signers: &Vec<Address>,
    additional_fee: u64,
) -> (r: TransactionPlan)
    ensures
        r.comprises(views(instructions@), listed_signers@, additional_fee),
        r.instructions == instructions,
{
    let signers = unique_signers(listed_signers);
    TransactionPlan { instructions, signers, additional_fee }
}

/// Plans a transaction with one instruction, signed by the payer and one other.
pub fn plan_single(fee_payer: Address, signer: Address, instruction: Instruction) -> (plan:
    TransactionPlan)
    ensures
        plan.comprises(seq![instruction@], seq![fee_payer, signer], 0),
        forall|a: Address| #[trigger]
            plan.signers@.contains(a) <==> (a == fee_payer || a == signer),
        forall|a: Address| #[trigger]
            any_signs(views(plan.instructions@), a) <==> signs(instruction@, a),
{
    let mut signers = signed_by(fee_payer);
    add_signer(&mut signers, signer);
    let mut instructions = no_instructions();
    add_instruction(&mut instructions, instruction);
    assert(views(instructions@) =~= seq![instruction@]);
    assert(signers@ =~= seq![fee_payer, signer]);
    plan_transaction(instructions, &signers, 0)
}

proof fn lemma_any_signs_joined(a: Seq<InstructionView>, b: Seq<InstructionView>, x: Address)
    ensures
        any_signs(a + b, x) <==> (any_signs(a, x) || any_signs(b, x)),
{
    let c = a + b;
    if any_signs(a, x) {
        let i = choose|i: int| 0 <= i < a.len() && signs(#[trigger] a[i], x);
        assert(c[i] == a[i]);
    }
    if any_signs(b, x) {
        let i = choose|i: int| 0 <= i < b.len() && signs(#[trigger] b[i], x);
        assert(c[a.len() + i] == b[i]);
    }
    if any_signs(c, x) {
        let i = choose|i: int| 0 <= i < c.len() && signs(#[trigger] c[i], x);
        if i < a.len() {
            assert(c[i] == a[i]);
        } else {
            assert(c[i] == b[i - a.len()]);
        }
    }
}

/// An address signs a list of instructions exactly where an account of one of them holds
/// it and is marked as a signer.
pub proof fn law_signers_are_the_marked_accounts(
    instructions: Seq<InstructionView>,
    address: Address,
)
    ensures
        any_signs(instructions, address) <==> exists|i: int, k: int|
            0 <= i < instructions.len() && 0 <= k < instructions[i].accounts.len()
                && #[trigger] instructions[i].accounts[k].0 == address
                && instructions[i].accounts[k].1,
{
    if any_signs(instructions, address) {
        let i = choose|i: int|
            0 <= i < instructions.len() && signs(#[trigger] instructions[i], address);
        let k = choose|k: int|
            0 <= k < instructions[i].accounts.len() && (
            #[trigger] instructions[i].accounts[k]).is_signer()
                && instructions[i].accounts[k].address() == address;
        assert(instructions[i].accounts[k].0 == address);
    }
    if exists|i: int, k: int|
        0 <= i < instructions.len() && 0 <= k < instructions[i].accounts.len()
            && #[trigger] instructions[i].accounts[k].0 == address
            && instructions[i].accounts[k].1 {
        let (i, k) = choose|i: int, k: int|
            0 <= i < instructions.len() && 0 <= k < instructions[i].accounts.len()
                && #[trigger] instructions[i].accounts[k].0 == address
                && instructions[i].accounts[k].1;
        assert(instructions[i].accounts[k].is_signer());
        assert(signs(instructions[i], address));
    }
}

/// A planned transaction holds the instructions that it is planned with, one for one, and
/// every signer that is listed, each once and no other.
pub proof fn law_plan_keeps_instructions_and_signers(
    plan: TransactionPlan,
    instructions: Seq<InstructionView>,
    listed_signers: Seq<Address>,
    additional_fee: u64,
)
    requires
        plan.comprises(instructions, listed_signers, additional_fee),
    ensures
        plan.instructions@.len() == instructions.len(),
        forall|i: int|
            0 <= i < instructions.len() ==> (#[trigger] plan.instructions@[i]).program_id
                == instructions[i].program_id && plan.instructions@[i].accounts@
                == instructions[i].accounts && plan.instructions@[i].data@ == instructions[i].data,
        forall|i: int|
            0 <= i < listed_signers.len() ==> plan.signers@.contains(#[trigger] listed_signers[i]),
        forall|i: int|
            0 <= i < plan.signers@.len() ==> listed_signers.contains(#[trigger] plan.signers@[i]),
        plan.signers@.no_duplicates(),
        plan.additional_fee == additional_fee,
{
    assert(views(plan.instructions@).len() == plan.instructions@.len());
    assert forall|i: int| 0 <= i < instructions.len() implies (
    #[trigger] plan.instructions@[i]).program_id == instructions[i].program_id
        && plan.instructions@[i].accounts@ == instructions[i].accounts
        && plan.instructions@[i].data@ == instructions[i].data by {
        assert(views(plan.instructions@)[i] == plan.instructions@[i]@);
    }
    assert forall|i: int| 0 <= i < listed_signers.len() implies plan.signers@.contains(
        #[trigger] listed_signers[i],
    ) by {
        assert(listed_signers.contains(listed_signers[i]));
    }
    assert forall|i: int| 0 <= i < plan.signers@.len() implies listed_signers.contains(
        #[trigger] plan.signers@[i],
    ) by {
        assert(plan.signers@.contains(plan.signers@[i]));
    }
    assert forall|i: int, j: int|
        0 <= i < plan.signers@.len() && 0 <= j < plan.signers@.len() && i
            != j implies plan.signers@[i] != plan.signers@[j] by {
        if i < j {
            law_address_order_is_strict(plan.signers@[i], plan.signers@[j]);
        } else {
            law_address_order_is_strict(plan.signers@[j], plan.signers@[i]);
        }
    }
}

} // verus!
