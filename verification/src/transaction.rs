//! From a plan to what is sent: the compute budget, the message, the balance that the
//! payer needs, and the way of sending.
use vstd::bytes::{spec_u32_to_le_bytes, spec_u64_to_le_bytes};
use vstd::prelude::*;

use crate::address::{same_address, unique_of, unique_signers, Address};
use crate::config::Config;
use crate::error::CliError;
use crate::instruction::{
    add_instruction, add_signer, any_signs, law_signers_are_the_marked_accounts, signs, views,
    Instruction, InstructionView, TransactionPlan,
};
use crate::options::ComputeUnitLimit;
use crate::programs::compute_budget::{
    set_unit_limit, set_unit_price, unit_limit_instruction, unit_price_instruction,
};
use crate::programs::ids::COMPUTE_BUDGET_PROGRAM;
use crate::programs::message::{
    any_names, any_writes, covers, message_fits, message_of, names, new_message, no_more_than,
    readonly_unsigned_accounts, signing_accounts, writes, CompiledMessage, MessageView,
};

verus! {

/// The instructions that set the price of compute units and a limit that is known
/// beforehand.
pub open spec fn budget_of(config: Config) -> Seq<InstructionView> {
    (match config.compute_unit_price {
        Some(price) => seq![unit_price_instruction(price)],
        None => seq![],
    }) + (match config.compute_unit_limit {
        ComputeUnitLimit::Static(units) => seq![unit_limit_instruction(units)],
        _ => seq![],
    })
}

/// Adds the price of compute units and a limit that is known beforehand to the
/// instructions of a transaction, and tells whether a simulation is to find the limit.
pub fn add_compute_budget(config: &Config, instructions: &mut Vec<Instruction>) -> (simulate: bool)
    ensures
        views(final(instructions)@) == views(old(instructions)@) + budget_of(*config),
        simulate == (config.compute_unit_limit == ComputeUnitLimit::Simulated),
        config.compute_unit_price matches Some(price) ==> final(instructions)@.len()
            > old(instructions)@.len() && final(instructions)@[old(instructions)@.len() as int]@
            == unit_price_instruction(price),
        config.compute_unit_limit matches ComputeUnitLimit::Static(units) ==>
            final(instructions)@.len() > old(instructions)@.len()
            && final(instructions)@.last()@ == unit_limit_instruction(units),
        forall|a: Address| #[trigger]
            any_signs(views(final(instructions)@), a) <==> any_signs(views(old(instructions)@), a),
{
    if let Some(price) = config.compute_unit_price {
        add_budget_instruction(instructions, set_unit_price(price));
    }
    let simulate = match config.compute_unit_limit {
        ComputeUnitLimit::Default => false,
        ComputeUnitLimit::Static(units) => {
            add_budget_instruction(instructions, set_unit_limit(units));
            false
        },
        ComputeUnitLimit::Simulated => true,
    };
    assert(views(instructions@) =~= views(old(instructions)@) + budget_of(*config));
    proof {
        let all = views(instructions@);
        let count = instructions@.len() as int;
        assert(all.len() == count);
        assert(views(old(instructions)@).len() == old(instructions)@.len());
        assert(forall|i: int| 0 <= i < count ==> #[trigger] instructions@[i]@ == all[i]);
    }
    simulate
}

/// Adds the limit that a simulation found to the instructions of a transaction.
pub fn add_simulated_limit(instructions: &mut Vec<Instruction>, units_consumed: u32)
    ensures
        views(final(instructions)@) == views(old(instructions)@).push(
            unit_limit_instruction(units_consumed),
        ),
        forall|a: Address| #[trigger]
            any_signs(views(final(instructions)@), a) <==> any_signs(views(old(instructions)@), a),
{
    add_budget_instruction(instructions, set_unit_limit(units_consumed));
}

/// Adds an instruction that names no account.
fn add_budget_instruction(instructions: &mut Vec<Instruction>, instruction: Instruction)
    requires
        instruction@.accounts.len() == 0,
    ensures
        views(final(instructions)@) == views(old(instructions)@).push(instruction@),
        forall|a: Address| #[trigger]
            any_signs(views(final(instructions)@), a) <==> any_signs(views(old(instructions)@), a),
{
    assert(forall|a: Address| !(#[trigger] signs(instruction@, a)));
    add_instruction(instructions, instruction);
}

/// Makes the message of a transaction. There is none where its accounts are more than
/// its header can count.
pub fn compile_message(
    config: &Config,
    instructions: &Vec<Instruction>,
    blockhash: &Address,
) -> (r: Option<CompiledMessage>)
    ensures
        r is Some <==> message_fits(views(instructions@), config.fee_payer),
        r matches Some(message) ==> message@ == message_of(
            views(instructions@),
            config.fee_payer@,
            blockhash@,
        ),
        r matches Some(message) ==> message.blockhash == *blockhash && message.account_keys@.len() > 0
            && message.account_keys@[0] == config.fee_payer,
        r matches Some(message) ==> forall|a: Address| #[trigger]
            message@.requires_signature(a) <==> (a == config.fee_payer || any_signs(
                views(instructions@),
                a,
            )),
{
    if !check_message_fits(instructions, &config.fee_payer) {
        return None;
    }
    Some(new_message(instructions, config.fee_payer, *blockhash))
}

/// The accounts that sign a planned transaction are those whose signature its message
/// requires, whatever instructions without signers were added to those of the plan: no
/// signature is missing and none is left over.
pub proof fn law_planned_signers_sign_the_message(
    plan: TransactionPlan,
    fee_payer: Address,
    instructions: Seq<InstructionView>,
    message: MessageView,
    a: Address,
)
    requires
        plan.signed_exactly(fee_payer),
        forall|x: Address| #[trigger]
            any_signs(instructions, x) <==> any_signs(views(plan.instructions@), x),
        forall|x: Address| #[trigger]
            message.requires_signature(x) <==> (x == fee_payer || any_signs(instructions, x)),
    ensures
        plan.signers@.contains(a) <==> message.requires_signature(a),
{
    assert(any_signs(instructions, a) <==> any_signs(views(plan.instructions@), a));
}

/// Tells whether the instruction asks for a signature of `address`.
fn signs_with(instruction: &Instruction, address: &Address) -> (r: bool)
    ensures
        r == signs(instruction@, *address),
{
    let mut k: usize = 0;
    while k < instruction.accounts.len()
        invariant
            k <= instruction.accounts.len(),
            forall|j: int|
                0 <= j < k ==> !((#[trigger] instruction.accounts@[j]).is_signer()
                    && instruction.accounts@[j].address() == *address),
        decreases instruction.accounts.len() - k,
    {
        if instruction.accounts[k].1 && same_address(&instruction.accounts[k].0, address) {
            assert(instruction@.accounts[k as int].is_signer());
            return true;
        }
        k = k + 1;
    }
    false
}

/// Tells whether the instruction may write to `address`.
fn writes_to(instruction: &Instruction, address: &Address) -> (r: bool)
    ensures
        r == writes(instruction@, *address),
{
    let mut k: usize = 0;
    while k < instruction.accounts.len()
        invariant
            k <= instruction.accounts.len(),
            forall|j: int|
                0 <= j < k ==> !((#[trigger] instruction.accounts@[j]).is_writable()
                    && instruction.accounts@[j].address() == *address),
        decreases instruction.accounts.len() - k,
    {
        if instruction.accounts[k].2 && same_address(&instruction.accounts[k].0, address) {
            assert(instruction@.accounts[k as int].is_writable());
            return true;
        }
        k = k + 1;
    }
    false
}

/// Tells whether one of the instructions asks for a signature of `address`.
fn any_signs_with(instructions: &Vec<Instruction>, address: &Address) -> (r: bool)
    ensures
        r == any_signs(views(instructions@), *address),
{
    let mut i: usize = 0;
    while i < instructions.len()
        invariant
            i <= instructions.len(),
            forall|j: int| 0 <= j < i ==> !signs(#[trigger] views(instructions@)[j], *address),
        decreases instructions.len() - i,
    {
        assert(views(instructions@)[i as int] == instructions@[i as int]@);
        if signs_with(&instructions[i], address) {
            return true;
        }
        i = i + 1;
    }
    false
}

/// Tells whether one of the instructions may write to `address`.
fn any_writes_to(instructions: &Vec<Instruction>, address: &Address) -> (r: bool)
    ensures
        r == any_writes(views(instructions@), *address),
{
    let mut i: usize = 0;
    while i < instructions.len()
        invariant
            i <= instructions.len(),
            forall|j: int| 0 <= j < i ==> !writes(#[trigger] views(instructions@)[j], *address),
        decreases instructions.len() - i,
    {
        assert(views(instructions@)[i as int] == instructions@[i as int]@);
        if writes_to(&instructions[i], address) {
            return true;
        }
        i = i + 1;
    }
    false
}

/// Adds every address that an instruction names to a list.
fn add_named(instruction: &Instruction, listed: &mut Vec<Address>)
    ensures
        forall|a: Address| #[trigger]
            final(listed)@.contains(a) <==> (old(listed)@.contains(a) || names(instruction@, a)),
{
    let ghost before = listed@;
    add_signer(listed, instruction.program_id);
    let mut k: usize = 0;
    while k < instruction.accounts.len()
        invariant
            k <= instruction.accounts.len(),
            forall|a: Address| #[trigger]
                listed@.contains(a) <==> (before.contains(a) || a == instruction.program_id
                    || exists|j: int|
                    0 <= j < k && (#[trigger] instruction.accounts@[j]).address() == a),
        decreases instruction.accounts.len() - k,
    {
        let ghost shorter = listed@;
        add_signer(listed, instruction.accounts[k].0);
        proof {
            assert forall|a: Address| #[trigger]
                listed@.contains(a) <==> (before.contains(a) || a == instruction.program_id
                    || exists|j: int|
                    0 <= j < k + 1 && (#[trigger] instruction.accounts@[j]).address() == a) by {
                if a == instruction.accounts@[k as int].0 {
                    assert(instruction.accounts@[k as int].address() == a);
                }
                assert(shorter.contains(a) <==> (before.contains(a) || a == instruction.program_id
                    || exists|j: int|
                    0 <= j < k && (#[trigger] instruction.accounts@[j]).address() == a));
            }
        }
        k = k + 1;
    }
    assert forall|a: Address| #[trigger] listed@.contains(a) <==> (before.contains(a) || names(
        instruction@,
        a,
    )) by {
        if exists|j: int|
            0 <= j < instruction.accounts@.len() && (
            #[trigger] instruction.accounts@[j]).address() == a {
            let j = choose|j: int|
                0 <= j < instruction.accounts@.len() && (
                #[trigger] instruction.accounts@[j]).address() == a;
            assert(instruction@.accounts[j].address() == a);
        }
        if names(instruction@, a) && a != instruction.program_id {
            let j = choose|j: int|
                0 <= j < instruction@.accounts.len() && (
                #[trigger] instruction@.accounts[j]).address() == a;
            assert(instruction.accounts@[j].address() == a);
        }
    }
}

/// Lists every address that one of the instructions names.
fn named_addresses(instructions: &Vec<Instruction>) -> (listed: Vec<Address>)
    ensures
        forall|a: Address| #[trigger]
            listed@.contains(a) <==> any_names(views(instructions@), a),
{
    let mut listed: Vec<Address> = Vec::new();
    let mut i: usize = 0;
    while i < instructions.len()
        invariant
            i <= instructions.len(),
            forall|a: Address| #[trigger]
                listed@.contains(a) <==> exists|j: int|
                    0 <= j < i && names(#[trigger] views(instructions@)[j], a),
        decreases instructions.len() - i,
    {
        let ghost shorter = listed@;
        add_named(&instructions[i], &mut listed);
        proof {
            assert(views(instructions@)[i as int] == instructions@[i as int]@);
            assert forall|a: Address| #[trigger]
                listed@.contains(a) <==> exists|j: int|
                    0 <= j < i + 1 && names(#[trigger] views(instructions@)[j], a) by {
                assert(shorter.contains(a) <==> exists|j: int|
                    0 <= j < i && names(#[trigger] views(instructions@)[j], a));
            }
        }
        i = i + 1;
    }
    listed
}

/// Tells whether the accounts of a message can be counted in the bytes of its header.
pub fn check_message_fits(instructions: &Vec<Instruction>, payer: &Address) -> (r: bool)
    ensures
        r == message_fits(views(instructions@), *payer),
{
    let ghost all = views(instructions@);
    let named = named_addresses(instructions);
    let mut signing: Vec<Address> = Vec::new();
    let mut readonly: Vec<Address> = Vec::new();
    add_signer(&mut signing, *payer);
    let mut i: usize = 0;
    while i < named.len()
        invariant
            i <= named.len(),
            all == views(instructions@),
            forall|a: Address| #[trigger]
                signing@.contains(a) <==> (a == *payer || (any_signs(all, a) && named@.take(
                    i as int,
                ).contains(a))),
            forall|a: Address| #[trigger]
                readonly@.contains(a) <==> (named@.take(i as int).contains(a) && a != *payer
                    && !any_signs(all, a) && !any_writes(all, a)),
        decreases named.len() - i,
    {
        let address = named[i];
        proof {
            lemma_take_one_more(named@, i as int);
        }
        if any_signs_with(instructions, &address) {
            add_signer(&mut signing, address);
        } else if !same_address(&address, payer) && !any_writes_to(instructions, &address) {
            add_signer(&mut readonly, address);
        }
        i = i + 1;
    }
    let unique_signing = unique_signers(&signing);
    let unique_readonly = unique_signers(&readonly);
    proof {
        assert(named@.take(named@.len() as int) =~= named@);
        let signs_it = signing_accounts(all, *payer);
        let reads_it = readonly_unsigned_accounts(all, *payer);
        assert forall|a: Address| #[trigger] signs_it(a) <==> unique_signing@.contains(a) by {
            assert(unique_signing@.contains(a) <==> signing@.contains(a));
            if any_signs(all, a) {
                lemma_signers_are_named(all, a);
            }
        }
        assert forall|a: Address| #[trigger] reads_it(a) <==> unique_readonly@.contains(a) by {
            assert(unique_readonly@.contains(a) <==> readonly@.contains(a));
        }
        lemma_unique_counts(unique_signing@, signing@, signs_it, 255);
        lemma_unique_counts(unique_readonly@, readonly@, reads_it, 255);
    }
    unique_signing.len() <= 255 && unique_readonly.len() <= 255
}

proof fn lemma_take_one_more(s: Seq<Address>, i: int)
    requires
        0 <= i < s.len(),
    ensures
        forall|a: Address| #[trigger]
            s.take(i + 1).contains(a) <==> (s.take(i).contains(a) || a == s[i]),
{
    assert forall|a: Address| #[trigger] s.take(i + 1).contains(a) <==> (s.take(i).contains(a) || a
        == s[i]) by {
        if s.take(i).contains(a) {
            let j = choose|j: int| 0 <= j < i && s.take(i)[j] == a;
            assert(s.take(i + 1)[j] == a);
        }
        assert(s.take(i + 1)[i] == s[i]);
        if s.take(i + 1).contains(a) && a != s[i] {
            let longer = s.take(i + 1);
            let j = choose|j: int| 0 <= j < longer.len() && longer[j] == a;
            assert(s.take(i)[j] == a);
        }
    }
}

proof fn lemma_signers_are_named(instructions: Seq<InstructionView>, a: Address)
    requires
        any_signs(instructions, a),
    ensures
        any_names(instructions, a),
{
    let i = choose|i: int| 0 <= i < instructions.len() && signs(#[trigger] instructions[i], a);
    let k = choose|k: int|
        0 <= k < instructions[i].accounts.len() && (
        #[trigger] instructions[i].accounts[k]).is_signer()
            && instructions[i].accounts[k].address() == a;
    assert(instructions[i].accounts[k].address() == a);
    assert(names(instructions[i], a));
}

proof fn lemma_unique_counts(
    unique: Seq<Address>,
    listed: Seq<Address>,
    meant: spec_fn(Address) -> bool,
    n: nat,
)
    requires
        unique_of(unique, listed),
        forall|a: Address| #[trigger] meant(a) <==> unique.contains(a),
    ensures
        no_more_than(n, meant) <==> unique.len() <= n,
{
    if unique.len() <= n {
        assert(covers(unique, meant));
    }
    if no_more_than(n, meant) {
        let cover = choose|cover: Seq<Address>| #[trigger] covers(cover, meant) && cover.len() <= n;
        assert(unique.no_duplicates()) by {
            assert forall|i: int, j: int|
                0 <= i < unique.len() && 0 <= j < unique.len() && i != j implies unique[i]
                != unique[j] by {
                if i < j {
                    crate::address::law_address_order_is_strict(unique[i], unique[j]);
                } else {
                    crate::address::law_address_order_is_strict(unique[j], unique[i]);
                }
            }
        }
        unique.unique_seq_to_set();
        cover.lemma_cardinality_of_set();
        assert forall|a: Address| #[trigger] unique.to_set().contains(a) implies cover.to_set().contains(
            a,
        ) by {
            assert(unique.contains(a));
            assert(meant(a));
            assert(cover.contains(a));
        }
        assert(unique.to_set().subset_of(cover.to_set()));
        vstd::set_lib::lemma_len_subset(unique.to_set(), cover.to_set());
    }
}

/// The balance that the payer of a transaction needs: what it spends besides the fee, and
/// the fee.
pub open spec fn needed_balance(additional_fee: u64, fee: u64) -> u64 {
    if additional_fee + fee <= u64::MAX {
        (additional_fee + fee) as u64
    } else {
        u64::MAX
    }
}

/// Computes the balance that the payer of a transaction needs.
pub fn required_balance(additional_fee: u64, fee: u64) -> (r: u64)
    ensures
        r == needed_balance(additional_fee, fee),
{
    additional_fee.saturating_add(fee)
}

/// Checks that the payer has the balance that it needs.
pub fn check_fee_payer_balance(config: &Config, balance: u64, required_balance: u64) -> (r: Result<
    (),
    CliError,
>)
    ensures
        r is Ok <==> required_balance <= balance,
        r matches Err(error) ==> error == (CliError::InsufficientFeePayerBalance {
            fee_payer: config.fee_payer,
            required: required_balance,
            available: balance,
        }),
{
    if balance < required_balance {
        Err(
            CliError::InsufficientFeePayerBalance {
                fee_payer: config.fee_payer,
                required: required_balance,
                available: balance,
            },
        )
    } else {
        Ok(())
    }
}

/// How a transaction is handed to the cluster.
#[derive(Clone, Copy, PartialEq, Eq, Structural, Debug)]
pub enum Delivery {
    /// It is simulated and not sent.
    Simulate,
    /// It is sent.
    Send,
    /// It is sent, and its confirmation is waited for.
    SendAndConfirm,
}

/// Decides how a transaction is handed to the cluster.
pub fn delivery(config: &Config, wait: bool) -> (r: Delivery)
    ensures
        r == if config.dry_run {
            Delivery::Simulate
        } else if wait {
            Delivery::SendAndConfirm
        } else {
            Delivery::Send
        },
{
    if config.dry_run {
        Delivery::Simulate
    } else if wait {
        Delivery::SendAndConfirm
    } else {
        Delivery::Send
    }
}

/// A transaction that is given its compute budget keeps its instructions and gains one for
/// the price, where one is set, and one for the limit, where a number is set: each of them
/// whether or not the other is set. The price stands directly behind the instructions, and
/// the limit last.
pub proof fn law_budget_holds_what_is_set(
    config: Config,
    given: Seq<InstructionView>,
    budgeted: Seq<InstructionView>,
)
    requires
        budgeted == given + budget_of(config),
    ensures
        budgeted.take(given.len() as int) == given,
        config.compute_unit_price matches Some(price) ==> budgeted.len() > given.len()
            && budgeted[given.len() as int].program_id == COMPUTE_BUDGET_PROGRAM
            && budgeted[given.len() as int].accounts.len() == 0
            && budgeted[given.len() as int].data == seq![3u8] + spec_u64_to_le_bytes(price),
        config.compute_unit_limit matches ComputeUnitLimit::Static(units) ==> budgeted.len()
            > given.len() && budgeted.last().program_id == COMPUTE_BUDGET_PROGRAM
            && budgeted.last().accounts.len() == 0 && budgeted.last().data == seq![2u8]
            + spec_u32_to_le_bytes(units),
        budgeted.len() - given.len() == (if config.compute_unit_price is Some {
            1int
        } else {
            0
        }) + (if config.compute_unit_limit is Static {
            1int
        } else {
            0
        }),
{
    assert(budgeted.take(given.len() as int) =~= given);
}

/// What a budget adds for the limit does not depend on the price, nor what it adds for the
/// price on the limit: setting one more option keeps what the other added.
pub proof fn law_price_and_limit_are_independent(config: Config, other: Config)
    ensures
        config.compute_unit_limit == other.compute_unit_limit && config.compute_unit_price is None
            && other.compute_unit_price is Some ==> budget_of(other).len() == budget_of(
            config,
        ).len() + 1 && budget_of(other).skip(1) == budget_of(config),
        config.compute_unit_price == other.compute_unit_price && !(config.compute_unit_limit is Static)
            && other.compute_unit_limit is Static ==> budget_of(other).len() == budget_of(
            config,
        ).len() + 1 && budget_of(other).drop_last() == budget_of(config),
{
    if config.compute_unit_price is None && other.compute_unit_price is Some
        && config.compute_unit_limit == other.compute_unit_limit {
        assert(budget_of(other).skip(1) =~= budget_of(config));
    }
    if config.compute_unit_price == other.compute_unit_price && !(config.compute_unit_limit is Static)
        && other.compute_unit_limit is Static {
        assert(budget_of(other).drop_last() =~= budget_of(config));
    }
}

/// The balance that a payer needs covers the fee and what it spends besides, and is no
/// more than both together. Only where both do not fit 64 bits is it the largest number.
pub proof fn law_needed_balance_covers_both(additional_fee: u64, fee: u64)
    ensures
        needed_balance(additional_fee, fee) >= additional_fee,
        needed_balance(additional_fee, fee) >= fee,
        needed_balance(additional_fee, fee) <= additional_fee + fee,
        needed_balance(additional_fee, fee) < u64::MAX ==> needed_balance(additional_fee, fee)
            == additional_fee + fee,
{
}

/// A message fits where the accounts that sign, the payer among them, are among 255
/// addresses, and those that are named only to be read are among 255 others.
pub proof fn law_countable_message_fits(
    instructions: Seq<InstructionView>,
    payer: Address,
    signing: Seq<Address>,
    reading: Seq<Address>,
)
    requires
        signing.len() <= 255,
        reading.len() <= 255,
        signing.contains(payer),
        forall|i: int, k: int|
            0 <= i < instructions.len() && 0 <= k < instructions[i].accounts.len()
                && instructions[i].accounts[k].1 ==> signing.contains(
                #[trigger] instructions[i].accounts[k].0,
            ),
        forall|i: int|
            0 <= i < instructions.len() && !reading.contains(
                (#[trigger] instructions[i]).program_id,
            ) ==> instructions[i].program_id == payer || any_signs(
                instructions,
                instructions[i].program_id,
            ) || any_writes(instructions, instructions[i].program_id),
        forall|i: int, k: int|
            0 <= i < instructions.len() && 0 <= k < instructions[i].accounts.len()
                && !reading.contains(#[trigger] instructions[i].accounts[k].0)
                ==> instructions[i].accounts[k].0 == payer || any_signs(
                instructions,
                instructions[i].accounts[k].0,
            ) || any_writes(instructions, instructions[i].accounts[k].0),
    ensures
        message_fits(instructions, payer),
{
    let signs_it = signing_accounts(instructions, payer);
    let reads_it = readonly_unsigned_accounts(instructions, payer);
    assert forall|a: Address| #[trigger] signs_it(a) implies signing.contains(a) by {
        law_signers_are_the_marked_accounts(instructions, a);
    }
    assert forall|a: Address| #[trigger] reads_it(a) implies reading.contains(a) by {
        let i = choose|i: int| 0 <= i < instructions.len() && names(#[trigger] instructions[i], a);
        if instructions[i].program_id != a {
            let k = choose|k: int|
                0 <= k < instructions[i].accounts.len() && (
                #[trigger] instructions[i].accounts[k]).address() == a;
            assert(instructions[i].accounts[k].0 == a);
        }
    }
    assert(covers(signing, signs_it));
    assert(covers(reading, reads_it));
}

/// A message does not fit where 256 different accounts sign it, the payer counted, nor
/// where 256 different ones are named that neither sign nor are written to.
pub proof fn law_uncountable_message_does_not_fit(
    instructions: Seq<InstructionView>,
    payer: Address,
    different: Seq<Address>,
)
    requires
        different.len() > 255,
        different.no_duplicates(),
        (forall|j: int|
            0 <= j < different.len() ==> (#[trigger] different[j]) == payer || any_signs(
                instructions,
                different[j],
            )) || (forall|j: int|
            0 <= j < different.len() ==> any_names(instructions, #[trigger] different[j])
                && different[j] != payer && !any_signs(instructions, different[j]) && !any_writes(
                instructions,
                different[j],
            )),
    ensures
        !message_fits(instructions, payer),
{
    let meant = if forall|j: int|
        0 <= j < different.len() ==> (#[trigger] different[j]) == payer || any_signs(
            instructions,
            different[j],
        ) {
        signing_accounts(instructions, payer)
    } else {
        readonly_unsigned_accounts(instructions, payer)
    };
    assert forall|j: int| 0 <= j < different.len() implies meant(#[trigger] different[j]) by {}
    if message_fits(instructions, payer) {
        let cover = choose|cover: Seq<Address>|
            #[trigger] covers(cover, meant) && cover.len() <= 255;
        different.unique_seq_to_set();
        cover.lemma_cardinality_of_set();
        assert forall|a: Address| #[trigger]
            different.to_set().contains(a) implies cover.to_set().contains(a) by {
            let j = choose|j: int| 0 <= j < different.len() && different[j] == a;
            assert(meant(different[j]));
            assert(cover.contains(a));
        }
        assert(different.to_set().subset_of(cover.to_set()));
        vstd::set_lib::lemma_len_subset(different.to_set(), cover.to_set());
    }
}

/// An instruction names its program and every account of its list, and writes to those that
/// are marked so.
pub proof fn law_instructions_name_and_write_their_accounts(
    instructions: Seq<InstructionView>,
    i: int,
    k: int,
)
    requires
        0 <= i < instructions.len(),
    ensures
        any_names(instructions, instructions[i].program_id),
        0 <= k < instructions[i].accounts.len() ==> any_names(
            instructions,
            instructions[i].accounts[k].0,
        ),
        0 <= k < instructions[i].accounts.len() && instructions[i].accounts[k].2 ==> any_writes(
            instructions,
            instructions[i].accounts[k].0,
        ),
{
    assert(names(instructions[i], instructions[i].program_id));
    if 0 <= k < instructions[i].accounts.len() {
        assert(instructions[i].accounts[k].address() == instructions[i].accounts[k].0);
        assert(names(instructions[i], instructions[i].accounts[k].0));
        if instructions[i].accounts[k].2 {
            assert(instructions[i].accounts[k].is_writable());
            assert(writes(instructions[i], instructions[i].accounts[k].0));
        }
    }
}

} // verus!
