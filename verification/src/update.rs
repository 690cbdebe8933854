//! Updating the balances of a pool and of its validators.
use vstd::bytes::spec_u32_to_le_bytes;
use vstd::prelude::*;

use crate::address::Address;
use crate::config::Config;
use crate::instruction::{
    add_instruction, any_signs, law_plan_keeps_instructions_and_signers, no_instructions,
    plan_transaction, signed_by, signs, views, writable, AccountMeta, Instruction, InstructionView, TransactionPlan,
};
use crate::programs::pool::{
    all_starts, any_stale, four_from, fours_in, stale_starts, to_validator_list,
    transient_stake_address, update_fours, update_pool, update_rest, update_stale_pool,
    validator_stake_address, withdraw_authority_address,
};
use crate::state::{PoolValidators, StakePool, ValidatorStakeInfo};

verus! {

/// Tells whether a command updates the pool before it works on it.
pub fn updates_first(config: &Config) -> (r: bool)
    ensures
        r == !config.no_update,
{
    !config.no_update
}

/// What an update does next.
#[derive(Clone, Copy, PartialEq, Eq, Structural, Debug)]
pub enum UpdateStep {
    /// Nothing: updates are switched off.
    SwitchedOff,
    /// It reads the pool and the epoch.
    Read,
    /// Nothing: the pool is updated in this epoch.
    NotRequired,
    /// It updates the pool though it is updated in this epoch.
    Forced,
    /// It updates the pool.
    Required,
}

/// Decides what an update does next. `seen` is the epoch of the pool's last update and
/// the current epoch, once they are read.
pub fn next_update_step(config: &Config, seen: &Option<(u64, u64)>, force: bool) -> (r: UpdateStep)
    ensures
        r == if config.no_update {
            UpdateStep::SwitchedOff
        } else {
            match *seen {
                None => UpdateStep::Read,
                Some((last_update_epoch, epoch)) => if last_update_epoch != epoch {
                    UpdateStep::Required
                } else if force {
                    UpdateStep::Forced
                } else {
                    UpdateStep::NotRequired
                },
            }
        },
{
    if config.no_update {
        return UpdateStep::SwitchedOff;
    }
    match seen {
        None => UpdateStep::Read,
        Some(epochs) => {
            if epochs.0 != epochs.1 {
                UpdateStep::Required
            } else if force {
                UpdateStep::Forced
            } else {
                UpdateStep::NotRequired
            }
        },
    }
}

/// One transaction of an update, and whether the next one waits for it.
#[derive(PartialEq, Eq, Debug)]
pub struct UpdateTransaction {
    pub plan: TransactionPlan,
    pub wait: bool,
}

/// The places at which the fours of entries begin that an update goes to.
pub open spec fn update_starts(
    entries: Seq<ValidatorStakeInfo>,
    stale_only: bool,
    epoch: u64,
) -> Seq<int> {
    if stale_only {
        stale_starts(entries, epoch, fours_in(entries))
    } else {
        all_starts(fours_in(entries))
    }
}

/// The instructions of an update: those for the entries of the list, and those that
/// come after them. Where only stale balances are asked for, the fours whose entries are
/// all updated in the epoch are left out.
pub open spec fn update_instructions(
    config: Config,
    pool: StakePool,
    pool_address: Address,
    entries: Seq<ValidatorStakeInfo>,
    no_merge: bool,
    stale_only: bool,
    epoch: u64,
) -> (Seq<InstructionView>, Seq<InstructionView>) {
    let updates = update_fours(
        config.stake_pool_program_id,
        pool_address,
        pool.validator_list,
        pool.reserve_stake,
        entries,
        update_starts(entries, stale_only, epoch),
        no_merge,
    );
    let rest = update_rest(
        config.stake_pool_program_id,
        pool.validator_list,
        pool.reserve_stake,
        pool.manager_fee_account,
        pool.pool_mint,
        pool.token_program_id,
        pool_address,
    );
    (updates, rest)
}

/// `transactions` send the instructions of `updates` one by one, then those of `rest`
/// together. Nothing waits for the first ones; the last one of `updates` and the one
/// of `rest` are waited for.
pub open spec fn sends_in_order(
    transactions: Seq<UpdateTransaction>,
    config: Config,
    updates: Seq<InstructionView>,
    rest: Seq<InstructionView>,
) -> bool {
    let n = updates.len() as int;
    &&& transactions.len() == n + 1
    &&& forall|i: int|
        0 <= i < n ==> (#[trigger] transactions[i]).plan.comprises(
            seq![updates[i]],
            seq![config.fee_payer],
            0,
        ) && transactions[i].wait == (i == n - 1)
    &&& transactions[n].plan.comprises(rest, seq![config.fee_payer], 0)
    &&& transactions[n].wait
}

/// The signers of every transaction are the payer and the accounts whose signature its
/// instructions ask for.
pub open spec fn all_signed_exactly(
    transactions: Seq<UpdateTransaction>,
    fee_payer: Address,
) -> bool {
    forall|i: int|
        0 <= i < transactions.len() ==> (#[trigger] transactions[i]).plan.signed_exactly(fee_payer)
}

/// No instruction asks for a signature.
pub open spec fn nobody_signs(instructions: Seq<InstructionView>) -> bool {
    forall|a: Address| !(#[trigger] any_signs(instructions, a))
}

/// Plans the transactions that update a pool, in the order in which they are sent.
pub fn command_update(
    config: &Config,
    pool: &StakePool,
    pool_address: &Address,
    validators: &PoolValidators,
    no_merge: bool,
    stale_only: bool,
    epoch: u64,
) -> (r: Vec<UpdateTransaction>)
    requires
        validators.validators@.len() <= u32::MAX,
    ensures
        ({
            let instructions = update_instructions(
                *config,
                *pool,
                *pool_address,
                validators.validators@,
                no_merge,
                stale_only,
                epoch,
            );
            sends_in_order(r@, *config, instructions.0, instructions.1)
        }),
        all_signed_exactly(r@, config.fee_payer),
        !stale_only ==> r@.len() == (validators.validators@.len() + 3) / 4 + 1,
        stale_only ==> r@.len() <= (validators.validators@.len() + 3) / 4 + 1,
        stale_only ==> (r@.len() == 1 <==> forall|i: int|
            0 <= i < validators.validators@.len() ==> (
            #[trigger] validators.validators@[i]).last_update_epoch >= epoch),
{
    let list = to_validator_list(&validators.validators);
    let (updates, rest) = if stale_only {
        update_stale_pool(
            config.stake_pool_program_id,
            pool.validator_list,
            pool.reserve_stake,
            pool.manager_fee_account,
            pool.pool_mint,
            pool.token_program_id,
            *pool_address,
            &list,
            no_merge,
            epoch,
        )
    } else {
        update_pool(
            config.stake_pool_program_id,
            pool.validator_list,
            pool.reserve_stake,
            pool.manager_fee_account,
            pool.pool_mint,
            pool.token_program_id,
            *pool_address,
            &list,
            no_merge,
        )
    };
    proof {
        let entries = validators.validators@;
        let instructions = update_instructions(
            *config,
            *pool,
            *pool_address,
            entries,
            no_merge,
            stale_only,
            epoch,
        );
        lemma_nobody_signs_updates(
            *config,
            *pool,
            *pool_address,
            entries,
            no_merge,
            stale_only,
            epoch,
        );
        lemma_stale_starts(entries, epoch, fours_in(entries));
        assert(views(updates@) == instructions.0);
        assert(views(rest@) == instructions.1);
    }
    order_updates(config, updates, rest)
}

/// No instruction of an update asks for a signature.
proof fn lemma_nobody_signs_updates(
    config: Config,
    pool: StakePool,
    pool_address: Address,
    entries: Seq<ValidatorStakeInfo>,
    no_merge: bool,
    stale_only: bool,
    epoch: u64,
)
    ensures
        ({
            let instructions = update_instructions(
                config,
                pool,
                pool_address,
                entries,
                no_merge,
                stale_only,
                epoch,
            );
            nobody_signs(instructions.0) && nobody_signs(instructions.1)
        }),
{
}

/// Of the fours, those that hold a stale entry are updated: no more than there are, and
/// none where no entry is stale.
proof fn lemma_stale_starts(entries: Seq<ValidatorStakeInfo>, epoch: u64, count: nat)
    requires
        count <= fours_in(entries),
    ensures
        stale_starts(entries, epoch, count).len() <= count,
        stale_starts(entries, epoch, count).len() == 0 <==> forall|i: int|
            0 <= i < entries.len() && i < 4 * count ==> (#[trigger] entries[i]).last_update_epoch
                >= epoch,
    decreases count,
{
    if count > 0 {
        let start = 4 * (count - 1);
        let four = four_from(entries, start);
        lemma_stale_starts(entries, epoch, (count - 1) as nat);
        if any_stale(four, epoch) {
            let j = choose|j: int|
                0 <= j < four.len() && (#[trigger] four[j]).last_update_epoch < epoch;
            assert(entries[start + j].last_update_epoch < epoch);
        } else {
            assert forall|i: int| 0 <= i < entries.len() && start <= i < 4 * count implies (
            #[trigger] entries[i]).last_update_epoch >= epoch by {
                assert(four[i - start] == entries[i]);
            }
        }
    }
}

proof fn lemma_stale_four_is_reached(
    entries: Seq<ValidatorStakeInfo>,
    epoch: u64,
    count: nat,
    four: int,
)
    requires
        0 <= four < count,
        any_stale(four_from(entries, 4 * four), epoch),
    ensures
        stale_starts(entries, epoch, count).contains(4 * four),
    decreases count,
{
    let before = stale_starts(entries, epoch, (count - 1) as nat);
    let starts = stale_starts(entries, epoch, count);
    if four == count - 1 {
        assert(starts.last() == 4 * four);
    } else {
        lemma_stale_four_is_reached(entries, epoch, (count - 1) as nat, four);
        let k = choose|k: int| 0 <= k < before.len() && before[k] == 4 * four;
        assert(starts[k] == 4 * four);
    }
}

/// An update goes to every entry, and a stale-only one to every entry that was last
/// updated before the epoch: one of its instructions names the entry's stake account and
/// transient stake account.
pub proof fn law_update_reaches_every_entry(
    config: Config,
    pool: StakePool,
    pool_address: Address,
    entries: Seq<ValidatorStakeInfo>,
    no_merge: bool,
    stale_only: bool,
    epoch: u64,
    i: int,
)
    requires
        0 <= i < entries.len(),
        stale_only ==> entries[i].last_update_epoch < epoch,
    ensures
        ({
            let updates = update_instructions(
                config,
                pool,
                pool_address,
                entries,
                no_merge,
                stale_only,
                epoch,
            ).0;
            exists|k: int|
                0 <= k < updates.len() && (#[trigger] updates[k]).accounts.contains(
                    writable(
                        validator_stake_address(
                            config.stake_pool_program_id@,
                            entries[i].vote_account_address@,
                            pool_address@,
                            entries[i].validator_seed_suffix,
                        ),
                    ),
                ) && updates[k].accounts.contains(
                    writable(
                        transient_stake_address(
                            config.stake_pool_program_id@,
                            entries[i].vote_account_address@,
                            pool_address@,
                            entries[i].transient_seed_suffix,
                        ),
                    ),
                )
        }),
{
    let updates = update_instructions(
        config,
        pool,
        pool_address,
        entries,
        no_merge,
        stale_only,
        epoch,
    ).0;
    let starts = update_starts(entries, stale_only, epoch);
    let start = 4 * (i / 4);
    let four = four_from(entries, start);
    assert(four[i - start] == entries[i]);
    if stale_only {
        lemma_stale_four_is_reached(entries, epoch, fours_in(entries), i / 4);
    } else {
        assert(starts[i / 4] == start);
    }
    let k = choose|k: int| 0 <= k < starts.len() && starts[k] == start;
    let place = 7 + 2 * (i - start);
    let accounts = updates[k].accounts;
    assert(accounts[place] == writable(
        validator_stake_address(
            config.stake_pool_program_id@,
            entries[i].vote_account_address@,
            pool_address@,
            entries[i].validator_seed_suffix,
        ),
    ));
    assert(accounts[place + 1] == writable(
        transient_stake_address(
            config.stake_pool_program_id@,
            entries[i].vote_account_address@,
            pool_address@,
            entries[i].transient_seed_suffix,
        ),
    ));
}

/// A stale-only update leaves out every four whose entries are all updated in the epoch.
pub proof fn law_stale_update_skips_updated_fours(
    entries: Seq<ValidatorStakeInfo>,
    epoch: u64,
    k: int,
)
    requires
        0 <= k < update_starts(entries, true, epoch).len(),
    ensures
        any_stale(four_from(entries, update_starts(entries, true, epoch)[k]), epoch),
{
    lemma_stale_starts_are_stale(entries, epoch, fours_in(entries), k);
}

proof fn lemma_stale_starts_are_stale(
    entries: Seq<ValidatorStakeInfo>,
    epoch: u64,
    count: nat,
    k: int,
)
    requires
        0 <= k < stale_starts(entries, epoch, count).len(),
    ensures
        any_stale(four_from(entries, stale_starts(entries, epoch, count)[k]), epoch),
    decreases count,
{
    if k < stale_starts(entries, epoch, (count - 1) as nat).len() {
        lemma_stale_starts_are_stale(entries, epoch, (count - 1) as nat, k);
    }
}

/// Puts the instructions of an update into transactions.
pub fn order_updates(config: &Config, updates: Vec<Instruction>, rest: Vec<Instruction>) -> (r: Vec<
    UpdateTransaction,
>)
    ensures
        sends_in_order(r@, *config, views(updates@), views(rest@)),
        nobody_signs(views(updates@)) && nobody_signs(views(rest@)) ==> all_signed_exactly(
            r@,
            config.fee_payer,
        ),
{
    let signers = signed_by(config.fee_payer);
    let ghost all = views(updates@);
    let count = updates.len();
    let mut updates = updates;
    let mut r: Vec<UpdateTransaction> = Vec::new();
    assert(all.skip(0) =~= all);
    while updates.len() > 0
        invariant
            r.len() + updates.len() == count,
            count == all.len(),
            views(updates@) == all.skip(r.len() as int),
            signers@ == seq![config.fee_payer],
            forall|a: Address| #[trigger] signers@.contains(a) <==> a == config.fee_payer,
            forall|i: int|
                0 <= i < r.len() ==> (#[trigger] r@[i]).plan.comprises(
                    seq![all[i]],
                    seq![config.fee_payer],
                    0,
                ) && r@[i].wait == (i == count - 1),
            nobody_signs(all) ==> all_signed_exactly(r@, config.fee_payer),
        decreases updates.len(),
    {
        let ghost place = r.len() as int;
        let ghost before = updates@;
        let instruction = updates.remove(0);
        let mut instructions = no_instructions();
        proof {
            assert(instruction == before[0]);
            assert(views(before)[0] == all.skip(place)[0]);
            assert forall|a: Address| #[trigger] signs(instruction@, a) implies any_signs(all, a) by {
                assert(signs(all[place], a));
            }
            assert forall|i: int| 0 <= i < updates@.len() implies #[trigger] views(updates@)[i]
                == all.skip(place + 1)[i] by {
                assert(views(before)[i + 1] == all.skip(place)[i + 1]);
            }
            assert(views(updates@) =~= all.skip(place + 1));
        }
        add_instruction(&mut instructions, instruction);
        assert(views(instructions@) =~= seq![all[place]]);
        let plan = plan_transaction(instructions, &signers, 0);
        r.push(UpdateTransaction { plan, wait: updates.len() == 0 });
    }
    let plan = plan_transaction(rest, &signers, 0);
    r.push(UpdateTransaction { plan, wait: true });
    r
}

/// An update sends every instruction once and in order: one transaction for each instruction
/// on entries, then one for the instructions that come after them. The payer alone signs. Only
/// the last two transactions are waited for.
pub proof fn law_update_sends_each_instruction_once(
    transactions: Seq<UpdateTransaction>,
    config: Config,
    updates: Seq<InstructionView>,
    rest: Seq<InstructionView>,
    i: int,
)
    requires
        sends_in_order(transactions, config, updates, rest),
    ensures
        transactions.len() == updates.len() + 1,
        0 <= i < updates.len() ==> transactions[i].plan.instructions@.len() == 1
            && transactions[i].plan.instructions@[0]@ == updates[i],
        views(transactions.last().plan.instructions@) == rest,
        0 <= i < transactions.len() ==> transactions[i].plan.additional_fee == 0 && forall|
            a: Address,
        | #[trigger]
            transactions[i].plan.signers@.contains(a) <==> a == config.fee_payer,
        0 <= i < transactions.len() - 2 ==> !transactions[i].wait,
        transactions.len() - 2 <= i < transactions.len() && 0 <= i ==> transactions[i].wait,
{
    let n = updates.len() as int;
    if 0 <= i < transactions.len() {
        let sent = if i < n {
            seq![updates[i]]
        } else {
            rest
        };
        let plan = transactions[i].plan;
        assert(plan.comprises(sent, seq![config.fee_payer], 0));
        law_plan_keeps_instructions_and_signers(plan, sent, seq![config.fee_payer], 0);
        if i < n {
            assert(plan.instructions@[0]@ =~= updates[i]);
        }
        let listed = seq![config.fee_payer];
        assert forall|a: Address| #[trigger]
            plan.signers@.contains(a) <==> a == config.fee_payer by {
            assert(plan.signers@.contains(a) <==> listed.contains(a));
            assert(listed[0] == config.fee_payer);
        }
    }
}

proof fn lemma_stale_starts_ascend(
    entries: Seq<ValidatorStakeInfo>,
    epoch: u64,
    count: nat,
    k: int,
    m: int,
)
    ensures
        0 <= k < stale_starts(entries, epoch, count).len() ==> 0 <= stale_starts(
            entries,
            epoch,
            count,
        )[k] < 4 * count && stale_starts(entries, epoch, count)[k] % 4 == 0,
        0 <= k < m < stale_starts(entries, epoch, count).len() ==> stale_starts(
            entries,
            epoch,
            count,
        )[k] < stale_starts(entries, epoch, count)[m],
    decreases count,
{
    if count > 0 {
        lemma_stale_starts_ascend(entries, epoch, (count - 1) as nat, k, m);
        lemma_stale_starts_ascend(entries, epoch, (count - 1) as nat, m, m);
    }
}

/// The fours that an update goes to begin at multiples of four, inside the list, in ascending
/// order: no entry is updated twice. A full update goes to all of them.
pub proof fn law_update_goes_through_the_list_once(
    entries: Seq<ValidatorStakeInfo>,
    stale_only: bool,
    epoch: u64,
    k: int,
    m: int,
)
    requires
        0 <= k < m < update_starts(entries, stale_only, epoch).len() || k == m && 0 <= k
            < update_starts(entries, stale_only, epoch).len(),
    ensures
        ({
            let starts = update_starts(entries, stale_only, epoch);
            &&& 0 <= starts[k] < entries.len()
            &&& starts[k] % 4 == 0
            &&& k < m ==> starts[k] + 4 <= starts[m]
            &&& !stale_only ==> starts[k] == 4 * k && starts.len() == (entries.len() + 3) / 4
        }),
{
    if stale_only {
        lemma_stale_starts_ascend(entries, epoch, fours_in(entries), k, m);
        lemma_stale_starts_ascend(entries, epoch, fours_in(entries), m, m);
    }
}

/// An instruction of an update names the pool, its list and its reserve, then two accounts for
/// each of the entries that it goes to, four or as many as are left. It says at which place
/// they begin and whether stakes are to be left unmerged.
pub proof fn law_update_instruction_names_the_pool_and_its_entries(
    config: Config,
    pool: StakePool,
    pool_address: Address,
    entries: Seq<ValidatorStakeInfo>,
    no_merge: bool,
    stale_only: bool,
    epoch: u64,
    k: int,
)
    requires
        0 <= k < update_starts(entries, stale_only, epoch).len(),
    ensures
        ({
            let instructions = update_instructions(
                config,
                pool,
                pool_address,
                entries,
                no_merge,
                stale_only,
                epoch,
            );
            let step = instructions.0[k];
            let start = update_starts(entries, stale_only, epoch)[k];
            &&& instructions.0.len() == update_starts(entries, stale_only, epoch).len()
            &&& step.program_id == config.stake_pool_program_id
            &&& step.accounts.len() == 7 + 2 * (if entries.len() - start < 4 {
                entries.len() - start
            } else {
                4
            })
            &&& step.accounts[0] == AccountMeta(pool_address, false, false)
            &&& step.accounts[1] == AccountMeta(
                withdraw_authority_address(config.stake_pool_program_id@, pool_address@),
                false,
                false,
            )
            &&& step.accounts[2] == AccountMeta(pool.validator_list, false, true)
            &&& step.accounts[3] == AccountMeta(pool.reserve_stake, false, true)
            &&& step.data == seq![6u8] + spec_u32_to_le_bytes(start as u32) + seq![
                if no_merge {
                    1u8
                } else {
                    0u8
                },
            ]
        }),
{
    law_update_goes_through_the_list_once(entries, stale_only, epoch, k, k);
}

/// Behind the instructions on entries come two: one that updates the pool's own balance, whose
/// fee goes to the account for fees, and one that clears its list.
pub proof fn law_update_ends_with_the_pool_itself(
    config: Config,
    pool: StakePool,
    pool_address: Address,
    entries: Seq<ValidatorStakeInfo>,
    no_merge: bool,
    stale_only: bool,
    epoch: u64,
)
    ensures
        ({
            let rest = update_instructions(
                config,
                pool,
                pool_address,
                entries,
                no_merge,
                stale_only,
                epoch,
            ).1;
            &&& rest.len() == 2
            &&& rest[0].program_id == config.stake_pool_program_id
            &&& rest[0].accounts.len() == 7
            &&& rest[0].accounts[0] == AccountMeta(pool_address, false, true)
            &&& rest[0].accounts[2] == AccountMeta(pool.validator_list, false, true)
            &&& rest[0].accounts[3] == AccountMeta(pool.reserve_stake, false, false)
            &&& rest[0].accounts[4] == AccountMeta(pool.manager_fee_account, false, true)
            &&& rest[0].accounts[5] == AccountMeta(pool.pool_mint, false, true)
            &&& rest[0].accounts[6] == AccountMeta(pool.token_program_id, false, false)
            &&& rest[0].data == seq![7u8]
            &&& rest[1].program_id == config.stake_pool_program_id
            &&& rest[1].accounts.len() == 2
            &&& rest[1].accounts[0] == AccountMeta(pool_address, false, false)
            &&& rest[1].accounts[1] == AccountMeta(pool.validator_list, false, true)
            &&& rest[1].data == seq![8u8]
        }),
{
}

} // verus!
