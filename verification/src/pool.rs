use crate::address::Address;
use crate::instructions::stake::{stake_outcome, Stake};
use crate::instructions::unstake::{unstake_outcome, Unstake};
use crate::state::{UserStake, Vault};
use vstd::prelude::*;

verus! {

/// A vault together with the stake records that are kept for it: the model
/// over which the vault's total is held against what its stakers hold.
pub struct Pool {
    pub vault: Vault,
    pub records: Seq<UserStake>,
}

/// What the records hold together.
pub open spec fn staked_sum(records: Seq<UserStake>) -> int
    decreases records.len(),
{
    if records.len() == 0 {
        0
    } else {
        staked_sum(records.drop_last()) + records.last().amount
    }
}

/// The record that is kept for a staker, if one is.
pub open spec fn record_of(records: Seq<UserStake>, staker: Address) -> Option<UserStake>
    decreases records.len(),
{
    if records.len() == 0 {
        None
    } else if records.last().staker == staker {
        Some(records.last())
    } else {
        record_of(records.drop_last(), staker)
    }
}

/// The records without those of a staker.
pub open spec fn without(records: Seq<UserStake>, staker: Address) -> Seq<UserStake>
    decreases records.len(),
{
    if records.len() == 0 {
        records
    } else if records.last().staker == staker {
        without(records.drop_last(), staker)
    } else {
        without(records.drop_last(), staker).push(records.last())
    }
}

/// The records once the staker's record is `record`: the staker's earlier
/// record is gone, and `record`, where there is one, is kept.
pub open spec fn with_record(
    records: Seq<UserStake>,
    staker: Address,
    record: Option<UserStake>,
) -> Seq<UserStake> {
    match record {
        Some(r) => without(records, staker).push(r),
        None => without(records, staker),
    }
}

/// No staker has two records.
pub open spec fn one_record_each(records: Seq<UserStake>) -> bool {
    forall|i: int, j: int|
        0 <= i < j < records.len() ==> records[i].staker != records[j].staker
}

/// Every record holds some stake.
pub open spec fn all_live(records: Seq<UserStake>) -> bool {
    forall|i: int| 0 <= i < records.len() ==> records[i].live()
}

impl Pool {
    /// The pool is in order: no staker has two records, no record is empty,
    /// and the vault's total is what the records hold together.
    pub open spec fn consistent(self) -> bool {
        &&& one_record_each(self.records)
        &&& all_live(self.records)
        &&& self.vault.total_staked == staked_sum(self.records)
    }

    /// The pool of a vault that was just set up: nothing staked, no records.
    pub open spec fn fresh(vault: Vault) -> Pool {
        Pool { vault, records: Seq::empty() }
    }
}

/// A stake whose sums pass the largest amount pulls the vault's total and
/// the records apart, unless the staker's record holds all that is staked.
/// This says that the stake does not.
pub open spec fn stake_fits(ctx: Stake, amount: u64) -> bool {
    ||| ctx.vault.total_staked + amount <= u64::MAX
    ||| (ctx.user_stake matches Some(r) && r.amount == ctx.vault.total_staked)
}

/// The pool goes from `before` to `after` by this stake: the context holds
/// the vault and the staker's record as the pool has them, and either the
/// stake was decided and the ledger carried out its transfer, so that the
/// pool holds the records of the change, or nothing happened.
pub open spec fn stake_step(
    before: Pool,
    after: Pool,
    ctx: Stake,
    amount: u64,
    now: i64,
    vault_found: Option<(Address, u8)>,
    stake_found: Option<(Address, u8)>,
) -> bool {
    &&& ctx.vault == before.vault
    &&& ctx.user_stake == record_of(before.records, ctx.authority)
    &&& {
        ||| after == before
        ||| (stake_outcome(ctx, amount, now, vault_found, stake_found) matches Ok(change)
            && after == Pool {
            vault: change.vault,
            records: with_record(before.records, ctx.authority, change.user_stake),
        })
    }
}

/// The pool goes from `before` to `after` by this unstake; as
/// [`stake_step`].
pub open spec fn unstake_step(
    before: Pool,
    after: Pool,
    ctx: Unstake,
    amount: u64,
    now: i64,
    vault_found: Option<(Address, u8)>,
    stake_found: Option<(Address, u8)>,
    authority_ok: bool,
) -> bool {
    &&& ctx.vault == before.vault
    &&& ctx.user_stake == record_of(before.records, ctx.authority)
    &&& {
        ||| after == before
        ||| (unstake_outcome(ctx, amount, now, vault_found, stake_found, authority_ok) matches Ok(
            change,
        ) && after == Pool {
            vault: change.vault,
            records: with_record(before.records, ctx.authority, change.user_stake),
        })
    }
}

/// The pool goes from `before` to `after` by one stake that fits, or by one
/// unstake.
pub open spec fn step(before: Pool, after: Pool) -> bool {
    ||| exists|
        ctx: Stake,
        amount: u64,
        now: i64,
        vault_found: Option<(Address, u8)>,
        stake_found: Option<(Address, u8)>,
    |
        #[trigger] stake_step(before, after, ctx, amount, now, vault_found, stake_found)
            && stake_fits(ctx, amount)
    ||| exists|
        ctx: Unstake,
        amount: u64,
        now: i64,
        vault_found: Option<(Address, u8)>,
        stake_found: Option<(Address, u8)>,
        authority_ok: bool,
    | #[trigger]
        unstake_step(before, after, ctx, amount, now, vault_found, stake_found, authority_ok)
}

proof fn lemma_sum_push(records: Seq<UserStake>, r: UserStake)
    ensures
        staked_sum(records.push(r)) == staked_sum(records) + r.amount,
{
    assert(records.push(r).drop_last() =~= records);
}

/// A staker has no record exactly where none of the records is the
/// staker's; a record that is found is the staker's and is among the
/// records.
pub proof fn lemma_record_of(records: Seq<UserStake>, staker: Address)
    ensures
        record_of(records, staker) is None <==> (forall|i: int|
            0 <= i < records.len() ==> records[i].staker != staker),
        record_of(records, staker) matches Some(r) ==> r.staker == staker && records.contains(r),
    decreases records.len(),
{
    if records.len() > 0 {
        let rest = records.drop_last();
        lemma_record_of(rest, staker);
        if records.last().staker == staker {
            assert(records[records.len() - 1] == records.last());
        } else {
            if record_of(rest, staker) is None {
                assert forall|i: int| 0 <= i < records.len() implies records[i].staker
                    != staker by {
                    if i < rest.len() {
                        assert(rest[i] == records[i]);
                    }
                }
            } else {
                let r = record_of(rest, staker)->Some_0;
                let i = choose|i: int| 0 <= i < rest.len() && rest[i] == r;
                assert(records[i] == r);
            }
        }
    }
}

proof fn lemma_without(records: Seq<UserStake>, staker: Address)
    ensures
        forall|i: int|
            0 <= i < without(records, staker).len() ==> {
                &&& (#[trigger] without(records, staker)[i]).staker != staker
                &&& records.contains(without(records, staker)[i])
            },
        one_record_each(records) ==> one_record_each(without(records, staker)),
        one_record_each(records) ==> staked_sum(without(records, staker)) == staked_sum(records)
            - (match record_of(records, staker) {
            Some(r) => r.amount as int,
            None => 0,
        }),
    decreases records.len(),
{
    if records.len() > 0 {
        let rest = records.drop_last();
        let last = records.last();
        let w = without(rest, staker);
        lemma_without(rest, staker);
        assert forall|i: int| 0 <= i < w.len() implies records.contains(w[i]) by {
            let j = choose|j: int| 0 <= j < rest.len() && rest[j] == w[i];
            assert(records[j] == w[i]);
        }
        if one_record_each(records) {
            assert(one_record_each(rest)) by {
                assert forall|i: int, j: int| 0 <= i < j < rest.len() implies rest[i].staker
                    != rest[j].staker by {
                    assert(rest[i] == records[i] && rest[j] == records[j]);
                }
            }
            assert forall|i: int| 0 <= i < rest.len() implies rest[i].staker != last.staker by {
                assert(rest[i] == records[i]);
                assert(records[records.len() - 1] == last);
            }
            lemma_record_of(rest, last.staker);
        }
        if last.staker == staker {
        } else {
            let out = w.push(last);
            assert forall|i: int| 0 <= i < out.len() implies {
                &&& (#[trigger] out[i]).staker != staker
                &&& records.contains(out[i])
            } by {
                if i == w.len() {
                    assert(records[records.len() - 1] == last);
                } else {
                    assert(out[i] == w[i]);
                }
            }
            if one_record_each(records) {
                assert forall|i: int, j: int| 0 <= i < j < out.len() implies out[i].staker
                    != out[j].staker by {
                    assert(out[i] == w[i]);
                    if j == w.len() {
                        let k = choose|k: int| 0 <= k < rest.len() && rest[k] == w[i];
                        assert(rest[k].staker != last.staker);
                    } else {
                        assert(out[j] == w[j]);
                    }
                }
                lemma_sum_push(w, last);
            }
        }
    }
}

/// Putting a staker's record in place keeps the pool's shape: where the
/// records had one record for each staker, so have the new ones, and they
/// hold what the old ones held, less the staker's old record, plus the new
/// one.
pub proof fn lemma_with_record(
    records: Seq<UserStake>,
    staker: Address,
    record: Option<UserStake>,
)
    requires
        one_record_each(records),
        record matches Some(r) ==> r.staker == staker,
    ensures
        one_record_each(with_record(records, staker, record)),
        staked_sum(with_record(records, staker, record)) == staked_sum(records) - (match record_of(
            records,
            staker,
        ) {
            Some(r) => r.amount as int,
            None => 0,
        }) + (match record {
            Some(r) => r.amount as int,
            None => 0,
        }),
        all_live(records) && (record matches Some(r) ==> r.live()) ==> all_live(
            with_record(records, staker, record),
        ),
        record_of(with_record(records, staker, record), staker) == record,
{
    let w = without(records, staker);
    lemma_without(records, staker);
    lemma_record_of(w, staker);
    if all_live(records) {
        assert forall|i: int| 0 <= i < w.len() implies w[i].live() by {
            let j = choose|j: int| 0 <= j < records.len() && records[j] == w[i];
        }
    }
    match record {
        Some(r) => {
            let out = w.push(r);
            lemma_sum_push(w, r);
            assert forall|i: int, j: int| 0 <= i < j < out.len() implies out[i].staker
                != out[j].staker by {
                assert(out[i] == w[i]);
                if j < w.len() {
                    assert(out[j] == w[j]);
                }
            }
            if all_live(records) && r.live() {
                assert forall|i: int| 0 <= i < out.len() implies out[i].live() by {
                    if i < w.len() {
                        assert(out[i] == w[i]);
                    }
                }
            }
            assert(out.drop_last() =~= w);
        },
        None => {},
    }
}

/// Putting one staker's record in place leaves the record of every other
/// staker as it was.
pub proof fn lemma_other_records_stay(
    records: Seq<UserStake>,
    staker: Address,
    record: Option<UserStake>,
    other: Address,
)
    requires
        other != staker,
        record matches Some(r) ==> r.staker == staker,
    ensures
        record_of(with_record(records, staker, record), other) == record_of(records, other),
{
    lemma_without_keeps_others(records, staker, other);
    if let Some(r) = record {
        assert(without(records, staker).push(r).drop_last() =~= without(records, staker));
    }
}

proof fn lemma_without_keeps_others(records: Seq<UserStake>, staker: Address, other: Address)
    requires
        other != staker,
    ensures
        record_of(without(records, staker), other) == record_of(records, other),
    decreases records.len(),
{
    if records.len() > 0 {
        let rest = records.drop_last();
        lemma_without_keeps_others(rest, staker, other);
        if records.last().staker != staker {
            assert(without(rest, staker).push(records.last()).drop_last() =~= without(
                rest,
                staker,
            ));
        }
    }
}

/// The pool of a vault that was just set up is in order.
pub proof fn lemma_fresh_pool_is_consistent(vault: Vault)
    requires
        vault.total_staked == 0,
    ensures
        Pool::fresh(vault).consistent(),
{
}

/// A stake that is decided and carried out on a pool that is in order
/// leaves it in order exactly where the stake fits: then the vault's total
/// is again what the records hold together.
pub proof fn lemma_stake_keeps_total(
    before: Pool,
    after: Pool,
    ctx: Stake,
    amount: u64,
    now: i64,
    vault_found: Option<(Address, u8)>,
    stake_found: Option<(Address, u8)>,
)
    requires
        before.consistent(),
        stake_step(before, after, ctx, amount, now, vault_found, stake_found),
        after != before,
    ensures
        after.consistent() <==> stake_fits(ctx, amount),
{
    let change = stake_outcome(ctx, amount, now, vault_found, stake_found)->Ok_0;
    lemma_record_of(before.records, ctx.authority);
    lemma_with_record(before.records, ctx.authority, change.user_stake);
    lemma_sum_bounds(before.records, ctx.authority);
}

/// One record holds no more than all records together, where none is kept
/// twice.
proof fn lemma_sum_bounds(records: Seq<UserStake>, staker: Address)
    requires
        one_record_each(records),
    ensures
        record_of(records, staker) matches Some(r) ==> r.amount <= staked_sum(records),
        staked_sum(records) >= 0,
{
    lemma_without(records, staker);
    lemma_sum_nonnegative(without(records, staker));
    lemma_sum_nonnegative(records);
}

proof fn lemma_sum_nonnegative(records: Seq<UserStake>)
    ensures
        staked_sum(records) >= 0,
    decreases records.len(),
{
    if records.len() > 0 {
        lemma_sum_nonnegative(records.drop_last());
    }
}

/// An unstake that is decided and carried out on a pool that is in order
/// leaves it in order: the vault's total is again what the records hold
/// together.
pub proof fn lemma_unstake_keeps_total(
    before: Pool,
    after: Pool,
    ctx: Unstake,
    amount: u64,
    now: i64,
    vault_found: Option<(Address, u8)>,
    stake_found: Option<(Address, u8)>,
    authority_ok: bool,
)
    requires
        before.consistent(),
        unstake_step(before, after, ctx, amount, now, vault_found, stake_found, authority_ok),
    ensures
        after.consistent(),
{
    if after != before {
        let change = unstake_outcome(ctx, amount, now, vault_found, stake_found, authority_ok)->Ok_0;
        lemma_record_of(before.records, ctx.authority);
        lemma_with_record(before.records, ctx.authority, change.user_stake);
        lemma_sum_bounds(before.records, ctx.authority);
    }
}

/// Along every run of stakes that fit and of unstakes, from a pool that is
/// in order, the vault's total is at each point what the records hold
/// together.
pub proof fn lemma_total_staked_is_sum(run: Seq<Pool>)
    requires
        run.len() > 0,
        run[0].consistent(),
        forall|i: int| 0 <= i < run.len() - 1 ==> step(#[trigger] run[i], run[i + 1]),
    ensures
        forall|i: int| 0 <= i < run.len() ==> (#[trigger] run[i]).consistent(),
    decreases run.len(),
{
    if run.len() > 1 {
        let head = run.drop_last();
        assert forall|i: int| 0 <= i < head.len() - 1 implies step(
            #[trigger] head[i],
            head[i + 1],
        ) by {
            assert(head[i] == run[i] && head[i + 1] == run[i + 1]);
            assert(step(run[i], run[i + 1]));
        }
        assert(head[0] == run[0]);
        lemma_total_staked_is_sum(head);
        let n = run.len() - 2;
        let before = run[n];
        let after = run[n + 1];
        assert(head[n] == before);
        assert(before.consistent());
        assert(step(run[n], run[n + 1]));
        lemma_step_keeps_total(before, after);
        assert forall|i: int| 0 <= i < run.len() implies (#[trigger] run[i]).consistent() by {
            if i < head.len() {
                assert(head[i] == run[i]);
            }
        }
    }
}

/// One stake that fits, or one unstake, leaves a pool that is in order in
/// order.
pub proof fn lemma_step_keeps_total(before: Pool, after: Pool)
    requires
        before.consistent(),
        step(before, after),
    ensures
        after.consistent(),
{
    if exists|
        ctx: Stake,
        amount: u64,
        now: i64,
        vault_found: Option<(Address, u8)>,
        stake_found: Option<(Address, u8)>,
    |
        #[trigger] stake_step(before, after, ctx, amount, now, vault_found, stake_found)
            && stake_fits(ctx, amount) {
        let (ctx, amount, now, vault_found, stake_found) = choose|
            ctx: Stake,
            amount: u64,
            now: i64,
            vault_found: Option<(Address, u8)>,
            stake_found: Option<(Address, u8)>,
        |
            #[trigger] stake_step(before, after, ctx, amount, now, vault_found, stake_found)
                && stake_fits(ctx, amount);
        if after != before {
            lemma_stake_keeps_total(before, after, ctx, amount, now, vault_found, stake_found);
        }
    } else {
        let (ctx, amount, now, vault_found, stake_found, authority_ok) = choose|
            ctx: Unstake,
            amount: u64,
            now: i64,
            vault_found: Option<(Address, u8)>,
            stake_found: Option<(Address, u8)>,
            authority_ok: bool,
        | #[trigger]
            unstake_step(before, after, ctx, amount, now, vault_found, stake_found, authority_ok);
        lemma_unstake_keeps_total(
            before,
            after,
            ctx,
            amount,
            now,
            vault_found,
            stake_found,
            authority_ok,
        );
    }
}

} // verus!
