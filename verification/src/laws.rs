//! Laws the marketplace obeys across whole sequences of operations.
//!
//! Each operation's contract pins its exact effect on one state; the lemmas
//! here chain those effects: what the vault's distributed total is after any
//! run of operations, that a task's status never moves backwards, and that
//! repeating a bonus claim pays nothing further.

use vstd::prelude::*;

use crate::reward::payable_bonus;
use crate::task::{status_le, TaskStatus};

verus! {

/// Sum of a sequence of payout amounts.
pub open spec fn sum(payouts: Seq<int>) -> int
    decreases payouts.len(),
{
    if payouts.len() == 0 {
        0
    } else {
        sum(payouts.drop_last()) + payouts.last()
    }
}

/// The vault's distributed total is exactly the initial total plus the sum
/// of every payout actually disbursed — never more.
///
/// `totals` is the vault's `total_rewards_distributed` observed before and
/// after each of a run of operations, and `payouts[i]` what operation `i`
/// disbursed. Every operation's contract gives the step relation assumed
/// here: completion raises the total by exactly the task's reward, a bonus
/// claim by exactly the amount paid, and every other operation by zero.
pub proof fn lemma_distributed_total_is_sum_of_payouts(totals: Seq<int>, payouts: Seq<int>)
    requires
        totals.len() == payouts.len() + 1,
        forall|i: int| 0 <= i < payouts.len() ==> totals[i + 1] == totals[i] + payouts[i],
    ensures
        totals.last() == totals[0] + sum(payouts),
    decreases payouts.len(),
{
    if payouts.len() == 0 {
    } else {
        let shorter_totals = totals.drop_last();
        let shorter_payouts = payouts.drop_last();
        assert(forall|i: int| 0 <= i < shorter_payouts.len()
            ==> shorter_totals[i + 1] == shorter_totals[i] + shorter_payouts[i]);
        lemma_distributed_total_is_sum_of_payouts(shorter_totals, shorter_payouts);
        assert(totals.last() == totals[payouts.len() - 1] + payouts.last());
    }
}

/// A task's status is monotonically non-decreasing over transition order.
///
/// `statuses` is the status observed across any chain of operations; each
/// operation's contract gives the adjacent step assumed here, so no run of
/// operations ever moves a task backwards.
pub proof fn lemma_status_never_decreases(statuses: Seq<TaskStatus>)
    requires
        statuses.len() >= 1,
        forall|i: int| 0 <= i < statuses.len() - 1
            ==> status_le(#[trigger] statuses[i], statuses[i + 1]),
    ensures
        status_le(statuses[0], statuses.last()),
    decreases statuses.len(),
{
    if statuses.len() == 1 {
    } else {
        let shorter = statuses.drop_last();
        assert(forall|i: int| 0 <= i < shorter.len() - 1
            ==> status_le(#[trigger] shorter[i], shorter[i + 1]));
        lemma_status_never_decreases(shorter);
        assert(status_le(statuses[statuses.len() - 2], statuses.last()));
    }
}

/// Claiming a bonus is idempotent: whatever one claim pays, a second claim
/// with no intervening reputation change has nothing left to pay.
///
/// A successful claim raises the paid total by exactly the payable amount;
/// this lemma shows the payable amount of the resulting state is zero, so
/// the second call transfers nothing.
pub proof fn lemma_claim_bonus_idempotent(reputation: int, rewards_paid: int)
    ensures
        payable_bonus(
            reputation,
            rewards_paid + payable_bonus(reputation, rewards_paid),
        ) == 0,
{
}

} // verus!
