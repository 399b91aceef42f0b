use crate::error::EscrowError;
use crate::state::{all_settled, amount_in, settle, total_amount, Milestone, MilestoneStatus};
use vstd::prelude::*;

verus! {

/// No sum of milestone amounts is negative.
pub proof fn lemma_amount_in_bounds(milestones: Seq<Milestone>, status: MilestoneStatus)
    ensures
        0 <= amount_in(milestones, status),
    decreases milestones.len(),
{
    if milestones.len() > 0 {
        lemma_amount_in_bounds(milestones.drop_last(), status);
    }
}

/// Every milestone is in exactly one status: the four sums by status add up
/// to the sum of all.
pub proof fn lemma_total_by_status(milestones: Seq<Milestone>)
    ensures
        total_amount(milestones) == amount_in(milestones, MilestoneStatus::Pending) + amount_in(
            milestones,
            MilestoneStatus::Approved,
        ) + amount_in(milestones, MilestoneStatus::Released) + amount_in(
            milestones,
            MilestoneStatus::Cancelled,
        ),
    decreases milestones.len(),
{
    if milestones.len() > 0 {
        lemma_total_by_status(milestones.drop_last());
    }
}

/// One more milestone adds its amount to the sum of its own status.
pub proof fn lemma_amount_in_next(milestones: Seq<Milestone>, n: int, status: MilestoneStatus)
    requires
        0 <= n < milestones.len(),
    ensures
        amount_in(milestones.take(n + 1), status) == amount_in(milestones.take(n), status) + if
            milestones[n].status == status {
            milestones[n].amount as int
        } else {
            0
        },
{
    assert(milestones.take(n + 1).drop_last() =~= milestones.take(n));
}

/// The first milestones never sum to more than all of them.
pub proof fn lemma_amount_in_prefix(milestones: Seq<Milestone>, n: int, status: MilestoneStatus)
    requires
        0 <= n <= milestones.len(),
    ensures
        amount_in(milestones.take(n), status) <= amount_in(milestones, status),
    decreases milestones.len() - n,
{
    if n == milestones.len() {
        assert(milestones.take(n) =~= milestones);
    } else {
        lemma_amount_in_next(milestones, n, status);
        lemma_amount_in_prefix(milestones, n + 1, status);
    }
}

/// Moving one milestone to another status moves its amount from the sum of
/// the old status to the sum of the new one.
pub proof fn lemma_amount_in_update(
    milestones: Seq<Milestone>,
    index: int,
    to: MilestoneStatus,
    status: MilestoneStatus,
)
    requires
        0 <= index < milestones.len(),
    ensures
        amount_in(milestones.update(index, milestones[index].with_status(to)), status)
            == amount_in(milestones, status) - (if milestones[index].status == status {
            milestones[index].amount as int
        } else {
            0
        }) + (if to == status {
            milestones[index].amount as int
        } else {
            0
        }),
    decreases milestones.len(),
{
    let updated = milestones.update(index, milestones[index].with_status(to));
    if index == milestones.len() - 1 {
        assert(updated.drop_last() =~= milestones.drop_last());
    } else {
        assert(updated.drop_last() =~= milestones.drop_last().update(
            index,
            milestones.drop_last()[index].with_status(to),
        ));
        lemma_amount_in_update(milestones.drop_last(), index, to, status);
    }
}

/// After settling, what was pending counts under `pending_to` and what was
/// approved under `approved_to`; what was settled before counts as before.
pub proof fn lemma_amount_in_settle(
    milestones: Seq<Milestone>,
    pending_to: MilestoneStatus,
    approved_to: MilestoneStatus,
    status: MilestoneStatus,
)
    ensures
        amount_in(settle(milestones, pending_to, approved_to), status) == (if status.settled() {
            amount_in(milestones, status)
        } else {
            0
        }) + (if pending_to == status {
            amount_in(milestones, MilestoneStatus::Pending)
        } else {
            0
        }) + (if approved_to == status {
            amount_in(milestones, MilestoneStatus::Approved)
        } else {
            0
        }),
    decreases milestones.len(),
{
    let settled = settle(milestones, pending_to, approved_to);
    if milestones.len() > 0 {
        assert(settled.drop_last() =~= settle(milestones.drop_last(), pending_to, approved_to));
        lemma_amount_in_settle(milestones.drop_last(), pending_to, approved_to, status);
    }
}

/// Where every milestone has a positive amount, all are settled exactly when
/// nothing is pending or approved.
pub proof fn lemma_settled_means_nothing_open(milestones: Seq<Milestone>)
    requires
        forall|i: int| 0 <= i < milestones.len() ==> (#[trigger] milestones[i]).amount > 0,
    ensures
        all_settled(milestones) <==> amount_in(milestones, MilestoneStatus::Pending) + amount_in(
            milestones,
            MilestoneStatus::Approved,
        ) == 0,
    decreases milestones.len(),
{
    if milestones.len() > 0 {
        let front = milestones.drop_last();
        lemma_settled_means_nothing_open(front);
        lemma_amount_in_bounds(front, MilestoneStatus::Pending);
        lemma_amount_in_bounds(front, MilestoneStatus::Approved);
        if all_settled(front) && milestones.last().status.settled() {
            assert forall|i: int| 0 <= i < milestones.len() implies (
            #[trigger] milestones[i]).status.settled() by {
                if i < front.len() {
                    assert(front[i] == milestones[i]);
                }
            }
        }
    }
}

/// A milestone counts with at least its amount in the sum of its status.
pub proof fn lemma_amount_in_holds(milestones: Seq<Milestone>, index: int)
    requires
        0 <= index < milestones.len(),
    ensures
        amount_in(milestones, milestones[index].status) >= milestones[index].amount,
    decreases milestones.len(),
{
    lemma_amount_in_bounds(milestones.drop_last(), milestones[index].status);
    if index < milestones.len() - 1 {
        lemma_amount_in_holds(milestones.drop_last(), index);
    }
}

/// The sum of the amounts of the milestones in `status`, or an overflow where
/// it does not fit.
pub fn amount_with_status(milestones: &Vec<Milestone>, status: MilestoneStatus) -> (r: Result<
    u64,
    EscrowError,
>)
    ensures
        match r {
            Ok(sum) => sum == amount_in(milestones@, status),
            Err(e) => e == EscrowError::Overflow && amount_in(milestones@, status) > u64::MAX,
        },
{
    let mut sum: u64 = 0;
    let mut i: usize = 0;
    while i < milestones.len()
        invariant
            i <= milestones.len(),
            sum == amount_in(milestones@.take(i as int), status),
        decreases milestones.len() - i,
    {
        proof {
            lemma_amount_in_next(milestones@, i as int, status);
            lemma_amount_in_prefix(milestones@, i + 1, status);
        }
        if milestones[i].status == status {
            sum = sum.checked_add(milestones[i].amount).ok_or(EscrowError::Overflow)?;
        }
        i += 1;
    }
    assert(milestones@.take(i as int) =~= milestones@);
    Ok(sum)
}

/// Moves every Pending milestone to `pending_to` and every Approved one to
/// `approved_to`.
pub fn settle_milestones(
    milestones: &mut Vec<Milestone>,
    pending_to: MilestoneStatus,
    approved_to: MilestoneStatus,
)
    ensures
        final(milestones)@ == settle(old(milestones)@, pending_to, approved_to),
{
    let mut i: usize = 0;
    while i < milestones.len()
        invariant
            i <= milestones.len(),
            milestones.len() == old(milestones).len(),
            forall|j: int|
                0 <= j < i ==> milestones@[j] == settle(
                    old(milestones)@,
                    pending_to,
                    approved_to,
                )[j],
            forall|j: int| i <= j < milestones.len() ==> milestones@[j] == old(milestones)@[j],
        decreases milestones.len() - i,
    {
        match milestones[i].status {
            MilestoneStatus::Pending => {
                milestones[i].status = pending_to;
            },
            MilestoneStatus::Approved => {
                milestones[i].status = approved_to;
            },
            MilestoneStatus::Released => {},
            MilestoneStatus::Cancelled => {},
        }
        i += 1;
    }
}

} // verus!
