use crate::accounting::{
    amount_with_status, lemma_amount_in_bounds, lemma_amount_in_holds, lemma_amount_in_settle,
    lemma_settled_means_nothing_open, lemma_total_by_status, settle_milestones,
};
use crate::accounts::{
    lemma_paid_payment, paid, payment, Action, MintAccount, Recipient, TokenAccount,
};
use crate::error::EscrowError;
use crate::events::{EscrowCancelled, Event, Outcome};
use crate::helpers::transfer_from_vault;
use crate::state::{
    all_settled, amount_in, settle, EscrowState, EscrowStateView, EscrowStatus, Milestone,
    MilestoneStatus, Pubkey,
};
use vstd::prelude::*;

verus! {

/// The accounts of a cancellation. Only the maker may cancel.
#[derive(Clone, Copy, Debug, PartialEq, Eq)]
pub struct CancelEscrow {
    /// Who signed.
    pub maker: Pubkey,
    /// The address of the escrow record.
    pub escrow_key: Pubkey,
    pub mint: MintAccount,
    pub maker_token_account: TokenAccount,
}

/// What a cancellation refunds: the pending milestones.
pub open spec fn refund(escrow: EscrowStateView) -> int {
    amount_in(escrow.milestones, MilestoneStatus::Pending)
}

/// The milestones after a cancellation: pending ones cancelled, approved
/// ones left alone, for they are accepted work that can still be released.
pub open spec fn cancelled(escrow: EscrowStateView) -> Seq<Milestone> {
    settle(escrow.milestones, MilestoneStatus::Cancelled, MilestoneStatus::Approved)
}

/// Why the cancellation is refused, if it is: the first check that fails.
pub open spec fn rejection(escrow: EscrowStateView, ctx: CancelEscrow, now: i64) -> Option<
    EscrowError,
> {
    if escrow.maker != ctx.maker {
        Some(EscrowError::NotMaker)
    } else if ctx.mint.key != escrow.mint {
        Some(EscrowError::MintMismatch)
    } else if ctx.maker_token_account.owner != escrow.maker {
        Some(EscrowError::OwnerMismatch)
    } else if escrow.status != EscrowStatus::Active {
        Some(EscrowError::EscrowNotActive)
    } else if now > escrow.expires_at {
        Some(EscrowError::EscrowExpired)
    } else if refund(escrow) > u64::MAX {
        Some(EscrowError::Overflow)
    } else if refund(escrow) == 0 {
        Some(EscrowError::NoRefundableAmount)
    } else if escrow.refunded_amount + refund(escrow) > u64::MAX {
        Some(EscrowError::Overflow)
    } else {
        None
    }
}

/// The record after the cancellation: the pending milestones cancelled and
/// refunded, and the escrow cancelled where no milestone is left open.
pub open spec fn applied(escrow: EscrowStateView) -> EscrowStateView {
    EscrowStateView {
        milestones: cancelled(escrow),
        refunded_amount: (escrow.refunded_amount + refund(escrow)) as u64,
        status: if all_settled(cancelled(escrow)) {
            EscrowStatus::Cancelled
        } else {
            escrow.status
        },
        ..escrow
    }
}

/// The one payment of a cancellation: the refund to the maker, without a fee.
pub open spec fn actions(escrow: EscrowStateView) -> Seq<Action> {
    payment(Recipient::Maker, refund(escrow) as u64)
}

/// The notification of the cancellation.
pub open spec fn events(escrow: EscrowStateView, ctx: CancelEscrow) -> Seq<Event> {
    seq![
        Event::EscrowCancelled(
            EscrowCancelled { escrow: ctx.escrow_key, refunded_amount: refund(escrow) as u64 },
        ),
    ]
}

/// Cancelling a well-formed active escrow never overflows and leaves the
/// record well formed.
pub proof fn lemma_cancel_keeps_well_formed(escrow: EscrowStateView)
    requires
        escrow.well_formed(),
        escrow.status == EscrowStatus::Active,
    ensures
        escrow.released_amount + escrow.refunded_amount + refund(escrow) <= escrow.amount,
        applied(escrow).well_formed(),
{
    let ms = escrow.milestones;
    let after = applied(escrow);
    lemma_total_by_status(ms);
    lemma_total_by_status(after.milestones);
    let p = MilestoneStatus::Cancelled;
    let a = MilestoneStatus::Approved;
    lemma_amount_in_bounds(ms, MilestoneStatus::Pending);
    lemma_amount_in_bounds(ms, MilestoneStatus::Approved);
    lemma_amount_in_settle(ms, p, a, MilestoneStatus::Pending);
    lemma_amount_in_settle(ms, p, a, MilestoneStatus::Approved);
    lemma_amount_in_settle(ms, p, a, MilestoneStatus::Released);
    lemma_amount_in_settle(ms, p, a, MilestoneStatus::Cancelled);
    lemma_settled_means_nothing_open(after.milestones);
}

/// The maker can cancel a well-formed active escrow, up to and at its
/// expiration, as long as a milestone is pending.
pub proof fn lemma_cancel_is_open_to_the_maker(
    escrow: EscrowStateView,
    ctx: CancelEscrow,
    now: i64,
    pending: int,
)
    requires
        escrow.well_formed(),
        escrow.status == EscrowStatus::Active,
        now <= escrow.expires_at,
        ctx.maker == escrow.maker,
        ctx.mint.key == escrow.mint,
        ctx.maker_token_account.owner == escrow.maker,
        0 <= pending < escrow.milestones.len(),
        escrow.milestones[pending].status == MilestoneStatus::Pending,
    ensures
        rejection(escrow, ctx, now) is None,
{
    lemma_cancel_keeps_well_formed(escrow);
    lemma_amount_in_holds(escrow.milestones, pending);
}

/// Once a cancellation went through, a second one is refused, whenever it
/// is asked for: nothing is pending any more.
pub proof fn lemma_cancel_only_once(
    escrow: EscrowStateView,
    ctx: CancelEscrow,
    now: i64,
    again: CancelEscrow,
    later: i64,
)
    requires
        rejection(escrow, ctx, now) is None,
    ensures
        refund(applied(escrow)) == 0,
        rejection(applied(escrow), again, later) is Some,
{
    lemma_amount_in_settle(
        escrow.milestones,
        MilestoneStatus::Cancelled,
        MilestoneStatus::Approved,
        MilestoneStatus::Pending,
    );
}

/// Takes back what is still pending. Approved milestones stay claimable, so
/// the escrow stays active while one of them is unreleased.
pub fn handler(escrow: &mut EscrowState, ctx: &CancelEscrow, now: i64) -> (r: Result<
    Outcome,
    EscrowError,
>)
    ensures
        match r {
            Ok(outcome) => {
                &&& rejection(old(escrow)@, *ctx, now) is None
                &&& final(escrow)@ == applied(old(escrow)@)
                &&& outcome.actions@ == actions(old(escrow)@)
                &&& outcome.events@ == events(old(escrow)@, *ctx)
                &&& paid(outcome.actions@) == final(escrow).refunded_amount
                    - old(escrow).refunded_amount
            },
            Err(e) => {
                &&& rejection(old(escrow)@, *ctx, now) == Some(e)
                &&& *final(escrow) == *old(escrow)
            },
        },
        old(escrow)@.well_formed() ==> final(escrow)@.well_formed(),
        old(escrow)@.precedes(final(escrow)@),
{
    if escrow.maker != ctx.maker {
        return Err(EscrowError::NotMaker);
    }
    if ctx.mint.key != escrow.mint {
        return Err(EscrowError::MintMismatch);
    }
    if ctx.maker_token_account.owner != escrow.maker {
        return Err(EscrowError::OwnerMismatch);
    }
    if escrow.status != EscrowStatus::Active {
        return Err(EscrowError::EscrowNotActive);
    }
    if now > escrow.expires_at {
        return Err(EscrowError::EscrowExpired);
    }
    let refund_amount = amount_with_status(&escrow.milestones, MilestoneStatus::Pending)?;
    if refund_amount == 0 {
        return Err(EscrowError::NoRefundableAmount);
    }
    let refunded_amount = escrow.refunded_amount.checked_add(refund_amount).ok_or(
        EscrowError::Overflow,
    )?;
    proof {
        if escrow@.well_formed() {
            lemma_cancel_keeps_well_formed(escrow@);
        }
    }
    settle_milestones(
        &mut escrow.milestones,
        MilestoneStatus::Cancelled,
        MilestoneStatus::Approved,
    );
    escrow.refunded_amount = refunded_amount;

    let mut actions: Vec<Action> = Vec::new();
    transfer_from_vault(&mut actions, Recipient::Maker, refund_amount);

    if escrow.all_milestones_settled() {
        escrow.status = EscrowStatus::Cancelled;
    }
    let mut events: Vec<Event> = Vec::new();
    events.push(
        Event::EscrowCancelled(
            EscrowCancelled { escrow: ctx.escrow_key, refunded_amount: refund_amount },
        ),
    );
    proof {
        lemma_paid_payment(Recipient::Maker, refund_amount);
    }
    Ok(Outcome { actions, events })
}

} // verus!
