use crate::accounting::{
    lemma_amount_in_bounds, lemma_amount_in_update, lemma_settled_means_nothing_open,
    lemma_total_by_status,
};
use crate::accounts::{
    lemma_paid_concat, lemma_paid_payment, paid, payment, AccountInfo, Action, MintAccount,
    Recipient, TokenAccount,
};
use crate::error::EscrowError;
use crate::events::{EscrowCompleted, Event, MilestoneReleased, Outcome};
use crate::helpers::{
    calculate_fee, fee_of, lemma_fee_within_amount, receipt_sync_rejection, transfer_from_vault,
    verify_receipt_sync,
};
use crate::state::{
    all_settled, EscrowConfig, EscrowState, EscrowStateView, EscrowStatus, Milestone,
    MilestoneStatus, Pubkey,
};
use vstd::prelude::*;

verus! {

/// The accounts of a release. Anyone may make it once a milestone is
/// approved.
#[derive(Clone, Debug, PartialEq, Eq)]
pub struct ReleaseMilestone {
    /// The address of the escrow record.
    pub escrow_key: Pubkey,
    pub escrow_config: EscrowConfig,
    pub mint: MintAccount,
    pub beneficiary_token_account: TokenAccount,
    pub fee_collector_token_account: TokenAccount,
    /// Evidence of who holds the receipt, where one is bound.
    pub remaining_accounts: Vec<AccountInfo>,
}

/// The fee on the milestone at `index`, at the rate fixed at creation.
pub open spec fn fee(escrow: EscrowStateView, index: int) -> int {
    fee_of(escrow.milestones[index].amount as int, escrow.fee_bps_at_creation as int)
}

/// The milestones with the one at `index` released.
pub open spec fn released(escrow: EscrowStateView, index: int) -> Seq<Milestone> {
    escrow.milestones.update(
        index,
        escrow.milestones[index].with_status(MilestoneStatus::Released),
    )
}

/// Why the release is refused, if it is: the first check that fails.
pub open spec fn rejection(
    escrow: EscrowStateView,
    ctx: ReleaseMilestone,
    milestone_index: u8,
    now: i64,
) -> Option<EscrowError> {
    let index = milestone_index as int;
    if ctx.mint.key != escrow.mint {
        Some(EscrowError::MintMismatch)
    } else if ctx.beneficiary_token_account.owner != escrow.beneficiary {
        Some(EscrowError::OwnerMismatch)
    } else if ctx.fee_collector_token_account.owner != ctx.escrow_config.fee_collector {
        Some(EscrowError::FeeCollectorMismatch)
    } else if escrow.status != EscrowStatus::Active {
        Some(EscrowError::EscrowNotActive)
    } else if now > escrow.expires_at {
        Some(EscrowError::EscrowExpired)
    } else if index >= escrow.milestones.len() {
        Some(EscrowError::MilestoneIndexOutOfBounds)
    } else if escrow.milestones[index].status != MilestoneStatus::Approved {
        Some(EscrowError::MilestoneNotApproved)
    } else if escrow.receipt_mint is Some && receipt_sync_rejection(
        escrow,
        ctx.remaining_accounts@,
    ) is Some {
        receipt_sync_rejection(escrow, ctx.remaining_accounts@)
    } else if fee(escrow, index) > escrow.milestones[index].amount {
        Some(EscrowError::Overflow)
    } else if escrow.released_amount + escrow.milestones[index].amount > u64::MAX {
        Some(EscrowError::Overflow)
    } else {
        None
    }
}

/// The record after the release: the milestone released, its whole amount
/// counted as released, and the escrow completed where no milestone is left
/// open.
pub open spec fn applied(escrow: EscrowStateView, milestone_index: u8) -> EscrowStateView {
    let index = milestone_index as int;
    EscrowStateView {
        milestones: released(escrow, index),
        released_amount: (escrow.released_amount + escrow.milestones[index].amount) as u64,
        status: if all_settled(released(escrow, index)) {
            EscrowStatus::Completed
        } else {
            escrow.status
        },
        ..escrow
    }
}

/// The payments of the release: the milestone less the fee to the
/// beneficiary, then the fee.
pub open spec fn actions(escrow: EscrowStateView, milestone_index: u8) -> Seq<Action> {
    let index = milestone_index as int;
    payment(
        Recipient::Beneficiary,
        (escrow.milestones[index].amount - fee(escrow, index)) as u64,
    ) + payment(Recipient::FeeCollector, fee(escrow, index) as u64)
}

/// The notifications of the release: the release itself, then the completion
/// where it completes the escrow.
pub open spec fn events(escrow: EscrowStateView, ctx: ReleaseMilestone, milestone_index: u8) -> Seq<
    Event,
> {
    let index = milestone_index as int;
    let release = Event::MilestoneReleased(
        MilestoneReleased {
            escrow: ctx.escrow_key,
            milestone_index,
            amount: escrow.milestones[index].amount,
            fee: fee(escrow, index) as u64,
        },
    );
    if all_settled(released(escrow, index)) {
        seq![
            release,
            Event::EscrowCompleted(
                EscrowCompleted {
                    escrow: ctx.escrow_key,
                    total_released: applied(escrow, milestone_index).released_amount,
                },
            ),
        ]
    } else {
        seq![release]
    }
}

/// Releasing an approved milestone of a well-formed active escrow leaves the
/// record well formed. The counters do not overflow, and with a fee rate in
/// range neither does the fee.
pub proof fn lemma_release_keeps_well_formed(escrow: EscrowStateView, milestone_index: u8)
    requires
        escrow.well_formed(),
        escrow.status == EscrowStatus::Active,
        milestone_index < escrow.milestones.len(),
        escrow.milestones[milestone_index as int].status == MilestoneStatus::Approved,
    ensures
        escrow.fee_in_range() ==> fee(escrow, milestone_index as int)
            <= escrow.milestones[milestone_index as int].amount,
        escrow.released_amount + escrow.milestones[milestone_index as int].amount
            + escrow.refunded_amount <= escrow.amount,
        applied(escrow, milestone_index).well_formed(),
{
    let index = milestone_index as int;
    let ms = escrow.milestones;
    let after = applied(escrow, milestone_index);
    lemma_total_by_status(ms);
    lemma_total_by_status(after.milestones);
    if escrow.fee_in_range() {
        lemma_fee_within_amount(ms[index].amount as int, escrow.fee_bps_at_creation as int);
    }
    lemma_amount_in_update(ms, index, MilestoneStatus::Released, MilestoneStatus::Pending);
    lemma_amount_in_update(ms, index, MilestoneStatus::Released, MilestoneStatus::Approved);
    lemma_amount_in_update(ms, index, MilestoneStatus::Released, MilestoneStatus::Released);
    lemma_amount_in_update(ms, index, MilestoneStatus::Released, MilestoneStatus::Cancelled);
    lemma_amount_in_bounds(after.milestones, MilestoneStatus::Pending);
    lemma_amount_in_bounds(after.milestones, MilestoneStatus::Approved);
    lemma_settled_means_nothing_open(after.milestones);
}

/// Anyone who brings the accounts of the record can release an approved
/// milestone of a well-formed active escrow with a fee rate in range, up to
/// and at its expiration: with a receipt in the beneficiary's hands, or none
/// bound, the release is not refused.
pub proof fn lemma_release_is_open_to_all(
    escrow: EscrowStateView,
    ctx: ReleaseMilestone,
    milestone_index: u8,
    now: i64,
)
    requires
        escrow.well_formed(),
        escrow.fee_in_range(),
        escrow.status == EscrowStatus::Active,
        now <= escrow.expires_at,
        milestone_index < escrow.milestones.len(),
        escrow.milestones[milestone_index as int].status == MilestoneStatus::Approved,
        ctx.mint.key == escrow.mint,
        ctx.beneficiary_token_account.owner == escrow.beneficiary,
        ctx.fee_collector_token_account.owner == ctx.escrow_config.fee_collector,
        escrow.receipt_mint is Some ==> receipt_sync_rejection(escrow, ctx.remaining_accounts@)
            is None,
    ensures
        rejection(escrow, ctx, milestone_index, now) is None,
{
    lemma_release_keeps_well_formed(escrow, milestone_index);
}

/// Once a release went through, a second release of the same milestone is
/// refused, whoever asks for it and whenever: the milestone is no longer
/// approved. With accounts that still match the record, the refusal is one of
/// the guards on the record's state.
pub proof fn lemma_release_only_once(
    escrow: EscrowStateView,
    ctx: ReleaseMilestone,
    milestone_index: u8,
    now: i64,
    again: ReleaseMilestone,
    later: i64,
)
    requires
        rejection(escrow, ctx, milestone_index, now) is None,
    ensures
        rejection(applied(escrow, milestone_index), again, milestone_index, later) is Some,
        again.mint.key == escrow.mint && again.beneficiary_token_account.owner
            == escrow.beneficiary && again.fee_collector_token_account.owner
            == again.escrow_config.fee_collector ==> {
            let refusal = rejection(
                applied(escrow, milestone_index),
                again,
                milestone_index,
                later,
            );
            ||| refusal == Some(EscrowError::EscrowNotActive)
            ||| refusal == Some(EscrowError::EscrowExpired)
            ||| refusal == Some(EscrowError::MilestoneNotApproved)
        },
{
}

/// A release that is not refused pays out exactly the milestone's amount.
pub proof fn lemma_release_pays_the_milestone(
    escrow: EscrowStateView,
    ctx: ReleaseMilestone,
    milestone_index: u8,
    now: i64,
)
    requires
        rejection(escrow, ctx, milestone_index, now) is None,
    ensures
        paid(actions(escrow, milestone_index))
            == escrow.milestones[milestone_index as int].amount,
        applied(escrow, milestone_index).released_amount == escrow.released_amount
            + escrow.milestones[milestone_index as int].amount,
{
    let index = milestone_index as int;
    let amount = escrow.milestones[index].amount;
    assert(0 <= fee(escrow, index)) by (nonlinear_arith)
        requires
            0 <= amount,
            0 <= escrow.fee_bps_at_creation,
            fee(escrow, index) == amount * escrow.fee_bps_at_creation / 10_000,
    ;
    let to_beneficiary = payment(Recipient::Beneficiary, (amount - fee(escrow, index)) as u64);
    let to_fee_collector = payment(Recipient::FeeCollector, fee(escrow, index) as u64);
    lemma_paid_payment(Recipient::Beneficiary, (amount - fee(escrow, index)) as u64);
    lemma_paid_payment(Recipient::FeeCollector, fee(escrow, index) as u64);
    lemma_paid_concat(to_beneficiary, to_fee_collector);
}

/// Pays out an approved milestone: the fee to the fee collector, the rest to
/// the beneficiary. Anyone may call it.
pub fn handler(
    escrow: &mut EscrowState,
    ctx: &ReleaseMilestone,
    milestone_index: u8,
    now: i64,
) -> (r: Result<Outcome, EscrowError>)
    ensures
        match r {
            Ok(outcome) => {
                &&& rejection(old(escrow)@, *ctx, milestone_index, now) is None
                &&& final(escrow)@ == applied(old(escrow)@, milestone_index)
                &&& outcome.actions@ == actions(old(escrow)@, milestone_index)
                &&& outcome.events@ == events(old(escrow)@, *ctx, milestone_index)
                &&& paid(outcome.actions@) == final(escrow).released_amount
                    - old(escrow).released_amount
            },
            Err(e) => {
                &&& rejection(old(escrow)@, *ctx, milestone_index, now) == Some(e)
                &&& *final(escrow) == *old(escrow)
            },
        },
        old(escrow)@.well_formed() ==> final(escrow)@.well_formed(),
        old(escrow)@.precedes(final(escrow)@),
{
    if ctx.mint.key != escrow.mint {
        return Err(EscrowError::MintMismatch);
    }
    if ctx.beneficiary_token_account.owner != escrow.beneficiary {
        return Err(EscrowError::OwnerMismatch);
    }
    if ctx.fee_collector_token_account.owner != ctx.escrow_config.fee_collector {
        return Err(EscrowError::FeeCollectorMismatch);
    }
    if escrow.status != EscrowStatus::Active {
        return Err(EscrowError::EscrowNotActive);
    }
    if now > escrow.expires_at {
        return Err(EscrowError::EscrowExpired);
    }
    let idx = milestone_index as usize;
    if idx >= escrow.milestones.len() {
        return Err(EscrowError::MilestoneIndexOutOfBounds);
    }
    if escrow.milestones[idx].status != MilestoneStatus::Approved {
        return Err(EscrowError::MilestoneNotApproved);
    }
    if escrow.receipt_mint.is_some() {
        verify_receipt_sync(escrow, ctx.remaining_accounts.as_slice())?;
    }
    proof {
        if escrow@.well_formed() {
            lemma_release_keeps_well_formed(escrow@, milestone_index);
        }
    }
    let milestone_amount = escrow.milestones[idx].amount;
    let (fee, taker_amount) = calculate_fee(milestone_amount, escrow.fee_bps_at_creation as u64)?;
    let released_amount = escrow.released_amount.checked_add(milestone_amount).ok_or(
        EscrowError::Overflow,
    )?;
    escrow.milestones[idx].status = MilestoneStatus::Released;
    escrow.released_amount = released_amount;

    let mut actions: Vec<Action> = Vec::new();
    transfer_from_vault(&mut actions, Recipient::Beneficiary, taker_amount);
    transfer_from_vault(&mut actions, Recipient::FeeCollector, fee);

    let mut events: Vec<Event> = Vec::new();
    events.push(
        Event::MilestoneReleased(
            MilestoneReleased {
                escrow: ctx.escrow_key,
                milestone_index,
                amount: milestone_amount,
                fee,
            },
        ),
    );
    if escrow.all_milestones_settled() {
        escrow.status = EscrowStatus::Completed;
        events.push(
            Event::EscrowCompleted(
                EscrowCompleted {
                    escrow: ctx.escrow_key,
                    total_released: escrow.released_amount,
                },
            ),
        );
    }
    proof {
        lemma_release_pays_the_milestone(old(escrow)@, *ctx, milestone_index, now);
    }
    Ok(Outcome { actions, events })
}

} // verus!
