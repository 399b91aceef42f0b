use crate::accounting::{
    amount_with_status, lemma_amount_in_bounds, lemma_amount_in_settle,
    lemma_settled_means_nothing_open, lemma_total_by_status, settle_milestones,
};
use crate::accounts::{
    lemma_paid_three, paid, payment, AccountInfo, Action, MintAccount, Recipient, TokenAccount,
};
use crate::error::EscrowError;
use crate::events::{Event, ExpiredFundsClaimed, Outcome};
use crate::helpers::{
    calculate_fee, fee_of, lemma_fee_within_amount, receipt_sync_rejection, transfer_from_vault,
    verify_receipt_sync,
};
use crate::state::{
    amount_in, settle, EscrowConfig, EscrowState, EscrowStateView, EscrowStatus, MilestoneStatus,
    Pubkey,
};
use vstd::prelude::*;

verus! {

/// The accounts of a claim on an expired escrow or a timed-out dispute.
/// Anyone may make it.
#[derive(Clone, Debug, PartialEq, Eq)]
pub struct ClaimExpired {
    /// The address of the escrow record.
    pub escrow_key: Pubkey,
    pub escrow_config: EscrowConfig,
    pub mint: MintAccount,
    pub maker_token_account: TokenAccount,
    pub beneficiary_token_account: TokenAccount,
    pub fee_collector_token_account: TokenAccount,
    /// Evidence of who holds the receipt, where one is bound.
    pub remaining_accounts: Vec<AccountInfo>,
}

/// The escrow is active and its expiration has passed.
pub open spec fn active_expired(escrow: EscrowStateView, now: i64) -> bool {
    escrow.status == EscrowStatus::Active && now > escrow.expires_at
}

/// The escrow is disputed and the time for a ruling has run out.
pub open spec fn dispute_timed_out(escrow: EscrowStateView, now: i64) -> bool {
    &&& escrow.status == EscrowStatus::Disputed
    &&& escrow.dispute matches Some(dispute)
    &&& now > dispute.deadline()
}

/// The maker's half of what remains after a timed-out dispute, rounded down.
pub open spec fn maker_share(escrow: EscrowStateView) -> int {
    escrow.remaining() / 2
}

/// The beneficiary's half, before the fee: what the maker's half leaves.
pub open spec fn taker_share(escrow: EscrowStateView) -> int {
    escrow.remaining() - maker_share(escrow)
}

/// What is owed to the beneficiary's side, before the fee: the approved
/// milestones of an expired escrow, or the taker's half after a dispute.
pub open spec fn earned(escrow: EscrowStateView, now: i64) -> int {
    if active_expired(escrow, now) {
        amount_in(escrow.milestones, MilestoneStatus::Approved)
    } else {
        taker_share(escrow)
    }
}

/// What goes back to the maker: the pending milestones of an expired escrow,
/// or the maker's half after a dispute.
pub open spec fn returned(escrow: EscrowStateView, now: i64) -> int {
    if active_expired(escrow, now) {
        amount_in(escrow.milestones, MilestoneStatus::Pending)
    } else {
        maker_share(escrow)
    }
}

/// Some sum of the settlement does not fit, or the fee exceeds what it is
/// taken from.
pub open spec fn settlement_overflows(escrow: EscrowStateView, now: i64) -> bool {
    ||| amount_in(escrow.milestones, MilestoneStatus::Approved) > u64::MAX
    ||| amount_in(escrow.milestones, MilestoneStatus::Pending) > u64::MAX
    ||| escrow.released_amount + earned(escrow, now) > u64::MAX
    ||| escrow.refunded_amount + returned(escrow, now) > u64::MAX
    ||| fee_of(earned(escrow, now), escrow.fee_bps_at_creation as int) > earned(escrow, now)
}

/// Why the claim is refused, if it is: the first check that fails.
pub open spec fn rejection(escrow: EscrowStateView, ctx: ClaimExpired, now: i64) -> Option<
    EscrowError,
> {
    if ctx.mint.key != escrow.mint {
        Some(EscrowError::MintMismatch)
    } else if ctx.maker_token_account.owner != escrow.maker {
        Some(EscrowError::OwnerMismatch)
    } else if ctx.beneficiary_token_account.owner != escrow.beneficiary {
        Some(EscrowError::OwnerMismatch)
    } else if ctx.fee_collector_token_account.owner != ctx.escrow_config.fee_collector {
        Some(EscrowError::FeeCollectorMismatch)
    } else if !active_expired(escrow, now) && !dispute_timed_out(escrow, now) {
        Some(EscrowError::EscrowNotExpired)
    } else if escrow.remaining() < 0 {
        Some(EscrowError::Overflow)
    } else if escrow.remaining() == 0 {
        Some(EscrowError::NoRefundableAmount)
    } else if escrow.receipt_mint is Some && receipt_sync_rejection(
        escrow,
        ctx.remaining_accounts@,
    ) is Some {
        receipt_sync_rejection(escrow, ctx.remaining_accounts@)
    } else if settlement_overflows(escrow, now) {
        Some(EscrowError::Overflow)
    } else {
        None
    }
}

/// The record after the claim. An expired escrow pays its approved
/// milestones and refunds its pending ones. A timed-out dispute cancels every
/// open milestone and splits what remains in two.
pub open spec fn applied(escrow: EscrowStateView, now: i64) -> EscrowStateView {
    EscrowStateView {
        milestones: if active_expired(escrow, now) {
            settle(escrow.milestones, MilestoneStatus::Cancelled, MilestoneStatus::Released)
        } else {
            settle(escrow.milestones, MilestoneStatus::Cancelled, MilestoneStatus::Cancelled)
        },
        released_amount: (escrow.released_amount + earned(escrow, now)) as u64,
        refunded_amount: (escrow.refunded_amount + returned(escrow, now)) as u64,
        status: EscrowStatus::Expired,
        ..escrow
    }
}

/// The payments of the claim: the maker's part untaxed, then the
/// beneficiary's part less the fee, then the fee.
pub open spec fn actions(escrow: EscrowStateView, now: i64) -> Seq<Action> {
    let fee = fee_of(earned(escrow, now), escrow.fee_bps_at_creation as int);
    payment(Recipient::Maker, returned(escrow, now) as u64) + payment(
        Recipient::Beneficiary,
        (earned(escrow, now) - fee) as u64,
    ) + payment(Recipient::FeeCollector, fee as u64)
}

/// The notification of the claim, with the breakdown of what was settled.
pub open spec fn events(escrow: EscrowStateView, ctx: ClaimExpired, now: i64) -> Seq<Event> {
    let expired = active_expired(escrow, now);
    seq![
        Event::ExpiredFundsClaimed(
            ExpiredFundsClaimed {
                escrow: ctx.escrow_key,
                amount: escrow.remaining() as u64,
                approved_released: if expired {
                    earned(escrow, now) as u64
                } else {
                    0
                },
                pending_refunded: if expired {
                    returned(escrow, now) as u64
                } else {
                    0
                },
                dispute_maker_share: if expired {
                    0
                } else {
                    returned(escrow, now) as u64
                },
                dispute_taker_share: if expired {
                    0
                } else {
                    earned(escrow, now) as u64
                },
            },
        ),
    ]
}

/// A claim leaves a well-formed record well formed and terminal, with every
/// unit released or refunded. There is always something to pay, and with a fee
/// rate in range nothing overflows.
pub proof fn lemma_claim_settles(escrow: EscrowStateView, ctx: ClaimExpired, now: i64)
    requires
        escrow.well_formed(),
        active_expired(escrow, now) || dispute_timed_out(escrow, now),
    ensures
        escrow.remaining() > 0,
        escrow.fee_in_range() ==> !settlement_overflows(escrow, now),
        applied(escrow, now).well_formed(),
        applied(escrow, now).released_amount + applied(escrow, now).refunded_amount
            == escrow.amount,
        escrow.precedes(applied(escrow, now)),
        escrow.released_amount + escrow.refunded_amount + earned(escrow, now) + returned(
            escrow,
            now,
        ) == escrow.amount,
{
    let ms = escrow.milestones;
    let after = applied(escrow, now);
    lemma_total_by_status(ms);
    lemma_total_by_status(after.milestones);
    lemma_settled_means_nothing_open(ms);
    lemma_amount_in_bounds(ms, MilestoneStatus::Pending);
    lemma_amount_in_bounds(ms, MilestoneStatus::Approved);
    if escrow.fee_in_range() {
        lemma_fee_within_amount(earned(escrow, now), escrow.fee_bps_at_creation as int);
    }
    let (p, a) = if active_expired(escrow, now) {
        (MilestoneStatus::Cancelled, MilestoneStatus::Released)
    } else {
        (MilestoneStatus::Cancelled, MilestoneStatus::Cancelled)
    };
    lemma_amount_in_settle(ms, p, a, MilestoneStatus::Pending);
    lemma_amount_in_settle(ms, p, a, MilestoneStatus::Approved);
    lemma_amount_in_settle(ms, p, a, MilestoneStatus::Released);
    lemma_amount_in_settle(ms, p, a, MilestoneStatus::Cancelled);
}

/// Anyone who brings the accounts of the record can settle a well-formed
/// escrow with a fee rate in range once it has expired, or once its dispute
/// has timed out, whatever the authority did or did not do: with a receipt in
/// the beneficiary's hands, or none bound, the claim is not refused.
pub proof fn lemma_claim_is_open_to_all(escrow: EscrowStateView, ctx: ClaimExpired, now: i64)
    requires
        escrow.well_formed(),
        escrow.fee_in_range(),
        active_expired(escrow, now) || dispute_timed_out(escrow, now),
        ctx.mint.key == escrow.mint,
        ctx.maker_token_account.owner == escrow.maker,
        ctx.beneficiary_token_account.owner == escrow.beneficiary,
        ctx.fee_collector_token_account.owner == ctx.escrow_config.fee_collector,
        escrow.receipt_mint is Some ==> receipt_sync_rejection(escrow, ctx.remaining_accounts@)
            is None,
    ensures
        rejection(escrow, ctx, now) is None,
{
    lemma_claim_settles(escrow, ctx, now);
}

/// A claim that is not refused pays out exactly what it newly counts as
/// released and refunded.
pub proof fn lemma_claim_pays_what_it_settles(
    escrow: EscrowStateView,
    ctx: ClaimExpired,
    now: i64,
)
    requires
        rejection(escrow, ctx, now) is None,
    ensures
        paid(actions(escrow, now)) == earned(escrow, now) + returned(escrow, now),
        applied(escrow, now).released_amount == escrow.released_amount + earned(escrow, now),
        applied(escrow, now).refunded_amount == escrow.refunded_amount + returned(escrow, now),
{
    let fee = fee_of(earned(escrow, now), escrow.fee_bps_at_creation as int);
    lemma_amount_in_bounds(escrow.milestones, MilestoneStatus::Pending);
    lemma_amount_in_bounds(escrow.milestones, MilestoneStatus::Approved);
    assert(0 <= fee) by (nonlinear_arith)
        requires
            0 <= earned(escrow, now),
            0 <= escrow.fee_bps_at_creation,
            fee == earned(escrow, now) * escrow.fee_bps_at_creation / 10_000,
    ;
    lemma_paid_three(
        returned(escrow, now) as u64,
        (earned(escrow, now) - fee) as u64,
        fee as u64,
    );
}

/// Once a claim went through, a second one is refused: the escrow is
/// neither active nor disputed any more.
pub proof fn lemma_claim_only_once(
    escrow: EscrowStateView,
    ctx: ClaimExpired,
    now: i64,
    again: ClaimExpired,
    later: i64,
)
    requires
        rejection(escrow, ctx, now) is None,
    ensures
        rejection(applied(escrow, now), again, later) is Some,
{
}

/// Settles an escrow that expired while active, or a dispute on which the
/// authority did not rule in time. Anyone may call it.
pub fn handler(escrow: &mut EscrowState, ctx: &ClaimExpired, now: i64) -> (r: Result<
    Outcome,
    EscrowError,
>)
    ensures
        match r {
            Ok(outcome) => {
                &&& rejection(old(escrow)@, *ctx, now) is None
                &&& final(escrow)@ == applied(old(escrow)@, now)
                &&& outcome.actions@ == actions(old(escrow)@, now)
                &&& outcome.events@ == events(old(escrow)@, *ctx, now)
                &&& paid(outcome.actions@) == final(escrow).released_amount
                    - old(escrow).released_amount + final(escrow).refunded_amount
                    - old(escrow).refunded_amount
            },
            Err(e) => {
                &&& rejection(old(escrow)@, *ctx, now) == Some(e)
                &&& *final(escrow) == *old(escrow)
            },
        },
        old(escrow)@.well_formed() ==> final(escrow)@.well_formed(),
        old(escrow)@.precedes(final(escrow)@),
{
    if ctx.mint.key != escrow.mint {
        return Err(EscrowError::MintMismatch);
    }
    if ctx.maker_token_account.owner != escrow.maker {
        return Err(EscrowError::OwnerMismatch);
    }
    if ctx.beneficiary_token_account.owner != escrow.beneficiary {
        return Err(EscrowError::OwnerMismatch);
    }
    if ctx.fee_collector_token_account.owner != ctx.escrow_config.fee_collector {
        return Err(EscrowError::FeeCollectorMismatch);
    }
    let is_active_expired = escrow.status == EscrowStatus::Active && now > escrow.expires_at;
    // The deadline is formed in 128 bits: it may lie beyond what a time can hold.
    let is_dispute_timed_out = escrow.status == EscrowStatus::Disputed && match escrow.dispute {
        Some(dispute) => now as i128 > dispute.initiated_at as i128 + dispute.timeout as i128,
        None => false,
    };
    if !(is_active_expired || is_dispute_timed_out) {
        return Err(EscrowError::EscrowNotExpired);
    }
    proof {
        if escrow@.well_formed() {
            lemma_claim_settles(escrow@, *ctx, now);
        }
    }
    let remaining = escrow.amount.checked_sub(escrow.released_amount).ok_or(
        EscrowError::Overflow,
    )?.checked_sub(escrow.refunded_amount).ok_or(EscrowError::Overflow)?;
    if remaining == 0 {
        return Err(EscrowError::NoRefundableAmount);
    }
    if escrow.receipt_mint.is_some() {
        verify_receipt_sync(escrow, ctx.remaining_accounts.as_slice())?;
    }
    let approved_amount = amount_with_status(&escrow.milestones, MilestoneStatus::Approved)?;
    let pending_amount = amount_with_status(&escrow.milestones, MilestoneStatus::Pending)?;
    let fee_bps = escrow.fee_bps_at_creation as u64;

    let maker_amount: u64;
    let taker_total: u64;
    if is_active_expired {
        maker_amount = pending_amount;
        taker_total = approved_amount;
    } else {
        maker_amount = remaining / 2;
        taker_total = remaining - maker_amount;
    }
    let released_amount = escrow.released_amount.checked_add(taker_total).ok_or(
        EscrowError::Overflow,
    )?;
    let refunded_amount = escrow.refunded_amount.checked_add(maker_amount).ok_or(
        EscrowError::Overflow,
    )?;
    let (fee, beneficiary_net) = calculate_fee(taker_total, fee_bps)?;

    if is_active_expired {
        settle_milestones(
            &mut escrow.milestones,
            MilestoneStatus::Cancelled,
            MilestoneStatus::Released,
        );
    } else {
        settle_milestones(
            &mut escrow.milestones,
            MilestoneStatus::Cancelled,
            MilestoneStatus::Cancelled,
        );
    }
    escrow.released_amount = released_amount;
    escrow.refunded_amount = refunded_amount;
    escrow.status = EscrowStatus::Expired;

    let mut actions: Vec<Action> = Vec::new();
    transfer_from_vault(&mut actions, Recipient::Maker, maker_amount);
    transfer_from_vault(&mut actions, Recipient::Beneficiary, beneficiary_net);
    transfer_from_vault(&mut actions, Recipient::FeeCollector, fee);

    let mut events: Vec<Event> = Vec::new();
    events.push(
        Event::ExpiredFundsClaimed(
            ExpiredFundsClaimed {
                escrow: ctx.escrow_key,
                amount: remaining,
                approved_released: if is_active_expired {
                    approved_amount
                } else {
                    0
                },
                pending_refunded: if is_active_expired {
                    pending_amount
                } else {
                    0
                },
                dispute_maker_share: if is_active_expired {
                    0
                } else {
                    maker_amount
                },
                dispute_taker_share: if is_active_expired {
                    0
                } else {
                    taker_total
                },
            },
        ),
    );
    proof {
        lemma_claim_pays_what_it_settles(old(escrow)@, *ctx, now);
    }
    Ok(Outcome { actions, events })
}

} // verus!
