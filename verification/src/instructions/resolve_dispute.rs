use crate::accounting::{lemma_amount_in_settle, lemma_total_by_status, settle_milestones};
use crate::accounts::{
    lemma_paid_three, paid, payment, AccountInfo, Action, MintAccount, Recipient, TokenAccount,
};
use crate::error::EscrowError;
use crate::events::{DisputeResolved, Event, Outcome};
use crate::helpers::{
    calculate_fee, fee_of, lemma_fee_within_amount, receipt_sync_rejection, transfer_from_vault,
    verify_receipt_sync,
};
use crate::state::{
    settle, Dispute, DisputeResolution, EscrowConfig, EscrowState, EscrowStateView, EscrowStatus,
    MilestoneStatus, Pubkey, MAX_BPS,
};
use vstd::prelude::*;

verus! {

/// The accounts of a ruling on a dispute. Only the authority of the settings
/// may rule.
#[derive(Clone, Debug, PartialEq, Eq)]
pub struct ResolveDispute {
    /// Who signed.
    pub authority: Pubkey,
    /// The address of the escrow record.
    pub escrow_key: Pubkey,
    pub escrow_config: EscrowConfig,
    pub mint: MintAccount,
    pub maker_token_account: TokenAccount,
    pub beneficiary_token_account: TokenAccount,
    pub fee_collector_token_account: TokenAccount,
    /// Evidence of who holds the receipt, where one is bound.
    pub remaining_accounts: Vec<AccountInfo>,
}

/// What the ruling gives back to the maker, untaxed: all that remains where
/// the maker wins, nothing where the taker wins, and the maker's basis points
/// of it, rounded down, in a split.
pub open spec fn maker_part(escrow: EscrowStateView, resolution: DisputeResolution) -> int {
    match resolution {
        DisputeResolution::MakerWins => escrow.remaining(),
        DisputeResolution::TakerWins => 0,
        DisputeResolution::Split { maker_bps } => escrow.remaining() * maker_bps / 10_000,
    }
}

/// What the ruling gives to the beneficiary's side, before the fee.
pub open spec fn taker_part(escrow: EscrowStateView, resolution: DisputeResolution) -> int {
    escrow.remaining() - maker_part(escrow, resolution)
}

/// The status in which the ruling settles every open milestone.
pub open spec fn settled_as(resolution: DisputeResolution) -> MilestoneStatus {
    match resolution {
        DisputeResolution::MakerWins => MilestoneStatus::Cancelled,
        DisputeResolution::TakerWins => MilestoneStatus::Released,
        DisputeResolution::Split { .. } => MilestoneStatus::Released,
    }
}

/// The fee on the beneficiary's part, at the rate fixed at creation.
pub open spec fn fee(escrow: EscrowStateView, resolution: DisputeResolution) -> int {
    fee_of(taker_part(escrow, resolution), escrow.fee_bps_at_creation as int)
}

/// Why the ruling is refused, if it is: the first check that fails.
pub open spec fn rejection(
    escrow: EscrowStateView,
    ctx: ResolveDispute,
    resolution: DisputeResolution,
    now: i64,
) -> Option<EscrowError> {
    if ctx.escrow_config.authority != ctx.authority {
        Some(EscrowError::NotAuthority)
    } else if ctx.mint.key != escrow.mint {
        Some(EscrowError::MintMismatch)
    } else if ctx.maker_token_account.owner != escrow.maker {
        Some(EscrowError::OwnerMismatch)
    } else if ctx.beneficiary_token_account.owner != escrow.beneficiary {
        Some(EscrowError::OwnerMismatch)
    } else if ctx.fee_collector_token_account.owner != ctx.escrow_config.fee_collector {
        Some(EscrowError::FeeCollectorMismatch)
    } else if escrow.status != EscrowStatus::Disputed {
        Some(EscrowError::DisputeNotActive)
    } else if escrow.dispute matches Some(dispute) && now > dispute.deadline() {
        Some(EscrowError::EscrowExpired)
    } else if escrow.receipt_mint is Some && receipt_sync_rejection(
        escrow,
        ctx.remaining_accounts@,
    ) is Some {
        receipt_sync_rejection(escrow, ctx.remaining_accounts@)
    } else if resolution matches DisputeResolution::Split { maker_bps } && maker_bps > MAX_BPS {
        Some(EscrowError::InvalidDisputeResolution)
    } else if escrow.remaining() < 0 {
        Some(EscrowError::Overflow)
    } else if fee(escrow, resolution) > taker_part(escrow, resolution) {
        Some(EscrowError::Overflow)
    } else {
        None
    }
}

/// The record after the ruling: every open milestone settled, all that
/// remained attributed to the maker or to the beneficiary, the ruling kept
/// with the dispute.
pub open spec fn applied(
    escrow: EscrowStateView,
    resolution: DisputeResolution,
) -> EscrowStateView {
    EscrowStateView {
        milestones: settle(escrow.milestones, settled_as(resolution), settled_as(resolution)),
        released_amount: (escrow.released_amount + taker_part(escrow, resolution)) as u64,
        refunded_amount: (escrow.refunded_amount + maker_part(escrow, resolution)) as u64,
        status: if resolution is MakerWins {
            EscrowStatus::Cancelled
        } else {
            EscrowStatus::Completed
        },
        dispute: match escrow.dispute {
            Some(dispute) => Some(Dispute { resolution: Some(resolution), ..dispute }),
            None => None,
        },
        ..escrow
    }
}

/// The payments of the ruling: the maker's part untaxed, then the
/// beneficiary's part less the fee, then the fee.
pub open spec fn actions(escrow: EscrowStateView, resolution: DisputeResolution) -> Seq<Action> {
    payment(Recipient::Maker, maker_part(escrow, resolution) as u64) + payment(
        Recipient::Beneficiary,
        (taker_part(escrow, resolution) - fee(escrow, resolution)) as u64,
    ) + payment(Recipient::FeeCollector, fee(escrow, resolution) as u64)
}

/// The notification of the ruling.
pub open spec fn events(ctx: ResolveDispute, resolution: DisputeResolution) -> Seq<Event> {
    seq![Event::DisputeResolved(DisputeResolved { escrow: ctx.escrow_key, resolution })]
}

/// In a split of at most 10000 basis points, the maker's part is between
/// nothing and all that remains.
pub proof fn lemma_parts_within_remaining(escrow: EscrowStateView, resolution: DisputeResolution)
    requires
        escrow.remaining() >= 0,
        resolution matches DisputeResolution::Split { maker_bps } ==> maker_bps <= MAX_BPS,
    ensures
        0 <= maker_part(escrow, resolution) <= escrow.remaining(),
        0 <= taker_part(escrow, resolution) <= escrow.remaining(),
{
    if let DisputeResolution::Split { maker_bps } = resolution {
        lemma_fee_within_amount(escrow.remaining(), maker_bps as int);
    }
}

/// A ruling leaves a well-formed record well formed and terminal, with every
/// unit released or refunded.
pub proof fn lemma_ruling_settles(escrow: EscrowStateView, resolution: DisputeResolution)
    requires
        escrow.well_formed(),
        escrow.status == EscrowStatus::Disputed,
        resolution matches DisputeResolution::Split { maker_bps } ==> maker_bps <= MAX_BPS,
    ensures
        applied(escrow, resolution).well_formed(),
        applied(escrow, resolution).status.terminal(),
        applied(escrow, resolution).released_amount + applied(escrow, resolution).refunded_amount
            == escrow.amount,
        escrow.precedes(applied(escrow, resolution)),
        escrow.fee_in_range() ==> fee(escrow, resolution) <= taker_part(escrow, resolution),
{
    let ms = escrow.milestones;
    let after = applied(escrow, resolution);
    lemma_total_by_status(ms);
    lemma_total_by_status(after.milestones);
    let to = settled_as(resolution);
    lemma_parts_within_remaining(escrow, resolution);
    if escrow.fee_in_range() {
        lemma_fee_within_amount(taker_part(escrow, resolution), escrow.fee_bps_at_creation as int);
    }
    lemma_amount_in_settle(ms, to, to, MilestoneStatus::Pending);
    lemma_amount_in_settle(ms, to, to, MilestoneStatus::Approved);
    lemma_amount_in_settle(ms, to, to, MilestoneStatus::Released);
    lemma_amount_in_settle(ms, to, to, MilestoneStatus::Cancelled);
}

/// The authority can rule on a well-formed disputed escrow with a fee rate
/// in range as long as the time for it has not run out: with the accounts of
/// the record, a receipt in the beneficiary's hands or none bound, and a split
/// of no more than the whole, the ruling is not refused, however large the
/// amount.
pub proof fn lemma_ruling_is_open_to_the_authority(
    escrow: EscrowStateView,
    ctx: ResolveDispute,
    resolution: DisputeResolution,
    now: i64,
)
    requires
        escrow.well_formed(),
        escrow.fee_in_range(),
        escrow.status == EscrowStatus::Disputed,
        now <= escrow.dispute.unwrap().deadline(),
        ctx.escrow_config.authority == ctx.authority,
        ctx.mint.key == escrow.mint,
        ctx.maker_token_account.owner == escrow.maker,
        ctx.beneficiary_token_account.owner == escrow.beneficiary,
        ctx.fee_collector_token_account.owner == ctx.escrow_config.fee_collector,
        escrow.receipt_mint is Some ==> receipt_sync_rejection(escrow, ctx.remaining_accounts@)
            is None,
        resolution matches DisputeResolution::Split { maker_bps } ==> maker_bps <= MAX_BPS,
    ensures
        rejection(escrow, ctx, resolution, now) is None,
{
    lemma_ruling_settles(escrow, resolution);
}

/// A ruling that is not refused pays out exactly what remained.
pub proof fn lemma_ruling_pays_what_remained(
    escrow: EscrowStateView,
    ctx: ResolveDispute,
    resolution: DisputeResolution,
    now: i64,
)
    requires
        rejection(escrow, ctx, resolution, now) is None,
    ensures
        paid(actions(escrow, resolution)) == escrow.remaining(),
        applied(escrow, resolution).released_amount + applied(escrow, resolution).refunded_amount
            == escrow.released_amount + escrow.refunded_amount + escrow.remaining(),
{
    lemma_parts_within_remaining(escrow, resolution);
    let taker = taker_part(escrow, resolution);
    assert(0 <= fee(escrow, resolution)) by (nonlinear_arith)
        requires
            0 <= taker,
            0 <= escrow.fee_bps_at_creation,
            fee(escrow, resolution) == taker * escrow.fee_bps_at_creation / 10_000,
    ;
    lemma_paid_three(
        maker_part(escrow, resolution) as u64,
        (taker - fee(escrow, resolution)) as u64,
        fee(escrow, resolution) as u64,
    );
}

/// Once a ruling went through, a second one is refused, whatever it says:
/// the escrow is no longer disputed.
pub proof fn lemma_ruling_only_once(
    escrow: EscrowStateView,
    ctx: ResolveDispute,
    resolution: DisputeResolution,
    now: i64,
    again: ResolveDispute,
    other: DisputeResolution,
    later: i64,
)
    requires
        rejection(escrow, ctx, resolution, now) is None,
    ensures
        rejection(applied(escrow, resolution), again, other, later) is Some,
{
}

/// Rules on a dispute while the time for it has not run out: everything to
/// the maker, everything to the beneficiary, or a split.
pub fn handler(
    escrow: &mut EscrowState,
    ctx: &ResolveDispute,
    resolution: DisputeResolution,
    now: i64,
) -> (r: Result<Outcome, EscrowError>)
    ensures
        match r {
            Ok(outcome) => {
                &&& rejection(old(escrow)@, *ctx, resolution, now) is None
                &&& final(escrow)@ == applied(old(escrow)@, resolution)
                &&& outcome.actions@ == actions(old(escrow)@, resolution)
                &&& outcome.events@ == events(*ctx, resolution)
                &&& paid(outcome.actions@) == old(escrow)@.remaining()
            },
            Err(e) => {
                &&& rejection(old(escrow)@, *ctx, resolution, now) == Some(e)
                &&& *final(escrow) == *old(escrow)
            },
        },
        old(escrow)@.well_formed() ==> final(escrow)@.well_formed(),
        old(escrow)@.precedes(final(escrow)@),
{
    if ctx.escrow_config.authority != ctx.authority {
        return Err(EscrowError::NotAuthority);
    }
    if ctx.mint.key != escrow.mint {
        return Err(EscrowError::MintMismatch);
    }
    if ctx.maker_token_account.owner != escrow.maker {
        return Err(EscrowError::OwnerMismatch);
    }
    if ctx.beneficiary_token_account.owner != escrow.beneficiary {
        return Err(EscrowError::OwnerMismatch);
    }
    if ctx.fee_collector_token_account.owner != ctx.escrow_config.fee_collector {
        return Err(EscrowError::FeeCollectorMismatch);
    }
    if escrow.status != EscrowStatus::Disputed {
        return Err(EscrowError::DisputeNotActive);
    }
    // The authority must rule before the dispute times out.
    if let Some(dispute) = escrow.dispute {
        // The deadline is formed in 128 bits: it may lie beyond what a time
        // can hold.
        let deadline = dispute.initiated_at as i128 + dispute.timeout as i128;
        if now as i128 > deadline {
            return Err(EscrowError::EscrowExpired);
        }
    }
    if escrow.receipt_mint.is_some() {
        verify_receipt_sync(escrow, ctx.remaining_accounts.as_slice())?;
    }
    if let DisputeResolution::Split { maker_bps } = resolution {
        if maker_bps > MAX_BPS {
            return Err(EscrowError::InvalidDisputeResolution);
        }
    }
    let remaining = escrow.amount.checked_sub(escrow.released_amount).ok_or(
        EscrowError::Overflow,
    )?.checked_sub(escrow.refunded_amount).ok_or(EscrowError::Overflow)?;
    let fee_bps = escrow.fee_bps_at_creation as u64;

    proof {
        lemma_parts_within_remaining(escrow@, resolution);
        if escrow@.well_formed() {
            lemma_ruling_settles(escrow@, resolution);
        }
    }
    let maker_amount: u64 = match resolution {
        DisputeResolution::MakerWins => remaining,
        DisputeResolution::TakerWins => 0,
        DisputeResolution::Split { maker_bps } => {
            // The product is formed in 128 bits: the share itself always fits.
            proof {
                assert(remaining * maker_bps <= 0xFFFF_FFFF_FFFF_FFFF * 0xFFFF) by (nonlinear_arith)
                    requires
                        0 <= remaining <= 0xFFFF_FFFF_FFFF_FFFF,
                        0 <= maker_bps <= 0xFFFF,
                ;
            }
            let share = (remaining as u128).checked_mul(maker_bps as u128).ok_or(
                EscrowError::Overflow,
            )?.checked_div(10_000).ok_or(EscrowError::Overflow)?;
            share as u64
        },
    };
    let taker_total = remaining.checked_sub(maker_amount).ok_or(EscrowError::Overflow)?;
    let released_amount = escrow.released_amount.checked_add(taker_total).ok_or(
        EscrowError::Overflow,
    )?;
    let refunded_amount = escrow.refunded_amount.checked_add(maker_amount).ok_or(
        EscrowError::Overflow,
    )?;
    let (fee, taker_amount) = calculate_fee(taker_total, fee_bps)?;

    match resolution {
        DisputeResolution::MakerWins => {
            settle_milestones(
                &mut escrow.milestones,
                MilestoneStatus::Cancelled,
                MilestoneStatus::Cancelled,
            );
            escrow.status = EscrowStatus::Cancelled;
        },
        DisputeResolution::TakerWins => {
            settle_milestones(
                &mut escrow.milestones,
                MilestoneStatus::Released,
                MilestoneStatus::Released,
            );
            escrow.status = EscrowStatus::Completed;
        },
        DisputeResolution::Split { .. } => {
            settle_milestones(
                &mut escrow.milestones,
                MilestoneStatus::Released,
                MilestoneStatus::Released,
            );
            escrow.status = EscrowStatus::Completed;
        },
    }
    escrow.released_amount = released_amount;
    escrow.refunded_amount = refunded_amount;
    if let Some(dispute) = escrow.dispute {
        escrow.dispute = Some(Dispute { resolution: Some(resolution), ..dispute });
    }
    let mut actions: Vec<Action> = Vec::new();
    transfer_from_vault(&mut actions, Recipient::Maker, maker_amount);
    transfer_from_vault(&mut actions, Recipient::Beneficiary, taker_amount);
    transfer_from_vault(&mut actions, Recipient::FeeCollector, fee);

    let mut events: Vec<Event> = Vec::new();
    events.push(Event::DisputeResolved(DisputeResolved { escrow: ctx.escrow_key, resolution }));
    proof {
        lemma_ruling_pays_what_remained(old(escrow)@, *ctx, resolution, now);
    }
    Ok(Outcome { actions, events })
}

} // verus!
