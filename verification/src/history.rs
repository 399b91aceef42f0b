use crate::accounting::lemma_amount_in_bounds;
use crate::error::EscrowError;
use crate::instructions::approve_milestone::{self, ApproveMilestone};
use crate::instructions::cancel_escrow::{self, CancelEscrow};
use crate::instructions::claim_expired::{self, ClaimExpired};
use crate::instructions::create_escrow::{self, CreateEscrow};
use crate::instructions::initiate_dispute::{self, InitiateDispute};
use crate::instructions::mint_receipt::{self, MintReceipt};
use crate::instructions::release_milestone::{self, ReleaseMilestone};
use crate::instructions::resolve_dispute::{self, ResolveDispute};
use crate::instructions::revoke_receipt::{self, RevokeReceipt};
use crate::instructions::sync_beneficiary::{self, SyncBeneficiary};
use crate::instructions::transfer_claim::{self, TransferClaim};
use crate::state::{
    all_settled, lemma_precedes_reflexive, lemma_precedes_transitive, total_amount,
    DisputeResolution, EscrowStateView, MilestoneInput, MilestoneStatus,
};
use vstd::prelude::*;

verus! {

/// One operation on an existing record, with everything it is given.
pub enum Operation {
    ApproveMilestone { ctx: ApproveMilestone, milestone_index: u8, now: i64 },
    ReleaseMilestone { ctx: ReleaseMilestone, milestone_index: u8, now: i64 },
    InitiateDispute { ctx: InitiateDispute, reason_hash: [u8; 32], now: i64 },
    ResolveDispute { ctx: ResolveDispute, resolution: DisputeResolution, now: i64 },
    CancelEscrow { ctx: CancelEscrow, now: i64 },
    ClaimExpired { ctx: ClaimExpired, now: i64 },
    TransferClaim { ctx: TransferClaim, now: i64 },
    MintReceipt { ctx: MintReceipt, now: i64 },
    SyncBeneficiary { ctx: SyncBeneficiary },
    RevokeReceipt { ctx: RevokeReceipt },
}

/// Why the operation is refused on this record, if it is.
pub open spec fn rejection(escrow: EscrowStateView, operation: Operation) -> Option<EscrowError> {
    match operation {
        Operation::ApproveMilestone { ctx, milestone_index, now } => approve_milestone::rejection(
            escrow,
            ctx,
            milestone_index,
            now,
        ),
        Operation::ReleaseMilestone { ctx, milestone_index, now } => release_milestone::rejection(
            escrow,
            ctx,
            milestone_index,
            now,
        ),
        Operation::InitiateDispute { ctx, now, .. } => initiate_dispute::rejection(
            escrow,
            ctx,
            now,
        ),
        Operation::ResolveDispute { ctx, resolution, now } => resolve_dispute::rejection(
            escrow,
            ctx,
            resolution,
            now,
        ),
        Operation::CancelEscrow { ctx, now } => cancel_escrow::rejection(escrow, ctx, now),
        Operation::ClaimExpired { ctx, now } => claim_expired::rejection(escrow, ctx, now),
        Operation::TransferClaim { ctx, now } => transfer_claim::rejection(escrow, ctx, now),
        Operation::MintReceipt { ctx, now } => mint_receipt::rejection(escrow, ctx, now),
        Operation::SyncBeneficiary { ctx } => sync_beneficiary::rejection(escrow, ctx),
        Operation::RevokeReceipt { ctx } => revoke_receipt::rejection(escrow, ctx),
    }
}

/// The record after the operation: changed as the operation says where it
/// goes through, untouched where it is refused.
pub open spec fn after(escrow: EscrowStateView, operation: Operation) -> EscrowStateView {
    if rejection(escrow, operation) is Some {
        escrow
    } else {
        match operation {
            Operation::ApproveMilestone { milestone_index, .. } => approve_milestone::applied(
                escrow,
                milestone_index,
            ),
            Operation::ReleaseMilestone { milestone_index, .. } => release_milestone::applied(
                escrow,
                milestone_index,
            ),
            Operation::InitiateDispute { ctx, reason_hash, now } => initiate_dispute::applied(
                escrow,
                ctx,
                reason_hash,
                now,
            ),
            Operation::ResolveDispute { resolution, .. } => resolve_dispute::applied(
                escrow,
                resolution,
            ),
            Operation::CancelEscrow { .. } => cancel_escrow::applied(escrow),
            Operation::ClaimExpired { now, .. } => claim_expired::applied(escrow, now),
            Operation::TransferClaim { ctx, .. } => transfer_claim::applied(escrow, ctx),
            Operation::MintReceipt { ctx, .. } => mint_receipt::applied(escrow, ctx),
            Operation::SyncBeneficiary { ctx } => sync_beneficiary::applied(escrow, ctx),
            Operation::RevokeReceipt { .. } => revoke_receipt::applied(escrow),
        }
    }
}

/// The record after a run of operations, in order.
pub open spec fn after_all(escrow: EscrowStateView, operations: Seq<Operation>) -> EscrowStateView
    decreases operations.len(),
{
    if operations.len() == 0 {
        escrow
    } else {
        after(after_all(escrow, operations.drop_last()), operations.last())
    }
}

/// No operation, refused or not, takes a well-formed record out of the
/// well-formed ones, or back behind where it was.
pub proof fn lemma_operation_keeps_well_formed(escrow: EscrowStateView, operation: Operation)
    requires
        escrow.well_formed(),
    ensures
        after(escrow, operation).well_formed(),
        escrow.precedes(after(escrow, operation)),
{
    if rejection(escrow, operation) is None {
        match operation {
            Operation::ApproveMilestone { milestone_index, .. } => {
                approve_milestone::lemma_approve_keeps_well_formed(escrow, milestone_index);
            },
            Operation::ReleaseMilestone { milestone_index, .. } => {
                release_milestone::lemma_release_keeps_well_formed(escrow, milestone_index);
            },
            Operation::InitiateDispute { .. } => {},
            Operation::ResolveDispute { resolution, .. } => {
                resolve_dispute::lemma_ruling_settles(escrow, resolution);
            },
            Operation::CancelEscrow { .. } => {
                lemma_amount_in_bounds(escrow.milestones, MilestoneStatus::Pending);
                cancel_escrow::lemma_cancel_keeps_well_formed(escrow);
            },
            Operation::ClaimExpired { ctx, now } => {
                claim_expired::lemma_claim_settles(escrow, ctx, now);
            },
            Operation::TransferClaim { .. } => {},
            Operation::MintReceipt { .. } => {},
            Operation::SyncBeneficiary { .. } => {},
            Operation::RevokeReceipt { .. } => {},
        }
    }
}

/// Whatever is done to a well-formed record, in whatever order and by
/// whomever, it stays well formed and keeps its fee rate. So at all times
/// what was released and refunded is no more than what was funded, the
/// milestones add up to what was funded, and once the escrow is terminal every
/// unit is released or refunded.
pub proof fn lemma_history_keeps_well_formed(escrow: EscrowStateView, operations: Seq<Operation>)
    requires
        escrow.well_formed(),
    ensures
        after_all(escrow, operations).well_formed(),
        escrow.precedes(after_all(escrow, operations)),
        after_all(escrow, operations).fee_in_range() == escrow.fee_in_range(),
        after_all(escrow, operations).released_amount + after_all(
            escrow,
            operations,
        ).refunded_amount <= escrow.amount,
        total_amount(after_all(escrow, operations).milestones) == escrow.amount,
        after_all(escrow, operations).status.terminal() ==> {
            &&& after_all(escrow, operations).released_amount + after_all(
                escrow,
                operations,
            ).refunded_amount == escrow.amount
            &&& all_settled(after_all(escrow, operations).milestones)
        },
    decreases operations.len(),
{
    if operations.len() == 0 {
        lemma_precedes_reflexive(escrow);
    } else {
        let before = after_all(escrow, operations.drop_last());
        lemma_history_keeps_well_formed(escrow, operations.drop_last());
        lemma_operation_keeps_well_formed(before, operations.last());
        lemma_precedes_transitive(escrow, before, after(before, operations.last()));
    }
}

/// Every record is well formed from its creation on, through whatever is
/// done to it afterwards, and under well-formed settings its fee rate is in
/// range.
pub proof fn lemma_well_formed_from_creation(
    ctx: CreateEscrow,
    seed: u64,
    amount: u64,
    milestones: Seq<MilestoneInput>,
    expires_at: i64,
    now: i64,
    operations: Seq<Operation>,
)
    requires
        create_escrow::rejection(ctx, amount, milestones, expires_at, now) is None,
    ensures
        after_all(
            create_escrow::created(ctx, seed, amount, milestones, expires_at, now),
            operations,
        ).well_formed(),
        ctx.escrow_config.well_formed() ==> after_all(
            create_escrow::created(ctx, seed, amount, milestones, expires_at, now),
            operations,
        ).fee_in_range(),
{
    let escrow = create_escrow::created(ctx, seed, amount, milestones, expires_at, now);
    create_escrow::lemma_created_well_formed(ctx, seed, amount, milestones, expires_at, now);
    lemma_history_keeps_well_formed(escrow, operations);
}

} // verus!
