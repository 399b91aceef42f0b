//! An escrow engine for milestone payments between a maker, who funds, and a
//! beneficiary, who receives, with an authority that rules on disputes.
//!
//! Each operation takes the record, the accounts it was given and the time,
//! and either refuses, leaving the record as it was, or changes the record
//! and says which actions the caller is to carry out on the custody account
//! and which notifications to emit. Every operation states when it refuses and
//! with which error, and keeps the books balanced: what was released and
//! refunded never exceeds what was funded, and a terminal escrow has
//! attributed every unit.

pub mod accounting;
pub mod accounts;
pub mod error;
pub mod events;
pub mod helpers;
pub mod history;
pub mod instructions;
pub mod state;

use crate::accounts::{paid, Action};
use crate::error::EscrowError;
use crate::events::Outcome;
use crate::instructions::approve_milestone::{self, ApproveMilestone};
use crate::instructions::cancel_escrow::{self, CancelEscrow};
use crate::instructions::claim_expired::{self, ClaimExpired};
use crate::instructions::close_escrow::{self, CloseEscrow};
use crate::instructions::create_escrow::{self, CreateEscrow};
use crate::instructions::initialize_config::{self, InitializeConfig};
use crate::instructions::initiate_dispute::{self, InitiateDispute};
use crate::instructions::mint_receipt::{self, MintReceipt};
use crate::instructions::release_milestone::{self, ReleaseMilestone};
use crate::instructions::resolve_dispute::{self, ResolveDispute};
use crate::instructions::revoke_receipt::{self, RevokeReceipt};
use crate::instructions::sync_beneficiary::{self, SyncBeneficiary};
use crate::instructions::transfer_claim::{self, TransferClaim};
use crate::instructions::update_config::{self, UpdateConfig};
use crate::state::{DisputeResolution, EscrowConfig, EscrowState, MilestoneInput, Pubkey};
use vstd::prelude::*;

verus! {

/// Makes the settings. They are well formed where the signer is not the
/// null identity.
pub fn initialize_config(ctx: &InitializeConfig, fee_bps: u16, dispute_timeout: i64) -> (r: Result<
    (EscrowConfig, Outcome),
    EscrowError,
>)
    ensures
        match r {
            Ok((config, outcome)) => {
                &&& initialize_config::rejection(*ctx, fee_bps, dispute_timeout) is None
                &&& config == initialize_config::initialized(*ctx, fee_bps, dispute_timeout)
                &&& outcome.actions@ == Seq::<Action>::empty()
                &&& outcome.events@ == initialize_config::events(*ctx, fee_bps, dispute_timeout)
                &&& !ctx.authority.null() ==> config.well_formed()
            },
            Err(e) => initialize_config::rejection(*ctx, fee_bps, dispute_timeout) == Some(e),
        },
{
    initialize_config::handler(ctx, fee_bps, dispute_timeout)
}

/// Creates an escrow: a record with every milestone pending, funded by the
/// maker with the whole amount.
pub fn create_escrow(
    ctx: &CreateEscrow,
    seed: u64,
    amount: u64,
    milestones: Vec<MilestoneInput>,
    expires_at: i64,
    now: i64,
) -> (r: Result<(EscrowState, Outcome), EscrowError>)
    ensures
        match r {
            Ok((escrow, outcome)) => {
                &&& create_escrow::rejection(*ctx, amount, milestones@, expires_at, now) is None
                &&& escrow@
                    == create_escrow::created(*ctx, seed, amount, milestones@, expires_at, now)
                &&& outcome.actions@ == create_escrow::actions(amount)
                &&& outcome.events@
                    == create_escrow::events(*ctx, seed, amount, milestones@, expires_at)
                &&& escrow@.well_formed()
            },
            Err(e) => create_escrow::rejection(*ctx, amount, milestones@, expires_at, now)
                == Some(e),
        },
{
    create_escrow::handler(ctx, seed, amount, milestones, expires_at, now)
}

/// Approves a pending milestone. No funds move.
pub fn approve_milestone(
    escrow: &mut EscrowState,
    ctx: &ApproveMilestone,
    milestone_index: u8,
    now: i64,
) -> (r: Result<Outcome, EscrowError>)
    ensures
        match r {
            Ok(outcome) => {
                &&& approve_milestone::rejection(old(escrow)@, *ctx, milestone_index, now) is None
                &&& final(escrow)@ == approve_milestone::applied(old(escrow)@, milestone_index)
                &&& outcome.actions@ == Seq::<Action>::empty()
                &&& outcome.events@ == approve_milestone::events(*ctx, milestone_index)
            },
            Err(e) => {
                &&& approve_milestone::rejection(old(escrow)@, *ctx, milestone_index, now)
                    == Some(e)
                &&& *final(escrow) == *old(escrow)
            },
        },
        old(escrow)@.well_formed() ==> final(escrow)@.well_formed(),
        old(escrow)@.precedes(final(escrow)@),
{
    approve_milestone::handler(escrow, ctx, milestone_index, now)
}

/// Pays out an approved milestone: the fee to the fee collector, the rest to
/// the beneficiary. Anyone may call it.
pub fn release_milestone(
    escrow: &mut EscrowState,
    ctx: &ReleaseMilestone,
    milestone_index: u8,
    now: i64,
) -> (r: Result<Outcome, EscrowError>)
    ensures
        match r {
            Ok(outcome) => {
                &&& release_milestone::rejection(old(escrow)@, *ctx, milestone_index, now) is None
                &&& final(escrow)@ == release_milestone::applied(old(escrow)@, milestone_index)
                &&& outcome.actions@ == release_milestone::actions(old(escrow)@, milestone_index)
                &&& outcome.events@
                    == release_milestone::events(old(escrow)@, *ctx, milestone_index)
                &&& paid(outcome.actions@) == final(escrow).released_amount
                    - old(escrow).released_amount
            },
            Err(e) => {
                &&& release_milestone::rejection(old(escrow)@, *ctx, milestone_index, now)
                    == Some(e)
                &&& *final(escrow) == *old(escrow)
            },
        },
        old(escrow)@.well_formed() ==> final(escrow)@.well_formed(),
        old(escrow)@.precedes(final(escrow)@),
{
    release_milestone::handler(escrow, ctx, milestone_index, now)
}

/// Opens a dispute on an active escrow. Later changes of the settings do not
/// touch the timeout that the dispute took with it.
pub fn initiate_dispute(
    escrow: &mut EscrowState,
    ctx: &InitiateDispute,
    reason_hash: [u8; 32],
    now: i64,
) -> (r: Result<Outcome, EscrowError>)
    ensures
        match r {
            Ok(outcome) => {
                &&& initiate_dispute::rejection(old(escrow)@, *ctx, now) is None
                &&& final(escrow)@
                    == initiate_dispute::applied(old(escrow)@, *ctx, reason_hash, now)
                &&& outcome.actions@ == Seq::<Action>::empty()
                &&& outcome.events@ == initiate_dispute::events(*ctx)
            },
            Err(e) => {
                &&& initiate_dispute::rejection(old(escrow)@, *ctx, now) == Some(e)
                &&& *final(escrow) == *old(escrow)
            },
        },
        old(escrow)@.well_formed() ==> final(escrow)@.well_formed(),
        old(escrow)@.precedes(final(escrow)@),
{
    initiate_dispute::handler(escrow, ctx, reason_hash, now)
}

/// Rules on a dispute while the time for it has not run out: everything to
/// the maker, everything to the beneficiary, or a split.
pub fn resolve_dispute(
    escrow: &mut EscrowState,
    ctx: &ResolveDispute,
    resolution: DisputeResolution,
    now: i64,
) -> (r: Result<Outcome, EscrowError>)
    ensures
        match r {
            Ok(outcome) => {
                &&& resolve_dispute::rejection(old(escrow)@, *ctx, resolution, now) is None
                &&& final(escrow)@ == resolve_dispute::applied(old(escrow)@, resolution)
                &&& outcome.actions@ == resolve_dispute::actions(old(escrow)@, resolution)
                &&& outcome.events@ == resolve_dispute::events(*ctx, resolution)
                &&& paid(outcome.actions@) == old(escrow)@.remaining()
            },
            Err(e) => {
                &&& resolve_dispute::rejection(old(escrow)@, *ctx, resolution, now) == Some(e)
                &&& *final(escrow) == *old(escrow)
            },
        },
        old(escrow)@.well_formed() ==> final(escrow)@.well_formed(),
        old(escrow)@.precedes(final(escrow)@),
{
    resolve_dispute::handler(escrow, ctx, resolution, now)
}

/// Takes back what is still pending. Approved milestones stay claimable, so
/// the escrow stays active while one of them is unreleased.
pub fn cancel_escrow(escrow: &mut EscrowState, ctx: &CancelEscrow, now: i64) -> (r: Result<
    Outcome,
    EscrowError,
>)
    ensures
        match r {
            Ok(outcome) => {
                &&& cancel_escrow::rejection(old(escrow)@, *ctx, now) is None
                &&& final(escrow)@ == cancel_escrow::applied(old(escrow)@)
                &&& outcome.actions@ == cancel_escrow::actions(old(escrow)@)
                &&& outcome.events@ == cancel_escrow::events(old(escrow)@, *ctx)
                &&& paid(outcome.actions@) == final(escrow).refunded_amount
                    - old(escrow).refunded_amount
            },
            Err(e) => {
                &&& cancel_escrow::rejection(old(escrow)@, *ctx, now) == Some(e)
                &&& *final(escrow) == *old(escrow)
            },
        },
        old(escrow)@.well_formed() ==> final(escrow)@.well_formed(),
        old(escrow)@.precedes(final(escrow)@),
{
    cancel_escrow::handler(escrow, ctx, now)
}

/// Settles an escrow that expired while active, or a dispute on which the
/// authority did not rule in time. Anyone may call it.
pub fn claim_expired(escrow: &mut EscrowState, ctx: &ClaimExpired, now: i64) -> (r: Result<
    Outcome,
    EscrowError,
>)
    ensures
        match r {
            Ok(outcome) => {
                &&& claim_expired::rejection(old(escrow)@, *ctx, now) is None
                &&& final(escrow)@ == claim_expired::applied(old(escrow)@, now)
                &&& outcome.actions@ == claim_expired::actions(old(escrow)@, now)
                &&& outcome.events@ == claim_expired::events(old(escrow)@, *ctx, now)
                &&& paid(outcome.actions@) == final(escrow).released_amount
                    - old(escrow).released_amount + final(escrow).refunded_amount
                    - old(escrow).refunded_amount
            },
            Err(e) => {
                &&& claim_expired::rejection(old(escrow)@, *ctx, now) == Some(e)
                &&& *final(escrow) == *old(escrow)
            },
        },
        old(escrow)@.well_formed() ==> final(escrow)@.well_formed(),
        old(escrow)@.precedes(final(escrow)@),
{
    claim_expired::handler(escrow, ctx, now)
}

/// Changes the settings. Escrows that exist keep the fee rate they were
/// created with, and open disputes the timeout they were opened with.
pub fn update_config(
    config: &mut EscrowConfig,
    ctx: &UpdateConfig,
    new_authority: Option<Pubkey>,
    fee_bps: Option<u16>,
    dispute_timeout: Option<i64>,
) -> (r: Result<Outcome, EscrowError>)
    ensures
        match r {
            Ok(outcome) => {
                &&& update_config::rejection(
                    *old(config),
                    *ctx,
                    new_authority,
                    fee_bps,
                    dispute_timeout,
                ) is None
                &&& *final(config) == update_config::applied(
                    *old(config),
                    *ctx,
                    new_authority,
                    fee_bps,
                    dispute_timeout,
                )
                &&& outcome.actions@ == Seq::<Action>::empty()
                &&& outcome.events@ == update_config::events(*final(config))
            },
            Err(e) => {
                &&& update_config::rejection(
                    *old(config),
                    *ctx,
                    new_authority,
                    fee_bps,
                    dispute_timeout,
                ) == Some(e)
                &&& *final(config) == *old(config)
            },
        },
        old(config).well_formed() ==> final(config).well_formed(),
{
    update_config::handler(config, ctx, new_authority, fee_bps, dispute_timeout)
}

/// Closes a terminal escrow: sweeps the custody account, closes it and
/// reclaims the record's storage for the maker.
pub fn close_escrow(escrow: &EscrowState, ctx: &CloseEscrow) -> (r: Result<Outcome, EscrowError>)
    ensures
        match r {
            Ok(outcome) => {
                &&& close_escrow::rejection(escrow@, *ctx) is None
                &&& outcome.actions@ == close_escrow::actions(*ctx)
                &&& outcome.events@ == close_escrow::events(escrow@, *ctx)
                &&& paid(outcome.actions@) == ctx.vault.amount
            },
            Err(e) => close_escrow::rejection(escrow@, *ctx) == Some(e),
        },
{
    close_escrow::handler(escrow, ctx)
}

/// Hands the claim on to another party. While a receipt is bound the claim
/// moves with the receipt instead.
pub fn transfer_claim(escrow: &mut EscrowState, ctx: &TransferClaim, now: i64) -> (r: Result<
    Outcome,
    EscrowError,
>)
    ensures
        match r {
            Ok(outcome) => {
                &&& transfer_claim::rejection(old(escrow)@, *ctx, now) is None
                &&& final(escrow)@ == transfer_claim::applied(old(escrow)@, *ctx)
                &&& outcome.actions@ == Seq::<Action>::empty()
                &&& outcome.events@ == transfer_claim::events(old(escrow)@, *ctx)
            },
            Err(e) => {
                &&& transfer_claim::rejection(old(escrow)@, *ctx, now) == Some(e)
                &&& *final(escrow) == *old(escrow)
            },
        },
        old(escrow)@.well_formed() ==> final(escrow)@.well_formed(),
        old(escrow)@.precedes(final(escrow)@),
{
    transfer_claim::handler(escrow, ctx, now)
}

/// Binds a receipt to the escrow and has exactly one unit of it minted to
/// the beneficiary. From then on the beneficiary is whoever holds the receipt,
/// and the claim can no longer be handed on directly.
pub fn mint_receipt(escrow: &mut EscrowState, ctx: &MintReceipt, now: i64) -> (r: Result<
    Outcome,
    EscrowError,
>)
    ensures
        match r {
            Ok(outcome) => {
                &&& mint_receipt::rejection(old(escrow)@, *ctx, now) is None
                &&& final(escrow)@ == mint_receipt::applied(old(escrow)@, *ctx)
                &&& outcome.actions@ == mint_receipt::actions(*ctx)
                &&& outcome.events@ == mint_receipt::events(*ctx)
            },
            Err(e) => {
                &&& mint_receipt::rejection(old(escrow)@, *ctx, now) == Some(e)
                &&& *final(escrow) == *old(escrow)
            },
        },
        old(escrow)@.well_formed() ==> final(escrow)@.well_formed(),
        old(escrow)@.precedes(final(escrow)@),
{
    mint_receipt::handler(escrow, ctx, now)
}

/// Makes the current holder of the receipt the beneficiary. It works while
/// the escrow is active or disputed, so that a receipt that changed hands
/// during a dispute does not block the ruling or the claim.
pub fn sync_beneficiary(escrow: &mut EscrowState, ctx: &SyncBeneficiary) -> (r: Result<
    Outcome,
    EscrowError,
>)
    ensures
        match r {
            Ok(outcome) => {
                &&& sync_beneficiary::rejection(old(escrow)@, *ctx) is None
                &&& final(escrow)@ == sync_beneficiary::applied(old(escrow)@, *ctx)
                &&& outcome.actions@ == Seq::<Action>::empty()
                &&& outcome.events@ == sync_beneficiary::events(old(escrow)@, *ctx)
            },
            Err(e) => {
                &&& sync_beneficiary::rejection(old(escrow)@, *ctx) == Some(e)
                &&& *final(escrow) == *old(escrow)
            },
        },
        old(escrow)@.well_formed() ==> final(escrow)@.well_formed(),
        old(escrow)@.precedes(final(escrow)@),
{
    sync_beneficiary::handler(escrow, ctx)
}

/// Unbinds a receipt that was burned, so that the claim can again be handed
/// on directly.
pub fn revoke_receipt(escrow: &mut EscrowState, ctx: &RevokeReceipt) -> (r: Result<
    Outcome,
    EscrowError,
>)
    ensures
        match r {
            Ok(outcome) => {
                &&& revoke_receipt::rejection(old(escrow)@, *ctx) is None
                &&& final(escrow)@ == revoke_receipt::applied(old(escrow)@)
                &&& outcome.actions@ == Seq::<Action>::empty()
                &&& outcome.events@ == revoke_receipt::events(*ctx)
            },
            Err(e) => {
                &&& revoke_receipt::rejection(old(escrow)@, *ctx) == Some(e)
                &&& *final(escrow) == *old(escrow)
            },
        },
        old(escrow)@.well_formed() ==> final(escrow)@.well_formed(),
        old(escrow)@.precedes(final(escrow)@),
{
    revoke_receipt::handler(escrow, ctx)
}

} // verus!
