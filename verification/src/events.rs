use crate::accounts::Action;
use crate::state::{DisputeResolution, Pubkey};
use vstd::prelude::*;

verus! {

/// An escrow was created and funded.
#[derive(Clone, Copy, Debug, PartialEq, Eq)]
pub struct EscrowCreated {
    pub maker: Pubkey,
    pub taker: Pubkey,
    pub mint: Pubkey,
    pub amount: u64,
    pub seed: u64,
    pub milestones_count: u8,
    pub expires_at: i64,
}

/// The maker approved a milestone.
#[derive(Clone, Copy, Debug, PartialEq, Eq)]
pub struct MilestoneApproved {
    pub escrow: Pubkey,
    pub milestone_index: u8,
}

/// An approved milestone was paid out.
#[derive(Clone, Copy, Debug, PartialEq, Eq)]
pub struct MilestoneReleased {
    pub escrow: Pubkey,
    pub milestone_index: u8,
    pub amount: u64,
    pub fee: u64,
}

/// A party opened a dispute.
#[derive(Clone, Copy, Debug, PartialEq, Eq)]
pub struct DisputeInitiated {
    pub escrow: Pubkey,
    pub initiator: Pubkey,
}

/// The authority ruled on a dispute.
#[derive(Clone, Copy, Debug, PartialEq, Eq)]
pub struct DisputeResolved {
    pub escrow: Pubkey,
    pub resolution: DisputeResolution,
}

/// The maker took back what was still pending.
#[derive(Clone, Copy, Debug, PartialEq, Eq)]
pub struct EscrowCancelled {
    pub escrow: Pubkey,
    pub refunded_amount: u64,
}

/// Every milestone is settled after a release.
#[derive(Clone, Copy, Debug, PartialEq, Eq)]
pub struct EscrowCompleted {
    pub escrow: Pubkey,
    pub total_released: u64,
}

/// An expired escrow or a timed-out dispute was settled.
#[derive(Clone, Copy, Debug, PartialEq, Eq)]
pub struct ExpiredFundsClaimed {
    pub escrow: Pubkey,
    pub amount: u64,
    pub approved_released: u64,
    pub pending_refunded: u64,
    pub dispute_maker_share: u64,
    pub dispute_taker_share: u64,
}

/// The beneficiary handed the claim on.
#[derive(Clone, Copy, Debug, PartialEq, Eq)]
pub struct ClaimTransferred {
    pub escrow: Pubkey,
    pub from: Pubkey,
    pub to: Pubkey,
}

/// A receipt was minted to the beneficiary.
#[derive(Clone, Copy, Debug, PartialEq, Eq)]
pub struct ReceiptMinted {
    pub escrow: Pubkey,
    pub mint: Pubkey,
    pub beneficiary: Pubkey,
}

/// The beneficiary was set to the receipt's holder.
#[derive(Clone, Copy, Debug, PartialEq, Eq)]
pub struct BeneficiarySynced {
    pub escrow: Pubkey,
    pub old_beneficiary: Pubkey,
    pub new_beneficiary: Pubkey,
}

/// A burned receipt was unbound from its escrow.
#[derive(Clone, Copy, Debug, PartialEq, Eq)]
pub struct ReceiptRevoked {
    pub escrow: Pubkey,
    pub receipt_mint: Pubkey,
}

/// The settings were created.
#[derive(Clone, Copy, Debug, PartialEq, Eq)]
pub struct ConfigInitialized {
    pub authority: Pubkey,
    pub fee_bps: u16,
    pub fee_collector: Pubkey,
    pub dispute_timeout: i64,
}

/// The settings were changed.
#[derive(Clone, Copy, Debug, PartialEq, Eq)]
pub struct ConfigUpdated {
    pub authority: Pubkey,
    pub fee_bps: u16,
    pub fee_collector: Pubkey,
    pub dispute_timeout: i64,
}

/// A terminal escrow was closed.
#[derive(Clone, Copy, Debug, PartialEq, Eq)]
pub struct EscrowClosed {
    pub escrow: Pubkey,
    pub maker: Pubkey,
}

/// Any one notification.
#[derive(Clone, Copy, Debug, PartialEq, Eq)]
pub enum Event {
    EscrowCreated(EscrowCreated),
    MilestoneApproved(MilestoneApproved),
    MilestoneReleased(MilestoneReleased),
    DisputeInitiated(DisputeInitiated),
    DisputeResolved(DisputeResolved),
    EscrowCancelled(EscrowCancelled),
    EscrowCompleted(EscrowCompleted),
    ExpiredFundsClaimed(ExpiredFundsClaimed),
    ClaimTransferred(ClaimTransferred),
    ReceiptMinted(ReceiptMinted),
    BeneficiarySynced(BeneficiarySynced),
    ReceiptRevoked(ReceiptRevoked),
    ConfigInitialized(ConfigInitialized),
    ConfigUpdated(ConfigUpdated),
    EscrowClosed(EscrowClosed),
}

/// What a successful operation asks of its caller: the actions to carry
/// out, in order, and the notifications to emit, in order.
#[derive(Clone, Debug, PartialEq, Eq)]
pub struct Outcome {
    pub actions: Vec<Action>,
    pub events: Vec<Event>,
}

} // verus!
