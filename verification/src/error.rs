use vstd::prelude::*;

verus! {

/// Every way an escrow operation can be refused.
#[derive(Clone, Copy, Debug, PartialEq, Eq, Structural)]
pub enum EscrowError {
    /// Signer is not a party (maker, taker, or beneficiary) of this escrow.
    NotEscrowParty,
    /// Signer is not the maker of this escrow.
    NotMaker,
    /// Signer is not the config authority.
    NotAuthority,
    /// Signer is not the current beneficiary.
    NotBeneficiary,
    /// Token mint does not match escrow mint.
    MintMismatch,
    /// Token account owner does not match expected owner.
    OwnerMismatch,
    /// Fee collector token account does not match config.
    FeeCollectorMismatch,
    /// Fee rate must be <= 10000 basis points.
    InvalidFeeRate,
    /// Milestone count must be between 1 and 5.
    InvalidMilestoneCount,
    /// Milestone index out of bounds.
    MilestoneIndexOutOfBounds,
    /// Sum of milestone amounts must equal total escrow amount.
    MilestoneAmountMismatch,
    /// Expiration must be in the future.
    InvalidExpiration,
    /// Escrow is not in Active status.
    EscrowNotActive,
    /// Escrow has expired.
    EscrowExpired,
    /// Milestone is not in Pending status.
    MilestoneNotPending,
    /// Milestone is not in Approved status.
    MilestoneNotApproved,
    /// A dispute is already active on this escrow.
    DisputeAlreadyActive,
    /// No active dispute on this escrow.
    DisputeNotActive,
    /// Invalid dispute resolution: split basis points must be <= 10000.
    InvalidDisputeResolution,
    /// Escrow has not expired yet.
    EscrowNotExpired,
    /// No refundable amount available.
    NoRefundableAmount,
    /// Arithmetic overflow.
    Overflow,
    /// Escrow must be in a terminal state (Completed, Cancelled, or Expired).
    EscrowNotTerminal,
    /// Escrow amount must be greater than zero.
    InvalidAmount,
    /// Dispute timeout must be greater than zero.
    InvalidDisputeTimeout,
    /// Maker and taker cannot be the same address.
    SelfEscrow,
    /// Cannot transfer claim to maker or zero address.
    InvalidBeneficiary,
    /// Extended mints (with transfer fees) are not supported.
    ExtendedMintNotSupported,
    /// Authority cannot be set to the zero address.
    InvalidAuthority,
    /// Fee collector cannot be the zero address.
    InvalidFeeCollector,
    /// A receipt has already been minted for this escrow.
    ReceiptAlreadyMinted,
    /// Insufficient token balance to fund the escrow.
    InsufficientBalance,
    /// A receipt exists: the claim moves with the receipt, not by direct transfer.
    ReceiptExists,
    /// Beneficiary is already synced with the current receipt holder.
    BeneficiaryAlreadySynced,
    /// Receipt token account holder is invalid (must not be maker or zero address).
    InvalidReceiptHolder,
    /// Beneficiary is not synced with the current receipt holder.
    BeneficiaryNotSynced,
    /// Receipt has not been burned (supply > 0), so it cannot be revoked.
    ReceiptNotBurned,
    /// Mints with a freeze authority are not supported.
    MintHasFreezeAuthority,
}

} // verus!
