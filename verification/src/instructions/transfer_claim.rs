use crate::error::EscrowError;
use crate::events::{ClaimTransferred, Event, Outcome};
use crate::state::{EscrowState, EscrowStateView, EscrowStatus, Pubkey};
use vstd::prelude::*;

verus! {

/// The accounts of a transfer of the claim. Only the beneficiary may hand
/// the claim on.
#[derive(Clone, Copy, Debug, PartialEq, Eq)]
pub struct TransferClaim {
    /// Who signed.
    pub beneficiary: Pubkey,
    /// The address of the escrow record.
    pub escrow_key: Pubkey,
    pub new_beneficiary: Pubkey,
}

/// Why the transfer is refused, if it is: the first check that fails.
pub open spec fn rejection(escrow: EscrowStateView, ctx: TransferClaim, now: i64) -> Option<
    EscrowError,
> {
    if escrow.beneficiary != ctx.beneficiary {
        Some(EscrowError::NotBeneficiary)
    } else if escrow.receipt_mint is Some {
        Some(EscrowError::ReceiptExists)
    } else if escrow.status != EscrowStatus::Active {
        Some(EscrowError::EscrowNotActive)
    } else if now > escrow.expires_at {
        Some(EscrowError::EscrowExpired)
    } else if ctx.new_beneficiary == escrow.maker {
        Some(EscrowError::InvalidBeneficiary)
    } else if ctx.new_beneficiary.null() {
        Some(EscrowError::InvalidBeneficiary)
    } else {
        None
    }
}

/// The record after the transfer: the claim is the new beneficiary's.
pub open spec fn applied(escrow: EscrowStateView, ctx: TransferClaim) -> EscrowStateView {
    EscrowStateView { beneficiary: ctx.new_beneficiary, ..escrow }
}

/// The notification of the transfer.
pub open spec fn events(escrow: EscrowStateView, ctx: TransferClaim) -> Seq<Event> {
    seq![
        Event::ClaimTransferred(
            ClaimTransferred {
                escrow: ctx.escrow_key,
                from: escrow.beneficiary,
                to: ctx.new_beneficiary,
            },
        ),
    ]
}

/// Hands the claim on to another party. While a receipt is bound the claim
/// moves with the receipt instead.
pub fn handler(escrow: &mut EscrowState, ctx: &TransferClaim, now: i64) -> (r: Result<
    Outcome,
    EscrowError,
>)
    ensures
        match r {
            Ok(outcome) => {
                &&& rejection(old(escrow)@, *ctx, now) is None
                &&& final(escrow)@ == applied(old(escrow)@, *ctx)
                &&& outcome.actions@ == Seq::<crate::accounts::Action>::empty()
                &&& outcome.events@ == events(old(escrow)@, *ctx)
            },
            Err(e) => {
                &&& rejection(old(escrow)@, *ctx, now) == Some(e)
                &&& *final(escrow) == *old(escrow)
            },
        },
        old(escrow)@.well_formed() ==> final(escrow)@.well_formed(),
        old(escrow)@.precedes(final(escrow)@),
{
    if escrow.beneficiary != ctx.beneficiary {
        return Err(EscrowError::NotBeneficiary);
    }
    if escrow.receipt_mint.is_some() {
        return Err(EscrowError::ReceiptExists);
    }
    if escrow.status != EscrowStatus::Active {
        return Err(EscrowError::EscrowNotActive);
    }
    if now > escrow.expires_at {
        return Err(EscrowError::EscrowExpired);
    }
    if ctx.new_beneficiary == escrow.maker {
        return Err(EscrowError::InvalidBeneficiary);
    }
    if ctx.new_beneficiary.is_null() {
        return Err(EscrowError::InvalidBeneficiary);
    }
    let old_beneficiary = escrow.beneficiary;
    escrow.beneficiary = ctx.new_beneficiary;

    let mut events: Vec<Event> = Vec::new();
    events.push(
        Event::ClaimTransferred(
            ClaimTransferred {
                escrow: ctx.escrow_key,
                from: old_beneficiary,
                to: escrow.beneficiary,
            },
        ),
    );
    Ok(Outcome { actions: Vec::new(), events })
}

} // verus!
