use crate::accounts::MintAccount;
use crate::error::EscrowError;
use crate::events::{Event, Outcome, ReceiptRevoked};
use crate::state::{EscrowState, EscrowStateView, Pubkey};
use vstd::prelude::*;

verus! {

/// The accounts of a revocation: the receipt's mint. Anyone may ask for it
/// once the receipt is burned.
#[derive(Clone, Copy, Debug, PartialEq, Eq)]
pub struct RevokeReceipt {
    /// The address of the escrow record.
    pub escrow_key: Pubkey,
    pub receipt_mint: MintAccount,
}

/// Why the revocation is refused, if it is: the first check that fails.
pub open spec fn rejection(escrow: EscrowStateView, ctx: RevokeReceipt) -> Option<EscrowError> {
    if escrow.receipt_mint != Some(ctx.receipt_mint.key) {
        Some(EscrowError::MintMismatch)
    } else if ctx.receipt_mint.supply != 0 {
        Some(EscrowError::ReceiptNotBurned)
    } else {
        None
    }
}

/// The record after the revocation: no receipt is bound.
pub open spec fn applied(escrow: EscrowStateView) -> EscrowStateView {
    EscrowStateView { receipt_mint: None, ..escrow }
}

/// The notification of the revocation.
pub open spec fn events(ctx: RevokeReceipt) -> Seq<Event> {
    seq![
        Event::ReceiptRevoked(
            ReceiptRevoked { escrow: ctx.escrow_key, receipt_mint: ctx.receipt_mint.key },
        ),
    ]
}

/// Unbinds a receipt that was burned, so that the claim can again be handed
/// on directly.
pub fn handler(escrow: &mut EscrowState, ctx: &RevokeReceipt) -> (r: Result<Outcome, EscrowError>)
    ensures
        match r {
            Ok(outcome) => {
                &&& rejection(old(escrow)@, *ctx) is None
                &&& final(escrow)@ == applied(old(escrow)@)
                &&& outcome.actions@ == Seq::<crate::accounts::Action>::empty()
                &&& outcome.events@ == events(*ctx)
            },
            Err(e) => {
                &&& rejection(old(escrow)@, *ctx) == Some(e)
                &&& *final(escrow) == *old(escrow)
            },
        },
        old(escrow)@.well_formed() ==> final(escrow)@.well_formed(),
        old(escrow)@.precedes(final(escrow)@),
{
    match escrow.receipt_mint {
        Some(receipt_mint) => {
            if receipt_mint != ctx.receipt_mint.key {
                return Err(EscrowError::MintMismatch);
            }
        },
        None => {
            return Err(EscrowError::MintMismatch);
        },
    }
    if ctx.receipt_mint.supply != 0 {
        return Err(EscrowError::ReceiptNotBurned);
    }
    escrow.receipt_mint = None;

    let mut events: Vec<Event> = Vec::new();
    events.push(
        Event::ReceiptRevoked(
            ReceiptRevoked { escrow: ctx.escrow_key, receipt_mint: ctx.receipt_mint.key },
        ),
    );
    Ok(Outcome { actions: Vec::new(), events })
}

} // verus!
