use crate::accounts::{MintAccount, TokenAccount};
use crate::error::EscrowError;
use crate::events::{BeneficiarySynced, Event, Outcome};
use crate::state::{EscrowState, EscrowStateView, EscrowStatus, Pubkey};
use vstd::prelude::*;

verus! {

/// The accounts of a synchronization: the receipt's mint and the token
/// account that holds the receipt now. Anyone may ask for it.
#[derive(Clone, Copy, Debug, PartialEq, Eq)]
pub struct SyncBeneficiary {
    /// The address of the escrow record.
    pub escrow_key: Pubkey,
    pub receipt_mint: MintAccount,
    pub receipt_token_account: TokenAccount,
}

/// Why the synchronization is refused, if it is: the first check that fails.
pub open spec fn rejection(escrow: EscrowStateView, ctx: SyncBeneficiary) -> Option<EscrowError> {
    let holder = ctx.receipt_token_account.owner;
    if escrow.receipt_mint != Some(ctx.receipt_mint.key) {
        Some(EscrowError::MintMismatch)
    } else if ctx.receipt_token_account.mint != ctx.receipt_mint.key {
        Some(EscrowError::MintMismatch)
    } else if ctx.receipt_token_account.amount != 1 {
        Some(EscrowError::InvalidReceiptHolder)
    } else if escrow.status != EscrowStatus::Active && escrow.status != EscrowStatus::Disputed {
        Some(EscrowError::EscrowNotActive)
    } else if holder == escrow.beneficiary {
        Some(EscrowError::BeneficiaryAlreadySynced)
    } else if holder == escrow.maker {
        Some(EscrowError::InvalidBeneficiary)
    } else if holder.null() {
        Some(EscrowError::InvalidBeneficiary)
    } else {
        None
    }
}

/// The record after the synchronization: the receipt's holder is the
/// beneficiary.
pub open spec fn applied(escrow: EscrowStateView, ctx: SyncBeneficiary) -> EscrowStateView {
    EscrowStateView { beneficiary: ctx.receipt_token_account.owner, ..escrow }
}

/// The notification of the synchronization.
pub open spec fn events(escrow: EscrowStateView, ctx: SyncBeneficiary) -> Seq<Event> {
    seq![
        Event::BeneficiarySynced(
            BeneficiarySynced {
                escrow: ctx.escrow_key,
                old_beneficiary: escrow.beneficiary,
                new_beneficiary: ctx.receipt_token_account.owner,
            },
        ),
    ]
}

/// Makes the current holder of the receipt the beneficiary. It works while
/// the escrow is active or disputed, so that a receipt that changed hands
/// during a dispute does not block the ruling or the claim.
pub fn handler(escrow: &mut EscrowState, ctx: &SyncBeneficiary) -> (r: Result<Outcome, EscrowError>)
    ensures
        match r {
            Ok(outcome) => {
                &&& rejection(old(escrow)@, *ctx) is None
                &&& final(escrow)@ == applied(old(escrow)@, *ctx)
                &&& outcome.actions@ == Seq::<crate::accounts::Action>::empty()
                &&& outcome.events@ == events(old(escrow)@, *ctx)
            },
            Err(e) => {
                &&& rejection(old(escrow)@, *ctx) == Some(e)
                &&& *final(escrow) == *old(escrow)
            },
        },
        old(escrow)@.well_formed() ==> final(escrow)@.well_formed(),
        old(escrow)@.precedes(final(escrow)@),
{
    match escrow.receipt_mint {
        Some(receipt_mint) => {
            if receipt_mint != ctx.receipt_mint.key {
                return Err(EscrowError::MintMismatch);
            }
        },
        None => {
            return Err(EscrowError::MintMismatch);
        },
    }
    if ctx.receipt_token_account.mint != ctx.receipt_mint.key {
        return Err(EscrowError::MintMismatch);
    }
    if ctx.receipt_token_account.amount != 1 {
        return Err(EscrowError::InvalidReceiptHolder);
    }
    if escrow.status != EscrowStatus::Active && escrow.status != EscrowStatus::Disputed {
        return Err(EscrowError::EscrowNotActive);
    }
    let new_beneficiary = ctx.receipt_token_account.owner;
    if new_beneficiary == escrow.beneficiary {
        return Err(EscrowError::BeneficiaryAlreadySynced);
    }
    if new_beneficiary == escrow.maker {
        return Err(EscrowError::InvalidBeneficiary);
    }
    if new_beneficiary.is_null() {
        return Err(EscrowError::InvalidBeneficiary);
    }
    let old_beneficiary = escrow.beneficiary;
    escrow.beneficiary = new_beneficiary;

    let mut events: Vec<Event> = Vec::new();
    events.push(
        Event::BeneficiarySynced(
            BeneficiarySynced { escrow: ctx.escrow_key, old_beneficiary, new_beneficiary },
        ),
    );
    Ok(Outcome { actions: Vec::new(), events })
}

} // verus!
