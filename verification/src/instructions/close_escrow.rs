use crate::accounts::{
    lemma_paid_payment, paid, payment, Action, MintAccount, Recipient, TokenAccount,
};
use crate::error::EscrowError;
use crate::events::{EscrowClosed, Event, Outcome};
use crate::helpers::transfer_from_vault;
use crate::state::{EscrowState, EscrowStateView, Pubkey};
use vstd::prelude::*;

verus! {

/// The accounts of a closing. Only the maker may close.
#[derive(Clone, Copy, Debug, PartialEq, Eq)]
pub struct CloseEscrow {
    /// Who signed.
    pub maker: Pubkey,
    /// The address of the escrow record.
    pub escrow_key: Pubkey,
    pub mint: MintAccount,
    /// The custody account, with whatever balance is left in it.
    pub vault: TokenAccount,
    pub maker_token_account: TokenAccount,
}

/// Why the closing is refused, if it is: the first check that fails.
pub open spec fn rejection(escrow: EscrowStateView, ctx: CloseEscrow) -> Option<EscrowError> {
    if escrow.maker != ctx.maker {
        Some(EscrowError::NotMaker)
    } else if ctx.mint.key != escrow.mint {
        Some(EscrowError::MintMismatch)
    } else if ctx.maker_token_account.owner != escrow.maker {
        Some(EscrowError::OwnerMismatch)
    } else if !escrow.status.terminal() {
        Some(EscrowError::EscrowNotTerminal)
    } else {
        None
    }
}

/// The actions of a closing: whatever is left in custody goes to the maker,
/// so that nobody can block the closing by depositing dust; then the custody
/// account is closed and the record's storage reclaimed.
pub open spec fn actions(ctx: CloseEscrow) -> Seq<Action> {
    payment(Recipient::Maker, ctx.vault.amount).push(Action::Close)
}

/// The notification of the closing.
pub open spec fn events(escrow: EscrowStateView, ctx: CloseEscrow) -> Seq<Event> {
    seq![Event::EscrowClosed(EscrowClosed { escrow: ctx.escrow_key, maker: escrow.maker })]
}

/// Closes a terminal escrow: sweeps the custody account, closes it and
/// reclaims the record's storage for the maker.
pub fn handler(escrow: &EscrowState, ctx: &CloseEscrow) -> (r: Result<Outcome, EscrowError>)
    ensures
        match r {
            Ok(outcome) => {
                &&& rejection(escrow@, *ctx) is None
                &&& outcome.actions@ == actions(*ctx)
                &&& outcome.events@ == events(escrow@, *ctx)
                &&& paid(outcome.actions@) == ctx.vault.amount
            },
            Err(e) => rejection(escrow@, *ctx) == Some(e),
        },
{
    if escrow.maker != ctx.maker {
        return Err(EscrowError::NotMaker);
    }
    if ctx.mint.key != escrow.mint {
        return Err(EscrowError::MintMismatch);
    }
    if ctx.maker_token_account.owner != escrow.maker {
        return Err(EscrowError::OwnerMismatch);
    }
    if !escrow.status.is_terminal() {
        return Err(EscrowError::EscrowNotTerminal);
    }
    let dust = ctx.vault.amount;
    let mut actions: Vec<Action> = Vec::new();
    transfer_from_vault(&mut actions, Recipient::Maker, dust);
    actions.push(Action::Close);

    let mut events: Vec<Event> = Vec::new();
    events.push(Event::EscrowClosed(EscrowClosed { escrow: ctx.escrow_key, maker: escrow.maker }));
    proof {
        assert(actions@.drop_last() =~= payment(Recipient::Maker, dust));
        lemma_paid_payment(Recipient::Maker, dust);
    }
    Ok(Outcome { actions, events })
}

} // verus!
