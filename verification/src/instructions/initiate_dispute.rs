use crate::error::EscrowError;
use crate::events::{DisputeInitiated, Event, Outcome};
use crate::state::{Dispute, EscrowConfig, EscrowState, EscrowStateView, EscrowStatus, Pubkey};
use vstd::prelude::*;

verus! {

/// The accounts of the opening of a dispute. The maker, the taker and the
/// beneficiary may open one.
#[derive(Clone, Copy, Debug, PartialEq, Eq)]
pub struct InitiateDispute {
    /// Who signed.
    pub initiator: Pubkey,
    /// The address of the escrow record.
    pub escrow_key: Pubkey,
    pub escrow_config: EscrowConfig,
}

/// Why the dispute is refused, if it is: the first check that fails.
pub open spec fn rejection(escrow: EscrowStateView, ctx: InitiateDispute, now: i64) -> Option<
    EscrowError,
> {
    if escrow.maker != ctx.initiator && escrow.taker != ctx.initiator && escrow.beneficiary
        != ctx.initiator {
        Some(EscrowError::NotEscrowParty)
    } else if escrow.status != EscrowStatus::Active {
        Some(EscrowError::EscrowNotActive)
    } else if escrow.dispute is Some {
        Some(EscrowError::DisputeAlreadyActive)
    } else if now > escrow.expires_at {
        Some(EscrowError::EscrowExpired)
    } else {
        None
    }
}

/// The record after the opening: disputed, with the timeout of the settings
/// of the moment and no ruling yet.
pub open spec fn applied(
    escrow: EscrowStateView,
    ctx: InitiateDispute,
    reason_hash: [u8; 32],
    now: i64,
) -> EscrowStateView {
    EscrowStateView {
        status: EscrowStatus::Disputed,
        dispute: Some(
            Dispute {
                initiator: ctx.initiator,
                reason_hash,
                initiated_at: now,
                timeout: ctx.escrow_config.dispute_timeout,
                resolution: None,
            },
        ),
        ..escrow
    }
}

/// The notification of the opening.
pub open spec fn events(ctx: InitiateDispute) -> Seq<Event> {
    seq![
        Event::DisputeInitiated(
            DisputeInitiated { escrow: ctx.escrow_key, initiator: ctx.initiator },
        ),
    ]
}

/// Opens a dispute on an active escrow. Later changes of the settings do not
/// touch the timeout that the dispute took with it.
pub fn handler(
    escrow: &mut EscrowState,
    ctx: &InitiateDispute,
    reason_hash: [u8; 32],
    now: i64,
) -> (r: Result<Outcome, EscrowError>)
    ensures
        match r {
            Ok(outcome) => {
                &&& rejection(old(escrow)@, *ctx, now) is None
                &&& final(escrow)@ == applied(old(escrow)@, *ctx, reason_hash, now)
                &&& outcome.actions@ == Seq::<crate::accounts::Action>::empty()
                &&& outcome.events@ == events(*ctx)
            },
            Err(e) => {
                &&& rejection(old(escrow)@, *ctx, now) == Some(e)
                &&& *final(escrow) == *old(escrow)
            },
        },
        old(escrow)@.well_formed() ==> final(escrow)@.well_formed(),
        old(escrow)@.precedes(final(escrow)@),
{
    if escrow.maker != ctx.initiator && escrow.taker != ctx.initiator && escrow.beneficiary
        != ctx.initiator {
        return Err(EscrowError::NotEscrowParty);
    }
    if escrow.status != EscrowStatus::Active {
        return Err(EscrowError::EscrowNotActive);
    }
    if escrow.dispute.is_some() {
        return Err(EscrowError::DisputeAlreadyActive);
    }
    if now > escrow.expires_at {
        return Err(EscrowError::EscrowExpired);
    }
    escrow.status = EscrowStatus::Disputed;
    escrow.dispute = Some(
        Dispute {
            initiator: ctx.initiator,
            reason_hash,
            initiated_at: now,
            timeout: ctx.escrow_config.dispute_timeout,
            resolution: None,
        },
    );
    let mut events: Vec<Event> = Vec::new();
    events.push(
        Event::DisputeInitiated(
            DisputeInitiated { escrow: ctx.escrow_key, initiator: ctx.initiator },
        ),
    );
    Ok(Outcome { actions: Vec::new(), events })
}

} // verus!
