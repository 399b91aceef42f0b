use crate::error::EscrowError;
use crate::events::{ConfigInitialized, Event, Outcome};
use crate::state::{EscrowConfig, Pubkey, MAX_BPS, MAX_DISPUTE_TIMEOUT};
use vstd::prelude::*;

verus! {

/// The accounts of the initialization of the settings: who signed and
/// becomes the authority, and who collects the fees.
#[derive(Clone, Copy, Debug, PartialEq, Eq)]
pub struct InitializeConfig {
    pub authority: Pubkey,
    pub fee_collector: Pubkey,
    /// The bump of the settings' address.
    pub bump: u8,
}

/// Why the initialization is refused, if it is: the first check that fails.
pub open spec fn rejection(ctx: InitializeConfig, fee_bps: u16, dispute_timeout: i64) -> Option<
    EscrowError,
> {
    if fee_bps > MAX_BPS {
        Some(EscrowError::InvalidFeeRate)
    } else if !(0 < dispute_timeout <= MAX_DISPUTE_TIMEOUT) {
        Some(EscrowError::InvalidDisputeTimeout)
    } else if ctx.fee_collector.null() {
        Some(EscrowError::InvalidFeeCollector)
    } else {
        None
    }
}

/// The settings as initialized.
pub open spec fn initialized(
    ctx: InitializeConfig,
    fee_bps: u16,
    dispute_timeout: i64,
) -> EscrowConfig {
    EscrowConfig {
        authority: ctx.authority,
        fee_bps,
        fee_collector: ctx.fee_collector,
        dispute_timeout,
        bump: ctx.bump,
    }
}

/// The notification of the initialization.
pub open spec fn events(ctx: InitializeConfig, fee_bps: u16, dispute_timeout: i64) -> Seq<Event> {
    seq![
        Event::ConfigInitialized(
            ConfigInitialized {
                authority: ctx.authority,
                fee_bps,
                fee_collector: ctx.fee_collector,
                dispute_timeout,
            },
        ),
    ]
}

/// Makes the settings. They are well formed where the signer is not the
/// null identity.
pub fn handler(ctx: &InitializeConfig, fee_bps: u16, dispute_timeout: i64) -> (r: Result<
    (EscrowConfig, Outcome),
    EscrowError,
>)
    ensures
        match r {
            Ok((config, outcome)) => {
                &&& rejection(*ctx, fee_bps, dispute_timeout) is None
                &&& config == initialized(*ctx, fee_bps, dispute_timeout)
                &&& outcome.actions@ == Seq::<crate::accounts::Action>::empty()
                &&& outcome.events@ == events(*ctx, fee_bps, dispute_timeout)
                &&& !ctx.authority.null() ==> config.well_formed()
            },
            Err(e) => rejection(*ctx, fee_bps, dispute_timeout) == Some(e),
        },
{
    if fee_bps > MAX_BPS {
        return Err(EscrowError::InvalidFeeRate);
    }
    if !(dispute_timeout > 0 && dispute_timeout <= MAX_DISPUTE_TIMEOUT) {
        return Err(EscrowError::InvalidDisputeTimeout);
    }
    if ctx.fee_collector.is_null() {
        return Err(EscrowError::InvalidFeeCollector);
    }
    let config = EscrowConfig {
        authority: ctx.authority,
        fee_bps,
        fee_collector: ctx.fee_collector,
        dispute_timeout,
        bump: ctx.bump,
    };
    let mut events: Vec<Event> = Vec::new();
    events.push(
        Event::ConfigInitialized(
            ConfigInitialized {
                authority: config.authority,
                fee_bps: config.fee_bps,
                fee_collector: config.fee_collector,
                dispute_timeout: config.dispute_timeout,
            },
        ),
    );
    Ok((config, Outcome { actions: Vec::new(), events }))
}

} // verus!
