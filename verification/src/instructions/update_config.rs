use crate::error::EscrowError;
use crate::events::{ConfigUpdated, Event, Outcome};
use crate::state::{EscrowConfig, Pubkey, MAX_BPS, MAX_DISPUTE_TIMEOUT};
use vstd::prelude::*;

verus! {

/// The accounts of a change of the settings. Only their authority may
/// change them. The fee collector is always named, also where it stays the
/// same.
#[derive(Clone, Copy, Debug, PartialEq, Eq)]
pub struct UpdateConfig {
    /// Who signed.
    pub authority: Pubkey,
    pub fee_collector: Pubkey,
}

/// Why the change is refused, if it is: the first check that fails.
pub open spec fn rejection(
    config: EscrowConfig,
    ctx: UpdateConfig,
    new_authority: Option<Pubkey>,
    fee_bps: Option<u16>,
    dispute_timeout: Option<i64>,
) -> Option<EscrowError> {
    if config.authority != ctx.authority {
        Some(EscrowError::NotAuthority)
    } else if fee_bps matches Some(bps) && bps > MAX_BPS {
        Some(EscrowError::InvalidFeeRate)
    } else if dispute_timeout matches Some(timeout) && !(0 < timeout <= MAX_DISPUTE_TIMEOUT) {
        Some(EscrowError::InvalidDisputeTimeout)
    } else if ctx.fee_collector.null() {
        Some(EscrowError::InvalidFeeCollector)
    } else if new_authority matches Some(authority) && authority.null() {
        Some(EscrowError::InvalidAuthority)
    } else {
        None
    }
}

/// The settings after the change: what was given replaces what was there.
pub open spec fn applied(
    config: EscrowConfig,
    ctx: UpdateConfig,
    new_authority: Option<Pubkey>,
    fee_bps: Option<u16>,
    dispute_timeout: Option<i64>,
) -> EscrowConfig {
    EscrowConfig {
        authority: match new_authority {
            Some(authority) => authority,
            None => config.authority,
        },
        fee_bps: match fee_bps {
            Some(bps) => bps,
            None => config.fee_bps,
        },
        fee_collector: ctx.fee_collector,
        dispute_timeout: match dispute_timeout {
            Some(timeout) => timeout,
            None => config.dispute_timeout,
        },
        bump: config.bump,
    }
}

/// The notification of the change, with the settings as they are after it.
pub open spec fn events(after: EscrowConfig) -> Seq<Event> {
    seq![
        Event::ConfigUpdated(
            ConfigUpdated {
                authority: after.authority,
                fee_bps: after.fee_bps,
                fee_collector: after.fee_collector,
                dispute_timeout: after.dispute_timeout,
            },
        ),
    ]
}

/// Changes the settings. Escrows that exist keep the fee rate they were
/// created with, and open disputes the timeout they were opened with.
pub fn handler(
    config: &mut EscrowConfig,
    ctx: &UpdateConfig,
    new_authority: Option<Pubkey>,
    fee_bps: Option<u16>,
    dispute_timeout: Option<i64>,
) -> (r: Result<Outcome, EscrowError>)
    ensures
        match r {
            Ok(outcome) => {
                &&& rejection(*old(config), *ctx, new_authority, fee_bps, dispute_timeout) is None
                &&& *final(config) == applied(
                    *old(config),
                    *ctx,
                    new_authority,
                    fee_bps,
                    dispute_timeout,
                )
                &&& outcome.actions@ == Seq::<crate::accounts::Action>::empty()
                &&& outcome.events@ == events(*final(config))
            },
            Err(e) => {
                &&& rejection(*old(config), *ctx, new_authority, fee_bps, dispute_timeout)
                    == Some(e)
                &&& *final(config) == *old(config)
            },
        },
        old(config).well_formed() ==> final(config).well_formed(),
{
    if config.authority != ctx.authority {
        return Err(EscrowError::NotAuthority);
    }
    if let Some(bps) = fee_bps {
        if bps > MAX_BPS {
            return Err(EscrowError::InvalidFeeRate);
        }
    }
    if let Some(timeout) = dispute_timeout {
        if !(timeout > 0 && timeout <= MAX_DISPUTE_TIMEOUT) {
            return Err(EscrowError::InvalidDisputeTimeout);
        }
    }
    let new_fee_collector = ctx.fee_collector;
    if new_fee_collector.is_null() {
        return Err(EscrowError::InvalidFeeCollector);
    }
    if let Some(new_auth) = new_authority {
        if new_auth.is_null() {
            return Err(EscrowError::InvalidAuthority);
        }
    }
    if let Some(bps) = fee_bps {
        config.fee_bps = bps;
    }
    if let Some(timeout) = dispute_timeout {
        config.dispute_timeout = timeout;
    }
    config.fee_collector = new_fee_collector;
    if let Some(new_auth) = new_authority {
        config.authority = new_auth;
    }
    let mut events: Vec<Event> = Vec::new();
    events.push(
        Event::ConfigUpdated(
            ConfigUpdated {
                authority: config.authority,
                fee_bps: config.fee_bps,
                fee_collector: config.fee_collector,
                dispute_timeout: config.dispute_timeout,
            },
        ),
    );
    Ok(Outcome { actions: Vec::new(), events })
}

} // verus!
