use crate::accounts::{is_token_program, token_program_bytes, Action, MintAccount, TokenAccount};
use crate::accounting::lemma_total_by_status;
use crate::error::EscrowError;
use crate::events::{EscrowCreated, Event, Outcome};
use crate::state::{
    amount_in, EscrowConfig, EscrowState, EscrowStateView, EscrowStatus, Milestone, MilestoneInput,
    MilestoneStatus, Pubkey, MAX_BPS, MAX_MILESTONES, MIN_EXPIRATION_DURATION,
};
use vstd::prelude::*;

verus! {

/// The accounts of a creation: the maker who funds, the taker who is to
/// receive, the settings, the token and the maker's balance of it.
#[derive(Clone, Copy, Debug, PartialEq, Eq)]
pub struct CreateEscrow {
    /// Who signed and funds the escrow.
    pub maker: Pubkey,
    pub taker: Pubkey,
    pub escrow_config: EscrowConfig,
    pub mint: MintAccount,
    pub maker_token_account: TokenAccount,
    /// The bump of the escrow record's address.
    pub bump: u8,
}

/// The sum of the amounts asked for.
pub open spec fn requested_total(milestones: Seq<MilestoneInput>) -> int
    decreases milestones.len(),
{
    if milestones.len() == 0 {
        0
    } else {
        requested_total(milestones.drop_last()) + milestones.last().amount
    }
}

/// What is wrong with the first milestone that is wrong: an amount of zero,
/// or a sum up to it that does not fit.
pub open spec fn milestone_fault(milestones: Seq<MilestoneInput>) -> Option<EscrowError>
    decreases milestones.len(),
{
    if milestones.len() == 0 {
        None
    } else if milestone_fault(milestones.drop_last()) is Some {
        milestone_fault(milestones.drop_last())
    } else if milestones.last().amount == 0 {
        Some(EscrowError::InvalidAmount)
    } else if requested_total(milestones) > u64::MAX {
        Some(EscrowError::Overflow)
    } else {
        None
    }
}

/// The milestones of a new escrow: as asked for, all pending.
pub open spec fn pending_milestones(milestones: Seq<MilestoneInput>) -> Seq<Milestone> {
    Seq::new(
        milestones.len(),
        |i: int|
            Milestone {
                amount: milestones[i].amount,
                description_hash: milestones[i].description_hash,
                status: MilestoneStatus::Pending,
            },
    )
}

/// Why the creation is refused, if it is: the first check that fails.
pub open spec fn rejection(
    ctx: CreateEscrow,
    amount: u64,
    milestones: Seq<MilestoneInput>,
    expires_at: i64,
    now: i64,
) -> Option<EscrowError> {
    if ctx.maker_token_account.amount < amount {
        Some(EscrowError::InsufficientBalance)
    } else if !(1 <= milestones.len() <= MAX_MILESTONES) {
        Some(EscrowError::InvalidMilestoneCount)
    } else if amount == 0 {
        Some(EscrowError::InvalidAmount)
    } else if ctx.maker == ctx.taker {
        Some(EscrowError::SelfEscrow)
    } else if milestone_fault(milestones) is Some {
        milestone_fault(milestones)
    } else if requested_total(milestones) != amount {
        Some(EscrowError::MilestoneAmountMismatch)
    } else if now + MIN_EXPIRATION_DURATION > i64::MAX {
        Some(EscrowError::Overflow)
    } else if expires_at < now + MIN_EXPIRATION_DURATION {
        Some(EscrowError::InvalidExpiration)
    } else if ctx.mint.program@ != token_program_bytes() {
        Some(EscrowError::ExtendedMintNotSupported)
    } else if ctx.mint.freeze_authority is Some {
        Some(EscrowError::MintHasFreezeAuthority)
    } else {
        None
    }
}

/// The record of a new escrow: active, nothing released or refunded, every
/// milestone pending, the taker as beneficiary, the fee rate of the moment.
pub open spec fn created(
    ctx: CreateEscrow,
    seed: u64,
    amount: u64,
    milestones: Seq<MilestoneInput>,
    expires_at: i64,
    now: i64,
) -> EscrowStateView {
    EscrowStateView {
        maker: ctx.maker,
        taker: ctx.taker,
        beneficiary: ctx.taker,
        mint: ctx.mint.key,
        amount,
        released_amount: 0,
        refunded_amount: 0,
        seed,
        status: EscrowStatus::Active,
        milestones: pending_milestones(milestones),
        created_at: now,
        expires_at,
        dispute: None,
        fee_bps_at_creation: ctx.escrow_config.fee_bps,
        bump: ctx.bump,
        receipt_mint: None,
    }
}

/// The one action of a creation: the maker funds the custody account with
/// the whole amount.
pub open spec fn actions(amount: u64) -> Seq<Action> {
    seq![Action::Deposit { amount }]
}

/// The notification of the creation.
pub open spec fn events(
    ctx: CreateEscrow,
    seed: u64,
    amount: u64,
    milestones: Seq<MilestoneInput>,
    expires_at: i64,
) -> Seq<Event> {
    seq![
        Event::EscrowCreated(
            EscrowCreated {
                maker: ctx.maker,
                taker: ctx.taker,
                mint: ctx.mint.key,
                amount,
                seed,
                milestones_count: milestones.len() as u8,
                expires_at,
            },
        ),
    ]
}

/// A fault among the first milestones is the fault of the whole list.
pub proof fn lemma_fault_of_prefix(milestones: Seq<MilestoneInput>, n: int)
    requires
        0 <= n <= milestones.len(),
        milestone_fault(milestones.take(n)) is Some,
    ensures
        milestone_fault(milestones) == milestone_fault(milestones.take(n)),
    decreases milestones.len() - n,
{
    if n == milestones.len() {
        assert(milestones.take(n) =~= milestones);
    } else {
        assert(milestones.take(n + 1).drop_last() =~= milestones.take(n));
        lemma_fault_of_prefix(milestones, n + 1);
    }
}

/// Milestones without a fault have positive amounts, and their sum fits.
pub proof fn lemma_faultless(milestones: Seq<MilestoneInput>)
    requires
        milestone_fault(milestones) is None,
    ensures
        forall|i: int| 0 <= i < milestones.len() ==> (#[trigger] milestones[i]).amount > 0,
        0 <= requested_total(milestones) <= u64::MAX,
    decreases milestones.len(),
{
    if milestones.len() > 0 {
        let front = milestones.drop_last();
        lemma_faultless(front);
        assert forall|i: int| 0 <= i < milestones.len() implies (#[trigger] milestones[i]).amount
            > 0 by {
            if i < front.len() {
                assert(front[i] == milestones[i]);
            }
        }
    }
}

/// In a new escrow everything asked for is pending and nothing else is counted.
pub proof fn lemma_pending_amounts(milestones: Seq<MilestoneInput>, status: MilestoneStatus)
    ensures
        amount_in(pending_milestones(milestones), status) == if status
            == MilestoneStatus::Pending {
            requested_total(milestones)
        } else {
            0
        },
    decreases milestones.len(),
{
    if milestones.len() > 0 {
        assert(pending_milestones(milestones).drop_last() =~= pending_milestones(
            milestones.drop_last(),
        ));
        lemma_pending_amounts(milestones.drop_last(), status);
    }
}

/// A creation that is not refused yields a well-formed record, with the fee
/// rate of the settings.
pub proof fn lemma_created_well_formed(
    ctx: CreateEscrow,
    seed: u64,
    amount: u64,
    milestones: Seq<MilestoneInput>,
    expires_at: i64,
    now: i64,
)
    requires
        rejection(ctx, amount, milestones, expires_at, now) is None,
    ensures
        created(ctx, seed, amount, milestones, expires_at, now).well_formed(),
        created(ctx, seed, amount, milestones, expires_at, now).fee_in_range()
            <==> ctx.escrow_config.fee_bps <= MAX_BPS,
{
    let escrow = created(ctx, seed, amount, milestones, expires_at, now);
    lemma_faultless(milestones);
    lemma_total_by_status(escrow.milestones);
    lemma_pending_amounts(milestones, MilestoneStatus::Pending);
    lemma_pending_amounts(milestones, MilestoneStatus::Approved);
    lemma_pending_amounts(milestones, MilestoneStatus::Released);
    lemma_pending_amounts(milestones, MilestoneStatus::Cancelled);
}

/// Creates an escrow: a record with every milestone pending, funded by the
/// maker with the whole amount.
pub fn handler(
    ctx: &CreateEscrow,
    seed: u64,
    amount: u64,
    milestones: Vec<MilestoneInput>,
    expires_at: i64,
    now: i64,
) -> (r: Result<(EscrowState, Outcome), EscrowError>)
    ensures
        match r {
            Ok((escrow, outcome)) => {
                &&& rejection(*ctx, amount, milestones@, expires_at, now) is None
                &&& escrow@ == created(*ctx, seed, amount, milestones@, expires_at, now)
                &&& outcome.actions@ == actions(amount)
                &&& outcome.events@ == events(*ctx, seed, amount, milestones@, expires_at)
                &&& escrow@.well_formed()
            },
            Err(e) => rejection(*ctx, amount, milestones@, expires_at, now) == Some(e),
        },
{
    if ctx.maker_token_account.amount < amount {
        return Err(EscrowError::InsufficientBalance);
    }
    let milestone_count = milestones.len();
    if !(1 <= milestone_count && milestone_count <= MAX_MILESTONES) {
        return Err(EscrowError::InvalidMilestoneCount);
    }
    if amount == 0 {
        return Err(EscrowError::InvalidAmount);
    }
    if ctx.maker == ctx.taker {
        return Err(EscrowError::SelfEscrow);
    }
    let mut milestone_sum: u64 = 0;
    let mut milestone_structs: Vec<Milestone> = Vec::new();
    let mut i: usize = 0;
    while i < milestones.len()
        invariant
            i <= milestones.len(),
            ctx.maker_token_account.amount >= amount,
            1 <= milestones.len() <= MAX_MILESTONES,
            amount != 0,
            ctx.maker != ctx.taker,
            milestone_fault(milestones@.take(i as int)) is None,
            milestone_sum == requested_total(milestones@.take(i as int)),
            milestone_structs@ == pending_milestones(milestones@.take(i as int)),
        decreases milestones.len() - i,
    {
        proof {
            assert(milestones@.take(i + 1).drop_last() =~= milestones@.take(i as int));
            if milestone_fault(milestones@.take(i + 1)) is Some {
                lemma_fault_of_prefix(milestones@, i + 1);
            }
        }
        let m = &milestones[i];
        if m.amount == 0 {
            return Err(EscrowError::InvalidAmount);
        }
        milestone_sum = milestone_sum.checked_add(m.amount).ok_or(EscrowError::Overflow)?;
        milestone_structs.push(
            Milestone {
                amount: m.amount,
                description_hash: m.description_hash,
                status: MilestoneStatus::Pending,
            },
        );
        i += 1;
    }
    assert(milestones@.take(i as int) =~= milestones@);
    if milestone_sum != amount {
        return Err(EscrowError::MilestoneAmountMismatch);
    }
    // The shortest duration also puts the expiration in the future.
    let earliest = now.checked_add(MIN_EXPIRATION_DURATION).ok_or(EscrowError::Overflow)?;
    if expires_at < earliest {
        return Err(EscrowError::InvalidExpiration);
    }
    // Only mints of the classic token program: no fee is taken on transfer.
    if !is_token_program(&ctx.mint.program) {
        return Err(EscrowError::ExtendedMintNotSupported);
    }
    // No freeze authority: nobody can freeze the custody account.
    if ctx.mint.freeze_authority.is_some() {
        return Err(EscrowError::MintHasFreezeAuthority);
    }
    let escrow = EscrowState {
        maker: ctx.maker,
        taker: ctx.taker,
        beneficiary: ctx.taker,
        mint: ctx.mint.key,
        amount,
        released_amount: 0,
        refunded_amount: 0,
        seed,
        status: EscrowStatus::Active,
        milestones: milestone_structs,
        created_at: now,
        expires_at,
        dispute: None,
        fee_bps_at_creation: ctx.escrow_config.fee_bps,
        bump: ctx.bump,
        receipt_mint: None,
    };
    let mut events: Vec<Event> = Vec::new();
    events.push(
        Event::EscrowCreated(
            EscrowCreated {
                maker: ctx.maker,
                taker: ctx.taker,
                mint: ctx.mint.key,
                amount,
                seed,
                milestones_count: milestone_count as u8,
                expires_at,
            },
        ),
    );
    proof {
        lemma_created_well_formed(*ctx, seed, amount, milestones@, expires_at, now);
    }
    let mut actions: Vec<Action> = Vec::new();
    actions.push(Action::Deposit { amount });
    Ok((escrow, Outcome { actions, events }))
}

} // verus!
