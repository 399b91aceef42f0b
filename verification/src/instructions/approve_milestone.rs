use crate::accounting::{lemma_amount_in_update, lemma_total_by_status};
use crate::error::EscrowError;
use crate::events::{Event, MilestoneApproved, Outcome};
use crate::state::{EscrowState, EscrowStateView, EscrowStatus, MilestoneStatus, Pubkey};
use vstd::prelude::*;

verus! {

/// The accounts of an approval. Only the maker may approve.
#[derive(Clone, Copy, Debug, PartialEq, Eq)]
pub struct ApproveMilestone {
    /// Who signed.
    pub maker: Pubkey,
    /// The address of the escrow record.
    pub escrow_key: Pubkey,
}

/// Why the approval is refused, if it is: the first check that fails.
pub open spec fn rejection(
    escrow: EscrowStateView,
    ctx: ApproveMilestone,
    milestone_index: u8,
    now: i64,
) -> Option<EscrowError> {
    if escrow.maker != ctx.maker {
        Some(EscrowError::NotMaker)
    } else if escrow.status != EscrowStatus::Active {
        Some(EscrowError::EscrowNotActive)
    } else if now > escrow.expires_at {
        Some(EscrowError::EscrowExpired)
    } else if milestone_index >= escrow.milestones.len() {
        Some(EscrowError::MilestoneIndexOutOfBounds)
    } else if escrow.milestones[milestone_index as int].status != MilestoneStatus::Pending {
        Some(EscrowError::MilestoneNotPending)
    } else {
        None
    }
}

/// The record after the approval: the milestone approved, nothing else
/// touched.
pub open spec fn applied(escrow: EscrowStateView, milestone_index: u8) -> EscrowStateView {
    EscrowStateView {
        milestones: escrow.milestones.update(
            milestone_index as int,
            escrow.milestones[milestone_index as int].with_status(MilestoneStatus::Approved),
        ),
        ..escrow
    }
}

/// The notification of the approval.
pub open spec fn events(ctx: ApproveMilestone, milestone_index: u8) -> Seq<Event> {
    seq![
        Event::MilestoneApproved(MilestoneApproved { escrow: ctx.escrow_key, milestone_index }),
    ]
}

/// Approving a pending milestone of a well-formed record leaves it well
/// formed: no amount moves.
pub proof fn lemma_approve_keeps_well_formed(escrow: EscrowStateView, milestone_index: u8)
    requires
        escrow.well_formed(),
        escrow.status == EscrowStatus::Active,
        milestone_index < escrow.milestones.len(),
        escrow.milestones[milestone_index as int].status == MilestoneStatus::Pending,
    ensures
        applied(escrow, milestone_index).well_formed(),
{
    let index = milestone_index as int;
    let ms = escrow.milestones;
    let after = applied(escrow, milestone_index);
    lemma_total_by_status(ms);
    lemma_total_by_status(after.milestones);
    lemma_amount_in_update(ms, index, MilestoneStatus::Approved, MilestoneStatus::Pending);
    lemma_amount_in_update(ms, index, MilestoneStatus::Approved, MilestoneStatus::Approved);
    lemma_amount_in_update(ms, index, MilestoneStatus::Approved, MilestoneStatus::Released);
    lemma_amount_in_update(ms, index, MilestoneStatus::Approved, MilestoneStatus::Cancelled);
    assert(!after.milestones[index].status.settled());
}

/// Once an approval went through, a second approval of the same milestone is
/// refused, whoever asks for it and whenever.
pub proof fn lemma_approve_only_once(
    escrow: EscrowStateView,
    ctx: ApproveMilestone,
    milestone_index: u8,
    now: i64,
    again: ApproveMilestone,
    later: i64,
)
    requires
        rejection(escrow, ctx, milestone_index, now) is None,
    ensures
        rejection(applied(escrow, milestone_index), again, milestone_index, later) is Some,
{
}

/// Approves a pending milestone. No funds move.
pub fn handler(
    escrow: &mut EscrowState,
    ctx: &ApproveMilestone,
    milestone_index: u8,
    now: i64,
) -> (r: Result<Outcome, EscrowError>)
    ensures
        match r {
            Ok(outcome) => {
                &&& rejection(old(escrow)@, *ctx, milestone_index, now) is None
                &&& final(escrow)@ == applied(old(escrow)@, milestone_index)
                &&& outcome.actions@ == Seq::<crate::accounts::Action>::empty()
                &&& outcome.events@ == events(*ctx, milestone_index)
            },
            Err(e) => {
                &&& rejection(old(escrow)@, *ctx, milestone_index, now) == Some(e)
                &&& *final(escrow) == *old(escrow)
            },
        },
        old(escrow)@.well_formed() ==> final(escrow)@.well_formed(),
        old(escrow)@.precedes(final(escrow)@),
{
    if escrow.maker != ctx.maker {
        return Err(EscrowError::NotMaker);
    }
    if escrow.status != EscrowStatus::Active {
        return Err(EscrowError::EscrowNotActive);
    }
    if now > escrow.expires_at {
        return Err(EscrowError::EscrowExpired);
    }
    let idx = milestone_index as usize;
    if idx >= escrow.milestones.len() {
        return Err(EscrowError::MilestoneIndexOutOfBounds);
    }
    if escrow.milestones[idx].status != MilestoneStatus::Pending {
        return Err(EscrowError::MilestoneNotPending);
    }
    proof {
        if escrow@.well_formed() {
            lemma_approve_keeps_well_formed(escrow@, milestone_index);
        }
    }
    escrow.milestones[idx].status = MilestoneStatus::Approved;

    let mut events: Vec<Event> = Vec::new();
    events.push(
        Event::MilestoneApproved(MilestoneApproved { escrow: ctx.escrow_key, milestone_index }),
    );
    Ok(Outcome { actions: Vec::new(), events })
}

} // verus!
