use escrow::accounts::{AccountInfo, Action, MintAccount, Recipient, TokenAccount};
use escrow::error::EscrowError;
use escrow::events::{
    BeneficiarySynced, ClaimTransferred, ConfigInitialized, ConfigUpdated, DisputeInitiated,
    DisputeResolved, EscrowClosed, Event, MilestoneApproved, ReceiptMinted, ReceiptRevoked,
};
use escrow::instructions::approve_milestone::ApproveMilestone;
use escrow::instructions::cancel_escrow::CancelEscrow;
use escrow::instructions::claim_expired::ClaimExpired;
use escrow::instructions::close_escrow::CloseEscrow;
use escrow::instructions::create_escrow::CreateEscrow;
use escrow::instructions::initialize_config::InitializeConfig;
use escrow::instructions::initiate_dispute::InitiateDispute;
use escrow::instructions::mint_receipt::MintReceipt;
use escrow::instructions::release_milestone::ReleaseMilestone;
use escrow::instructions::resolve_dispute::ResolveDispute;
use escrow::instructions::revoke_receipt::RevokeReceipt;
use escrow::instructions::sync_beneficiary::SyncBeneficiary;
use escrow::instructions::transfer_claim::TransferClaim;
use escrow::instructions::update_config::UpdateConfig;
use escrow::state::{
    Dispute, DisputeResolution, EscrowConfig, EscrowState, EscrowStatus, Milestone, MilestoneInput,
    MilestoneStatus, Pubkey,
};

const NOW: i64 = 1_700_000_000;
const EXPIRES: i64 = NOW + 7_200;

fn key(tag: u8) -> Pubkey {
    Pubkey { bytes: [tag; 32] }
}

fn maker() -> Pubkey {
    key(1)
}

fn taker() -> Pubkey {
    key(2)
}

fn authority() -> Pubkey {
    key(3)
}

fn collector() -> Pubkey {
    key(4)
}

fn token() -> Pubkey {
    key(5)
}

fn record() -> Pubkey {
    key(6)
}

fn stranger() -> Pubkey {
    key(99)
}

fn token_program() -> Pubkey {
    Pubkey { bytes: anchor_spl::token::ID.to_bytes() }
}

fn config(fee_bps: u16) -> EscrowConfig {
    EscrowConfig {
        authority: authority(),
        fee_bps,
        fee_collector: collector(),
        dispute_timeout: 86_400,
        bump: 254,
    }
}

fn mint() -> MintAccount {
    MintAccount { key: token(), program: token_program(), freeze_authority: None, supply: 1_000_000 }
}

fn other_mint() -> MintAccount {
    MintAccount { key: key(50), program: token_program(), freeze_authority: None, supply: 1 }
}

fn wallet(owner: Pubkey, amount: u64) -> TokenAccount {
    TokenAccount { mint: token(), owner, amount }
}

fn input(amount: u64) -> MilestoneInput {
    MilestoneInput { amount, description_hash: [7; 32] }
}

fn milestone(amount: u64, status: MilestoneStatus) -> Milestone {
    Milestone { amount, description_hash: [7; 32], status }
}

/// An active escrow of 1000 at 2.5%: 600 approved, 400 pending.
fn active() -> EscrowState {
    EscrowState {
        maker: maker(),
        taker: taker(),
        beneficiary: taker(),
        mint: token(),
        amount: 1_000,
        released_amount: 0,
        refunded_amount: 0,
        seed: 7,
        status: EscrowStatus::Active,
        milestones: vec![
            milestone(600, MilestoneStatus::Approved),
            milestone(400, MilestoneStatus::Pending),
        ],
        created_at: NOW,
        expires_at: EXPIRES,
        dispute: None,
        fee_bps_at_creation: 250,
        bump: 255,
        receipt_mint: None,
    }
}

fn disputed() -> EscrowState {
    let mut escrow = active();
    escrow.status = EscrowStatus::Disputed;
    escrow.dispute = Some(Dispute {
        initiator: taker(),
        reason_hash: [8; 32],
        initiated_at: NOW + 100,
        timeout: 86_400,
        resolution: None,
    });
    escrow
}

fn completed() -> EscrowState {
    let mut escrow = active();
    escrow.status = EscrowStatus::Completed;
    escrow.milestones = vec![
        milestone(600, MilestoneStatus::Released),
        milestone(400, MilestoneStatus::Released),
    ];
    escrow.released_amount = 1_000;
    escrow
}

fn creation() -> CreateEscrow {
    CreateEscrow {
        maker: maker(),
        taker: taker(),
        escrow_config: config(250),
        mint: mint(),
        maker_token_account: wallet(maker(), 1_000),
        bump: 255,
    }
}

fn create_error(
    ctx: &CreateEscrow,
    amount: u64,
    milestones: Vec<MilestoneInput>,
    expires_at: i64,
    now: i64,
) -> Option<EscrowError> {
    escrow::create_escrow(ctx, 7, amount, milestones, expires_at, now).err()
}

fn release_ctx() -> ReleaseMilestone {
    ReleaseMilestone {
        escrow_key: record(),
        escrow_config: config(250),
        mint: mint(),
        beneficiary_token_account: wallet(taker(), 0),
        fee_collector_token_account: wallet(collector(), 0),
        remaining_accounts: vec![],
    }
}

fn resolve_ctx() -> ResolveDispute {
    ResolveDispute {
        authority: authority(),
        escrow_key: record(),
        escrow_config: config(250),
        mint: mint(),
        maker_token_account: wallet(maker(), 0),
        beneficiary_token_account: wallet(taker(), 0),
        fee_collector_token_account: wallet(collector(), 0),
        remaining_accounts: vec![],
    }
}

fn claim_ctx() -> ClaimExpired {
    ClaimExpired {
        escrow_key: record(),
        escrow_config: config(250),
        mint: mint(),
        maker_token_account: wallet(maker(), 0),
        beneficiary_token_account: wallet(taker(), 0),
        fee_collector_token_account: wallet(collector(), 0),
        remaining_accounts: vec![],
    }
}

fn cancel_ctx() -> CancelEscrow {
    CancelEscrow {
        maker: maker(),
        escrow_key: record(),
        mint: mint(),
        maker_token_account: wallet(maker(), 0),
    }
}

fn close_ctx(dust: u64) -> CloseEscrow {
    CloseEscrow {
        maker: maker(),
        escrow_key: record(),
        mint: mint(),
        vault: wallet(record(), dust),
        maker_token_account: wallet(maker(), 0),
    }
}

fn refused<T: std::fmt::Debug>(
    before: &EscrowState,
    after: &EscrowState,
    result: Result<T, EscrowError>,
    error: EscrowError,
) {
    assert_eq!(result.err(), Some(error));
    assert_eq!(after, before);
}

// ---- settings ----

#[test]
fn initialize_config_makes_the_settings() {
    let ctx = InitializeConfig { authority: authority(), fee_collector: collector(), bump: 254 };
    let (made, outcome) = escrow::initialize_config(&ctx, 250, 86_400).unwrap();
    assert_eq!(made, config(250));
    assert!(outcome.actions.is_empty());
    assert_eq!(
        outcome.events,
        vec![Event::ConfigInitialized(ConfigInitialized {
            authority: authority(),
            fee_bps: 250,
            fee_collector: collector(),
            dispute_timeout: 86_400,
        })]
    );
}

#[test]
fn initialize_config_bounds_the_dispute_timeout() {
    let ctx = InitializeConfig { authority: authority(), fee_collector: collector(), bump: 254 };
    let refusal = Some(EscrowError::InvalidDisputeTimeout);
    assert_eq!(escrow::initialize_config(&ctx, 250, 0).err(), refusal);
    assert_eq!(escrow::initialize_config(&ctx, 250, -1).err(), refusal);
    assert_eq!(escrow::initialize_config(&ctx, 250, 31_536_001).err(), refusal);
    assert!(escrow::initialize_config(&ctx, 250, 1).is_ok());
    assert!(escrow::initialize_config(&ctx, 250, 31_536_000).is_ok());
}

#[test]
fn initialize_config_refuses_the_null_fee_collector() {
    let ctx = InitializeConfig { authority: authority(), fee_collector: key(0), bump: 254 };
    assert_eq!(
        escrow::initialize_config(&ctx, 250, 86_400).err(),
        Some(EscrowError::InvalidFeeCollector)
    );
    // The fee rate is looked at first, then the timeout, then the collector.
    assert_eq!(
        escrow::initialize_config(&ctx, 10_001, 0).err(),
        Some(EscrowError::InvalidFeeRate)
    );
    assert_eq!(
        escrow::initialize_config(&ctx, 250, 0).err(),
        Some(EscrowError::InvalidDisputeTimeout)
    );
}

#[test]
fn update_config_replaces_what_is_given() {
    let mut settings = config(250);
    let ctx = UpdateConfig { authority: authority(), fee_collector: key(44) };
    let outcome =
        escrow::update_config(&mut settings, &ctx, Some(key(33)), Some(300), Some(3_600)).unwrap();
    let expected = EscrowConfig {
        authority: key(33),
        fee_bps: 300,
        fee_collector: key(44),
        dispute_timeout: 3_600,
        bump: 254,
    };
    assert_eq!(settings, expected);
    assert_eq!(
        outcome.events,
        vec![Event::ConfigUpdated(ConfigUpdated {
            authority: key(33),
            fee_bps: 300,
            fee_collector: key(44),
            dispute_timeout: 3_600,
        })]
    );

    // The old authority has lost its say.
    let late = escrow::update_config(&mut settings, &ctx, None, Some(1), None);
    assert_eq!(late, Err(EscrowError::NotAuthority));
    assert_eq!(settings, expected);
}

#[test]
fn update_config_keeps_what_is_not_given() {
    let mut settings = config(250);
    let ctx = UpdateConfig { authority: authority(), fee_collector: collector() };
    escrow::update_config(&mut settings, &ctx, None, None, None).unwrap();
    assert_eq!(settings, config(250));
}

#[test]
fn update_config_refusals_change_nothing() {
    let ctx = UpdateConfig { authority: authority(), fee_collector: collector() };
    let null_collector = UpdateConfig { authority: authority(), fee_collector: key(0) };
    let mut settings = config(250);

    let timeout = escrow::update_config(&mut settings, &ctx, None, Some(300), Some(0));
    assert_eq!(timeout, Err(EscrowError::InvalidDisputeTimeout));
    let long = escrow::update_config(&mut settings, &ctx, None, None, Some(31_536_001));
    assert_eq!(long, Err(EscrowError::InvalidDisputeTimeout));
    let collector = escrow::update_config(&mut settings, &null_collector, None, Some(300), None);
    assert_eq!(collector, Err(EscrowError::InvalidFeeCollector));
    let authority = escrow::update_config(&mut settings, &ctx, Some(key(0)), Some(300), None);
    assert_eq!(authority, Err(EscrowError::InvalidAuthority));
    assert_eq!(settings, config(250));
}

// ---- creation ----

#[test]
fn create_refuses_a_maker_who_cannot_fund() {
    let mut ctx = creation();
    ctx.maker_token_account.amount = 999;
    assert_eq!(
        create_error(&ctx, 1_000, vec![input(1_000)], EXPIRES, NOW),
        Some(EscrowError::InsufficientBalance)
    );
    // The balance is looked at before anything else.
    assert_eq!(
        create_error(&ctx, 1_000, vec![], EXPIRES, NOW),
        Some(EscrowError::InsufficientBalance)
    );
}

#[test]
fn create_refuses_nothing_to_escrow() {
    assert_eq!(
        create_error(&creation(), 0, vec![input(1)], EXPIRES, NOW),
        Some(EscrowError::InvalidAmount)
    );
    assert_eq!(
        create_error(&creation(), 1_000, vec![input(1_000), input(0)], EXPIRES, NOW),
        Some(EscrowError::InvalidAmount)
    );
}

#[test]
fn create_refuses_an_escrow_with_oneself() {
    let mut ctx = creation();
    ctx.taker = maker();
    assert_eq!(
        create_error(&ctx, 1_000, vec![input(1_000)], EXPIRES, NOW),
        Some(EscrowError::SelfEscrow)
    );
}

#[test]
fn create_refuses_milestones_that_do_not_add_up() {
    assert_eq!(
        create_error(&creation(), 1_000, vec![input(600), input(399)], EXPIRES, NOW),
        Some(EscrowError::MilestoneAmountMismatch)
    );
    assert_eq!(
        create_error(&creation(), 1_000, vec![input(600), input(401)], EXPIRES, NOW),
        Some(EscrowError::MilestoneAmountMismatch)
    );
}

#[test]
fn create_reports_a_sum_that_does_not_fit() {
    let mut ctx = creation();
    ctx.maker_token_account.amount = u64::MAX;
    assert_eq!(
        create_error(&ctx, 1_000, vec![input(u64::MAX), input(1)], EXPIRES, NOW),
        Some(EscrowError::Overflow)
    );
    // A zero before the overflow is found first, one after it is not reached.
    assert_eq!(
        create_error(&ctx, 1_000, vec![input(0), input(u64::MAX), input(1)], EXPIRES, NOW),
        Some(EscrowError::InvalidAmount)
    );
    assert_eq!(
        create_error(&ctx, 1_000, vec![input(u64::MAX), input(1), input(0)], EXPIRES, NOW),
        Some(EscrowError::Overflow)
    );
}

#[test]
fn create_reports_a_clock_at_the_end_of_time() {
    assert_eq!(
        create_error(&creation(), 1_000, vec![input(1_000)], i64::MAX, i64::MAX - 3_599),
        Some(EscrowError::Overflow)
    );
    assert_eq!(
        create_error(&creation(), 1_000, vec![input(1_000)], i64::MAX, i64::MAX - 3_600),
        None
    );
}

#[test]
fn create_refuses_mints_of_another_token_program() {
    let mut ctx = creation();
    ctx.mint.program = key(77);
    assert_eq!(
        create_error(&ctx, 1_000, vec![input(1_000)], EXPIRES, NOW),
        Some(EscrowError::ExtendedMintNotSupported)
    );
    // One byte off the classic token program is another program.
    let mut near = token_program();
    near.bytes[31] ^= 1;
    ctx.mint.program = near;
    assert_eq!(
        create_error(&ctx, 1_000, vec![input(1_000)], EXPIRES, NOW),
        Some(EscrowError::ExtendedMintNotSupported)
    );
}

#[test]
fn create_refuses_mints_that_can_be_frozen() {
    let mut ctx = creation();
    ctx.mint.freeze_authority = Some(stranger());
    assert_eq!(
        create_error(&ctx, 1_000, vec![input(1_000)], EXPIRES, NOW),
        Some(EscrowError::MintHasFreezeAuthority)
    );
}

// ---- approval ----

#[test]
fn approve_marks_the_milestone() {
    let mut escrow = active();
    let ctx = ApproveMilestone { maker: maker(), escrow_key: record() };
    let outcome = escrow::approve_milestone(&mut escrow, &ctx, 1, EXPIRES).unwrap();
    assert!(outcome.actions.is_empty());
    assert_eq!(
        outcome.events,
        vec![Event::MilestoneApproved(MilestoneApproved { escrow: record(), milestone_index: 1 })]
    );
    let mut expected = active();
    expected.milestones[1].status = MilestoneStatus::Approved;
    assert_eq!(escrow, expected);
}

#[test]
fn approve_refusals_change_nothing() {
    let before = active();
    let ctx = ApproveMilestone { maker: maker(), escrow_key: record() };
    let not_maker = ApproveMilestone { maker: taker(), escrow_key: record() };

    let mut escrow = active();
    let r = escrow::approve_milestone(&mut escrow, &not_maker, 1, NOW);
    refused(&before, &escrow, r, EscrowError::NotMaker);
    let r = escrow::approve_milestone(&mut escrow, &ctx, 1, EXPIRES + 1);
    refused(&before, &escrow, r, EscrowError::EscrowExpired);
    let r = escrow::approve_milestone(&mut escrow, &ctx, 2, NOW);
    refused(&before, &escrow, r, EscrowError::MilestoneIndexOutOfBounds);
    let r = escrow::approve_milestone(&mut escrow, &ctx, 255, NOW);
    refused(&before, &escrow, r, EscrowError::MilestoneIndexOutOfBounds);
    let r = escrow::approve_milestone(&mut escrow, &ctx, 0, NOW);
    refused(&before, &escrow, r, EscrowError::MilestoneNotPending);

    let before = disputed();
    let mut escrow = disputed();
    let r = escrow::approve_milestone(&mut escrow, &ctx, 1, NOW);
    refused(&before, &escrow, r, EscrowError::EscrowNotActive);
}

// ---- release ----

#[test]
fn release_refusals_change_nothing() {
    let before = active();
    let mut escrow = active();

    let mut ctx = release_ctx();
    ctx.mint = other_mint();
    let r = escrow::release_milestone(&mut escrow, &ctx, 0, NOW);
    refused(&before, &escrow, r, EscrowError::MintMismatch);

    let mut ctx = release_ctx();
    ctx.beneficiary_token_account.owner = stranger();
    let r = escrow::release_milestone(&mut escrow, &ctx, 0, NOW);
    refused(&before, &escrow, r, EscrowError::OwnerMismatch);

    let mut ctx = release_ctx();
    ctx.fee_collector_token_account.owner = stranger();
    let r = escrow::release_milestone(&mut escrow, &ctx, 0, NOW);
    refused(&before, &escrow, r, EscrowError::FeeCollectorMismatch);

    let ctx = release_ctx();
    let r = escrow::release_milestone(&mut escrow, &ctx, 0, EXPIRES + 1);
    refused(&before, &escrow, r, EscrowError::EscrowExpired);
    let r = escrow::release_milestone(&mut escrow, &ctx, 2, NOW);
    refused(&before, &escrow, r, EscrowError::MilestoneIndexOutOfBounds);
    let r = escrow::release_milestone(&mut escrow, &ctx, 1, NOW);
    refused(&before, &escrow, r, EscrowError::MilestoneNotApproved);

    let before = completed();
    let mut escrow = completed();
    let r = escrow::release_milestone(&mut escrow, &ctx, 0, NOW);
    refused(&before, &escrow, r, EscrowError::EscrowNotActive);
}

#[test]
fn release_at_the_moment_of_expiration_still_goes_through() {
    let mut escrow = active();
    let outcome = escrow::release_milestone(&mut escrow, &release_ctx(), 0, EXPIRES).unwrap();
    assert_eq!(outcome.actions.len(), 2);
    assert_eq!(escrow.status, EscrowStatus::Active);
    assert_eq!(escrow.milestones[0].status, MilestoneStatus::Released);
}

#[test]
fn release_without_a_fee_pays_the_beneficiary_only() {
    let mut escrow = active();
    escrow.fee_bps_at_creation = 0;
    let outcome = escrow::release_milestone(&mut escrow, &release_ctx(), 0, NOW).unwrap();
    assert_eq!(
        outcome.actions,
        vec![Action::Pay { recipient: Recipient::Beneficiary, amount: 600 }]
    );
}

#[test]
fn release_at_the_full_rate_pays_the_fee_collector_only() {
    let mut escrow = active();
    escrow.fee_bps_at_creation = 10_000;
    let outcome = escrow::release_milestone(&mut escrow, &release_ctx(), 0, NOW).unwrap();
    assert_eq!(
        outcome.actions,
        vec![Action::Pay { recipient: Recipient::FeeCollector, amount: 600 }]
    );
}

#[test]
fn release_reports_counters_that_do_not_fit() {
    let mut before = active();
    before.released_amount = u64::MAX - 599;
    let mut escrow = before.clone();
    let r = escrow::release_milestone(&mut escrow, &release_ctx(), 0, NOW);
    refused(&before, &escrow, r, EscrowError::Overflow);

    let mut before = active();
    before.fee_bps_at_creation = 10_001;
    before.milestones[0].amount = 10_000;
    let mut escrow = before.clone();
    let r = escrow::release_milestone(&mut escrow, &release_ctx(), 0, NOW);
    refused(&before, &escrow, r, EscrowError::Overflow);
}

#[test]
fn release_with_a_receipt_needs_evidence() {
    let mut before = active();
    before.receipt_mint = Some(key(40));
    let mut escrow = before.clone();
    let r = escrow::release_milestone(&mut escrow, &release_ctx(), 0, NOW);
    refused(&before, &escrow, r, EscrowError::BeneficiaryNotSynced);

    let mut ctx = release_ctx();
    ctx.remaining_accounts = vec![AccountInfo { owner: token_program(), data: vec![0; 165] }];
    let r = escrow::release_milestone(&mut escrow, &ctx, 0, NOW);
    refused(&before, &escrow, r, EscrowError::BeneficiaryNotSynced);
}

// ---- disputes ----

#[test]
fn any_party_may_open_a_dispute() {
    for initiator in [maker(), taker(), key(42)] {
        let mut escrow = active();
        escrow.beneficiary = key(42);
        let ctx = InitiateDispute { initiator, escrow_key: record(), escrow_config: config(1) };
        let outcome = escrow::initiate_dispute(&mut escrow, &ctx, [8; 32], NOW + 5).unwrap();
        assert!(outcome.actions.is_empty());
        assert_eq!(
            outcome.events,
            vec![Event::DisputeInitiated(DisputeInitiated { escrow: record(), initiator })]
        );
        assert_eq!(escrow.status, EscrowStatus::Disputed);
        assert_eq!(
            escrow.dispute,
            Some(Dispute {
                initiator,
                reason_hash: [8; 32],
                initiated_at: NOW + 5,
                timeout: 86_400,
                resolution: None,
            })
        );
    }
}

#[test]
fn dispute_refusals_change_nothing() {
    let before = active();
    let mut escrow = active();
    let ctx = InitiateDispute { initiator: taker(), escrow_key: record(), escrow_config: config(1) };
    let outsider =
        InitiateDispute { initiator: stranger(), escrow_key: record(), escrow_config: config(1) };

    let r = escrow::initiate_dispute(&mut escrow, &outsider, [8; 32], NOW);
    refused(&before, &escrow, r, EscrowError::NotEscrowParty);
    let r = escrow::initiate_dispute(&mut escrow, &ctx, [8; 32], EXPIRES + 1);
    refused(&before, &escrow, r, EscrowError::EscrowExpired);

    let before = disputed();
    let mut escrow = disputed();
    let r = escrow::initiate_dispute(&mut escrow, &ctx, [8; 32], NOW);
    refused(&before, &escrow, r, EscrowError::EscrowNotActive);

    let mut before = disputed();
    before.status = EscrowStatus::Active;
    let mut escrow = before.clone();
    let r = escrow::initiate_dispute(&mut escrow, &ctx, [8; 32], NOW);
    refused(&before, &escrow, r, EscrowError::DisputeAlreadyActive);
}

#[test]
fn maker_wins_takes_back_all_that_remains() {
    let mut escrow = disputed();
    let outcome =
        escrow::resolve_dispute(&mut escrow, &resolve_ctx(), DisputeResolution::MakerWins, NOW + 200)
            .unwrap();
    assert_eq!(outcome.actions, vec![Action::Pay { recipient: Recipient::Maker, amount: 1_000 }]);
    assert_eq!(
        outcome.events,
        vec![Event::DisputeResolved(DisputeResolved {
            escrow: record(),
            resolution: DisputeResolution::MakerWins,
        })]
    );
    assert_eq!(escrow.status, EscrowStatus::Cancelled);
    assert_eq!(escrow.refunded_amount, 1_000);
    assert_eq!(escrow.released_amount, 0);
    assert_eq!(escrow.milestones[0].status, MilestoneStatus::Cancelled);
    assert_eq!(escrow.milestones[1].status, MilestoneStatus::Cancelled);
    assert_eq!(escrow.dispute.unwrap().resolution, Some(DisputeResolution::MakerWins));
}

#[test]
fn taker_wins_pays_all_that_remains_less_the_fee() {
    let mut escrow = disputed();
    let outcome =
        escrow::resolve_dispute(&mut escrow, &resolve_ctx(), DisputeResolution::TakerWins, NOW + 200)
            .unwrap();
    assert_eq!(
        outcome.actions,
        vec![
            Action::Pay { recipient: Recipient::Beneficiary, amount: 975 },
            Action::Pay { recipient: Recipient::FeeCollector, amount: 25 },
        ]
    );
    assert_eq!(escrow.status, EscrowStatus::Completed);
    assert_eq!(escrow.released_amount, 1_000);
    assert_eq!(escrow.refunded_amount, 0);
    assert_eq!(escrow.milestones[0].status, MilestoneStatus::Released);
    assert_eq!(escrow.milestones[1].status, MilestoneStatus::Released);
    assert_eq!(escrow.dispute.unwrap().resolution, Some(DisputeResolution::TakerWins));
}

#[test]
fn split_rounds_the_maker_share_down() {
    let mut escrow = disputed();
    escrow.amount = 1_001;
    escrow.milestones[1].amount = 401;
    let split = DisputeResolution::Split { maker_bps: 3_333 };
    let outcome = escrow::resolve_dispute(&mut escrow, &resolve_ctx(), split, NOW + 200).unwrap();
    // 1001 * 3333 / 10000 = 333.63..; the taker's 668 pay a fee of 16.7.
    assert_eq!(
        outcome.actions,
        vec![
            Action::Pay { recipient: Recipient::Maker, amount: 333 },
            Action::Pay { recipient: Recipient::Beneficiary, amount: 652 },
            Action::Pay { recipient: Recipient::FeeCollector, amount: 16 },
        ]
    );
    assert_eq!(escrow.status, EscrowStatus::Completed);
    assert_eq!(escrow.refunded_amount, 333);
    assert_eq!(escrow.released_amount, 668);
    assert_eq!(escrow.milestones[0].status, MilestoneStatus::Released);
    assert_eq!(escrow.milestones[1].status, MilestoneStatus::Released);
    assert_eq!(escrow.dispute.unwrap().resolution, Some(split));
}

#[test]
fn split_counts_what_was_settled_before_the_dispute() {
    let mut escrow = disputed();
    escrow.milestones = vec![
        milestone(100, MilestoneStatus::Released),
        milestone(200, MilestoneStatus::Cancelled),
        milestone(300, MilestoneStatus::Approved),
        milestone(400, MilestoneStatus::Pending),
    ];
    escrow.released_amount = 100;
    escrow.refunded_amount = 200;
    let split = DisputeResolution::Split { maker_bps: 5_000 };
    let outcome = escrow::resolve_dispute(&mut escrow, &resolve_ctx(), split, NOW + 200).unwrap();
    assert_eq!(
        outcome.actions,
        vec![
            Action::Pay { recipient: Recipient::Maker, amount: 350 },
            Action::Pay { recipient: Recipient::Beneficiary, amount: 342 },
            Action::Pay { recipient: Recipient::FeeCollector, amount: 8 },
        ]
    );
    assert_eq!(escrow.released_amount, 450);
    assert_eq!(escrow.refunded_amount, 550);
    assert_eq!(escrow.milestones[1].status, MilestoneStatus::Cancelled);
    assert_eq!(escrow.milestones[2].status, MilestoneStatus::Released);
    assert_eq!(escrow.milestones[3].status, MilestoneStatus::Released);
}

#[test]
fn resolve_refusals_change_nothing() {
    let before = disputed();
    let mut escrow = disputed();
    let ruling = DisputeResolution::TakerWins;

    let mut ctx = resolve_ctx();
    ctx.authority = stranger();
    let r = escrow::resolve_dispute(&mut escrow, &ctx, ruling, NOW + 200);
    refused(&before, &escrow, r, EscrowError::NotAuthority);

    let mut ctx = resolve_ctx();
    ctx.mint = other_mint();
    let r = escrow::resolve_dispute(&mut escrow, &ctx, ruling, NOW + 200);
    refused(&before, &escrow, r, EscrowError::MintMismatch);

    let mut ctx = resolve_ctx();
    ctx.maker_token_account.owner = stranger();
    let r = escrow::resolve_dispute(&mut escrow, &ctx, ruling, NOW + 200);
    refused(&before, &escrow, r, EscrowError::OwnerMismatch);

    let mut ctx = resolve_ctx();
    ctx.beneficiary_token_account.owner = stranger();
    let r = escrow::resolve_dispute(&mut escrow, &ctx, ruling, NOW + 200);
    refused(&before, &escrow, r, EscrowError::OwnerMismatch);

    let mut ctx = resolve_ctx();
    ctx.fee_collector_token_account.owner = stranger();
    let r = escrow::resolve_dispute(&mut escrow, &ctx, ruling, NOW + 200);
    refused(&before, &escrow, r, EscrowError::FeeCollectorMismatch);

    let ctx = resolve_ctx();
    let r = escrow::resolve_dispute(&mut escrow, &ctx, ruling, NOW + 100 + 86_401);
    refused(&before, &escrow, r, EscrowError::EscrowExpired);

    let split = DisputeResolution::Split { maker_bps: 10_001 };
    let r = escrow::resolve_dispute(&mut escrow, &ctx, split, NOW + 200);
    refused(&before, &escrow, r, EscrowError::InvalidDisputeResolution);

    let before = active();
    let mut escrow = active();
    let r = escrow::resolve_dispute(&mut escrow, &ctx, ruling, NOW + 200);
    refused(&before, &escrow, r, EscrowError::DisputeNotActive);
}

#[test]
fn resolve_at_the_deadline_still_goes_through() {
    let mut escrow = disputed();
    let r = escrow::resolve_dispute(
        &mut escrow,
        &resolve_ctx(),
        DisputeResolution::MakerWins,
        NOW + 100 + 86_400,
    );
    assert!(r.is_ok());
}

#[test]
fn resolve_reports_what_does_not_fit() {
    // More counted than was funded.
    let mut before = disputed();
    before.released_amount = 1_001;
    let mut escrow = before.clone();
    let r = escrow::resolve_dispute(&mut escrow, &resolve_ctx(), DisputeResolution::MakerWins, NOW);
    refused(&before, &escrow, r, EscrowError::Overflow);

    // A fee rate above the whole.
    let mut before = disputed();
    before.fee_bps_at_creation = 10_001;
    before.amount = 10_000;
    before.milestones = vec![milestone(10_000, MilestoneStatus::Pending)];
    let mut escrow = before.clone();
    let r = escrow::resolve_dispute(&mut escrow, &resolve_ctx(), DisputeResolution::TakerWins, NOW);
    refused(&before, &escrow, r, EscrowError::Overflow);
}

#[test]
fn a_deadline_beyond_the_end_of_time_never_passes() {
    let mut endless = disputed();
    endless.dispute = Some(Dispute {
        initiator: taker(),
        reason_hash: [8; 32],
        initiated_at: i64::MAX,
        timeout: 1,
        resolution: None,
    });

    // Nobody can claim, however late.
    let mut escrow = endless.clone();
    let r = escrow::claim_expired(&mut escrow, &claim_ctx(), i64::MAX);
    refused(&endless, &escrow, r, EscrowError::EscrowNotExpired);

    // The authority can rule to the last moment.
    let r = escrow::resolve_dispute(
        &mut escrow,
        &resolve_ctx(),
        DisputeResolution::MakerWins,
        i64::MAX,
    );
    assert!(r.is_ok());
    assert_eq!(escrow.status, EscrowStatus::Cancelled);
    assert_eq!(escrow.refunded_amount, 1_000);
}

#[test]
fn a_deadline_at_the_end_of_time_can_only_be_met() {
    let mut last = disputed();
    last.dispute = Some(Dispute {
        initiator: taker(),
        reason_hash: [8; 32],
        initiated_at: i64::MAX - 1,
        timeout: 1,
        resolution: None,
    });
    let mut escrow = last.clone();
    let r = escrow::claim_expired(&mut escrow, &claim_ctx(), i64::MAX);
    refused(&last, &escrow, r, EscrowError::EscrowNotExpired);

    let mut early = disputed();
    early.dispute = Some(Dispute {
        initiator: taker(),
        reason_hash: [8; 32],
        initiated_at: i64::MAX - 2,
        timeout: 1,
        resolution: None,
    });
    let mut escrow = early.clone();
    let r = escrow::resolve_dispute(
        &mut escrow,
        &resolve_ctx(),
        DisputeResolution::TakerWins,
        i64::MAX,
    );
    refused(&early, &escrow, r, EscrowError::EscrowExpired);
    assert!(escrow::claim_expired(&mut escrow, &claim_ctx(), i64::MAX).is_ok());
    assert_eq!(escrow.status, EscrowStatus::Expired);
}

#[test]
fn split_of_half_of_a_large_amount_goes_through() {
    let half = 4_611_686_018_427_387_904;
    let mut escrow = disputed();
    escrow.amount = 9_223_372_036_854_775_808;
    escrow.milestones = vec![milestone(9_223_372_036_854_775_808, MilestoneStatus::Pending)];
    escrow.fee_bps_at_creation = 0;
    let split = DisputeResolution::Split { maker_bps: 5_000 };
    let outcome = escrow::resolve_dispute(&mut escrow, &resolve_ctx(), split, NOW + 200).unwrap();
    assert_eq!(
        outcome.actions,
        vec![
            Action::Pay { recipient: Recipient::Maker, amount: half },
            Action::Pay { recipient: Recipient::Beneficiary, amount: half },
        ]
    );
    assert_eq!(escrow.status, EscrowStatus::Completed);
    assert_eq!(escrow.refunded_amount, half);
    assert_eq!(escrow.released_amount, half);
    assert_eq!(escrow.milestones[0].status, MilestoneStatus::Released);
    assert_eq!(escrow.dispute.unwrap().resolution, Some(split));
}

#[test]
fn split_of_the_largest_amount_goes_through() {
    let mut largest = disputed();
    largest.amount = u64::MAX;
    largest.milestones = vec![milestone(u64::MAX, MilestoneStatus::Approved)];

    let mut escrow = largest.clone();
    let split = DisputeResolution::Split { maker_bps: 2 };
    let outcome = escrow::resolve_dispute(&mut escrow, &resolve_ctx(), split, NOW + 200).unwrap();
    assert_eq!(
        outcome.actions,
        vec![
            Action::Pay { recipient: Recipient::Maker, amount: 3_689_348_814_741_910 },
            Action::Pay { recipient: Recipient::Beneficiary, amount: 17_981_978_356_772_439_463 },
            Action::Pay { recipient: Recipient::FeeCollector, amount: 461_076_368_122_370_242 },
        ]
    );
    assert_eq!(escrow.refunded_amount, 3_689_348_814_741_910);
    assert_eq!(escrow.released_amount, 18_443_054_724_894_809_705);
    assert_eq!(escrow.status, EscrowStatus::Completed);

    let mut escrow = largest.clone();
    let all = DisputeResolution::Split { maker_bps: 10_000 };
    let outcome = escrow::resolve_dispute(&mut escrow, &resolve_ctx(), all, NOW + 200).unwrap();
    assert_eq!(
        outcome.actions,
        vec![Action::Pay { recipient: Recipient::Maker, amount: u64::MAX }]
    );
    assert_eq!(escrow.refunded_amount, u64::MAX);
    assert_eq!(escrow.released_amount, 0);
    assert_eq!(escrow.status, EscrowStatus::Completed);

    let mut escrow = largest.clone();
    let none = DisputeResolution::Split { maker_bps: 0 };
    let outcome = escrow::resolve_dispute(&mut escrow, &resolve_ctx(), none, NOW + 200).unwrap();
    assert_eq!(
        outcome.actions,
        vec![
            Action::Pay { recipient: Recipient::Beneficiary, amount: 17_985_575_471_866_812_825 },
            Action::Pay { recipient: Recipient::FeeCollector, amount: 461_168_601_842_738_790 },
        ]
    );
    assert_eq!(escrow.released_amount, u64::MAX);
}

// ---- cancellation ----

#[test]
fn cancel_refusals_change_nothing() {
    let before = active();
    let mut escrow = active();

    let mut ctx = cancel_ctx();
    ctx.maker = taker();
    let r = escrow::cancel_escrow(&mut escrow, &ctx, NOW);
    refused(&before, &escrow, r, EscrowError::NotMaker);

    let mut ctx = cancel_ctx();
    ctx.mint = other_mint();
    let r = escrow::cancel_escrow(&mut escrow, &ctx, NOW);
    refused(&before, &escrow, r, EscrowError::MintMismatch);

    let mut ctx = cancel_ctx();
    ctx.maker_token_account.owner = taker();
    let r = escrow::cancel_escrow(&mut escrow, &ctx, NOW);
    refused(&before, &escrow, r, EscrowError::OwnerMismatch);

    let r = escrow::cancel_escrow(&mut escrow, &cancel_ctx(), EXPIRES + 1);
    refused(&before, &escrow, r, EscrowError::EscrowExpired);

    let before = disputed();
    let mut escrow = disputed();
    let r = escrow::cancel_escrow(&mut escrow, &cancel_ctx(), NOW);
    refused(&before, &escrow, r, EscrowError::EscrowNotActive);

    let mut before = active();
    before.milestones[1].status = MilestoneStatus::Approved;
    let mut escrow = before.clone();
    let r = escrow::cancel_escrow(&mut escrow, &cancel_ctx(), NOW);
    refused(&before, &escrow, r, EscrowError::NoRefundableAmount);

    let mut before = active();
    before.refunded_amount = u64::MAX - 399;
    let mut escrow = before.clone();
    let r = escrow::cancel_escrow(&mut escrow, &cancel_ctx(), NOW);
    refused(&before, &escrow, r, EscrowError::Overflow);
}

// ---- claims on what expired ----

#[test]
fn claim_refusals_change_nothing() {
    let before = active();
    let mut escrow = active();

    let mut ctx = claim_ctx();
    ctx.mint = other_mint();
    let r = escrow::claim_expired(&mut escrow, &ctx, EXPIRES + 1);
    refused(&before, &escrow, r, EscrowError::MintMismatch);

    let mut ctx = claim_ctx();
    ctx.maker_token_account.owner = stranger();
    let r = escrow::claim_expired(&mut escrow, &ctx, EXPIRES + 1);
    refused(&before, &escrow, r, EscrowError::OwnerMismatch);

    let mut ctx = claim_ctx();
    ctx.beneficiary_token_account.owner = stranger();
    let r = escrow::claim_expired(&mut escrow, &ctx, EXPIRES + 1);
    refused(&before, &escrow, r, EscrowError::OwnerMismatch);

    let mut ctx = claim_ctx();
    ctx.fee_collector_token_account.owner = stranger();
    let r = escrow::claim_expired(&mut escrow, &ctx, EXPIRES + 1);
    refused(&before, &escrow, r, EscrowError::FeeCollectorMismatch);

    let r = escrow::claim_expired(&mut escrow, &claim_ctx(), EXPIRES);
    refused(&before, &escrow, r, EscrowError::EscrowNotExpired);

    let before = completed();
    let mut escrow = completed();
    let r = escrow::claim_expired(&mut escrow, &claim_ctx(), EXPIRES + 1);
    refused(&before, &escrow, r, EscrowError::EscrowNotExpired);

    // A disputed escrow does not expire with its expiration, only with the
    // dispute's deadline.
    let before = disputed();
    let mut escrow = disputed();
    let r = escrow::claim_expired(&mut escrow, &claim_ctx(), EXPIRES + 1);
    refused(&before, &escrow, r, EscrowError::EscrowNotExpired);
}

#[test]
fn claim_reports_records_that_do_not_add_up() {
    let mut before = active();
    before.released_amount = 600;
    before.refunded_amount = 400;
    let mut escrow = before.clone();
    let r = escrow::claim_expired(&mut escrow, &claim_ctx(), EXPIRES + 1);
    refused(&before, &escrow, r, EscrowError::NoRefundableAmount);

    let mut before = active();
    before.refunded_amount = 1_001;
    let mut escrow = before.clone();
    let r = escrow::claim_expired(&mut escrow, &claim_ctx(), EXPIRES + 1);
    refused(&before, &escrow, r, EscrowError::Overflow);

    let mut before = active();
    before.milestones.push(milestone(u64::MAX, MilestoneStatus::Approved));
    let mut escrow = before.clone();
    let r = escrow::claim_expired(&mut escrow, &claim_ctx(), EXPIRES + 1);
    refused(&before, &escrow, r, EscrowError::Overflow);
}

#[test]
fn claim_with_a_receipt_needs_evidence() {
    let mut before = active();
    before.receipt_mint = Some(key(40));
    let mut escrow = before.clone();
    let r = escrow::claim_expired(&mut escrow, &claim_ctx(), EXPIRES + 1);
    refused(&before, &escrow, r, EscrowError::BeneficiaryNotSynced);
}

// ---- closing ----

#[test]
fn close_sweeps_what_is_left_in_custody() {
    let escrow = completed();
    let outcome = escrow::close_escrow(&escrow, &close_ctx(3)).unwrap();
    assert_eq!(
        outcome.actions,
        vec![Action::Pay { recipient: Recipient::Maker, amount: 3 }, Action::Close]
    );
    assert_eq!(
        outcome.events,
        vec![Event::EscrowClosed(EscrowClosed { escrow: record(), maker: maker() })]
    );
    let clean = escrow::close_escrow(&escrow, &close_ctx(0)).unwrap();
    assert_eq!(clean.actions, vec![Action::Close]);
}

#[test]
fn close_works_in_every_terminal_status_and_no_other() {
    for status in [EscrowStatus::Completed, EscrowStatus::Cancelled, EscrowStatus::Expired] {
        let mut escrow = completed();
        escrow.status = status;
        assert!(escrow::close_escrow(&escrow, &close_ctx(0)).is_ok());
    }
    for status in [EscrowStatus::Active, EscrowStatus::Disputed] {
        let mut escrow = completed();
        escrow.status = status;
        assert_eq!(
            escrow::close_escrow(&escrow, &close_ctx(0)).err(),
            Some(EscrowError::EscrowNotTerminal)
        );
    }
}

#[test]
fn close_checks_who_asks_and_where_the_sweep_goes() {
    let escrow = completed();
    let mut ctx = close_ctx(0);
    ctx.maker = taker();
    assert_eq!(escrow::close_escrow(&escrow, &ctx).err(), Some(EscrowError::NotMaker));
    let mut ctx = close_ctx(0);
    ctx.mint = other_mint();
    assert_eq!(escrow::close_escrow(&escrow, &ctx).err(), Some(EscrowError::MintMismatch));
    let mut ctx = close_ctx(0);
    ctx.maker_token_account.owner = taker();
    assert_eq!(escrow::close_escrow(&escrow, &ctx).err(), Some(EscrowError::OwnerMismatch));
}

// ---- the claim and its receipt ----

#[test]
fn transfer_claim_hands_the_claim_on() {
    let mut escrow = active();
    let ctx = TransferClaim { beneficiary: taker(), escrow_key: record(), new_beneficiary: key(42) };
    let outcome = escrow::transfer_claim(&mut escrow, &ctx, NOW).unwrap();
    assert!(outcome.actions.is_empty());
    assert_eq!(
        outcome.events,
        vec![Event::ClaimTransferred(ClaimTransferred {
            escrow: record(),
            from: taker(),
            to: key(42),
        })]
    );
    let mut expected = active();
    expected.beneficiary = key(42);
    assert_eq!(escrow, expected);
    assert_eq!(escrow.taker, taker());
}

#[test]
fn transfer_claim_refusals_change_nothing() {
    let before = active();
    let mut escrow = active();
    let to = |new_beneficiary| TransferClaim {
        beneficiary: taker(),
        escrow_key: record(),
        new_beneficiary,
    };

    let mut ctx = to(key(42));
    ctx.beneficiary = stranger();
    let r = escrow::transfer_claim(&mut escrow, &ctx, NOW);
    refused(&before, &escrow, r, EscrowError::NotBeneficiary);
    let r = escrow::transfer_claim(&mut escrow, &to(key(42)), EXPIRES + 1);
    refused(&before, &escrow, r, EscrowError::EscrowExpired);
    let r = escrow::transfer_claim(&mut escrow, &to(maker()), NOW);
    refused(&before, &escrow, r, EscrowError::InvalidBeneficiary);
    let r = escrow::transfer_claim(&mut escrow, &to(key(0)), NOW);
    refused(&before, &escrow, r, EscrowError::InvalidBeneficiary);

    let mut before = active();
    before.receipt_mint = Some(key(40));
    let mut escrow = before.clone();
    let r = escrow::transfer_claim(&mut escrow, &to(key(42)), NOW);
    refused(&before, &escrow, r, EscrowError::ReceiptExists);

    let before = disputed();
    let mut escrow = disputed();
    let r = escrow::transfer_claim(&mut escrow, &to(key(42)), NOW);
    refused(&before, &escrow, r, EscrowError::EscrowNotActive);
}

#[test]
fn mint_receipt_binds_the_receipt() {
    let mut escrow = active();
    let ctx = MintReceipt { beneficiary: taker(), escrow_key: record(), receipt_mint: key(40) };
    let outcome = escrow::mint_receipt(&mut escrow, &ctx, NOW).unwrap();
    assert_eq!(
        outcome.actions,
        vec![Action::MintReceipt { mint: key(40), holder: taker(), supply: 1 }]
    );
    assert_eq!(
        outcome.events,
        vec![Event::ReceiptMinted(ReceiptMinted {
            escrow: record(),
            mint: key(40),
            beneficiary: taker(),
        })]
    );
    let mut expected = active();
    expected.receipt_mint = Some(key(40));
    assert_eq!(escrow, expected);
}

#[test]
fn mint_receipt_refusals_change_nothing() {
    let before = active();
    let mut escrow = active();
    let ctx = MintReceipt { beneficiary: taker(), escrow_key: record(), receipt_mint: key(40) };
    let not_mine =
        MintReceipt { beneficiary: maker(), escrow_key: record(), receipt_mint: key(40) };

    let r = escrow::mint_receipt(&mut escrow, &not_mine, NOW);
    refused(&before, &escrow, r, EscrowError::NotBeneficiary);
    let r = escrow::mint_receipt(&mut escrow, &ctx, EXPIRES + 1);
    refused(&before, &escrow, r, EscrowError::EscrowExpired);

    let mut before = active();
    before.receipt_mint = Some(key(40));
    let mut escrow = before.clone();
    let r = escrow::mint_receipt(&mut escrow, &ctx, NOW);
    refused(&before, &escrow, r, EscrowError::ReceiptAlreadyMinted);

    let before = disputed();
    let mut escrow = disputed();
    let r = escrow::mint_receipt(&mut escrow, &ctx, NOW);
    refused(&before, &escrow, r, EscrowError::EscrowNotActive);
}

fn sync_ctx(holder: Pubkey) -> SyncBeneficiary {
    SyncBeneficiary {
        escrow_key: record(),
        receipt_mint: MintAccount {
            key: key(40),
            program: token_program(),
            freeze_authority: Some(record()),
            supply: 1,
        },
        receipt_token_account: TokenAccount { mint: key(40), owner: holder, amount: 1 },
    }
}

#[test]
fn sync_follows_the_receipt_also_during_a_dispute() {
    for mut escrow in [active(), disputed()] {
        escrow.receipt_mint = Some(key(40));
        let mut expected = escrow.clone();
        expected.beneficiary = key(41);
        let outcome = escrow::sync_beneficiary(&mut escrow, &sync_ctx(key(41))).unwrap();
        assert!(outcome.actions.is_empty());
        assert_eq!(
            outcome.events,
            vec![Event::BeneficiarySynced(BeneficiarySynced {
                escrow: record(),
                old_beneficiary: taker(),
                new_beneficiary: key(41),
            })]
        );
        assert_eq!(escrow, expected);
    }
}

#[test]
fn sync_refusals_change_nothing() {
    let mut before = active();
    before.receipt_mint = Some(key(40));
    let mut escrow = before.clone();

    let mut ctx = sync_ctx(key(41));
    ctx.receipt_mint.key = key(43);
    ctx.receipt_token_account.mint = key(43);
    let r = escrow::sync_beneficiary(&mut escrow, &ctx);
    refused(&before, &escrow, r, EscrowError::MintMismatch);

    let mut ctx = sync_ctx(key(41));
    ctx.receipt_token_account.mint = key(43);
    let r = escrow::sync_beneficiary(&mut escrow, &ctx);
    refused(&before, &escrow, r, EscrowError::MintMismatch);

    for amount in [0, 2] {
        let mut ctx = sync_ctx(key(41));
        ctx.receipt_token_account.amount = amount;
        let r = escrow::sync_beneficiary(&mut escrow, &ctx);
        refused(&before, &escrow, r, EscrowError::InvalidReceiptHolder);
    }

    let r = escrow::sync_beneficiary(&mut escrow, &sync_ctx(taker()));
    refused(&before, &escrow, r, EscrowError::BeneficiaryAlreadySynced);
    let r = escrow::sync_beneficiary(&mut escrow, &sync_ctx(maker()));
    refused(&before, &escrow, r, EscrowError::InvalidBeneficiary);
    let r = escrow::sync_beneficiary(&mut escrow, &sync_ctx(key(0)));
    refused(&before, &escrow, r, EscrowError::InvalidBeneficiary);

    let mut before = completed();
    before.receipt_mint = Some(key(40));
    let mut escrow = before.clone();
    let r = escrow::sync_beneficiary(&mut escrow, &sync_ctx(key(41)));
    refused(&before, &escrow, r, EscrowError::EscrowNotActive);

    // Without a receipt there is nothing to follow.
    let before = active();
    let mut escrow = active();
    let r = escrow::sync_beneficiary(&mut escrow, &sync_ctx(key(41)));
    refused(&before, &escrow, r, EscrowError::MintMismatch);
}

fn revoke_ctx(supply: u64) -> RevokeReceipt {
    RevokeReceipt {
        escrow_key: record(),
        receipt_mint: MintAccount {
            key: key(40),
            program: token_program(),
            freeze_authority: Some(record()),
            supply,
        },
    }
}

#[test]
fn revoke_unbinds_a_burned_receipt_and_frees_the_claim() {
    let mut escrow = active();
    escrow.receipt_mint = Some(key(40));
    let outcome = escrow::revoke_receipt(&mut escrow, &revoke_ctx(0)).unwrap();
    assert!(outcome.actions.is_empty());
    assert_eq!(
        outcome.events,
        vec![Event::ReceiptRevoked(ReceiptRevoked { escrow: record(), receipt_mint: key(40) })]
    );
    assert_eq!(escrow, active());

    let ctx = TransferClaim { beneficiary: taker(), escrow_key: record(), new_beneficiary: key(42) };
    assert!(escrow::transfer_claim(&mut escrow, &ctx, NOW).is_ok());
}

#[test]
fn revoke_refusals_change_nothing() {
    let mut before = active();
    before.receipt_mint = Some(key(40));
    let mut escrow = before.clone();
    let r = escrow::revoke_receipt(&mut escrow, &revoke_ctx(1));
    refused(&before, &escrow, r, EscrowError::ReceiptNotBurned);

    let mut ctx = revoke_ctx(0);
    ctx.receipt_mint.key = key(43);
    let r = escrow::revoke_receipt(&mut escrow, &ctx);
    refused(&before, &escrow, r, EscrowError::MintMismatch);

    let before = active();
    let mut escrow = active();
    let r = escrow::revoke_receipt(&mut escrow, &revoke_ctx(0));
    refused(&before, &escrow, r, EscrowError::MintMismatch);
}
