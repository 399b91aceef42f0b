use anchor_lang::solana_program::program_option::COption;
use anchor_lang::solana_program::program_pack::Pack;
use anchor_spl::token::spl_token::state::{Account, AccountState};
use escrow::accounting::{amount_with_status, settle_milestones};
use escrow::accounts::{
    is_token_program, AccountInfo, Action, Recipient, TokenAccount, TOKEN_ACCOUNT_LEN,
};
use escrow::error::EscrowError;
use escrow::helpers::{
    calculate_fee, check_receipt_holder, escrow_seeds, transfer_from_vault, verify_receipt_sync,
};
use escrow::instructions::mint_receipt::{
    receipt_metadata, receipt_name, ReceiptMetadata, RECEIPT_SUPPLY,
};
use escrow::state::{
    EscrowState, EscrowStatus, Milestone, MilestoneStatus, Pubkey, ESCROW_CONFIG_SEED, ESCROW_SEED,
    MAX_BPS, MAX_DISPUTE_TIMEOUT, MAX_MILESTONES, MIN_EXPIRATION_DURATION, RECEIPT_SEED,
};

fn key(tag: u8) -> Pubkey {
    Pubkey { bytes: [tag; 32] }
}

fn token_program() -> Pubkey {
    Pubkey { bytes: anchor_spl::token::ID.to_bytes() }
}

fn outside(key: Pubkey) -> anchor_lang::prelude::Pubkey {
    anchor_lang::prelude::Pubkey::new_from_array(key.bytes)
}

fn milestone(amount: u64, status: MilestoneStatus) -> Milestone {
    Milestone { amount, description_hash: [7; 32], status }
}

fn bound(receipt: Pubkey, beneficiary: Pubkey) -> EscrowState {
    EscrowState {
        maker: key(1),
        taker: key(2),
        beneficiary,
        mint: key(5),
        amount: 1_000,
        released_amount: 0,
        refunded_amount: 0,
        seed: 7,
        status: EscrowStatus::Active,
        milestones: vec![milestone(1_000, MilestoneStatus::Approved)],
        created_at: 0,
        expires_at: 7_200,
        dispute: None,
        fee_bps_at_creation: 250,
        bump: 255,
        receipt_mint: Some(receipt),
    }
}

fn packed(mint: Pubkey, owner: Pubkey, amount: u64, state: AccountState) -> Vec<u8> {
    let account = Account {
        mint: outside(mint),
        owner: outside(owner),
        amount,
        delegate: COption::Some(outside(key(70))),
        state,
        is_native: COption::Some(2_039_280),
        delegated_amount: 3,
        close_authority: COption::None,
    };
    let mut data = vec![0u8; Account::LEN];
    Account::pack(account, &mut data).unwrap();
    data
}

fn evidence(data: Vec<u8>) -> Vec<AccountInfo> {
    vec![AccountInfo { owner: token_program(), data }]
}

// ---- fees ----

#[test]
fn fee_is_rounded_down_and_the_rest_is_net() {
    assert_eq!(calculate_fee(1_000, 250), Ok((25, 975)));
    assert_eq!(calculate_fee(600, 250), Ok((15, 585)));
    assert_eq!(calculate_fee(400, 250), Ok((10, 390)));
    assert_eq!(calculate_fee(500, 250), Ok((12, 488)));
    assert_eq!(calculate_fee(39, 250), Ok((0, 39)));
    assert_eq!(calculate_fee(40, 250), Ok((1, 39)));
    assert_eq!(calculate_fee(9_999, 1), Ok((0, 9_999)));
    assert_eq!(calculate_fee(10_000, 1), Ok((1, 9_999)));
}

#[test]
fn fee_at_the_ends_of_the_scale() {
    assert_eq!(calculate_fee(0, 250), Ok((0, 0)));
    assert_eq!(calculate_fee(1_000, 0), Ok((0, 1_000)));
    assert_eq!(calculate_fee(1_000, 10_000), Ok((1_000, 0)));
    assert_eq!(calculate_fee(u64::MAX, 10_000), Ok((u64::MAX, 0)));
    assert_eq!(calculate_fee(u64::MAX, 0), Ok((0, u64::MAX)));
    assert_eq!(calculate_fee(u64::MAX, 1), Ok((1_844_674_407_370_955, 18_444_899_399_302_180_660)));
    assert_eq!(
        calculate_fee(u64::MAX, 9_999),
        Ok((18_444_899_399_302_180_659, 1_844_674_407_370_956))
    );
}

#[test]
fn fee_and_net_add_up_to_the_amount() {
    for amount in [0u64, 1, 39, 40, 9_999, 10_000, 123_456_789, u64::MAX - 1, u64::MAX] {
        for bps in [0u64, 1, 249, 250, 5_000, 9_999, 10_000] {
            let (fee, net) = calculate_fee(amount, bps).unwrap();
            assert_eq!(fee as u128, amount as u128 * bps as u128 / 10_000);
            assert_eq!(net, amount - fee);
            assert_eq!(fee as u128 + net as u128, amount as u128);
        }
    }
}

#[test]
fn fee_above_the_amount_is_an_overflow() {
    assert_eq!(calculate_fee(10_000, 10_001), Err(EscrowError::Overflow));
    assert_eq!(calculate_fee(1, 20_000), Err(EscrowError::Overflow));
    assert_eq!(calculate_fee(u64::MAX, 20_000), Err(EscrowError::Overflow));
    assert_eq!(calculate_fee(u64::MAX, u64::MAX), Err(EscrowError::Overflow));
    // A rate above the whole is harmless while rounding hides it.
    assert_eq!(calculate_fee(9_999, 10_001), Ok((9_999, 0)));
    assert_eq!(calculate_fee(0, u64::MAX), Ok((0, 0)));
}

// ---- custody ----

#[test]
fn transfer_from_vault_plans_payments_in_order() {
    let mut actions = Vec::new();
    transfer_from_vault(&mut actions, Recipient::Maker, 5);
    transfer_from_vault(&mut actions, Recipient::Beneficiary, 7);
    transfer_from_vault(&mut actions, Recipient::FeeCollector, u64::MAX);
    assert_eq!(actions,
        vec![
            Action::Pay { recipient: Recipient::Maker, amount: 5 },
            Action::Pay { recipient: Recipient::Beneficiary, amount: 7 },
            Action::Pay { recipient: Recipient::FeeCollector, amount: u64::MAX },
        ]
    );
}

#[test]
fn transfer_from_vault_skips_nothing_to_pay() {
    let mut actions = vec![Action::Pay { recipient: Recipient::Maker, amount: 5 }];
    transfer_from_vault(&mut actions, Recipient::Beneficiary, 0);
    assert_eq!(actions, vec![Action::Pay { recipient: Recipient::Maker, amount: 5 }]);
}

#[test]
fn escrow_seeds_are_tag_maker_nonce_and_bump() {
    let maker = key(9);
    let seed_bytes = 7u64.to_le_bytes();
    let bump = [254];
    let seeds = escrow_seeds(&maker, &seed_bytes, &bump);
    let expected: [&[u8]; 4] = [b"escrow", &[9u8; 32], &[7, 0, 0, 0, 0, 0, 0, 0], &[254]];
    assert_eq!(seeds, expected);
}

#[test]
fn the_constants_are_what_they_are() {
    assert_eq!(MAX_MILESTONES, 5);
    assert_eq!(MIN_EXPIRATION_DURATION, 3_600);
    assert_eq!(MAX_DISPUTE_TIMEOUT, 31_536_000);
    assert_eq!(MAX_BPS, 10_000);
    assert_eq!(&ESCROW_CONFIG_SEED[..], b"escrow_config");
    assert_eq!(&ESCROW_SEED[..], b"escrow");
    assert_eq!(&RECEIPT_SEED[..], b"receipt");
    assert_eq!(TOKEN_ACCOUNT_LEN, Account::LEN);
    assert_eq!(RECEIPT_SUPPLY, 1);
}

// ---- milestones ----

#[test]
fn amounts_are_summed_by_status() {
    let milestones = vec![
        milestone(1, MilestoneStatus::Pending),
        milestone(20, MilestoneStatus::Approved),
        milestone(300, MilestoneStatus::Released),
        milestone(4_000, MilestoneStatus::Cancelled),
        milestone(50_000, MilestoneStatus::Pending),
        milestone(600_000, MilestoneStatus::Approved),
    ];
    assert_eq!(amount_with_status(&milestones, MilestoneStatus::Pending), Ok(50_001));
    assert_eq!(amount_with_status(&milestones, MilestoneStatus::Approved), Ok(600_020));
    assert_eq!(amount_with_status(&milestones, MilestoneStatus::Released), Ok(300));
    assert_eq!(amount_with_status(&milestones, MilestoneStatus::Cancelled), Ok(4_000));
    assert_eq!(amount_with_status(&Vec::new(), MilestoneStatus::Pending), Ok(0));
}

#[test]
fn a_sum_that_does_not_fit_is_an_overflow() {
    let milestones = vec![
        milestone(u64::MAX, MilestoneStatus::Pending),
        milestone(1, MilestoneStatus::Approved),
        milestone(1, MilestoneStatus::Pending),
    ];
    assert_eq!(
        amount_with_status(&milestones, MilestoneStatus::Pending),
        Err(EscrowError::Overflow)
    );
    assert_eq!(amount_with_status(&milestones, MilestoneStatus::Approved), Ok(1));
}

#[test]
fn settling_moves_open_milestones_only() {
    let mut milestones = vec![
        milestone(1, MilestoneStatus::Pending),
        milestone(2, MilestoneStatus::Approved),
        milestone(3, MilestoneStatus::Released),
        milestone(4, MilestoneStatus::Cancelled),
    ];
    settle_milestones(&mut milestones, MilestoneStatus::Cancelled, MilestoneStatus::Released);
    assert_eq!(
        milestones,
        vec![
            milestone(1, MilestoneStatus::Cancelled),
            milestone(2, MilestoneStatus::Released),
            milestone(3, MilestoneStatus::Released),
            milestone(4, MilestoneStatus::Cancelled),
        ]
    );
}

#[test]
fn settled_means_released_or_cancelled() {
    let mut escrow = bound(key(40), key(2));
    assert!(!escrow.all_milestones_settled());
    escrow.milestones = vec![
        milestone(1, MilestoneStatus::Released),
        milestone(2, MilestoneStatus::Cancelled),
    ];
    assert!(escrow.all_milestones_settled());
    escrow.milestones.push(milestone(3, MilestoneStatus::Pending));
    assert!(!escrow.all_milestones_settled());
    escrow.milestones.clear();
    assert!(escrow.all_milestones_settled());

    assert!(MilestoneStatus::Released.is_settled());
    assert!(MilestoneStatus::Cancelled.is_settled());
    assert!(!MilestoneStatus::Pending.is_settled());
    assert!(!MilestoneStatus::Approved.is_settled());
    assert!(EscrowStatus::Completed.is_terminal());
    assert!(EscrowStatus::Cancelled.is_terminal());
    assert!(EscrowStatus::Expired.is_terminal());
    assert!(!EscrowStatus::Active.is_terminal());
    assert!(!EscrowStatus::Disputed.is_terminal());
}

// ---- identities ----

#[test]
fn identities_are_compared_byte_by_byte() {
    assert_eq!(key(1), key(1));
    assert_ne!(key(1), key(2));
    let mut last = key(1);
    last.bytes[31] = 2;
    assert_ne!(key(1), last);
    let mut first = key(1);
    first.bytes[0] = 2;
    assert_ne!(key(1), first);
}

#[test]
fn the_null_identity_is_all_zeros() {
    assert_eq!(Pubkey::default(), key(0));
    assert_eq!(Pubkey::default().bytes, anchor_lang::prelude::Pubkey::default().to_bytes());
    assert!(Pubkey::default().is_null());
    assert!(!key(1).is_null());
    let mut almost = key(0);
    almost.bytes[31] = 1;
    assert!(!almost.is_null());
}

#[test]
fn the_classic_token_program_has_its_known_address() {
    let known = [
        6u8, 221, 246, 225, 215, 101, 161, 147, 217, 203, 225, 70, 206, 235, 121, 172, 28, 180,
        133, 237, 95, 91, 55, 145, 58, 140, 245, 133, 126, 255, 0, 169,
    ];
    assert_eq!(token_program().bytes, known);
    assert_eq!(
        outside(Pubkey { bytes: known }).to_string(),
        "TokenkegQfeZyiNwAJbNbGKPFXCWuBvf9Ss623VQ5DA"
    );
}

#[test]
fn the_classic_token_program_is_told_from_others() {
    assert!(is_token_program(&token_program()));
    assert!(!is_token_program(&key(0)));
    let mut near = token_program();
    near.bytes[0] ^= 1;
    assert!(!is_token_program(&near));
}

// ---- receipts ----

#[test]
fn a_receipt_in_the_beneficiarys_hands_is_in_sync() {
    let escrow = bound(key(40), key(41));
    let data = packed(key(40), key(41), 1, AccountState::Initialized);
    assert_eq!(verify_receipt_sync(&escrow, &evidence(data)), Ok(()));
    // A frozen account still shows who holds the receipt.
    let frozen = packed(key(40), key(41), 1, AccountState::Frozen);
    assert_eq!(verify_receipt_sync(&escrow, &evidence(frozen)), Ok(()));
}

#[test]
fn only_the_first_account_is_evidence() {
    let escrow = bound(key(40), key(41));
    let good = AccountInfo {
        owner: token_program(),
        data: packed(key(40), key(41), 1, AccountState::Initialized),
    };
    let bad = AccountInfo { owner: key(77), data: vec![] };
    assert_eq!(verify_receipt_sync(&escrow, &[good.clone(), bad.clone()]), Ok(()));
    assert_eq!(
        verify_receipt_sync(&escrow, &[bad, good]),
        Err(EscrowError::BeneficiaryNotSynced)
    );
}

#[test]
fn a_receipt_in_other_hands_is_out_of_sync() {
    let escrow = bound(key(40), key(41));
    let data = packed(key(40), key(42), 1, AccountState::Initialized);
    assert_eq!(
        verify_receipt_sync(&escrow, &evidence(data)),
        Err(EscrowError::BeneficiaryNotSynced)
    );
}

#[test]
fn evidence_of_another_mint_is_a_mismatch() {
    let escrow = bound(key(40), key(41));
    let data = packed(key(43), key(41), 1, AccountState::Initialized);
    assert_eq!(verify_receipt_sync(&escrow, &evidence(data)), Err(EscrowError::MintMismatch));
    // The mint is looked at before the amount and the holder.
    let data = packed(key(43), key(42), 0, AccountState::Initialized);
    assert_eq!(verify_receipt_sync(&escrow, &evidence(data)), Err(EscrowError::MintMismatch));
}

#[test]
fn an_account_that_holds_no_receipt_is_no_evidence() {
    let escrow = bound(key(40), key(41));
    for amount in [0, 2, u64::MAX] {
        let data = packed(key(40), key(41), amount, AccountState::Initialized);
        assert_eq!(
            verify_receipt_sync(&escrow, &evidence(data)),
            Err(EscrowError::InvalidReceiptHolder)
        );
    }
    // An amount of one in the lowest byte only.
    let mut data = packed(key(40), key(41), 1, AccountState::Initialized);
    data[71] = 1;
    assert_eq!(
        verify_receipt_sync(&escrow, &evidence(data)),
        Err(EscrowError::InvalidReceiptHolder)
    );
}

#[test]
fn missing_or_foreign_evidence_is_out_of_sync() {
    let escrow = bound(key(40), key(41));
    assert_eq!(verify_receipt_sync(&escrow, &[]), Err(EscrowError::BeneficiaryNotSynced));
    let foreign = AccountInfo {
        owner: key(77),
        data: packed(key(40), key(41), 1, AccountState::Initialized),
    };
    assert_eq!(verify_receipt_sync(&escrow, &[foreign]), Err(EscrowError::BeneficiaryNotSynced));
}

#[test]
fn data_that_is_no_token_account_is_out_of_sync() {
    let escrow = bound(key(40), key(41));
    let good = packed(key(40), key(41), 1, AccountState::Initialized);
    let refusal = Err(EscrowError::BeneficiaryNotSynced);

    let uninitialized = packed(key(40), key(41), 1, AccountState::Uninitialized);
    assert_eq!(verify_receipt_sync(&escrow, &evidence(uninitialized)), refusal);

    let mut short = good.clone();
    short.pop();
    assert_eq!(verify_receipt_sync(&escrow, &evidence(short)), refusal);
    let mut long = good.clone();
    long.push(0);
    assert_eq!(verify_receipt_sync(&escrow, &evidence(long)), refusal);
    assert_eq!(verify_receipt_sync(&escrow, &evidence(vec![])), refusal);

    // The state byte and the three tags of optional fields.
    for (at, value) in [(108, 3), (72, 2), (73, 1), (109, 2), (112, 1), (129, 2), (132, 1)] {
        let mut broken = good.clone();
        broken[at] = value;
        assert_eq!(verify_receipt_sync(&escrow, &evidence(broken)), refusal);
    }
    // What lies behind the tags does not matter.
    for at in [76, 107, 113, 120, 121, 128, 133, 164] {
        let mut other = good.clone();
        other[at] ^= 0xff;
        assert_eq!(verify_receipt_sync(&escrow, &evidence(other)), Ok(()));
    }
}

#[test]
fn the_holder_is_read_where_the_layout_puts_it() {
    let escrow = bound(key(40), key(41));
    let mut data = vec![0u8; 165];
    for byte in data[0..32].iter_mut() {
        *byte = 40;
    }
    for byte in data[32..64].iter_mut() {
        *byte = 41;
    }
    data[64] = 1;
    data[108] = 1;
    assert_eq!(verify_receipt_sync(&escrow, &evidence(data.clone())), Ok(()));
    data[63] = 42;
    assert_eq!(
        verify_receipt_sync(&escrow, &evidence(data.clone())),
        Err(EscrowError::BeneficiaryNotSynced)
    );
    data[31] = 42;
    assert_eq!(verify_receipt_sync(&escrow, &evidence(data)), Err(EscrowError::MintMismatch));
}

#[test]
fn an_unpacked_receipt_is_checked_field_by_field() {
    let escrow = bound(key(40), key(41));
    let receipt = TokenAccount { mint: key(40), owner: key(41), amount: 1 };
    assert_eq!(check_receipt_holder(&escrow, &receipt), Ok(()));
    let other_mint = TokenAccount { mint: key(43), ..receipt };
    assert_eq!(check_receipt_holder(&escrow, &other_mint), Err(EscrowError::MintMismatch));
    let empty = TokenAccount { amount: 0, ..receipt };
    assert_eq!(check_receipt_holder(&escrow, &empty), Err(EscrowError::InvalidReceiptHolder));
    let elsewhere = TokenAccount { owner: key(42), ..receipt };
    assert_eq!(check_receipt_holder(&escrow, &elsewhere), Err(EscrowError::BeneficiaryNotSynced));
}

#[test]
fn a_receipt_is_named_after_its_escrow() {
    assert_eq!(receipt_name("GCc4exWhx2tyw9EL"), "Escrow Receipt #GCc4exWh");
    assert_eq!(receipt_name("12345678"), "Escrow Receipt #12345678");
}

#[test]
fn a_receipt_describes_itself() {
    let metadata = receipt_metadata(&token_program()).unwrap();
    assert_eq!(
        metadata,
        ReceiptMetadata {
            name: "Escrow Receipt #Tokenkeg".to_string(),
            symbol: "RCPT".to_string(),
            uri: String::new(),
            seller_fee_basis_points: 0,
            is_mutable: false,
            max_supply: 0,
        }
    );
    let null = receipt_metadata(&key(0)).unwrap();
    assert_eq!(null.name, "Escrow Receipt #11111111");
    let some = receipt_metadata(&key(9)).unwrap();
    assert_eq!(some.name, format!("Escrow Receipt #{}", &outside(key(9)).to_string()[..8]));
}
