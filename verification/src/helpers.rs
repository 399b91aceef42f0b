use crate::accounts::{
    is_token_program, payment, token_program_bytes, unpack_token_account, unpacked_token_account,
    AccountInfo, Action, Recipient, TokenAccount,
};
use crate::error::EscrowError;
use crate::state::{EscrowState, EscrowStateView, Pubkey, ESCROW_SEED, MAX_BPS};
use vstd::prelude::*;

verus! {

/// The fee on `amount` at `fee_bps` basis points, rounded down.
pub open spec fn fee_of(amount: int, fee_bps: int) -> int {
    amount * fee_bps / 10_000
}

/// At no more than 10000 basis points the fee is between nothing and the
/// whole amount.
pub proof fn lemma_fee_within_amount(amount: int, fee_bps: int)
    requires
        0 <= amount,
        0 <= fee_bps <= MAX_BPS,
    ensures
        0 <= fee_of(amount, fee_bps) <= amount,
{
    assert(0 <= amount * fee_bps <= amount * 10_000) by (nonlinear_arith)
        requires
            0 <= amount,
            0 <= fee_bps <= 10_000,
    ;
}

/// The seeds under which an escrow signs for its custody account: the escrow
/// tag, the maker, the maker's nonce and the bump.
pub fn escrow_seeds<'a>(maker: &'a Pubkey, seed_bytes: &'a [u8; 8], bump: &'a [u8; 1]) -> (seeds: [
    &'a [u8]; 4
])
    ensures
        seeds[0]@ == ESCROW_SEED@,
        seeds[1]@ == maker@,
        seeds[2]@ == seed_bytes@,
        seeds[3]@ == bump@,
{
    let tag: &'static [u8; 6] = &ESCROW_SEED;
    [tag.as_slice(), maker.bytes.as_slice(), seed_bytes.as_slice(), bump.as_slice()]
}

/// Plans a payment out of the custody account. A payment of nothing is not
/// made.
pub fn transfer_from_vault(actions: &mut Vec<Action>, recipient: Recipient, amount: u64)
    ensures
        final(actions)@ == old(actions)@ + payment(recipient, amount),
{
    if amount == 0 {
        return ;
    }
    actions.push(Action::Pay { recipient, amount });
}

/// Calculate fee and net amount. Returns (fee, net) where net = amount - fee.
/// A fee above the amount is an overflow.
pub fn calculate_fee(amount: u64, fee_bps: u64) -> (r: Result<(u64, u64), EscrowError>)
    ensures
        match r {
            Ok((fee, net)) => {
                &&& fee == fee_of(amount as int, fee_bps as int)
                &&& net == amount - fee
                &&& fee + net == amount
            },
            Err(e) => e == EscrowError::Overflow && fee_of(amount as int, fee_bps as int) > amount,
        },
        fee_bps <= MAX_BPS ==> r is Ok,
{
    proof {
        assert(amount * fee_bps <= 0xFFFF_FFFF_FFFF_FFFF * 0xFFFF_FFFF_FFFF_FFFF)
            by (nonlinear_arith)
            requires
                0 <= amount <= 0xFFFF_FFFF_FFFF_FFFF,
                0 <= fee_bps <= 0xFFFF_FFFF_FFFF_FFFF,
        ;
        if fee_bps <= MAX_BPS {
            lemma_fee_within_amount(amount as int, fee_bps as int);
        }
    }
    let fee_wide = (amount as u128).checked_mul(fee_bps as u128).ok_or(
        EscrowError::Overflow,
    )?.checked_div(10_000).ok_or(EscrowError::Overflow)?;
    if fee_wide > amount as u128 {
        return Err(EscrowError::Overflow);
    }
    let fee = fee_wide as u64;
    let net = amount.checked_sub(fee).ok_or(EscrowError::Overflow)?;
    Ok((fee, net))
}

/// Why a receipt account fails to show that its holder is the beneficiary: a
/// receipt of another mint, one that holds no unit, or one held by somebody
/// else.
pub open spec fn receipt_holder_rejection(
    escrow: EscrowStateView,
    receipt: TokenAccount,
) -> Option<EscrowError>
    recommends
        escrow.receipt_mint is Some,
{
    if escrow.receipt_mint != Some(receipt.mint) {
        Some(EscrowError::MintMismatch)
    } else if receipt.amount != 1 {
        Some(EscrowError::InvalidReceiptHolder)
    } else if receipt.owner != escrow.beneficiary {
        Some(EscrowError::BeneficiaryNotSynced)
    } else {
        None
    }
}

/// Why the accounts handed along fail to show that the receipt's holder is
/// the beneficiary. The first of them must be a token account of the classic
/// token program that unpacks to a receipt in the beneficiary's hands.
pub open spec fn receipt_sync_rejection(
    escrow: EscrowStateView,
    remaining_accounts: Seq<AccountInfo>,
) -> Option<EscrowError>
    recommends
        escrow.receipt_mint is Some,
{
    if remaining_accounts.len() == 0 {
        Some(EscrowError::BeneficiaryNotSynced)
    } else if remaining_accounts[0].owner@ != token_program_bytes() {
        Some(EscrowError::BeneficiaryNotSynced)
    } else {
        match unpacked_token_account(remaining_accounts[0].data@) {
            None => Some(EscrowError::BeneficiaryNotSynced),
            Some(receipt) => receipt_holder_rejection(escrow, receipt),
        }
    }
}

/// Checks an unpacked receipt account against the escrow to which a receipt
/// is bound: it must be of the escrow's receipt mint, hold exactly one unit
/// and belong to the beneficiary.
pub fn check_receipt_holder(escrow: &EscrowState, receipt: &TokenAccount) -> (r: Result<
    (),
    EscrowError,
>)
    requires
        escrow.receipt_mint is Some,
    ensures
        r == match receipt_holder_rejection(escrow@, *receipt) {
            Some(e) => Err::<(), EscrowError>(e),
            None => Ok(()),
        },
{
    if receipt.mint != escrow.receipt_mint.unwrap() {
        return Err(EscrowError::MintMismatch);
    }
    if receipt.amount != 1 {
        return Err(EscrowError::InvalidReceiptHolder);
    }
    if receipt.owner != escrow.beneficiary {
        return Err(EscrowError::BeneficiaryNotSynced);
    }
    Ok(())
}

/// Verify that the receipt holder matches `escrow.beneficiary`.
/// Must be called when `escrow.receipt_mint.is_some()`.
/// Expects `remaining_accounts[0]` to be the receipt token account.
pub fn verify_receipt_sync(escrow: &EscrowState, remaining_accounts: &[AccountInfo]) -> (r: Result<
    (),
    EscrowError,
>)
    requires
        escrow.receipt_mint is Some,
    ensures
        r == match receipt_sync_rejection(escrow@, remaining_accounts@) {
            Some(e) => Err::<(), EscrowError>(e),
            None => Ok(()),
        },
{
    if remaining_accounts.len() == 0 {
        return Err(EscrowError::BeneficiaryNotSynced);
    }
    let receipt_info = &remaining_accounts[0];
    if !is_token_program(&receipt_info.owner) {
        return Err(EscrowError::BeneficiaryNotSynced);
    }
    match unpack_token_account(receipt_info.data.as_slice()) {
        None => Err(EscrowError::BeneficiaryNotSynced),
        Some(receipt) => check_receipt_holder(escrow, &receipt),
    }
}

} // verus!
