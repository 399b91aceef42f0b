use crate::accounts::Action;
use crate::error::EscrowError;
use crate::events::{Event, Outcome, ReceiptMinted};
use crate::state::{EscrowState, EscrowStateView, EscrowStatus, Pubkey};
use vstd::prelude::*;
use vstd::string::*;

verus! {

/// The accounts of the minting of a receipt. Only the beneficiary may ask
/// for one.
#[derive(Clone, Copy, Debug, PartialEq, Eq)]
pub struct MintReceipt {
    /// Who signed.
    pub beneficiary: Pubkey,
    /// The address of the escrow record.
    pub escrow_key: Pubkey,
    /// The address of the receipt's mint.
    pub receipt_mint: Pubkey,
}

/// Why the minting is refused, if it is: the first check that fails.
pub open spec fn rejection(escrow: EscrowStateView, ctx: MintReceipt, now: i64) -> Option<
    EscrowError,
> {
    if escrow.beneficiary != ctx.beneficiary {
        Some(EscrowError::NotBeneficiary)
    } else if escrow.receipt_mint is Some {
        Some(EscrowError::ReceiptAlreadyMinted)
    } else if escrow.status != EscrowStatus::Active {
        Some(EscrowError::EscrowNotActive)
    } else if now > escrow.expires_at {
        Some(EscrowError::EscrowExpired)
    } else {
        None
    }
}

/// The record after the minting: bound to the receipt.
pub open spec fn applied(escrow: EscrowStateView, ctx: MintReceipt) -> EscrowStateView {
    EscrowStateView { receipt_mint: Some(ctx.receipt_mint), ..escrow }
}

/// The one action of a minting: exactly one unit of the receipt goes to the
/// beneficiary.
pub open spec fn actions(ctx: MintReceipt) -> Seq<Action> {
    seq![
        Action::MintReceipt {
            mint: ctx.receipt_mint,
            holder: ctx.beneficiary,
            supply: RECEIPT_SUPPLY,
        },
    ]
}

/// The notification of the minting.
pub open spec fn events(ctx: MintReceipt) -> Seq<Event> {
    seq![
        Event::ReceiptMinted(
            ReceiptMinted {
                escrow: ctx.escrow_key,
                mint: ctx.receipt_mint,
                beneficiary: ctx.beneficiary,
            },
        ),
    ]
}

/// How many units of a receipt exist: it is unique.
pub const RECEIPT_SUPPLY: u64 = 1;

/// How a receipt describes itself to wallets.
#[derive(Clone, Debug, PartialEq, Eq)]
pub struct ReceiptMetadata {
    pub name: String,
    pub symbol: String,
    pub uri: String,
    pub seller_fee_basis_points: u16,
    /// Whether the description can be changed later.
    pub is_mutable: bool,
    /// How many copies may be printed of the receipt.
    pub max_supply: u64,
}

/// The base-58 text of an address.
pub uninterp spec fn base58_text(bytes: Seq<u8>) -> Seq<char>;

/// `to_string` of `anchor_lang::prelude::Pubkey`, which writes the address
/// in base 58. The contract states only that the text depends on the bytes
/// alone.
#[verifier::external_body]
pub(crate) fn to_base58(key: &Pubkey) -> (text: String)
    ensures
        text@ == base58_text(key@),
{
    anchor_lang::prelude::Pubkey::new_from_array(key.bytes).to_string()
}

/// The name of the receipt of the escrow whose address reads `encoded`: a
/// fixed title and the first eight characters of the address.
pub open spec fn receipt_name_text(encoded: Seq<char>) -> Seq<char> {
    "Escrow Receipt #"@ + encoded.subrange(0, 8)
}

/// An address text from which a receipt can be named: plain characters, at
/// least eight of them.
pub open spec fn nameable(encoded: Seq<char>) -> bool {
    vstd::utf8::is_ascii_chars(encoded) && encoded.len() >= 8
}

/// Names the receipt of the escrow whose address reads `encoded`.
pub fn receipt_name(encoded: &str) -> (name: String)
    requires
        nameable(encoded@),
    ensures
        name@ == receipt_name_text(encoded@),
{
    String::from_str("Escrow Receipt #").concat(encoded.substring_ascii(0, 8))
}

/// Describes the receipt of the escrow at `escrow_key`: named after the
/// address, without a link, without royalties, never to be changed and never
/// to be copied. There is no description where the address text is too
/// short to name the receipt.
pub fn receipt_metadata(escrow_key: &Pubkey) -> (r: Option<ReceiptMetadata>)
    ensures
        r is Some <==> nameable(base58_text(escrow_key@)),
        r matches Some(metadata) ==> {
            &&& metadata.name@ == receipt_name_text(base58_text(escrow_key@))
            &&& metadata.symbol@ == "RCPT"@
            &&& metadata.uri@ == Seq::<char>::empty()
            &&& metadata.seller_fee_basis_points == 0
            &&& !metadata.is_mutable
            &&& metadata.max_supply == 0
        },
{
    let encoded = to_base58(escrow_key);
    if !encoded.as_str().is_ascii() || encoded.as_str().unicode_len() < 8 {
        return None;
    }
    Some(
        ReceiptMetadata {
            name: receipt_name(encoded.as_str()),
            symbol: String::from_str("RCPT"),
            uri: String::new(),
            seller_fee_basis_points: 0,
            is_mutable: false,
            max_supply: 0,
        },
    )
}

/// Binds a receipt to the escrow and has exactly one unit of it minted to
/// the beneficiary. From then on the beneficiary is whoever holds the receipt,
/// and the claim can no longer be handed on directly.
pub fn handler(escrow: &mut EscrowState, ctx: &MintReceipt, now: i64) -> (r: Result<
    Outcome,
    EscrowError,
>)
    ensures
        match r {
            Ok(outcome) => {
                &&& rejection(old(escrow)@, *ctx, now) is None
                &&& final(escrow)@ == applied(old(escrow)@, *ctx)
                &&& outcome.actions@ == actions(*ctx)
                &&& outcome.events@ == events(*ctx)
            },
            Err(e) => {
                &&& rejection(old(escrow)@, *ctx, now) == Some(e)
                &&& *final(escrow) == *old(escrow)
            },
        },
        old(escrow)@.well_formed() ==> final(escrow)@.well_formed(),
        old(escrow)@.precedes(final(escrow)@),
{
    if escrow.beneficiary != ctx.beneficiary {
        return Err(EscrowError::NotBeneficiary);
    }
    if escrow.receipt_mint.is_some() {
        return Err(EscrowError::ReceiptAlreadyMinted);
    }
    // A receipt is a right to receive funds: only an active escrow has one
    // to give.
    if escrow.status != EscrowStatus::Active {
        return Err(EscrowError::EscrowNotActive);
    }
    if now > escrow.expires_at {
        return Err(EscrowError::EscrowExpired);
    }
    escrow.receipt_mint = Some(ctx.receipt_mint);

    let mut events: Vec<Event> = Vec::new();
    events.push(
        Event::ReceiptMinted(
            ReceiptMinted {
                escrow: ctx.escrow_key,
                mint: ctx.receipt_mint,
                beneficiary: ctx.beneficiary,
            },
        ),
    );
    let mut actions: Vec<Action> = Vec::new();
    actions.push(
        Action::MintReceipt {
            mint: ctx.receipt_mint,
            holder: ctx.beneficiary,
            supply: RECEIPT_SUPPLY,
        },
    );
    Ok(Outcome { actions, events })
}

} // verus!
