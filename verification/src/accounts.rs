use crate::state::Pubkey;
use vstd::prelude::*;

verus! {

/// What the engine reads of a token account: which token it holds, for whom,
/// and how much.
#[derive(Clone, Copy, Debug, PartialEq, Eq)]
pub struct TokenAccount {
    pub mint: Pubkey,
    pub owner: Pubkey,
    pub amount: u64,
}

/// What the engine reads of a token mint.
#[derive(Clone, Copy, Debug, PartialEq, Eq)]
pub struct MintAccount {
    /// The mint's own address.
    pub key: Pubkey,
    /// The program that owns the mint account.
    pub program: Pubkey,
    pub freeze_authority: Option<Pubkey>,
    pub supply: u64,
}

/// An account handed along as evidence: the program that owns it, and its
/// raw data.
#[derive(Clone, Debug, PartialEq, Eq)]
pub struct AccountInfo {
    pub owner: Pubkey,
    pub data: Vec<u8>,
}

/// Length of a packed token account.
pub const TOKEN_ACCOUNT_LEN: usize = 165;

/// The address of the classic token program.
pub open spec fn token_program_bytes() -> Seq<u8> {
    seq![
        6u8, 221u8, 246u8, 225u8, 215u8, 101u8, 161u8, 147u8, 217u8, 203u8, 225u8, 70u8, 206u8,
        235u8, 121u8, 172u8, 28u8, 180u8, 133u8, 237u8, 95u8, 91u8, 55u8, 145u8, 58u8, 140u8,
        245u8, 133u8, 126u8, 255u8, 0u8, 169u8,
    ]
}

/// The number that eight bytes spell, lowest byte first.
pub open spec fn le_u64(bytes: Seq<u8>) -> int {
    bytes[0] + bytes[1] * 0x100 + bytes[2] * 0x1_0000 + bytes[3] * 0x100_0000 + bytes[4]
        * 0x1_0000_0000 + bytes[5] * 0x100_0000_0000 + bytes[6] * 0x1_0000_0000_0000 + bytes[7]
        * 0x100_0000_0000_0000
}

/// The four bytes at `at` mark an optional field as absent or present.
pub open spec fn option_tag_at(data: Seq<u8>, at: int) -> bool {
    &&& data[at] == 0 || data[at] == 1
    &&& data[at + 1] == 0
    &&& data[at + 2] == 0
    &&& data[at + 3] == 0
}

/// `data` is a packed, initialized token account: 165 bytes, the tags of the
/// delegate, of the native reserve and of the close authority well formed,
/// and the state byte Initialized or Frozen.
pub open spec fn token_account_layout(data: Seq<u8>) -> bool {
    &&& data.len() == TOKEN_ACCOUNT_LEN
    &&& option_tag_at(data, 72)
    &&& data[108] == 1 || data[108] == 2
    &&& option_tag_at(data, 109)
    &&& option_tag_at(data, 129)
}

/// The token account that `data` unpacks to, if it does: of a packed,
/// initialized account the mint, the owner and the amount, read where the
/// layout puts them.
pub open spec fn unpacked_token_account(data: Seq<u8>) -> Option<TokenAccount> {
    if token_account_layout(data) {
        Some(
            TokenAccount {
                mint: Pubkey::of(data.subrange(0, 32)),
                owner: Pubkey::of(data.subrange(32, 64)),
                amount: le_u64(data.subrange(64, 72)) as u64,
            },
        )
    } else {
        None
    }
}

/// `anchor_spl::token::ID`, the address of the classic token program. The
/// contract states its thirty-two bytes.
#[verifier::external_body]
pub(crate) fn token_program_id() -> (r: Pubkey)
    ensures
        r@ == token_program_bytes(),
{
    Pubkey { bytes: anchor_spl::token::ID.to_bytes() }
}

/// Whether `program` is the classic token program.
pub fn is_token_program(program: &Pubkey) -> (r: bool)
    ensures
        r == (program@ == token_program_bytes()),
{
    let token_program = token_program_id();
    proof {
        Pubkey::lemma_view_injective(*program, token_program);
    }
    *program == token_program
}

/// `anchor_spl::token::TokenAccount::try_deserialize`, which unpacks a token
/// account with `spl_token::state::Account::unpack`. The contract states
/// that unpacking succeeds exactly on a packed, initialized account, and that
/// the mint, the owner and the amount are the bytes at 0, at 32 and, lowest
/// byte first, at 64.
#[verifier::external_body]
pub(crate) fn unpack_token_account(data: &[u8]) -> (r: Option<TokenAccount>)
    ensures
        r == unpacked_token_account(data@),
{
    let mut buf: &[u8] = data;
    match <anchor_spl::token::TokenAccount as anchor_lang::AccountDeserialize>::try_deserialize(
        &mut buf,
    ) {
        Ok(account) => Some(
            TokenAccount {
                mint: Pubkey { bytes: account.mint.to_bytes() },
                owner: Pubkey { bytes: account.owner.to_bytes() },
                amount: account.amount,
            },
        ),
        Err(_) => None,
    }
}

/// Whom the custody account pays.
#[derive(Clone, Copy, Debug, PartialEq, Eq, Structural)]
pub enum Recipient {
    Maker,
    Beneficiary,
    FeeCollector,
}

/// One thing that a successful operation asks of its caller: the engine
/// decides it, the caller carries it out.
#[derive(Clone, Copy, Debug, PartialEq, Eq)]
pub enum Action {
    /// Move `amount` from the maker's token account into the custody account.
    Deposit { amount: u64 },
    /// Pay `amount` out of the custody account.
    Pay { recipient: Recipient, amount: u64 },
    /// Mint `supply` units of the receipt `mint` to `holder`.
    MintReceipt { mint: Pubkey, holder: Pubkey, supply: u64 },
    /// Close the custody account and hand the record's storage back to the
    /// maker.
    Close,
}

/// The payment of `amount` to `recipient`: nothing where the amount is zero.
pub open spec fn payment(recipient: Recipient, amount: u64) -> Seq<Action> {
    if amount == 0 {
        Seq::empty()
    } else {
        seq![Action::Pay { recipient, amount }]
    }
}

/// What one action pays out of custody.
pub open spec fn pays(action: Action) -> int {
    match action {
        Action::Pay { amount, .. } => amount as int,
        _ => 0,
    }
}

/// The sum of what a list of actions pays out of custody.
pub open spec fn paid(actions: Seq<Action>) -> int
    decreases actions.len(),
{
    if actions.len() == 0 {
        0
    } else {
        paid(actions.drop_last()) + pays(actions.last())
    }
}

/// A payment pays its amount.
pub proof fn lemma_paid_payment(recipient: Recipient, amount: u64)
    ensures
        paid(payment(recipient, amount)) == amount,
{
    if amount != 0 {
        let one = seq![Action::Pay { recipient, amount }];
        assert(paid(one.drop_last()) == 0);
    }
}

/// Two lists of actions pay together what each pays alone.
pub proof fn lemma_paid_concat(first: Seq<Action>, second: Seq<Action>)
    ensures
        paid(first + second) == paid(first) + paid(second),
    decreases second.len(),
{
    if second.len() > 0 {
        assert((first + second).drop_last() =~= first + second.drop_last());
        lemma_paid_concat(first, second.drop_last());
    }
}

/// The payments to the three recipients pay the sum of the three amounts.
pub proof fn lemma_paid_three(to_maker: u64, to_beneficiary: u64, to_fee_collector: u64)
    ensures
        paid(
            payment(Recipient::Maker, to_maker) + payment(Recipient::Beneficiary, to_beneficiary)
                + payment(Recipient::FeeCollector, to_fee_collector),
        ) == to_maker + to_beneficiary + to_fee_collector,
{
    let maker = payment(Recipient::Maker, to_maker);
    let beneficiary = payment(Recipient::Beneficiary, to_beneficiary);
    let fee_collector = payment(Recipient::FeeCollector, to_fee_collector);
    lemma_paid_payment(Recipient::Maker, to_maker);
    lemma_paid_payment(Recipient::Beneficiary, to_beneficiary);
    lemma_paid_payment(Recipient::FeeCollector, to_fee_collector);
    lemma_paid_concat(maker, beneficiary);
    lemma_paid_concat(maker + beneficiary, fee_collector);
}

} // verus!
