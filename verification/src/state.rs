use vstd::prelude::*;

verus! {

/// Most milestones one escrow may carry.
pub const MAX_MILESTONES: usize = 5;

/// Shortest time, in seconds, between creation and expiration.
pub const MIN_EXPIRATION_DURATION: i64 = 3600;

/// Longest dispute timeout, in seconds: one year.
pub const MAX_DISPUTE_TIMEOUT: i64 = 365 * 24 * 3600;

/// One hundred percent, in basis points.
pub const MAX_BPS: u16 = 10_000;

/// Tag under which the settings are stored.
pub const ESCROW_CONFIG_SEED: [u8; 13] = [
    101, 115, 99, 114, 111, 119, 95, 99, 111, 110, 102, 105, 103,
];

/// Tag under which an escrow is stored.
pub const ESCROW_SEED: [u8; 6] = [101, 115, 99, 114, 111, 119];

/// Tag under which an escrow's receipt mint is stored.
pub const RECEIPT_SEED: [u8; 7] = [114, 101, 99, 101, 105, 112, 116];

/// A 32-byte identity: a party, a token, an account.
#[derive(Clone, Copy, Debug)]
pub struct Pubkey {
    pub bytes: [u8; 32],
}

impl View for Pubkey {
    type V = Seq<u8>;

    open spec fn view(&self) -> Seq<u8> {
        self.bytes@
    }
}

impl PartialEq for Pubkey {
    fn eq(&self, other: &Pubkey) -> (r: bool) {
        let mut i: usize = 0;
        while i < 32
            invariant
                i <= 32,
                forall|j: int| 0 <= j < i ==> self.bytes[j] == other.bytes[j],
            decreases 32 - i,
        {
            if self.bytes[i] != other.bytes[i] {
                return false;
            }
            i += 1;
        }
        proof {
            assert(self.bytes =~= other.bytes);
        }
        true
    }
}

impl Eq for Pubkey {

}

impl vstd::std_specs::cmp::PartialEqSpecImpl for Pubkey {
    open spec fn obeys_eq_spec() -> bool {
        true
    }

    open spec fn eq_spec(&self, other: &Pubkey) -> bool {
        *self == *other
    }
}

impl Default for Pubkey {
    /// The null identity: thirty-two zero bytes.
    fn default() -> (r: Pubkey)
        ensures
            r.null(),
    {
        Pubkey { bytes: [0u8; 32] }
    }
}

impl Pubkey {
    /// The null identity, which no party can hold: every byte is zero.
    pub open spec fn null(self) -> bool {
        forall|i: int| 0 <= i < 32 ==> self.bytes[i] == 0
    }

    /// The identity that thirty-two bytes spell.
    pub open spec fn of(bytes: Seq<u8>) -> Pubkey {
        Pubkey {
            bytes: [
                bytes[0], bytes[1], bytes[2], bytes[3], bytes[4], bytes[5], bytes[6], bytes[7],
                bytes[8], bytes[9], bytes[10], bytes[11], bytes[12], bytes[13], bytes[14],
                bytes[15], bytes[16], bytes[17], bytes[18], bytes[19], bytes[20], bytes[21],
                bytes[22], bytes[23], bytes[24], bytes[25], bytes[26], bytes[27], bytes[28],
                bytes[29], bytes[30], bytes[31],
            ],
        }
    }

    /// An identity spelled by thirty-two bytes reads as those bytes.
    pub proof fn lemma_of_bytes(bytes: Seq<u8>)
        requires
            bytes.len() == 32,
        ensures
            Pubkey::of(bytes)@ == bytes,
    {
        assert(Pubkey::of(bytes)@ =~= bytes);
    }

    /// Two identities are the same exactly when their bytes are.
    pub proof fn lemma_view_injective(a: Pubkey, b: Pubkey)
        ensures
            (a@ == b@) <==> (a == b),
    {
        if a@ == b@ {
            assert(a.bytes =~= b.bytes);
        }
    }

    pub fn is_null(&self) -> (r: bool)
        ensures
            r == self.null(),
    {
        let zero = Pubkey::default();
        proof {
            if self.null() {
                assert(self.bytes =~= zero.bytes);
            }
        }
        *self == zero
    }
}

/// The process-wide settings that every escrow reads.
#[derive(Clone, Copy, Debug, PartialEq, Eq)]
pub struct EscrowConfig {
    pub authority: Pubkey,
    pub fee_bps: u16,
    pub fee_collector: Pubkey,
    pub dispute_timeout: i64,
    pub bump: u8,
}

impl EscrowConfig {
    /// What holds of the settings from initialization on.
    pub open spec fn well_formed(self) -> bool {
        &&& self.fee_bps <= MAX_BPS
        &&& 0 < self.dispute_timeout <= MAX_DISPUTE_TIMEOUT
        &&& !self.fee_collector.null()
        &&& !self.authority.null()
    }
}

#[derive(Clone, Copy, Debug, PartialEq, Eq, Structural)]
pub enum EscrowStatus {
    Active,
    Completed,
    Disputed,
    Cancelled,
    Expired,
}

impl EscrowStatus {
    /// Completed, Cancelled and Expired are final: no operation leaves them.
    pub open spec fn terminal(self) -> bool {
        self == EscrowStatus::Completed || self == EscrowStatus::Cancelled || self
            == EscrowStatus::Expired
    }

    /// An active escrow can end up anywhere; a disputed one never becomes
    /// active again; a terminal one stays what it is.
    pub open spec fn may_become(self, later: EscrowStatus) -> bool {
        match self {
            EscrowStatus::Active => true,
            EscrowStatus::Disputed => later != EscrowStatus::Active,
            EscrowStatus::Completed => later == EscrowStatus::Completed,
            EscrowStatus::Cancelled => later == EscrowStatus::Cancelled,
            EscrowStatus::Expired => later == EscrowStatus::Expired,
        }
    }

    pub fn is_terminal(&self) -> (r: bool)
        ensures
            r == self.terminal(),
    {
        match self {
            EscrowStatus::Active => false,
            EscrowStatus::Completed => true,
            EscrowStatus::Disputed => false,
            EscrowStatus::Cancelled => true,
            EscrowStatus::Expired => true,
        }
    }
}

#[derive(Clone, Copy, Debug, PartialEq, Eq, Structural)]
pub enum MilestoneStatus {
    Pending,
    Approved,
    Released,
    Cancelled,
}

impl MilestoneStatus {
    /// Released and Cancelled are final for a milestone.
    pub open spec fn settled(self) -> bool {
        self == MilestoneStatus::Released || self == MilestoneStatus::Cancelled
    }

    /// A milestone only ever moves Pending -> Approved -> Released, or from
    /// Pending or Approved to Cancelled; it may also stay where it is.
    pub open spec fn may_become(self, later: MilestoneStatus) -> bool {
        match self {
            MilestoneStatus::Pending => true,
            MilestoneStatus::Approved => later != MilestoneStatus::Pending,
            MilestoneStatus::Released => later == MilestoneStatus::Released,
            MilestoneStatus::Cancelled => later == MilestoneStatus::Cancelled,
        }
    }

    pub fn is_settled(&self) -> (r: bool)
        ensures
            r == self.settled(),
    {
        match self {
            MilestoneStatus::Pending => false,
            MilestoneStatus::Approved => false,
            MilestoneStatus::Released => true,
            MilestoneStatus::Cancelled => true,
        }
    }
}

#[derive(Clone, Copy, Debug, PartialEq, Eq)]
pub struct Milestone {
    pub amount: u64,
    pub description_hash: [u8; 32],
    pub status: MilestoneStatus,
}

impl Milestone {
    /// The same milestone in another status.
    pub open spec fn with_status(self, status: MilestoneStatus) -> Milestone {
        Milestone { amount: self.amount, description_hash: self.description_hash, status }
    }
}

#[derive(Clone, Copy, Debug, PartialEq, Eq, Structural)]
pub enum DisputeResolution {
    MakerWins,
    TakerWins,
    Split { maker_bps: u16 },
}

#[derive(Clone, Copy, Debug, PartialEq, Eq)]
pub struct Dispute {
    pub initiator: Pubkey,
    pub reason_hash: [u8; 32],
    pub initiated_at: i64,
    pub timeout: i64,
    pub resolution: Option<DisputeResolution>,
}

impl Dispute {
    /// The last moment at which the authority may still rule. It may lie
    /// beyond what a time can hold: such a dispute never times out.
    pub open spec fn deadline(self) -> int {
        self.initiated_at + self.timeout
    }
}

/// One escrow record.
#[derive(Clone, Debug, PartialEq, Eq)]
pub struct EscrowState {
    pub maker: Pubkey,
    pub taker: Pubkey,
    pub beneficiary: Pubkey,
    pub mint: Pubkey,
    pub amount: u64,
    pub released_amount: u64,
    pub refunded_amount: u64,
    pub seed: u64,
    pub status: EscrowStatus,
    pub milestones: Vec<Milestone>,
    pub created_at: i64,
    pub expires_at: i64,
    pub dispute: Option<Dispute>,
    pub fee_bps_at_creation: u16,
    pub bump: u8,
    pub receipt_mint: Option<Pubkey>,
}

/// What an escrow record holds, with its milestones as a sequence.
pub struct EscrowStateView {
    pub maker: Pubkey,
    pub taker: Pubkey,
    pub beneficiary: Pubkey,
    pub mint: Pubkey,
    pub amount: u64,
    pub released_amount: u64,
    pub refunded_amount: u64,
    pub seed: u64,
    pub status: EscrowStatus,
    pub milestones: Seq<Milestone>,
    pub created_at: i64,
    pub expires_at: i64,
    pub dispute: Option<Dispute>,
    pub fee_bps_at_creation: u16,
    pub bump: u8,
    pub receipt_mint: Option<Pubkey>,
}

impl View for EscrowState {
    type V = EscrowStateView;

    open spec fn view(&self) -> EscrowStateView {
        EscrowStateView {
            maker: self.maker,
            taker: self.taker,
            beneficiary: self.beneficiary,
            mint: self.mint,
            amount: self.amount,
            released_amount: self.released_amount,
            refunded_amount: self.refunded_amount,
            seed: self.seed,
            status: self.status,
            milestones: self.milestones@,
            created_at: self.created_at,
            expires_at: self.expires_at,
            dispute: self.dispute,
            fee_bps_at_creation: self.fee_bps_at_creation,
            bump: self.bump,
            receipt_mint: self.receipt_mint,
        }
    }
}

/// The sum of the amounts of the milestones that are in `status`.
pub open spec fn amount_in(milestones: Seq<Milestone>, status: MilestoneStatus) -> int
    decreases milestones.len(),
{
    if milestones.len() == 0 {
        0
    } else {
        amount_in(milestones.drop_last(), status) + if milestones.last().status == status {
            milestones.last().amount as int
        } else {
            0
        }
    }
}

/// The sum of all milestone amounts.
pub open spec fn total_amount(milestones: Seq<Milestone>) -> int
    decreases milestones.len(),
{
    if milestones.len() == 0 {
        0
    } else {
        total_amount(milestones.drop_last()) + milestones.last().amount
    }
}

/// Every milestone is Released or Cancelled.
pub open spec fn all_settled(milestones: Seq<Milestone>) -> bool {
    forall|i: int| 0 <= i < milestones.len() ==> (#[trigger] milestones[i]).status.settled()
}

/// The milestones with every Pending one moved to `pending_to` and every
/// Approved one to `approved_to`; settled milestones stay as they are.
pub open spec fn settle(
    milestones: Seq<Milestone>,
    pending_to: MilestoneStatus,
    approved_to: MilestoneStatus,
) -> Seq<Milestone> {
    Seq::new(
        milestones.len(),
        |i: int|
            match milestones[i].status {
                MilestoneStatus::Pending => milestones[i].with_status(pending_to),
                MilestoneStatus::Approved => milestones[i].with_status(approved_to),
                MilestoneStatus::Released => milestones[i],
                MilestoneStatus::Cancelled => milestones[i],
            },
    )
}

impl EscrowStateView {
    /// What is neither released nor refunded yet.
    pub open spec fn remaining(self) -> int {
        self.amount - self.released_amount - self.refunded_amount
    }

    /// While the escrow is open, the two counters are exactly the settled
    /// milestones, and some milestone is still open.
    pub open spec fn open_accounting(self) -> bool {
        &&& self.released_amount == amount_in(self.milestones, MilestoneStatus::Released)
        &&& self.refunded_amount == amount_in(self.milestones, MilestoneStatus::Cancelled)
        &&& !all_settled(self.milestones)
    }

    /// Once the escrow is terminal, every unit is released or refunded.
    pub open spec fn closed_accounting(self) -> bool {
        &&& self.released_amount + self.refunded_amount == self.amount
        &&& all_settled(self.milestones)
    }

    /// The fee rate that the record took from the settings is no more than
    /// the whole. It holds of every record created under well-formed settings,
    /// and it keeps the fee on any amount within that amount.
    pub open spec fn fee_in_range(self) -> bool {
        self.fee_bps_at_creation <= MAX_BPS
    }

    /// What holds of every record from creation on, whatever operations ran.
    pub open spec fn well_formed(self) -> bool {
        &&& 1 <= self.milestones.len() <= MAX_MILESTONES
        &&& forall|i: int|
            0 <= i < self.milestones.len() ==> (#[trigger] self.milestones[i]).amount > 0
        &&& total_amount(self.milestones) == self.amount
        &&& self.released_amount + self.refunded_amount <= self.amount
        &&& self.maker != self.taker
        &&& self.maker != self.beneficiary
        &&& self.created_at + MIN_EXPIRATION_DURATION <= self.expires_at
        &&& match self.status {
            EscrowStatus::Active => self.dispute is None && self.open_accounting(),
            EscrowStatus::Disputed => {
                &&& self.dispute matches Some(d)
                &&& d.resolution is None
                &&& self.open_accounting()
            },
            EscrowStatus::Completed => self.closed_accounting(),
            EscrowStatus::Cancelled => self.closed_accounting(),
            EscrowStatus::Expired => self.closed_accounting(),
        }
    }

    /// `later` can come after `self`: what is fixed at creation is the same,
    /// neither the escrow nor a milestone went backwards, and neither counter
    /// fell.
    pub open spec fn precedes(self, later: EscrowStateView) -> bool {
        &&& later.maker == self.maker
        &&& later.taker == self.taker
        &&& later.mint == self.mint
        &&& later.amount == self.amount
        &&& later.seed == self.seed
        &&& later.created_at == self.created_at
        &&& later.expires_at == self.expires_at
        &&& later.fee_bps_at_creation == self.fee_bps_at_creation
        &&& later.bump == self.bump
        &&& later.released_amount >= self.released_amount
        &&& later.refunded_amount >= self.refunded_amount
        &&& later.milestones.len() == self.milestones.len()
        &&& forall|i: int|
            0 <= i < self.milestones.len() ==> {
                &&& (#[trigger] later.milestones[i]).amount == self.milestones[i].amount
                &&& later.milestones[i].description_hash == self.milestones[i].description_hash
                &&& self.milestones[i].status.may_become(later.milestones[i].status)
            }
        &&& self.status.may_become(later.status)
    }
}

/// In a well-formed record, what was released and refunded never exceeds
/// what was funded, and the milestones add up to what was funded.
pub proof fn lemma_accounting_within_amount(escrow: EscrowStateView)
    requires
        escrow.well_formed(),
    ensures
        escrow.released_amount + escrow.refunded_amount <= escrow.amount,
        total_amount(escrow.milestones) == escrow.amount,
{
}

/// In a well-formed record that is terminal, every unit that was funded is
/// released or refunded, and every milestone is settled.
pub proof fn lemma_terminal_fully_accounted(escrow: EscrowStateView)
    requires
        escrow.well_formed(),
        escrow.status.terminal(),
    ensures
        escrow.released_amount + escrow.refunded_amount == escrow.amount,
        all_settled(escrow.milestones),
{
}

/// A record comes after itself.
pub proof fn lemma_precedes_reflexive(escrow: EscrowStateView)
    ensures
        escrow.precedes(escrow),
{
}

/// What comes after a later record comes after the earlier one.
pub proof fn lemma_precedes_transitive(
    first: EscrowStateView,
    second: EscrowStateView,
    third: EscrowStateView,
)
    requires
        first.precedes(second),
        second.precedes(third),
    ensures
        first.precedes(third),
{
}

/// One milestone as the maker asks for it at creation.
#[derive(Clone, Copy, Debug, PartialEq, Eq)]
pub struct MilestoneInput {
    pub amount: u64,
    pub description_hash: [u8; 32],
}

impl EscrowState {
    /// Returns true when every milestone has reached a terminal status.
    pub fn all_milestones_settled(&self) -> (r: bool)
        ensures
            r == all_settled(self.milestones@),
    {
        let mut i: usize = 0;
        while i < self.milestones.len()
            invariant
                i <= self.milestones.len(),
                forall|j: int| 0 <= j < i ==> (#[trigger] self.milestones@[j]).status.settled(),
            decreases self.milestones.len() - i,
        {
            if !self.milestones[i].status.is_settled() {
                return false;
            }
            i += 1;
        }
        true
    }
}

} // verus!
