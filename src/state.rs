use vstd::prelude::*;

verus! {

/// Longest allowed auction, in seconds (30 days).
pub const MAX_AUCTION_DURATION: i64 = 30 * 24 * 60 * 60;

/// Highest protocol fee, in basis points (5%).
pub const MAX_PROTOCOL_FEE: u16 = 500;

/// Cap on the number of sealed bids one auction accepts.
pub const MAX_BIDS_PER_AUCTION: usize = 1000;

/// Fee charged on a fresh protocol, in basis points (0.5%).
pub const DEFAULT_PROTOCOL_FEE: u16 = 50;

/// Seconds between initiating and completing an authority transfer (48 hours).
pub const AUTHORITY_TRANSFER_TIMELOCK: i64 = 48 * 60 * 60;

/// Largest batch of auctions settled together.
pub const MAX_BATCH_SIZE: usize = 10;

/// A 32-byte account identity (a public key).
#[derive(Clone, Copy, Debug)]
pub struct Address {
    pub bytes: [u8; 32],
}

/// The all-zero identity, which stands for "nobody".
pub open spec fn is_zero_address(a: Address) -> bool {
    forall|i: int| 0 <= i < 32 ==> a.bytes[i] == 0
}

impl Address {
    pub fn new(bytes: [u8; 32]) -> (r: Address)
        ensures
            r.bytes == bytes,
    {
        Address { bytes }
    }

    pub fn zero() -> (r: Address)
        ensures
            is_zero_address(r),
    {
        Address { bytes: [0u8; 32] }
    }

    pub fn is_zero(&self) -> (r: bool)
        ensures
            r == is_zero_address(*self),
    {
        let mut i: usize = 0;
        while i < 32
            invariant
                i <= 32,
                forall|j: int| 0 <= j < i ==> self.bytes[j] == 0,
            decreases 32 - i,
        {
            if self.bytes[i] != 0 {
                return false;
            }
            i = i + 1;
        }
        true
    }
}

impl PartialEq for Address {
    fn eq(&self, other: &Address) -> (r: bool) {
        let mut i: usize = 0;
        while i < 32
            invariant
                i <= 32,
                forall|j: int| 0 <= j < i ==> self.bytes[j] == other.bytes[j],
            decreases 32 - i,
        {
            if self.bytes[i] != other.bytes[i] {
                return false;
            }
            i = i + 1;
        }
        assert(self.bytes =~= other.bytes);
        true
    }
}

impl vstd::std_specs::cmp::PartialEqSpecImpl for Address {
    open spec fn obeys_eq_spec() -> bool {
        true
    }

    open spec fn eq_spec(&self, other: &Address) -> bool {
        *self == *other
    }
}

impl Eq for Address {}

#[derive(Clone, Copy, Debug, PartialEq, Eq, Structural)]
pub enum AuctionType {
    SealedBid,
    Dutch,
    Batch,
}

/// Lifecycle of an auction: `Created -> Active -> Ended -> {Settled | Cancelled}`.
#[derive(Clone, Copy, Debug, PartialEq, Eq, Structural)]
pub enum AuctionStatus {
    Created,
    Active,
    Ended,
    Settled,
    Cancelled,
}

#[derive(Clone, Copy, Debug, PartialEq, Eq, Structural)]
pub enum BatchStatus {
    Created,
    Settling,
    Settled,
    Failed,
}

/// The process-wide protocol configuration.
#[derive(Clone, Copy, Debug)]
pub struct ProtocolState {
    pub authority: Address,
    /// Protocol fee in basis points (50 = 0.5%).
    pub protocol_fee: u16,
    pub fee_recipient: Address,
    pub paused: bool,
    /// Id that the next created auction receives.
    pub next_auction_id: u64,
    pub pending_authority: Option<Address>,
    /// Moment from which a pending authority transfer may complete.
    pub authority_transfer_timelock: Option<i64>,
}

impl ProtocolState {
    /// The fee stays within its cap, and a pending transfer always has its deadline.
    pub open spec fn wf(&self) -> bool {
        &&& self.protocol_fee <= MAX_PROTOCOL_FEE
        &&& self.pending_authority.is_some() == self.authority_transfer_timelock.is_some()
    }
}

/// How one operation moved the auction-id counter: a creation hands out the counter's value and
/// advances it by one; anything else leaves it alone.
pub open spec fn counter_step(before: ProtocolState, after: ProtocolState, created: Option<u64>) -> bool {
    match created {
        Some(id) => id == before.next_auction_id && after.next_auction_id == before.next_auction_id + 1,
        None => after.next_auction_id == before.next_auction_id,
    }
}

/// One auction record.
#[derive(Clone, Copy, Debug)]
pub struct AuctionAccount {
    pub auction_id: u64,
    pub creator: Address,
    pub asset_mint: Address,
    pub asset_vault: Address,
    pub asset_amount: u64,
    pub auction_type: AuctionType,
    pub status: AuctionStatus,
    pub start_time: i64,
    pub end_time: i64,
    pub minimum_bid: u64,
    /// Lowest price a Dutch auction decays to.
    pub minimum_price_floor: u64,
    pub reserve_price_encrypted: [u8; 32],
    pub reserve_price_nonce: u128,
    /// Starting price of a Dutch auction.
    pub current_price: u64,
    /// Price decrease per second of a Dutch auction.
    pub price_decrease_rate: u64,
    pub bid_count: u64,
    pub winner: Option<Address>,
    pub winning_amount: u64,
    pub settled_at: Option<i64>,
    pub mpc_verification_hash: Option<[u8; 32]>,
    pub settlement_authorized: bool,
}

/// One sealed bid, addressed by `(auction_id, bidder)`.
#[derive(Clone, Copy, Debug)]
pub struct BidAccount {
    pub auction_id: u64,
    pub bidder: Address,
    pub amount_encrypted: [u8; 32],
    pub encryption_public_key: [u8; 32],
    pub nonce: u128,
    pub timestamp: i64,
    pub collateral_amount: u64,
    pub collateral_account: Address,
    pub is_winner: bool,
}

/// A group of auctions settled by one confidential computation.
#[derive(Clone, Debug)]
pub struct BatchSettlement {
    pub batch_id: u64,
    pub creator: Address,
    pub auction_ids: Vec<u64>,
    pub status: BatchStatus,
    pub created_at: i64,
    pub settled_at: Option<i64>,
}

/// What the confidential computation delivers to a callback.
pub enum ComputationOutputs {
    Bytes(Vec<u8>),
    Error(String),
}

} // verus!
