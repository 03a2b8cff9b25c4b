use vstd::prelude::*;
use crate::circuits::calculate_dutch_price;
use crate::error::ShadowProtocolError;
use crate::pricing::dutch_price;
use crate::state::{
    Address, AuctionAccount, AuctionStatus, AuctionType, BidAccount, ProtocolState, MAX_BIDS_PER_AUCTION,
};

verus! {

/// Largest collateral or Dutch bid accepted, keeping later arithmetic far from overflow.
pub const MAX_BID_AMOUNT: u64 = 0x7fff_ffff_ffff_ffff;

/// Bids may not share an `(auction_id, bidder)` key.
pub open spec fn keys_unique(bids: Seq<BidAccount>) -> bool {
    forall|i: int, j: int|
        0 <= i < bids.len() && 0 <= j < bids.len() && bids[i].auction_id == bids[j].auction_id
            && bids[i].bidder == bids[j].bidder ==> i == j
}

pub open spec fn has_bid(bids: Seq<BidAccount>, auction_id: u64, bidder: Address) -> bool {
    exists|i: int| 0 <= i < bids.len() && bids[i].auction_id == auction_id && bids[i].bidder == bidder
}

/// `bids` with the bid of `bidder` on `auction_id` flagged as the winning one.
pub open spec fn marked_winner(bids: Seq<BidAccount>, auction_id: u64, bidder: Address) -> Seq<BidAccount> {
    bids.map_values(
        |b: BidAccount|
            if b.auction_id == auction_id && b.bidder == bidder {
                BidAccount { is_winner: true, ..b }
            } else {
                b
            },
    )
}

/// The store of sealed bids, addressed by `(auction_id, bidder)`: at most one bid per bidder
/// per auction.
pub struct BidBook {
    bids: Vec<BidAccount>,
}

impl View for BidBook {
    type V = Seq<BidAccount>;

    closed spec fn view(&self) -> Seq<BidAccount> {
        self.bids@
    }
}

impl BidBook {
    pub open spec fn wf(&self) -> bool {
        keys_unique(self@)
    }

    pub fn new() -> (r: BidBook)
        ensures
            r.wf(),
            r@ == Seq::<BidAccount>::empty(),
    {
        BidBook { bids: Vec::new() }
    }

    pub fn len(&self) -> (r: usize)
        ensures
            r == self@.len(),
    {
        self.bids.len()
    }

    /// Position of the bid with this key, if there is one.
    pub fn find(&self, auction_id: u64, bidder: Address) -> (r: Option<usize>)
        ensures
            r is None <==> !has_bid(self@, auction_id, bidder),
            r is Some ==> r->Some_0 < self@.len() && self@[r->Some_0 as int].auction_id == auction_id
                && self@[r->Some_0 as int].bidder == bidder,
    {
        let mut i: usize = 0;
        while i < self.bids.len()
            invariant
                i <= self.bids@.len(),
                forall|j: int|
                    0 <= j < i ==> !(self.bids@[j].auction_id == auction_id && self.bids@[j].bidder == bidder),
            decreases self.bids.len() - i,
        {
            if self.bids[i].auction_id == auction_id && self.bids[i].bidder == bidder {
                return Some(i);
            }
            i = i + 1;
        }
        None
    }

    /// The bid with this key, if there is one.
    pub fn get(&self, auction_id: u64, bidder: Address) -> (r: Option<BidAccount>)
        ensures
            r is None <==> !has_bid(self@, auction_id, bidder),
            r is Some ==> exists|i: int|
                0 <= i < self@.len() && self@[i] == r->Some_0 && self@[i].auction_id == auction_id
                    && self@[i].bidder == bidder,
    {
        match self.find(auction_id, bidder) {
            Some(i) => Some(self.bids[i]),
            None => None,
        }
    }

    fn insert_new(&mut self, bid: BidAccount)
        requires
            old(self).wf(),
            !has_bid(old(self)@, bid.auction_id, bid.bidder),
        ensures
            final(self).wf(),
            final(self)@ == old(self)@.push(bid),
    {
        self.bids.push(bid);
    }

    /// Adds a bid under its key; refused when the bidder already holds a bid for that auction.
    pub fn insert(&mut self, bid: BidAccount) -> (r: Result<(), ShadowProtocolError>)
        requires
            old(self).wf(),
        ensures
            final(self).wf(),
            has_bid(old(self)@, bid.auction_id, bid.bidder) ==> r == Err::<(), _>(ShadowProtocolError::BidAlreadyExists)
                && final(self)@ == old(self)@,
            !has_bid(old(self)@, bid.auction_id, bid.bidder) ==> r is Ok && final(self)@ == old(self)@.push(bid),
    {
        if self.find(bid.auction_id, bid.bidder).is_some() {
            return Err(ShadowProtocolError::BidAlreadyExists);
        }
        self.insert_new(bid);
        Ok(())
    }

    /// Flags the bid with this key as the winning one; no bid is added or removed.
    pub fn mark_winner(&mut self, auction_id: u64, bidder: Address) -> (r: bool)
        requires
            old(self).wf(),
        ensures
            final(self).wf(),
            r == has_bid(old(self)@, auction_id, bidder),
            final(self)@ == marked_winner(old(self)@, auction_id, bidder),
    {
        match self.find(auction_id, bidder) {
            Some(i) => {
                let mut bid = self.bids[i];
                bid.is_winner = true;
                self.bids.set(i, bid);
                assert(self.bids@ =~= marked_winner(old(self)@, auction_id, bidder));
                true
            },
            None => {
                assert(self.bids@ =~= marked_winner(old(self)@, auction_id, bidder));
                false
            },
        }
    }
}

/// A bidder never holds two bid records for one auction.
pub proof fn lemma_one_bid_per_bidder(book: BidBook, i: int, j: int)
    requires
        book.wf(),
        0 <= i < book@.len(),
        0 <= j < book@.len(),
        book@[i].auction_id == book@[j].auction_id,
        book@[i].bidder == book@[j].bidder,
    ensures
        i == j,
{
}

/// Seconds since `start_time`, zero before it.
pub open spec fn elapsed_seconds(start_time: i64, now: i64) -> int {
    if now > start_time {
        now - start_time
    } else {
        0
    }
}

/// The current Dutch price of `auction` at `now`.
pub open spec fn current_dutch_price(auction: AuctionAccount, now: i64) -> int {
    dutch_price(
        auction.current_price as int,
        auction.price_decrease_rate as int,
        elapsed_seconds(auction.start_time, now),
        auction.minimum_price_floor as int,
    )
}

/// Current price of a Dutch auction: the starting price lowered by the decrease rate for each
/// second since the start, never below the floor.
pub fn calculate_dutch_auction_price(auction: &AuctionAccount, now: i64) -> (r: u64)
    ensures
        r == current_dutch_price(*auction, now),
{
    let elapsed: u64 = if now > auction.start_time {
        (now as i128 - auction.start_time as i128) as u64
    } else {
        0
    };
    calculate_dutch_price(auction.current_price, auction.price_decrease_rate, elapsed, auction.minimum_price_floor)
}

/// Why a sealed bid is refused, in the order the checks are made.
pub open spec fn sealed_bid_rejection(
    bids: Seq<BidAccount>,
    auction: AuctionAccount,
    protocol: ProtocolState,
    bidder: Address,
    collateral_amount: u64,
    collateral_balance: u64,
    now: i64,
) -> Option<ShadowProtocolError> {
    if has_bid(bids, auction.auction_id, bidder) {
        Some(ShadowProtocolError::BidAlreadyExists)
    } else if protocol.paused {
        Some(ShadowProtocolError::ProtocolPaused)
    } else if auction.status != AuctionStatus::Active {
        Some(ShadowProtocolError::InvalidAuctionStatus)
    } else if collateral_amount < auction.minimum_bid {
        Some(ShadowProtocolError::InsufficientCollateral)
    } else if collateral_amount > MAX_BID_AMOUNT {
        Some(ShadowProtocolError::InvalidAssetAmount)
    } else if collateral_balance < collateral_amount {
        Some(ShadowProtocolError::InsufficientFunds)
    } else if now >= auction.end_time {
        Some(ShadowProtocolError::AuctionEnded)
    } else if auction.bid_count >= MAX_BIDS_PER_AUCTION {
        Some(ShadowProtocolError::MaxBidsExceeded)
    } else {
        None
    }
}

/// Records a sealed bid on `auction` and counts it. The caller escrows `collateral_amount`
/// from `collateral_account` once this succeeds.
pub fn submit_encrypted_bid(
    book: &mut BidBook,
    auction: &mut AuctionAccount,
    protocol: &ProtocolState,
    bidder: Address,
    bid_amount_encrypted: [u8; 32],
    public_key: [u8; 32],
    nonce: u128,
    collateral_amount: u64,
    collateral_account: Address,
    collateral_balance: u64,
    now: i64,
) -> (r: Result<(), ShadowProtocolError>)
    requires
        old(book).wf(),
    ensures
        final(book).wf(),
        (match sealed_bid_rejection(
            old(book)@,
            *old(auction),
            *protocol,
            bidder,
            collateral_amount,
            collateral_balance,
            now,
        ) {
            Some(e) => r == Err::<(), _>(e) && final(book)@ == old(book)@ && *final(auction) == *old(auction),
            None => r is Ok && final(book)@ == old(book)@.push(
                BidAccount {
                    auction_id: old(auction).auction_id,
                    bidder,
                    amount_encrypted: bid_amount_encrypted,
                    encryption_public_key: public_key,
                    nonce,
                    timestamp: now,
                    collateral_amount,
                    collateral_account,
                    is_winner: false,
                },
            ) && *final(auction) == AuctionAccount { bid_count: (old(auction).bid_count + 1) as u64, ..*old(auction) },
        }),
{
    if book.find(auction.auction_id, bidder).is_some() {
        return Err(ShadowProtocolError::BidAlreadyExists);
    }
    if protocol.paused {
        return Err(ShadowProtocolError::ProtocolPaused);
    }
    if auction.status != AuctionStatus::Active {
        return Err(ShadowProtocolError::InvalidAuctionStatus);
    }
    if collateral_amount < auction.minimum_bid {
        return Err(ShadowProtocolError::InsufficientCollateral);
    }
    if collateral_amount > MAX_BID_AMOUNT {
        return Err(ShadowProtocolError::InvalidAssetAmount);
    }
    if collateral_balance < collateral_amount {
        return Err(ShadowProtocolError::InsufficientFunds);
    }
    if now >= auction.end_time {
        return Err(ShadowProtocolError::AuctionEnded);
    }
    if auction.bid_count >= MAX_BIDS_PER_AUCTION as u64 {
        return Err(ShadowProtocolError::MaxBidsExceeded);
    }
    book.insert_new(
        BidAccount {
            auction_id: auction.auction_id,
            bidder,
            amount_encrypted: bid_amount_encrypted,
            encryption_public_key: public_key,
            nonce,
            timestamp: now,
            collateral_amount,
            collateral_account,
            is_winner: false,
        },
    );
    auction.bid_count = auction.bid_count + 1;
    Ok(())
}

/// Why a Dutch bid is refused, in the order the checks are made.
pub open spec fn dutch_bid_rejection(
    auction: AuctionAccount,
    protocol: ProtocolState,
    bid_amount: u64,
    collateral_amount: u64,
    collateral_balance: u64,
    now: i64,
) -> Option<ShadowProtocolError> {
    if auction.auction_type != AuctionType::Dutch {
        Some(ShadowProtocolError::InvalidAuctionType)
    } else if protocol.paused {
        Some(ShadowProtocolError::ProtocolPaused)
    } else if collateral_amount < bid_amount {
        Some(ShadowProtocolError::InsufficientCollateral)
    } else if bid_amount > MAX_BID_AMOUNT {
        Some(ShadowProtocolError::InvalidAssetAmount)
    } else if collateral_balance < collateral_amount {
        Some(ShadowProtocolError::InsufficientFunds)
    } else if auction.status != AuctionStatus::Active {
        Some(ShadowProtocolError::InvalidAuctionStatus)
    } else if now >= auction.end_time {
        Some(ShadowProtocolError::AuctionEnded)
    } else if bid_amount < current_dutch_price(auction, now) {
        Some(ShadowProtocolError::DutchPriceNotMet)
    } else {
        None
    }
}

/// The first bid that meets the current Dutch price wins at once: the auction ends with that
/// bidder as winner at the current price (not the bidder's own offer). Returns that price. The
/// caller moves `collateral_amount` to the protocol once this succeeds.
pub fn submit_dutch_bid(
    auction: &mut AuctionAccount,
    protocol: &ProtocolState,
    bidder: Address,
    bid_amount: u64,
    collateral_amount: u64,
    collateral_balance: u64,
    now: i64,
) -> (r: Result<u64, ShadowProtocolError>)
    ensures
        (match dutch_bid_rejection(*old(auction), *protocol, bid_amount, collateral_amount, collateral_balance, now) {
            Some(e) => r == Err::<u64, _>(e) && *final(auction) == *old(auction),
            None => r == Ok::<u64, ShadowProtocolError>(current_dutch_price(*old(auction), now) as u64)
                && *final(auction) == AuctionAccount {
                status: AuctionStatus::Ended,
                winner: Some(bidder),
                winning_amount: current_dutch_price(*old(auction), now) as u64,
                bid_count: 1,
                ..*old(auction)
            },
        }),
{
    if auction.auction_type != AuctionType::Dutch {
        return Err(ShadowProtocolError::InvalidAuctionType);
    }
    if protocol.paused {
        return Err(ShadowProtocolError::ProtocolPaused);
    }
    if collateral_amount < bid_amount {
        return Err(ShadowProtocolError::InsufficientCollateral);
    }
    if bid_amount > MAX_BID_AMOUNT {
        return Err(ShadowProtocolError::InvalidAssetAmount);
    }
    if collateral_balance < collateral_amount {
        return Err(ShadowProtocolError::InsufficientFunds);
    }
    if auction.status != AuctionStatus::Active {
        return Err(ShadowProtocolError::InvalidAuctionStatus);
    }
    if now >= auction.end_time {
        return Err(ShadowProtocolError::AuctionEnded);
    }
    let current_price = calculate_dutch_auction_price(auction, now);
    if bid_amount < current_price {
        return Err(ShadowProtocolError::DutchPriceNotMet);
    }
    if current_price < auction.minimum_price_floor {
        return Err(ShadowProtocolError::PriceBelowMinimumFloor);
    }
    auction.status = AuctionStatus::Ended;
    auction.winner = Some(bidder);
    auction.winning_amount = current_price;
    auction.bid_count = 1;
    Ok(current_price)
}

} // verus!
