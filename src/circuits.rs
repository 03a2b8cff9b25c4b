use vstd::prelude::*;
use crate::pricing::{decay_price_u64, dutch_price, fee_of};
use crate::winner::{
    is_second_highest_qualifying, is_winner_at, lemma_ranking_prices, none_qualify, rank_bids, two_qualify,
};

verus! {

/// Per-auction outcome fed into batch aggregation.
#[derive(Clone, Copy, Debug)]
pub struct AuctionSettlement {
    pub auction_id: u64,
    pub winner_id: u128,
    pub winning_amount: u64,
    pub reserve_met: bool,
}

#[derive(Clone, Debug)]
pub struct BatchData {
    pub batch_id: u64,
    pub auction_settlements: Vec<AuctionSettlement>,
    pub total_volume: u64,
    pub total_fees: u64,
}

/// Summary of a batch.
#[derive(Clone, Copy, Debug)]
pub struct BatchResult {
    pub batch_id: u64,
    pub successful_settlements: u64,
    pub failed_settlements: u64,
    pub total_volume: u64,
    pub total_fees: u64,
    pub computation_complete: bool,
}

#[derive(Clone, Copy, Debug)]
pub struct DutchAuctionData {
    pub auction_id: u64,
    pub reserve_price: u64,
    pub current_price: u64,
    pub minimum_floor: u64,
}

#[derive(Clone, Copy, Debug)]
pub struct DutchBid {
    pub auction_id: u64,
    pub bid_amount: u64,
    pub bidder_id: u128,
    pub timestamp: i64,
}

#[derive(Clone, Copy, Debug)]
pub struct BidData {
    pub auction_id: u64,
    pub bid_amount: u64,
    pub bidder_id: u128,
}

#[derive(Clone, Debug)]
pub struct AuctionData {
    pub reserve_price: u64,
    pub bids: Vec<BidData>,
    pub bid_count: u64,
}

/// An auction of the batch succeeded: its reserve was met and it has a winner.
pub open spec fn settlement_succeeded(s: AuctionSettlement) -> bool {
    s.reserve_met && s.winner_id != 0
}

pub open spec fn succeeded_count(s: Seq<AuctionSettlement>) -> nat
    decreases s.len(),
{
    if s.len() == 0 {
        0
    } else {
        succeeded_count(s.drop_last()) + if settlement_succeeded(s.last()) {
            1nat
        } else {
            0nat
        }
    }
}

/// Sum of the winning amounts of the successful auctions.
pub open spec fn succeeded_volume(s: Seq<AuctionSettlement>) -> nat
    decreases s.len(),
{
    if s.len() == 0 {
        0
    } else {
        succeeded_volume(s.drop_last()) + if settlement_succeeded(s.last()) {
            s.last().winning_amount as nat
        } else {
            0nat
        }
    }
}

/// Sum of the protocol fees on the successful auctions.
pub open spec fn succeeded_fees(s: Seq<AuctionSettlement>, fee_bps: u16) -> nat
    decreases s.len(),
{
    if s.len() == 0 {
        0
    } else {
        succeeded_fees(s.drop_last(), fee_bps) + if settlement_succeeded(s.last()) {
            fee_of(s.last().winning_amount as int, fee_bps as int) as nat
        } else {
            0nat
        }
    }
}

pub open spec fn saturate_u64(x: int) -> int {
    if x > u64::MAX {
        u64::MAX as int
    } else {
        x
    }
}

pub open spec fn settlement_ids(s: Seq<AuctionSettlement>) -> Seq<u64> {
    s.map_values(|a: AuctionSettlement| a.auction_id)
}

pub open spec fn has_no_duplicates(ids: Seq<u64>) -> bool {
    forall|i: int, j: int| 0 <= i < j < ids.len() ==> ids[i] != ids[j]
}

/// Aggregates a batch: counts the successful and failed auctions, and totals the volume and
/// the protocol fees of the successful ones; both totals saturate at `u64::MAX`, so one
/// pathological auction cannot abort the batch.
pub fn process_batch_settlement(batch: &BatchData, protocol_fee_bps: u16) -> (r: BatchResult)
    ensures
        r.batch_id == batch.batch_id,
        r.successful_settlements == succeeded_count(batch.auction_settlements@),
        r.failed_settlements == batch.auction_settlements@.len() - succeeded_count(batch.auction_settlements@),
        r.total_volume == saturate_u64(succeeded_volume(batch.auction_settlements@) as int),
        r.total_fees == saturate_u64(succeeded_fees(batch.auction_settlements@, protocol_fee_bps) as int),
        r.computation_complete,
{
    let settlements = &batch.auction_settlements;
    let mut successful_count: u64 = 0;
    let mut failed_count: u64 = 0;
    let mut total_volume: u64 = 0;
    let mut total_fees: u64 = 0;
    let mut i: usize = 0;
    while i < settlements.len()
        invariant
            i <= settlements@.len(),
            successful_count == succeeded_count(settlements@.take(i as int)),
            failed_count == i - succeeded_count(settlements@.take(i as int)),
            succeeded_count(settlements@.take(i as int)) <= i,
            total_volume == saturate_u64(succeeded_volume(settlements@.take(i as int)) as int),
            total_fees == saturate_u64(succeeded_fees(settlements@.take(i as int), protocol_fee_bps) as int),
        decreases settlements.len() - i,
    {
        let s = settlements[i];
        proof {
            let next = settlements@.take(i as int + 1);
            assert(next.drop_last() =~= settlements@.take(i as int));
            assert(next.last() == s);
        }
        if s.reserve_met && s.winner_id != 0 {
            successful_count = successful_count + 1;
            total_volume = total_volume.saturating_add(s.winning_amount);
            assert((s.winning_amount as int) * (protocol_fee_bps as int) <= u128::MAX) by (nonlinear_arith)
                requires
                    s.winning_amount <= u64::MAX,
                    protocol_fee_bps <= u16::MAX,
            ;
            let fee128 = (s.winning_amount as u128) * (protocol_fee_bps as u128) / 10000;
            let fee: u64 = if fee128 > u64::MAX as u128 {
                u64::MAX
            } else {
                fee128 as u64
            };
            total_fees = total_fees.saturating_add(fee);
        } else {
            failed_count = failed_count + 1;
        }
        i = i + 1;
    }
    assert(settlements@.take(settlements@.len() as int) =~= settlements@);
    BatchResult {
        batch_id: batch.batch_id,
        successful_settlements: successful_count,
        failed_settlements: failed_count,
        total_volume,
        total_fees,
        computation_complete: true,
    }
}

/// A batch is sound when it holds exactly `expected_count` auctions and no auction id twice.
pub fn verify_batch_integrity(batch: &BatchData, expected_count: u64) -> (r: bool)
    ensures
        r == (batch.auction_settlements@.len() == expected_count && has_no_duplicates(
            settlement_ids(batch.auction_settlements@),
        )),
{
    let settlements = &batch.auction_settlements;
    let count_matches = settlements.len() as u64 == expected_count;
    let mut i: usize = 0;
    while i < settlements.len()
        invariant
            i <= settlements@.len(),
            settlements@ == batch.auction_settlements@,
            forall|a: int, b: int|
                0 <= a < b < i ==> settlements@[a].auction_id != settlements@[b].auction_id,
        decreases settlements.len() - i,
    {
        let mut j: usize = 0;
        while j < i
            invariant
                j <= i < settlements@.len(),
                settlements@ == batch.auction_settlements@,
                forall|a: int| 0 <= a < j ==> settlements@[a].auction_id != settlements@[i as int].auction_id,
            decreases i - j,
        {
            if settlements[j].auction_id == settlements[i].auction_id {
                let ghost ids = settlement_ids(settlements@);
                assert(ids[j as int] == ids[i as int]);
                assert(!has_no_duplicates(ids)) by {
                    if has_no_duplicates(ids) {
                        assert(ids[j as int] != ids[i as int]);
                    }
                }
                return false;
            }
            j = j + 1;
        }
        i = i + 1;
    }
    assert(has_no_duplicates(settlement_ids(settlements@)));
    count_matches
}

/// Checks a Dutch bid against the current price, the hidden reserve and the floor. A valid bid
/// wins at the larger of the current price and the reserve (not at its own offer).
pub fn process_dutch_auction_bid(auction: &DutchAuctionData, bid: &DutchBid) -> (r: (bool, u64, u128))
    ensures
        r.0 == (bid.bid_amount >= auction.current_price && bid.bid_amount >= auction.reserve_price
            && auction.current_price >= auction.minimum_floor),
        r.0 ==> r.1 == if auction.current_price >= auction.reserve_price {
            auction.current_price
        } else {
            auction.reserve_price
        },
        r.0 ==> r.2 == bid.bidder_id,
        !r.0 ==> r.1 == 0 && r.2 == 0,
{
    let meets_price = bid.bid_amount >= auction.current_price;
    let meets_reserve = bid.bid_amount >= auction.reserve_price;
    let above_floor = auction.current_price >= auction.minimum_floor;
    let is_valid = meets_price && meets_reserve && above_floor;
    let final_price = if !is_valid {
        0
    } else if auction.current_price >= auction.reserve_price {
        auction.current_price
    } else {
        auction.reserve_price
    };
    let winner_id = if is_valid {
        bid.bidder_id
    } else {
        0
    };
    (is_valid, final_price, winner_id)
}

/// Dutch price after `elapsed_time` seconds: the starting price lowered by `decrease_rate` per
/// second, never below `minimum_floor`.
pub fn calculate_dutch_price(starting_price: u64, decrease_rate: u64, elapsed_time: u64, minimum_floor: u64) -> (r: u64)
    ensures
        r == dutch_price(starting_price as int, decrease_rate as int, elapsed_time as int, minimum_floor as int),
{
    let current_price = decay_price_u64(starting_price, decrease_rate, elapsed_time);
    if current_price >= minimum_floor {
        current_price
    } else {
        minimum_floor
    }
}

pub open spec fn bid_data_amounts(bids: Seq<BidData>) -> Seq<u128> {
    bids.map_values(|b: BidData| b.bid_amount as u128)
}

/// Second-price sealed-bid auction over the bids that meet the reserve. Returns the winner's id
/// (0 when none), the amount paid (the second-highest qualifying bid, or the reserve when only
/// one bid qualifies; 0 when none) and whether any bid met the reserve.
pub fn process_sealed_bid_auction(auction: &AuctionData, bids: &Vec<BidData>) -> (r: (u128, u64, bool))
    ensures
        r.2 <==> !none_qualify(bid_data_amounts(bids@), 0, auction.reserve_price as u128),
        !r.2 ==> r.0 == 0 && r.1 == 0,
        r.2 ==> exists|w: int|
            is_winner_at(bid_data_amounts(bids@), 0, auction.reserve_price as u128, w) && r.0
                == bids@[w].bidder_id,
        two_qualify(bid_data_amounts(bids@), 0, auction.reserve_price as u128) ==> is_second_highest_qualifying(
            bid_data_amounts(bids@),
            0,
            auction.reserve_price as u128,
            r.1 as int,
        ),
        r.2 && !two_qualify(bid_data_amounts(bids@), 0, auction.reserve_price as u128) ==> r.1
            == auction.reserve_price,
{
    let mut amounts: Vec<u128> = Vec::new();
    let mut i: usize = 0;
    while i < bids.len()
        invariant
            i <= bids.len(),
            amounts@ == bid_data_amounts(bids@.take(i as int)),
        decreases bids.len() - i,
    {
        amounts.push(bids[i].bid_amount as u128);
        assert(bids@.take(i as int + 1) == bids@.take(i as int).push(bids@[i as int]));
        assert(amounts@ =~= bid_data_amounts(bids@.take(i as int + 1)));
        i = i + 1;
    }
    assert(bids@.take(bids.len() as int) == bids@);
    let ranking = rank_bids(&amounts, 0, auction.reserve_price as u128);
    proof {
        lemma_ranking_prices(amounts@, 0, auction.reserve_price as u128, ranking);
    }
    match ranking {
        None => (0, 0, false),
        Some(k) => {
            let price = match k.second_highest {
                Some(s) => {
                    let ghost w = k.winner_index as int;
                    let ghost j = choose|j: int|
                        0 <= j < amounts@.len() && j != w && amounts@[j] >= auction.reserve_price as u128
                            && amounts@[j] == s;
                    assert(amounts@[j] == bids@[j].bid_amount as u128);
                    s as u64
                },
                None => auction.reserve_price,
            };
            (bids[k.winner_index].bidder_id, price, true)
        },
    }
}

/// A bid is well formed for `auction_id` when it names that auction and offers a positive amount.
pub fn verify_bid_encryption(bid: &BidData, auction_id: u64) -> (r: bool)
    ensures
        r == (bid.auction_id == auction_id && bid.bid_amount > 0),
{
    bid.auction_id == auction_id && bid.bid_amount > 0
}

} // verus!
