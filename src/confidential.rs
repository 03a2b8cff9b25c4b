use vstd::prelude::*;
use crate::winner::{
    is_highest_qualifying, is_second_highest_qualifying, is_winner_at, lemma_ranking_prices, none_qualify,
    qualifies, rank_bids, two_qualify,
};

verus! {

/// A sealed bid as the confidential computation sees it once decrypted.
#[derive(Clone, Copy, Debug)]
pub struct EncryptedBid {
    pub amount: u64,
    pub bidder_id: u128,
    pub timestamp: u64,
    pub nonce: u128,
}

/// The auction parameters handed to winner determination.
#[derive(Clone, Copy, Debug)]
pub struct AuctionParams {
    pub auction_id: u64,
    pub minimum_bid: u64,
    pub reserve_price: u64,
    /// 0 = sealed-bid, 1 = Dutch.
    pub auction_type: u8,
}

/// Result of sealed-bid winner determination.
#[derive(Clone, Copy, Debug)]
pub struct SettlementResult {
    /// Winner's bidder id, 0 when nobody wins.
    pub winner_id: u128,
    /// Amount the winner pays, 0 when nobody wins.
    pub winning_amount: u64,
    /// Second-highest qualifying bid, 0 when fewer than two bids qualify.
    pub second_highest: u64,
    /// Whether some bid met both the minimum and the reserve.
    pub reserve_met: bool,
    pub timestamp: u64,
}

pub open spec fn bid_amounts(bids: Seq<EncryptedBid>) -> Seq<u128> {
    bids.map_values(|b: EncryptedBid| b.amount as u128)
}

/// A bid is acceptable when it meets both the minimum bid and the reserve price.
pub fn validate_bid(bid_amount: u64, minimum_bid: u64, reserve_price: u64) -> (r: bool)
    ensures
        r == qualifies(bid_amount as int, minimum_bid as int, reserve_price as int),
{
    bid_amount >= minimum_bid && bid_amount >= reserve_price
}

/// The auction has started and not yet ended at `current_time` (both ends inclusive).
pub fn verify_auction_timing(start_time: u64, end_time: u64, current_time: u64) -> (r: bool)
    ensures
        r == (start_time <= current_time && current_time <= end_time),
{
    current_time >= start_time && current_time <= end_time
}

fn collect_amounts(bids: &Vec<EncryptedBid>) -> (r: Vec<u128>)
    ensures
        r@ == bid_amounts(bids@),
{
    let mut r: Vec<u128> = Vec::new();
    let mut i: usize = 0;
    while i < bids.len()
        invariant
            i <= bids.len(),
            r@ == bid_amounts(bids@.take(i as int)),
        decreases bids.len() - i,
    {
        r.push(bids[i].amount as u128);
        assert(bids@.take(i as int + 1) == bids@.take(i as int).push(bids@[i as int]));
        assert(r@ =~= bid_amounts(bids@.take(i as int + 1)));
        i = i + 1;
    }
    assert(bids@.take(bids.len() as int) == bids@);
    r
}

/// Sealed-bid winner determination. The winner is the earliest of the highest bids that meet
/// both the minimum bid and the reserve. With `settlement_type` 0 (first price) the winner pays
/// the highest qualifying bid; otherwise (second price) the second-highest qualifying bid, or the
/// reserve price when no other bid qualifies. When no bid qualifies nobody wins.
pub fn settle_sealed_bid_auction(
    bids: &Vec<EncryptedBid>,
    params: AuctionParams,
    settlement_type: u8,
    timestamp: u64,
) -> (r: SettlementResult)
    ensures
        r.reserve_met <==> !none_qualify(bid_amounts(bids@), params.minimum_bid as u128, params.reserve_price as u128),
        !r.reserve_met ==> r.winner_id == 0 && r.winning_amount == 0,
        r.reserve_met ==> exists|w: int|
            is_winner_at(bid_amounts(bids@), params.minimum_bid as u128, params.reserve_price as u128, w)
                && r.winner_id == bids@[w].bidder_id,
        r.reserve_met && settlement_type == 0 ==> is_highest_qualifying(
            bid_amounts(bids@),
            params.minimum_bid as u128,
            params.reserve_price as u128,
            r.winning_amount as int,
        ),
        settlement_type != 0 && two_qualify(bid_amounts(bids@), params.minimum_bid as u128, params.reserve_price as u128)
            ==> is_second_highest_qualifying(
            bid_amounts(bids@),
            params.minimum_bid as u128,
            params.reserve_price as u128,
            r.winning_amount as int,
        ),
        settlement_type != 0 && r.reserve_met && !two_qualify(
            bid_amounts(bids@),
            params.minimum_bid as u128,
            params.reserve_price as u128,
        ) ==> r.winning_amount == params.reserve_price,
        two_qualify(bid_amounts(bids@), params.minimum_bid as u128, params.reserve_price as u128)
            ==> is_second_highest_qualifying(
            bid_amounts(bids@),
            params.minimum_bid as u128,
            params.reserve_price as u128,
            r.second_highest as int,
        ),
        !two_qualify(bid_amounts(bids@), params.minimum_bid as u128, params.reserve_price as u128)
            ==> r.second_highest == 0,
        r.timestamp == timestamp,
{
    let amounts = collect_amounts(bids);
    let ranking = rank_bids(&amounts, params.minimum_bid as u128, params.reserve_price as u128);
    proof {
        lemma_ranking_prices(amounts@, params.minimum_bid as u128, params.reserve_price as u128, ranking);
    }
    match ranking {
        None => SettlementResult {
            winner_id: 0,
            winning_amount: 0,
            second_highest: 0,
            reserve_met: false,
            timestamp,
        },
        Some(k) => {
            let ghost w = k.winner_index as int;
            assert(amounts@[w] == bids@[w].amount as u128);
            let highest = k.highest as u64;
            let (second, price) = match k.second_highest {
                Some(s) => {
                    let ghost j = choose|j: int|
                        0 <= j < amounts@.len() && j != w && qualifies(
                            amounts@[j] as int,
                            params.minimum_bid as int,
                            params.reserve_price as int,
                        ) && amounts@[j] == s;
                    assert(amounts@[j] == bids@[j].amount as u128);
                    (s as u64, s as u64)
                },
                None => (0u64, params.reserve_price),
            };
            SettlementResult {
                winner_id: bids[k.winner_index].bidder_id,
                winning_amount: if settlement_type == 0 { highest } else { price },
                second_highest: second,
                reserve_met: true,
                timestamp,
            }
        },
    }
}

} // verus!
