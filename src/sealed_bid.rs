use vstd::prelude::*;
use crate::bytes::{le_value, read_le_u128};
use crate::state::Address;
use crate::winner::{
    is_highest_qualifying, is_second_highest_qualifying, is_winner_at, lemma_ranking_prices, none_qualify,
    rank_bids, two_qualify,
};

verus! {

/// A sealed bid: the bidder and the ciphertext of the amount with its nonce.
#[derive(Clone, Debug)]
pub struct EncryptedBid {
    pub bidder: Address,
    pub amount_encrypted: Vec<u8>,
    pub nonce: u128,
}

/// Outcome of a sealed-bid auction.
#[derive(Clone, Copy, Debug)]
pub enum AuctionResult {
    Winner { bidder: Address, winning_amount: u128, second_price: Option<u128> },
    NoWinner,
}

/// The amount a ciphertext opens to: its first 16 bytes read little-endian, masked by the nonce.
pub open spec fn opened_amount(encrypted: Seq<u8>, nonce: u128) -> u128 {
    (le_value(encrypted.subrange(0, 16)) as u128) ^ nonce
}

pub open spec fn opened_amounts(bids: Seq<EncryptedBid>) -> Seq<u128> {
    bids.map_values(|b: EncryptedBid| opened_amount(b.amount_encrypted@, b.nonce))
}

pub open spec fn all_openable(bids: Seq<EncryptedBid>) -> bool {
    forall|i: int| 0 <= i < bids.len() ==> bids[i].amount_encrypted@.len() >= 16
}

/// Opens a bid amount: the first 16 bytes little-endian, masked by the nonce.
pub fn decrypt_bid_amount(encrypted: &Vec<u8>, nonce: u128) -> (r: u128)
    requires
        encrypted@.len() >= 16,
    ensures
        r == opened_amount(encrypted@, nonce),
{
    read_le_u128(encrypted, 0) ^ nonce
}

/// Whether a bid reaches the reserve price.
pub fn verify_reserve_price(bid_amount: u128, reserve_price: u128) -> (r: bool)
    ensures
        r == (bid_amount >= reserve_price),
{
    bid_amount >= reserve_price
}

pub fn open_amounts(bids: &Vec<EncryptedBid>) -> (r: Vec<u128>)
    requires
        all_openable(bids@),
    ensures
        r@ == opened_amounts(bids@),
{
    let mut r: Vec<u128> = Vec::new();
    let mut i: usize = 0;
    while i < bids.len()
        invariant
            i <= bids.len(),
            all_openable(bids@),
            r@ == opened_amounts(bids@.take(i as int)),
        decreases bids.len() - i,
    {
        let amount = decrypt_bid_amount(&bids[i].amount_encrypted, bids[i].nonce);
        r.push(amount);
        assert(bids@.take(i as int + 1) == bids@.take(i as int).push(bids@[i as int]));
        assert(r@ =~= opened_amounts(bids@.take(i as int + 1)));
        i = i + 1;
    }
    assert(bids@.take(bids.len() as int) == bids@);
    r
}

/// `r` is the sealed-bid outcome of `bids` over the bids that meet the reserve. `auction_type`
/// 0 is first price (no second price reported), 1 is second price (the second price is the
/// second-highest qualifying bid, or the reserve when only one bid qualifies); any other type
/// has no winner. The winner is the earliest of the highest qualifying bids.
pub open spec fn is_sealed_outcome(
    bids: Seq<EncryptedBid>,
    auction_type: u8,
    reserve_price: u128,
    r: AuctionResult,
) -> bool {
    let amounts = opened_amounts(bids);
    &&& r is NoWinner <==> (none_qualify(amounts, 0, reserve_price) || auction_type > 1)
    &&& r is Winner ==> exists|w: int| is_winner_at(amounts, 0, reserve_price, w) && r->Winner_bidder == bids[w].bidder
    &&& r is Winner ==> is_highest_qualifying(amounts, 0, reserve_price, r->Winner_winning_amount as int)
    &&& r is Winner && auction_type == 0 ==> r->Winner_second_price is None
    &&& r is Winner && auction_type == 1 ==> r->Winner_second_price is Some
    &&& r is Winner && auction_type == 1 && two_qualify(amounts, 0, reserve_price) ==> is_second_highest_qualifying(
        amounts,
        0,
        reserve_price,
        r->Winner_second_price->Some_0 as int,
    )
    &&& r is Winner && auction_type == 1 && !two_qualify(amounts, 0, reserve_price) ==> r->Winner_second_price
        == Some(reserve_price)
}

/// Sealed-bid winner determination over opened bids (see `is_sealed_outcome`).
pub fn sealed_bid_auction(bids: &Vec<EncryptedBid>, auction_type: u8, reserve_price: u128) -> (r: AuctionResult)
    requires
        all_openable(bids@),
    ensures
        is_sealed_outcome(bids@, auction_type, reserve_price, r),
{
    let amounts = open_amounts(bids);
    let ranking = rank_bids(&amounts, 0, reserve_price);
    proof {
        lemma_ranking_prices(amounts@, 0, reserve_price, ranking);
    }
    match ranking {
        None => AuctionResult::NoWinner,
        Some(k) => {
            if auction_type == 0 {
                AuctionResult::Winner {
                    bidder: bids[k.winner_index].bidder,
                    winning_amount: k.highest,
                    second_price: None,
                }
            } else if auction_type == 1 {
                let second = match k.second_highest {
                    Some(s) => s,
                    None => reserve_price,
                };
                AuctionResult::Winner {
                    bidder: bids[k.winner_index].bidder,
                    winning_amount: k.highest,
                    second_price: Some(second),
                }
            } else {
                AuctionResult::NoWinner
            }
        },
    }
}

} // verus!
