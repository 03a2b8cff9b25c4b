use vstd::prelude::*;
use crate::sealed_bid::{all_openable, is_sealed_outcome, sealed_bid_auction, AuctionResult};
use crate::state::Address;

pub use crate::sealed_bid::EncryptedBid;

verus! {

/// One sealed-bid auction of a batch: its bids, reserve and pricing mode
/// (0 = first price, 1 = second price).
#[derive(Clone, Debug)]
pub struct BatchAuction {
    pub auction_id: u64,
    pub bids: Vec<EncryptedBid>,
    pub reserve_price: u128,
    pub auction_type: u8,
}

#[derive(Clone, Debug)]
pub struct BatchSettlementResult {
    pub auction_results: Vec<SingleAuctionResult>,
    pub total_volume: u128,
    pub successful_auctions: u32,
}

#[derive(Clone, Copy, Debug)]
pub struct SingleAuctionResult {
    pub auction_id: u64,
    pub winner: Option<Address>,
    pub winning_amount: u128,
    pub success: bool,
}

/// `r` settles `auction` the way its sealed-bid outcome `outcome` says: a winner pays the
/// highest bid in first-price mode and the second price in second-price mode; without a winner
/// the auction fails with nothing paid.
pub open spec fn settles_as(auction: BatchAuction, outcome: AuctionResult, r: SingleAuctionResult) -> bool {
    &&& r.auction_id == auction.auction_id
    &&& match outcome {
        AuctionResult::Winner { bidder, winning_amount, second_price } => {
            &&& r.success
            &&& r.winner == Some(bidder)
            &&& r.winning_amount == if auction.auction_type == 0 {
                winning_amount
            } else {
                second_price->Some_0
            }
        },
        AuctionResult::NoWinner => !r.success && r.winner is None && r.winning_amount == 0,
    }
}

/// `r` settles `auction` according to its sealed-bid outcome.
pub open spec fn settles_auction(auction: BatchAuction, r: SingleAuctionResult) -> bool {
    exists|outcome: AuctionResult|
        is_sealed_outcome(auction.bids@, auction.auction_type, auction.reserve_price, outcome) && settles_as(
            auction,
            outcome,
            r,
        )
}

pub open spec fn batch_openable(auctions: Seq<BatchAuction>) -> bool {
    forall|i: int| 0 <= i < auctions.len() ==> all_openable(auctions[i].bids@)
}

pub open spec fn success_count(rs: Seq<SingleAuctionResult>) -> nat
    decreases rs.len(),
{
    if rs.len() == 0 {
        0
    } else {
        success_count(rs.drop_last()) + if rs.last().success {
            1nat
        } else {
            0nat
        }
    }
}

pub open spec fn success_volume(rs: Seq<SingleAuctionResult>) -> nat
    decreases rs.len(),
{
    if rs.len() == 0 {
        0
    } else {
        success_volume(rs.drop_last()) + if rs.last().success {
            rs.last().winning_amount as nat
        } else {
            0nat
        }
    }
}

proof fn lemma_success_count_bounded(rs: Seq<SingleAuctionResult>)
    ensures
        success_count(rs) <= rs.len(),
    decreases rs.len(),
{
    if rs.len() > 0 {
        lemma_success_count_bounded(rs.drop_last());
    }
}

/// Settles one auction of a batch through sealed-bid winner determination over its bids.
pub fn process_single_auction(auction: &BatchAuction) -> (r: SingleAuctionResult)
    requires
        all_openable(auction.bids@),
    ensures
        settles_auction(*auction, r),
{
    let outcome = sealed_bid_auction(&auction.bids, auction.auction_type, auction.reserve_price);
    let r = match outcome {
        AuctionResult::Winner { bidder, winning_amount, second_price } => {
            let amount = if auction.auction_type == 0 {
                winning_amount
            } else {
                match second_price {
                    Some(p) => p,
                    None => 0,
                }
            };
            SingleAuctionResult { auction_id: auction.auction_id, winner: Some(bidder), winning_amount: amount, success: true }
        },
        AuctionResult::NoWinner => SingleAuctionResult {
            auction_id: auction.auction_id,
            winner: None,
            winning_amount: 0,
            success: false,
        },
    };
    assert(is_sealed_outcome(auction.bids@, auction.auction_type, auction.reserve_price, outcome) && settles_as(
        *auction,
        outcome,
        r,
    ));
    r
}

/// Settles every auction of a batch in order, counting the successful ones and totalling their
/// winning amounts (saturating at `u128::MAX`).
pub fn batch_settlement(auctions: &Vec<BatchAuction>) -> (r: BatchSettlementResult)
    requires
        batch_openable(auctions@),
        auctions@.len() <= u32::MAX,
    ensures
        r.auction_results@.len() == auctions@.len(),
        forall|i: int| 0 <= i < auctions@.len() ==> settles_auction(auctions@[i], #[trigger] r.auction_results@[i]),
        r.successful_auctions == success_count(r.auction_results@),
        r.total_volume == if success_volume(r.auction_results@) > u128::MAX {
            u128::MAX as nat
        } else {
            success_volume(r.auction_results@)
        },
{
    let mut results: Vec<SingleAuctionResult> = Vec::new();
    let mut total_volume: u128 = 0;
    let mut successful_auctions: u32 = 0;
    let mut i: usize = 0;
    while i < auctions.len()
        invariant
            i <= auctions@.len() <= u32::MAX,
            batch_openable(auctions@),
            results@.len() == i,
            forall|j: int| 0 <= j < i ==> settles_auction(auctions@[j], #[trigger] results@[j]),
            successful_auctions == success_count(results@),
            total_volume == if success_volume(results@) > u128::MAX {
                u128::MAX as nat
            } else {
                success_volume(results@)
            },
        decreases auctions.len() - i,
    {
        let result = process_single_auction(&auctions[i]);
        let ghost before = results@;
        proof {
            lemma_success_count_bounded(before);
        }
        if result.success {
            successful_auctions = successful_auctions + 1;
            total_volume = total_volume.saturating_add(result.winning_amount);
        }
        results.push(result);
        assert(results@.drop_last() =~= before);
        assert(forall|j: int| 0 <= j < i ==> results@[j] == before[j]);
        assert(results@[i as int] == result);
        i = i + 1;
    }
    BatchSettlementResult { auction_results: results, total_volume, successful_auctions }
}

/// A batch checks out when the two digests agree and it holds at least one auction.
pub fn verify_batch_integrity(batch_id: u64, auction_count: u32, computed_hash: [u8; 32], expected_hash: [u8; 32]) -> (r: bool)
    ensures
        r == (computed_hash == expected_hash && auction_count > 0),
{
    let mut i: usize = 0;
    while i < 32
        invariant
            i <= 32,
            forall|j: int| 0 <= j < i ==> computed_hash[j] == expected_hash[j],
        decreases 32 - i,
    {
        if computed_hash[i] != expected_hash[i] {
            return false;
        }
        i = i + 1;
    }
    assert(computed_hash =~= expected_hash);
    auction_count > 0
}

} // verus!
