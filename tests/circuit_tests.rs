use shadow_protocol::circuits::{
    process_batch_settlement, process_dutch_auction_bid, verify_batch_integrity, verify_bid_encryption,
    AuctionSettlement, BatchData, BidData, DutchAuctionData, DutchBid,
};

fn settlement(auction_id: u64, winner_id: u128, winning_amount: u64, reserve_met: bool) -> AuctionSettlement {
    AuctionSettlement { auction_id, winner_id, winning_amount, reserve_met }
}

fn batch_of(ids: &[u64]) -> BatchData {
    BatchData {
        batch_id: 9,
        auction_settlements: ids.iter().map(|id| settlement(*id, 1, 10, true)).collect(),
        total_volume: 0,
        total_fees: 0,
    }
}

#[test]
fn integrity_rejects_duplicate_ids() {
    assert!(!verify_batch_integrity(&batch_of(&[5, 7, 5]), 3));
}

#[test]
fn integrity_rejects_count_mismatch() {
    assert!(!verify_batch_integrity(&batch_of(&[5, 7]), 3));
}

#[test]
fn integrity_accepts_distinct_ids_with_matching_count() {
    assert!(verify_batch_integrity(&batch_of(&[5, 7, 9]), 3));
    assert!(verify_batch_integrity(&batch_of(&[]), 0));
    assert!(!verify_batch_integrity(&batch_of(&[1, 2, 3, 4, 2]), 5));
}

#[test]
fn batch_aggregation_counts_and_totals() {
    let batch = BatchData {
        batch_id: 42,
        auction_settlements: vec![
            settlement(1, 11, 10000, true),
            settlement(2, 0, 5000, true),
            settlement(3, 13, 7000, false),
            settlement(4, 14, 2000, true),
        ],
        total_volume: 0,
        total_fees: 0,
    };
    let r = process_batch_settlement(&batch, 50);
    assert_eq!(r.batch_id, 42);
    assert_eq!(r.successful_settlements, 2);
    assert_eq!(r.failed_settlements, 2);
    assert_eq!(r.total_volume, 12000);
    assert_eq!(r.total_fees, 60);
    assert!(r.computation_complete);
}

#[test]
fn batch_aggregation_saturates_instead_of_failing() {
    let batch = BatchData {
        batch_id: 1,
        auction_settlements: vec![settlement(1, 1, u64::MAX, true), settlement(2, 2, u64::MAX, true)],
        total_volume: 0,
        total_fees: 0,
    };
    let r = process_batch_settlement(&batch, 10000);
    assert_eq!(r.successful_settlements, 2);
    assert_eq!(r.total_volume, u64::MAX);
    assert_eq!(r.total_fees, u64::MAX);
}

#[test]
fn empty_batch_aggregation() {
    let r = process_batch_settlement(&batch_of(&[]), 50);
    assert_eq!(r.successful_settlements, 0);
    assert_eq!(r.failed_settlements, 0);
    assert_eq!(r.total_volume, 0);
    assert_eq!(r.total_fees, 0);
}

#[test]
fn dutch_circuit_bid_outcomes() {
    let auction = DutchAuctionData { auction_id: 1, reserve_price: 300, current_price: 500, minimum_floor: 200 };
    let bid = |amount: u64| DutchBid { auction_id: 1, bid_amount: amount, bidder_id: 77, timestamp: 0 };
    assert_eq!(process_dutch_auction_bid(&auction, &bid(600)), (true, 500, 77));
    assert_eq!(process_dutch_auction_bid(&auction, &bid(499)), (false, 0, 0));
    let hidden = DutchAuctionData { reserve_price: 550, ..auction };
    assert_eq!(process_dutch_auction_bid(&hidden, &bid(520)), (false, 0, 0));
    assert_eq!(process_dutch_auction_bid(&hidden, &bid(560)), (true, 550, 77));
    let below_floor = DutchAuctionData { current_price: 100, reserve_price: 0, ..auction };
    assert_eq!(process_dutch_auction_bid(&below_floor, &bid(1000)), (false, 0, 0));
}

#[test]
fn bid_encryption_check() {
    assert!(verify_bid_encryption(&BidData { auction_id: 3, bid_amount: 1, bidder_id: 1 }, 3));
    assert!(!verify_bid_encryption(&BidData { auction_id: 3, bid_amount: 0, bidder_id: 1 }, 3));
    assert!(!verify_bid_encryption(&BidData { auction_id: 4, bid_amount: 1, bidder_id: 1 }, 3));
}
