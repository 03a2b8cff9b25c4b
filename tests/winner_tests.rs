use shadow_protocol::batch_settlement::{batch_settlement, process_single_auction, verify_batch_integrity, BatchAuction};
use shadow_protocol::circuits::{process_sealed_bid_auction, AuctionData, BidData};
use shadow_protocol::confidential::{
    settle_sealed_bid_auction, validate_bid, verify_auction_timing, AuctionParams, EncryptedBid as PlainBid,
};
use shadow_protocol::sealed_bid::{decrypt_bid_amount, sealed_bid_auction, verify_reserve_price, AuctionResult, EncryptedBid};
use shadow_protocol::state::Address;
use shadow_protocol::winner::rank_bids;

fn addr(b: u8) -> Address {
    Address::new([b; 32])
}

fn plain(amount: u64, bidder_id: u128) -> PlainBid {
    PlainBid { amount, bidder_id, timestamp: 0, nonce: 0 }
}

fn params(minimum_bid: u64, reserve_price: u64) -> AuctionParams {
    AuctionParams { auction_id: 1, minimum_bid, reserve_price, auction_type: 0 }
}

fn sealed(bidder: u8, amount: u128, nonce: u128) -> EncryptedBid {
    let mut bytes = (amount ^ nonce).to_le_bytes().to_vec();
    bytes.extend_from_slice(&[9u8; 16]);
    EncryptedBid { bidder: addr(bidder), amount_encrypted: bytes, nonce }
}

#[test]
fn ranking_keeps_first_of_equal_highest() {
    let r = rank_bids(&vec![5, 9, 9, 3], 0, 0).unwrap();
    assert_eq!(r.winner_index, 1);
    assert_eq!(r.highest, 9);
    assert_eq!(r.second_highest, Some(9));
}

#[test]
fn ranking_without_qualifying_bids() {
    assert!(rank_bids(&vec![1, 2, 3], 4, 0).is_none());
    assert!(rank_bids(&vec![1, 2, 3], 0, 10).is_none());
    assert!(rank_bids(&vec![], 0, 0).is_none());
}

#[test]
fn first_price_pays_highest_qualifying_bid() {
    let bids = vec![plain(300, 11), plain(700, 12), plain(500, 13)];
    let r = settle_sealed_bid_auction(&bids, params(100, 200), 0, 77);
    assert_eq!(r.winner_id, 12);
    assert_eq!(r.winning_amount, 700);
    assert_eq!(r.second_highest, 500);
    assert!(r.reserve_met);
    assert_eq!(r.timestamp, 77);
}

#[test]
fn second_price_pays_second_highest_qualifying_bid() {
    let bids = vec![plain(300, 11), plain(700, 12), plain(500, 13), plain(650, 14)];
    let r = settle_sealed_bid_auction(&bids, params(100, 200), 1, 0);
    assert_eq!(r.winner_id, 12);
    assert_eq!(r.winning_amount, 650);
}

#[test]
fn second_price_with_one_qualifying_bid_pays_reserve() {
    let bids = vec![plain(150, 11), plain(700, 12), plain(190, 13)];
    let r = settle_sealed_bid_auction(&bids, params(100, 200), 1, 0);
    assert_eq!(r.winner_id, 12);
    assert_eq!(r.winning_amount, 200);
    assert_eq!(r.second_highest, 0);
}

#[test]
fn bids_below_minimum_do_not_count() {
    let bids = vec![plain(900, 11), plain(400, 12)];
    let r = settle_sealed_bid_auction(&bids, params(1000, 0), 0, 0);
    assert!(!r.reserve_met);
    assert_eq!(r.winner_id, 0);
    assert_eq!(r.winning_amount, 0);
}

#[test]
fn equal_top_bids_keep_first_bidder_and_second_price_equals_top() {
    let bids = vec![plain(500, 21), plain(800, 22), plain(800, 23)];
    let r = settle_sealed_bid_auction(&bids, params(0, 0), 1, 0);
    assert_eq!(r.winner_id, 22);
    assert_eq!(r.winning_amount, 800);
}

#[test]
fn bid_validation_and_timing() {
    assert!(validate_bid(10, 10, 5));
    assert!(!validate_bid(9, 10, 5));
    assert!(!validate_bid(10, 5, 11));
    assert!(verify_auction_timing(10, 20, 10));
    assert!(verify_auction_timing(10, 20, 20));
    assert!(!verify_auction_timing(10, 20, 21));
    assert!(!verify_auction_timing(10, 20, 9));
}

#[test]
fn opening_a_bid_reads_little_endian_and_unmasks() {
    let mut bytes = vec![0u8; 20];
    bytes[0] = 0x34;
    bytes[1] = 0x12;
    bytes[15] = 0x01;
    assert_eq!(decrypt_bid_amount(&bytes, 0), 0x0100_0000_0000_0000_0000_0000_0000_1234);
    assert_eq!(decrypt_bid_amount(&bytes, 0x1234), 0x0100_0000_0000_0000_0000_0000_0000_0000);
    let opened = sealed(1, 987654321, 0xdead_beef);
    assert_eq!(decrypt_bid_amount(&opened.amount_encrypted, opened.nonce), 987654321);
}

#[test]
fn sealed_auction_first_price() {
    let bids = vec![sealed(1, 100, 5), sealed(2, 400, 6), sealed(3, 250, 7)];
    match sealed_bid_auction(&bids, 0, 200) {
        AuctionResult::Winner { bidder, winning_amount, second_price } => {
            assert_eq!(bidder, addr(2));
            assert_eq!(winning_amount, 400);
            assert_eq!(second_price, None);
        }
        AuctionResult::NoWinner => panic!("expected a winner"),
    }
}

#[test]
fn sealed_auction_second_price_and_reserve_fallback() {
    let bids = vec![sealed(1, 100, 5), sealed(2, 400, 6), sealed(3, 250, 7)];
    match sealed_bid_auction(&bids, 1, 200) {
        AuctionResult::Winner { bidder, winning_amount, second_price } => {
            assert_eq!(bidder, addr(2));
            assert_eq!(winning_amount, 400);
            assert_eq!(second_price, Some(250));
        }
        AuctionResult::NoWinner => panic!("expected a winner"),
    }
    let lone = vec![sealed(1, 100, 5), sealed(2, 400, 6)];
    match sealed_bid_auction(&lone, 1, 200) {
        AuctionResult::Winner { second_price, .. } => assert_eq!(second_price, Some(200)),
        AuctionResult::NoWinner => panic!("expected a winner"),
    }
}

#[test]
fn sealed_auction_without_winner() {
    let bids = vec![sealed(1, 100, 5), sealed(2, 150, 6)];
    assert!(matches!(sealed_bid_auction(&bids, 0, 200), AuctionResult::NoWinner));
    let good = vec![sealed(1, 300, 5)];
    assert!(matches!(sealed_bid_auction(&good, 2, 200), AuctionResult::NoWinner));
    assert!(matches!(sealed_bid_auction(&vec![], 0, 0), AuctionResult::NoWinner));
}

#[test]
fn reserve_check() {
    assert!(verify_reserve_price(10, 10));
    assert!(!verify_reserve_price(9, 10));
}

#[test]
fn circuit_sealed_auction_is_second_price() {
    let bids = vec![
        BidData { auction_id: 1, bid_amount: 300, bidder_id: 7 },
        BidData { auction_id: 1, bid_amount: 900, bidder_id: 8 },
        BidData { auction_id: 1, bid_amount: 600, bidder_id: 9 },
    ];
    let auction = AuctionData { reserve_price: 400, bids: bids.clone(), bid_count: 3 };
    assert_eq!(process_sealed_bid_auction(&auction, &bids), (8, 600, true));
    let high = AuctionData { reserve_price: 700, bids: bids.clone(), bid_count: 3 };
    assert_eq!(process_sealed_bid_auction(&high, &bids), (8, 700, true));
    let none = AuctionData { reserve_price: 1000, bids: bids.clone(), bid_count: 3 };
    assert_eq!(process_sealed_bid_auction(&none, &bids), (0, 0, false));
}

#[test]
fn single_auction_of_a_batch() {
    let a = BatchAuction { auction_id: 4, bids: vec![sealed(1, 500, 1), sealed(2, 800, 2)], reserve_price: 100, auction_type: 1 };
    let r = process_single_auction(&a);
    assert_eq!(r.auction_id, 4);
    assert!(r.success);
    assert_eq!(r.winner, Some(addr(2)));
    assert_eq!(r.winning_amount, 500);
    let bad_type = BatchAuction { auction_type: 3, ..a.clone() };
    let r = process_single_auction(&bad_type);
    assert!(!r.success);
    assert_eq!(r.winner, None);
    assert_eq!(r.winning_amount, 0);
}

#[test]
fn batch_of_auctions_totals_successes() {
    let auctions = vec![
        BatchAuction { auction_id: 1, bids: vec![sealed(1, 500, 1), sealed(2, 800, 2)], reserve_price: 100, auction_type: 0 },
        BatchAuction { auction_id: 2, bids: vec![sealed(3, 50, 3)], reserve_price: 100, auction_type: 0 },
        BatchAuction { auction_id: 3, bids: vec![sealed(4, 300, 4)], reserve_price: 100, auction_type: 1 },
    ];
    let r = batch_settlement(&auctions);
    assert_eq!(r.auction_results.len(), 3);
    assert_eq!(r.successful_auctions, 2);
    assert_eq!(r.total_volume, 900);
    assert!(!r.auction_results[1].success);
}

#[test]
fn batch_volume_saturates() {
    let auctions = vec![
        BatchAuction { auction_id: 1, bids: vec![sealed(1, u128::MAX, 1)], reserve_price: 0, auction_type: 0 },
        BatchAuction { auction_id: 2, bids: vec![sealed(2, 10, 2)], reserve_price: 0, auction_type: 0 },
    ];
    let r = batch_settlement(&auctions);
    assert_eq!(r.total_volume, u128::MAX);
    assert_eq!(r.successful_auctions, 2);
}

#[test]
fn hash_integrity_check() {
    assert!(verify_batch_integrity(1, 3, [7u8; 32], [7u8; 32]));
    assert!(!verify_batch_integrity(1, 0, [7u8; 32], [7u8; 32]));
    let mut other = [7u8; 32];
    other[31] = 8;
    assert!(!verify_batch_integrity(1, 3, [7u8; 32], other));
}
