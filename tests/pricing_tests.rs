use shadow_protocol::circuits::calculate_dutch_price;
use shadow_protocol::dutch_auction::{self, dutch_auction_verify, DutchAuctionResult};
use shadow_protocol::error::ShadowProtocolError;
use shadow_protocol::pricing::{decay_price_u64, split_protocol_fee};

#[test]
fn dutch_price_stops_at_floor() {
    assert_eq!(calculate_dutch_price(1000, 10, 100, 200), 200);
}

#[test]
fn dutch_price_decays_linearly_above_floor() {
    assert_eq!(calculate_dutch_price(1000, 10, 0, 200), 1000);
    assert_eq!(calculate_dutch_price(1000, 10, 30, 200), 700);
    assert_eq!(calculate_dutch_price(1000, 10, 80, 200), 200);
}

#[test]
fn dutch_price_never_rises_over_time() {
    let mut last = calculate_dutch_price(1000, 7, 0, 150);
    for t in 1..300u64 {
        let now = calculate_dutch_price(1000, 7, t, 150);
        assert!(now <= last);
        assert!(now >= 150);
        last = now;
    }
}

#[test]
fn dutch_price_survives_huge_products() {
    assert_eq!(calculate_dutch_price(u64::MAX, u64::MAX, u64::MAX, 5), 5);
    assert_eq!(decay_price_u64(500, u64::MAX, 2), 0);
    assert_eq!(decay_price_u64(500, 3, 2), 494);
}

#[test]
fn fee_on_ten_thousand_at_fifty_bps() {
    assert_eq!(split_protocol_fee(10000, 50), Ok((50, 9950)));
}

#[test]
fn fee_overflow_is_an_error() {
    assert_eq!(split_protocol_fee(u64::MAX / 2, 500), Err(ShadowProtocolError::FeeCalculationOverflow));
}

#[test]
fn fee_rounds_down_and_zero_fee_passes_everything() {
    assert_eq!(split_protocol_fee(199, 50), Ok((0, 199)));
    assert_eq!(split_protocol_fee(12345, 0), Ok((0, 12345)));
    assert_eq!(split_protocol_fee(u64::MAX, 0), Ok((0, u64::MAX)));
}

#[test]
fn fee_above_the_amount_is_refused() {
    assert_eq!(split_protocol_fee(100, 20000), Err(ShadowProtocolError::FeeCalculationOverflow));
}

#[test]
fn confidential_dutch_price_saturates_at_zero() {
    assert_eq!(dutch_auction::calculate_dutch_price(1000, 100, 10), 0);
    assert_eq!(dutch_auction::calculate_dutch_price(1000, 10, 10), 900);
    assert_eq!(dutch_auction::calculate_dutch_price(u128::MAX, u64::MAX, u64::MAX), u128::MAX - (u64::MAX as u128) * (u64::MAX as u128));
}

#[test]
fn dutch_verify_success_pays_larger_of_price_and_reserve() {
    assert_eq!(
        dutch_auction_verify(950, 500, 10, 10, 1000),
        DutchAuctionResult::Success { winning_amount: 900, actual_bid: 950 }
    );
    assert_eq!(
        dutch_auction_verify(950, 920, 10, 10, 1000),
        DutchAuctionResult::Success { winning_amount: 920, actual_bid: 950 }
    );
}

#[test]
fn dutch_verify_reserve_and_price_failures() {
    assert_eq!(dutch_auction_verify(905, 950, 10, 10, 1000), DutchAuctionResult::ReserveNotMet);
    assert_eq!(dutch_auction_verify(899, 100, 10, 10, 1000), DutchAuctionResult::PriceNotMet);
    assert_eq!(dutch_auction_verify(899, 950, 10, 10, 1000), DutchAuctionResult::PriceNotMet);
}
