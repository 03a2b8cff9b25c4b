use vstd::prelude::*;
use crate::pricing::decayed_price;

verus! {

/// Outcome of checking a Dutch-auction bid against the current price and the hidden reserve.
#[derive(Clone, Copy, Debug, PartialEq, Eq, Structural)]
pub enum DutchAuctionResult {
    Success { winning_amount: u128, actual_bid: u128 },
    /// The bid meets the current price but not the hidden reserve.
    ReserveNotMet,
    PriceNotMet,
}

/// Dutch price after `elapsed_seconds`: the starting price lowered by the decrease rate per
/// second, stopping at zero.
pub fn calculate_dutch_price(starting_price: u128, elapsed_seconds: u64, decrease_rate_per_second: u64) -> (r: u128)
    ensures
        r == decayed_price(starting_price as int, decrease_rate_per_second as int, elapsed_seconds as int),
{
    assert(elapsed_seconds as int * decrease_rate_per_second as int <= u128::MAX) by (nonlinear_arith)
        requires
            elapsed_seconds <= u64::MAX,
            decrease_rate_per_second <= u64::MAX,
    ;
    let decrease_amount = (elapsed_seconds as u128) * (decrease_rate_per_second as u128);
    assert(decrease_amount == decrease_rate_per_second as int * elapsed_seconds as int) by (nonlinear_arith)
        requires
            decrease_amount == elapsed_seconds as int * decrease_rate_per_second as int,
    ;
    starting_price.saturating_sub(decrease_amount)
}

/// Checks a Dutch-auction bid. It succeeds when the bid meets both the current price and the
/// reserve; the winner then pays the larger of the two. A bid that meets the current price
/// but not the reserve gives `ReserveNotMet`; any other gives `PriceNotMet`.
pub fn dutch_auction_verify(
    current_bid: u128,
    reserve_price: u128,
    elapsed_time: u64,
    price_decrease_rate: u64,
    starting_price: u128,
) -> (r: DutchAuctionResult)
    ensures
        ({
            let current = decayed_price(starting_price as int, price_decrease_rate as int, elapsed_time as int);
            &&& (current_bid >= current && current_bid >= reserve_price) ==> r == DutchAuctionResult::Success {
                winning_amount: if current >= reserve_price {
                    current as u128
                } else {
                    reserve_price
                },
                actual_bid: current_bid,
            }
            &&& (current_bid >= current && current_bid < reserve_price) ==> r == DutchAuctionResult::ReserveNotMet
            &&& current_bid < current ==> r == DutchAuctionResult::PriceNotMet
        }),
{
    let current_price = calculate_dutch_price(starting_price, elapsed_time, price_decrease_rate);
    let meets_current_price = current_bid >= current_price;
    let meets_reserve = current_bid >= reserve_price;
    if meets_current_price && meets_reserve {
        let winning_amount = if current_price >= reserve_price {
            current_price
        } else {
            reserve_price
        };
        DutchAuctionResult::Success { winning_amount, actual_bid: current_bid }
    } else if meets_current_price {
        DutchAuctionResult::ReserveNotMet
    } else {
        DutchAuctionResult::PriceNotMet
    }
}

} // verus!
