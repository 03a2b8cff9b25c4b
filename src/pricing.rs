use vstd::prelude::*;
use crate::error::ShadowProtocolError;

verus! {

/// Basis points in one whole.
pub const BPS_DENOMINATOR: u64 = 10000;

/// `starting_price` lowered by `decrease_rate` per elapsed second, stopping at zero.
pub open spec fn decayed_price(starting_price: int, decrease_rate: int, elapsed: int) -> int {
    if decrease_rate * elapsed >= starting_price {
        0
    } else {
        starting_price - decrease_rate * elapsed
    }
}

/// The Dutch price after `elapsed` seconds: the decayed price, never below `minimum_floor`.
pub open spec fn dutch_price(
    starting_price: int,
    decrease_rate: int,
    elapsed: int,
    minimum_floor: int,
) -> int {
    let decayed = decayed_price(starting_price, decrease_rate, elapsed);
    if decayed >= minimum_floor {
        decayed
    } else {
        minimum_floor
    }
}

/// The protocol's cut of `amount` at `fee_bps` basis points, rounded down.
pub open spec fn fee_of(amount: int, fee_bps: int) -> int {
    amount * fee_bps / BPS_DENOMINATOR as int
}

/// A Dutch price never rises as time passes, and never falls below its floor.
pub proof fn lemma_dutch_price_non_increasing(
    starting_price: u64,
    decrease_rate: u64,
    minimum_floor: u64,
    earlier: u64,
    later: u64,
)
    requires
        earlier <= later,
    ensures
        dutch_price(starting_price as int, decrease_rate as int, later as int, minimum_floor as int)
            <= dutch_price(starting_price as int, decrease_rate as int, earlier as int, minimum_floor as int),
        dutch_price(starting_price as int, decrease_rate as int, later as int, minimum_floor as int)
            >= minimum_floor,
{
    assert(decrease_rate as int * earlier as int <= decrease_rate as int * later as int)
        by (nonlinear_arith)
        requires
            earlier <= later,
    ;
}

/// Saturating Dutch price decay on 64-bit prices.
pub fn decay_price_u64(starting_price: u64, decrease_rate: u64, elapsed: u64) -> (r: u64)
    ensures
        r == decayed_price(starting_price as int, decrease_rate as int, elapsed as int),
{
    match decrease_rate.checked_mul(elapsed) {
        Some(decrease) => starting_price.saturating_sub(decrease),
        None => 0,
    }
}

/// Splits `amount` into the protocol fee and what is left for the seller.
/// Fails when `amount * fee_bps` does not fit in 64 bits, or the fee would exceed the amount.
pub fn split_protocol_fee(amount: u64, fee_bps: u16) -> (r: Result<(u64, u64), ShadowProtocolError>)
    ensures
        (amount as int * fee_bps as int > u64::MAX || fee_of(amount as int, fee_bps as int) > amount)
            <==> r == Err::<(u64, u64), _>(ShadowProtocolError::FeeCalculationOverflow),
        r is Err ==> r == Err::<(u64, u64), _>(ShadowProtocolError::FeeCalculationOverflow),
        r is Ok ==> r->Ok_0.0 == fee_of(amount as int, fee_bps as int) && r->Ok_0.1 == amount
            - fee_of(amount as int, fee_bps as int),
        fee_bps <= BPS_DENOMINATOR ==> fee_of(amount as int, fee_bps as int) <= amount,
{
    proof {
        if fee_bps <= BPS_DENOMINATOR {
            assert(amount * fee_bps / 10000 <= amount) by (nonlinear_arith)
                requires
                    fee_bps <= 10000,
            ;
        }
    }
    match amount.checked_mul(fee_bps as u64) {
        Some(product) => {
            let fee = product / BPS_DENOMINATOR;
            match amount.checked_sub(fee) {
                Some(payout) => Ok((fee, payout)),
                None => Err(ShadowProtocolError::FeeCalculationOverflow),
            }
        },
        None => Err(ShadowProtocolError::FeeCalculationOverflow),
    }
}

} // verus!
