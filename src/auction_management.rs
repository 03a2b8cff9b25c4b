use vstd::prelude::*;
use crate::error::ShadowProtocolError;
use crate::state::{
    counter_step, Address, AuctionAccount, AuctionStatus, AuctionType, ProtocolState, MAX_AUCTION_DURATION,
};

verus! {

/// Why creating an auction is refused, checks shared by both kinds that come before the
/// kind-specific ones: the protocol must run, the amount be positive and covered by the creator.
pub open spec fn funding_rejection(
    protocol: ProtocolState,
    creator_balance: u64,
    asset_amount: u64,
) -> Option<ShadowProtocolError> {
    if protocol.paused {
        Some(ShadowProtocolError::ProtocolPaused)
    } else if asset_amount == 0 {
        Some(ShadowProtocolError::InvalidAssetAmount)
    } else if creator_balance < asset_amount {
        Some(ShadowProtocolError::InsufficientFunds)
    } else {
        None
    }
}

/// The checks shared by both kinds that come last: an id must be left to assign, the duration
/// must not exceed the cap, and the end time must be representable.
pub open spec fn schedule_rejection(protocol: ProtocolState, duration: u64, now: i64) -> Option<ShadowProtocolError> {
    if protocol.next_auction_id == u64::MAX {
        Some(ShadowProtocolError::FeeCalculationOverflow)
    } else if duration > MAX_AUCTION_DURATION {
        Some(ShadowProtocolError::AuctionDurationTooLong)
    } else if now + duration > i64::MAX {
        Some(ShadowProtocolError::InvalidTimestamp)
    } else {
        None
    }
}

pub open spec fn sealed_creation_rejection(
    protocol: ProtocolState,
    creator_balance: u64,
    asset_amount: u64,
    duration: u64,
    now: i64,
) -> Option<ShadowProtocolError> {
    if funding_rejection(protocol, creator_balance, asset_amount) is Some {
        funding_rejection(protocol, creator_balance, asset_amount)
    } else {
        schedule_rejection(protocol, duration, now)
    }
}

pub open spec fn dutch_creation_rejection(
    protocol: ProtocolState,
    creator_balance: u64,
    asset_amount: u64,
    starting_price: u64,
    price_decrease_rate: u64,
    minimum_price_floor: u64,
    duration: u64,
    now: i64,
) -> Option<ShadowProtocolError> {
    if funding_rejection(protocol, creator_balance, asset_amount) is Some {
        funding_rejection(protocol, creator_balance, asset_amount)
    } else if price_decrease_rate == 0 {
        Some(ShadowProtocolError::InvalidPriceDecreaseRate)
    } else if minimum_price_floor > starting_price {
        Some(ShadowProtocolError::PriceBelowMinimumFloor)
    } else {
        schedule_rejection(protocol, duration, now)
    }
}

fn check_funding(protocol: &ProtocolState, creator_balance: u64, asset_amount: u64) -> (r: Result<(), ShadowProtocolError>)
    ensures
        (match funding_rejection(*protocol, creator_balance, asset_amount) {
            Some(e) => r == Err::<(), _>(e),
            None => r is Ok,
        }),
{
    if protocol.paused {
        return Err(ShadowProtocolError::ProtocolPaused);
    }
    if asset_amount == 0 {
        return Err(ShadowProtocolError::InvalidAssetAmount);
    }
    if creator_balance < asset_amount {
        return Err(ShadowProtocolError::InsufficientFunds);
    }
    Ok(())
}

/// The id to assign and the end time, when the schedule is acceptable.
fn check_schedule(protocol: &ProtocolState, duration: u64, now: i64) -> (r: Result<(u64, i64), ShadowProtocolError>)
    ensures
        (match schedule_rejection(*protocol, duration, now) {
            Some(e) => r == Err::<(u64, i64), _>(e),
            None => r == Ok::<(u64, i64), ShadowProtocolError>((protocol.next_auction_id, (now + duration) as i64)),
        }),
{
    if protocol.next_auction_id == u64::MAX {
        return Err(ShadowProtocolError::FeeCalculationOverflow);
    }
    if duration > MAX_AUCTION_DURATION as u64 {
        return Err(ShadowProtocolError::AuctionDurationTooLong);
    }
    match now.checked_add(duration as i64) {
        Some(end_time) => Ok((protocol.next_auction_id, end_time)),
        None => Err(ShadowProtocolError::InvalidTimestamp),
    }
}

/// Opens a sealed-bid auction at `now`, taking the next auction id. The caller escrows
/// `asset_amount` of the asset into `asset_vault` once this succeeds.
pub fn create_sealed_auction(
    protocol: &mut ProtocolState,
    creator: Address,
    creator_balance: u64,
    asset_mint: Address,
    asset_vault: Address,
    asset_amount: u64,
    duration: u64,
    minimum_bid: u64,
    reserve_price_encrypted: [u8; 32],
    reserve_price_nonce: u128,
    now: i64,
) -> (r: Result<AuctionAccount, ShadowProtocolError>)
    ensures
        old(protocol).wf() ==> final(protocol).wf(),
        (match sealed_creation_rejection(*old(protocol), creator_balance, asset_amount, duration, now) {
            Some(e) => r == Err::<AuctionAccount, _>(e) && *final(protocol) == *old(protocol),
            None => r == Ok::<AuctionAccount, ShadowProtocolError>(
                AuctionAccount {
                    auction_id: old(protocol).next_auction_id,
                    creator,
                    asset_mint,
                    asset_vault,
                    asset_amount,
                    auction_type: AuctionType::SealedBid,
                    status: AuctionStatus::Active,
                    start_time: now,
                    end_time: (now + duration) as i64,
                    minimum_bid,
                    minimum_price_floor: 0,
                    reserve_price_encrypted,
                    reserve_price_nonce,
                    current_price: 0,
                    price_decrease_rate: 0,
                    bid_count: 0,
                    winner: None,
                    winning_amount: 0,
                    settled_at: None,
                    mpc_verification_hash: None,
                    settlement_authorized: false,
                },
            ) && *final(protocol) == ProtocolState {
                next_auction_id: (old(protocol).next_auction_id + 1) as u64,
                ..*old(protocol)
            },
        }),
        counter_step(
            *old(protocol),
            *final(protocol),
            if r is Ok {
                Some(r->Ok_0.auction_id)
            } else {
                None
            },
        ),
{
    check_funding(protocol, creator_balance, asset_amount)?;
    let (auction_id, end_time) = check_schedule(protocol, duration, now)?;
    protocol.next_auction_id = auction_id + 1;
    Ok(
        AuctionAccount {
            auction_id,
            creator,
            asset_mint,
            asset_vault,
            asset_amount,
            auction_type: AuctionType::SealedBid,
            status: AuctionStatus::Active,
            start_time: now,
            end_time,
            minimum_bid,
            minimum_price_floor: 0,
            reserve_price_encrypted,
            reserve_price_nonce,
            current_price: 0,
            price_decrease_rate: 0,
            bid_count: 0,
            winner: None,
            winning_amount: 0,
            settled_at: None,
            mpc_verification_hash: None,
            settlement_authorized: false,
        },
    )
}

/// Opens a Dutch auction at `now`, taking the next auction id. The price starts at
/// `starting_price` and falls by `price_decrease_rate` per second down to `minimum_price_floor`.
/// The caller escrows `asset_amount` of the asset into `asset_vault` once this succeeds.
pub fn create_dutch_auction(
    protocol: &mut ProtocolState,
    creator: Address,
    creator_balance: u64,
    asset_mint: Address,
    asset_vault: Address,
    asset_amount: u64,
    starting_price: u64,
    price_decrease_rate: u64,
    minimum_price_floor: u64,
    duration: u64,
    reserve_price_encrypted: [u8; 32],
    reserve_price_nonce: u128,
    now: i64,
) -> (r: Result<AuctionAccount, ShadowProtocolError>)
    ensures
        old(protocol).wf() ==> final(protocol).wf(),
        (match dutch_creation_rejection(
            *old(protocol),
            creator_balance,
            asset_amount,
            starting_price,
            price_decrease_rate,
            minimum_price_floor,
            duration,
            now,
        ) {
            Some(e) => r == Err::<AuctionAccount, _>(e) && *final(protocol) == *old(protocol),
            None => r == Ok::<AuctionAccount, ShadowProtocolError>(
                AuctionAccount {
                    auction_id: old(protocol).next_auction_id,
                    creator,
                    asset_mint,
                    asset_vault,
                    asset_amount,
                    auction_type: AuctionType::Dutch,
                    status: AuctionStatus::Active,
                    start_time: now,
                    end_time: (now + duration) as i64,
                    minimum_bid: 0,
                    minimum_price_floor,
                    reserve_price_encrypted,
                    reserve_price_nonce,
                    current_price: starting_price,
                    price_decrease_rate,
                    bid_count: 0,
                    winner: None,
                    winning_amount: 0,
                    settled_at: None,
                    mpc_verification_hash: None,
                    settlement_authorized: false,
                },
            ) && *final(protocol) == ProtocolState {
                next_auction_id: (old(protocol).next_auction_id + 1) as u64,
                ..*old(protocol)
            },
        }),
        counter_step(
            *old(protocol),
            *final(protocol),
            if r is Ok {
                Some(r->Ok_0.auction_id)
            } else {
                None
            },
        ),
{
    check_funding(protocol, creator_balance, asset_amount)?;
    if price_decrease_rate == 0 {
        return Err(ShadowProtocolError::InvalidPriceDecreaseRate);
    }
    if minimum_price_floor > starting_price {
        return Err(ShadowProtocolError::PriceBelowMinimumFloor);
    }
    let (auction_id, end_time) = check_schedule(protocol, duration, now)?;
    protocol.next_auction_id = auction_id + 1;
    Ok(
        AuctionAccount {
            auction_id,
            creator,
            asset_mint,
            asset_vault,
            asset_amount,
            auction_type: AuctionType::Dutch,
            status: AuctionStatus::Active,
            start_time: now,
            end_time,
            minimum_bid: 0,
            minimum_price_floor,
            reserve_price_encrypted,
            reserve_price_nonce,
            current_price: starting_price,
            price_decrease_rate,
            bid_count: 0,
            winner: None,
            winning_amount: 0,
            settled_at: None,
            mpc_verification_hash: None,
            settlement_authorized: false,
        },
    )
}

proof fn lemma_counter_monotone(states: Seq<ProtocolState>, created: Seq<Option<u64>>, i: int, j: int)
    requires
        states.len() == created.len() + 1,
        forall|k: int| 0 <= k < created.len() ==> counter_step(states[k], states[k + 1], created[k]),
        0 <= i <= j < states.len(),
    ensures
        states[i].next_auction_id <= states[j].next_auction_id,
    decreases j - i,
{
    if i < j {
        lemma_counter_monotone(states, created, i, j - 1);
        assert(counter_step(states[j - 1], states[j], created[j - 1]));
    }
}

/// Auction ids are never handed out twice: along any run of operations, each of which either
/// creates an auction (taking the counter's value and advancing it) or leaves the counter
/// alone, the ids of the created auctions strictly increase.
pub proof fn lemma_auction_ids_strictly_increase(states: Seq<ProtocolState>, created: Seq<Option<u64>>)
    requires
        states.len() == created.len() + 1,
        forall|k: int| 0 <= k < created.len() ==> counter_step(states[k], states[k + 1], created[k]),
    ensures
        forall|i: int, j: int|
            0 <= i < j < created.len() && created[i] is Some && created[j] is Some ==> created[i]->Some_0
                < created[j]->Some_0,
{
    assert forall|i: int, j: int|
        0 <= i < j < created.len() && created[i] is Some && created[j] is Some implies created[i]->Some_0
        < created[j]->Some_0 by {
        assert(counter_step(states[i], states[i + 1], created[i]));
        assert(counter_step(states[j], states[j + 1], created[j]));
        lemma_counter_monotone(states, created, i + 1, j);
    }
}

} // verus!
