use shadow_protocol::admin::{
    cancel_authority_transfer, complete_authority_transfer, initialize_protocol, initiate_authority_transfer,
    set_pause_state, transfer_authority, update_fee_recipient, update_protocol_fee,
};
use shadow_protocol::auction_management::{create_dutch_auction, create_sealed_auction};
use shadow_protocol::error::ShadowProtocolError;
use shadow_protocol::state::{Address, AuctionStatus, AuctionType, ProtocolState, AUTHORITY_TRANSFER_TIMELOCK, MAX_AUCTION_DURATION};

fn addr(b: u8) -> Address {
    Address::new([b; 32])
}

fn fresh() -> ProtocolState {
    initialize_protocol(addr(1), addr(2))
}

fn sealed(p: &mut ProtocolState, amount: u64, duration: u64, now: i64) -> Result<shadow_protocol::state::AuctionAccount, ShadowProtocolError> {
    create_sealed_auction(p, addr(3), 1_000_000, addr(4), addr(5), amount, duration, 100, [6u8; 32], 99, now)
}

#[test]
fn initial_configuration() {
    let p = fresh();
    assert_eq!(p.authority, addr(1));
    assert_eq!(p.fee_recipient, addr(2));
    assert_eq!(p.protocol_fee, 50);
    assert!(!p.paused);
    assert_eq!(p.next_auction_id, 1);
    assert_eq!(p.pending_authority, None);
    assert_eq!(p.authority_transfer_timelock, None);
}

#[test]
fn admin_changes_need_the_authority() {
    let mut p = fresh();
    assert_eq!(set_pause_state(&mut p, addr(9), true), Err(ShadowProtocolError::Unauthorized));
    assert!(!p.paused);
    assert_eq!(set_pause_state(&mut p, addr(1), true), Ok(()));
    assert!(p.paused);
    assert_eq!(update_protocol_fee(&mut p, addr(9), 10), Err(ShadowProtocolError::Unauthorized));
    assert_eq!(update_protocol_fee(&mut p, addr(1), 501), Err(ShadowProtocolError::InvalidProtocolFee));
    assert_eq!(p.protocol_fee, 50);
    assert_eq!(update_protocol_fee(&mut p, addr(1), 500), Ok(()));
    assert_eq!(p.protocol_fee, 500);
    assert_eq!(update_fee_recipient(&mut p, addr(9), addr(8)), Err(ShadowProtocolError::Unauthorized));
    assert_eq!(update_fee_recipient(&mut p, addr(1), addr(8)), Ok(()));
    assert_eq!(p.fee_recipient, addr(8));
    assert_eq!(transfer_authority(&mut p, addr(9), addr(9)), Err(ShadowProtocolError::Unauthorized));
    assert_eq!(transfer_authority(&mut p, addr(1), addr(7)), Ok(()));
    assert_eq!(p.authority, addr(7));
}

#[test]
fn authority_transfer_waits_for_deadline_then_completes_once() {
    let mut p = fresh();
    assert_eq!(initiate_authority_transfer(&mut p, addr(1), addr(7), 1000), Ok(()));
    let deadline = 1000 + AUTHORITY_TRANSFER_TIMELOCK;
    assert_eq!(p.pending_authority, Some(addr(7)));
    assert_eq!(p.authority_transfer_timelock, Some(deadline));
    assert_eq!(
        initiate_authority_transfer(&mut p, addr(1), addr(8), 1001),
        Err(ShadowProtocolError::AuthorityTransferPending)
    );
    assert_eq!(
        complete_authority_transfer(&mut p, addr(1), deadline - 1),
        Err(ShadowProtocolError::AuthorityTransferTimelockNotElapsed)
    );
    assert_eq!(p.authority, addr(1));
    assert_eq!(complete_authority_transfer(&mut p, addr(9), deadline), Err(ShadowProtocolError::Unauthorized));
    assert_eq!(complete_authority_transfer(&mut p, addr(1), deadline), Ok(()));
    assert_eq!(p.authority, addr(7));
    assert_eq!(p.pending_authority, None);
    assert_eq!(p.authority_transfer_timelock, None);
    assert_eq!(
        complete_authority_transfer(&mut p, addr(7), deadline + 10),
        Err(ShadowProtocolError::NoPendingAuthorityTransfer)
    );
    assert_eq!(complete_authority_transfer(&mut p, addr(1), deadline + 10), Err(ShadowProtocolError::Unauthorized));
}

#[test]
fn authority_transfer_can_be_cancelled() {
    let mut p = fresh();
    assert_eq!(cancel_authority_transfer(&mut p, addr(1)), Err(ShadowProtocolError::NoPendingAuthorityTransfer));
    assert_eq!(initiate_authority_transfer(&mut p, addr(1), addr(7), 0), Ok(()));
    assert_eq!(cancel_authority_transfer(&mut p, addr(7)), Err(ShadowProtocolError::Unauthorized));
    assert_eq!(cancel_authority_transfer(&mut p, addr(1)), Ok(()));
    assert_eq!(p.pending_authority, None);
    assert_eq!(p.authority_transfer_timelock, None);
    assert_eq!(
        complete_authority_transfer(&mut p, addr(1), i64::MAX),
        Err(ShadowProtocolError::NoPendingAuthorityTransfer)
    );
}

#[test]
fn authority_transfer_deadline_overflow() {
    let mut p = fresh();
    assert_eq!(
        initiate_authority_transfer(&mut p, addr(1), addr(7), i64::MAX - 5),
        Err(ShadowProtocolError::InvalidTimestamp)
    );
    assert_eq!(p.pending_authority, None);
}

#[test]
fn auction_ids_strictly_increase() {
    let mut p = fresh();
    let a = sealed(&mut p, 10, 60, 100).unwrap();
    assert_eq!(sealed(&mut p, 0, 60, 100).unwrap_err(), ShadowProtocolError::InvalidAssetAmount);
    let b = create_dutch_auction(&mut p, addr(3), 50, addr(4), addr(5), 10, 1000, 10, 200, 60, [0u8; 32], 0, 100).unwrap();
    let c = sealed(&mut p, 10, 60, 100).unwrap();
    assert_eq!((a.auction_id, b.auction_id, c.auction_id), (1, 2, 3));
    assert_eq!(p.next_auction_id, 4);
}

#[test]
fn sealed_auction_fields() {
    let mut p = fresh();
    let a = sealed(&mut p, 10, 60, 100).unwrap();
    assert_eq!(a.creator, addr(3));
    assert_eq!(a.asset_mint, addr(4));
    assert_eq!(a.asset_vault, addr(5));
    assert_eq!(a.asset_amount, 10);
    assert!(a.auction_type == AuctionType::SealedBid);
    assert!(a.status == AuctionStatus::Active);
    assert_eq!((a.start_time, a.end_time), (100, 160));
    assert_eq!(a.minimum_bid, 100);
    assert_eq!(a.reserve_price_nonce, 99);
    assert_eq!(a.bid_count, 0);
    assert_eq!(a.winner, None);
    assert!(!a.settlement_authorized);
}

#[test]
fn creation_errors() {
    let mut p = fresh();
    assert_eq!(sealed(&mut p, 10, MAX_AUCTION_DURATION as u64 + 1, 0).unwrap_err(), ShadowProtocolError::AuctionDurationTooLong);
    assert!(sealed(&mut p, 10, MAX_AUCTION_DURATION as u64, 0).is_ok());
    assert_eq!(sealed(&mut p, 10, 10, i64::MAX - 5).unwrap_err(), ShadowProtocolError::InvalidTimestamp);
    assert_eq!(
        create_sealed_auction(&mut p, addr(3), 9, addr(4), addr(5), 10, 60, 0, [0u8; 32], 0, 0).unwrap_err(),
        ShadowProtocolError::InsufficientFunds
    );
    assert_eq!(
        create_dutch_auction(&mut p, addr(3), 50, addr(4), addr(5), 10, 1000, 0, 200, 60, [0u8; 32], 0, 0).unwrap_err(),
        ShadowProtocolError::InvalidPriceDecreaseRate
    );
    assert_eq!(
        create_dutch_auction(&mut p, addr(3), 50, addr(4), addr(5), 10, 1000, 5, 1001, 60, [0u8; 32], 0, 0).unwrap_err(),
        ShadowProtocolError::PriceBelowMinimumFloor
    );
    assert_eq!(p.next_auction_id, 2);
    set_pause_state(&mut p, addr(1), true).unwrap();
    assert_eq!(sealed(&mut p, 10, 60, 0).unwrap_err(), ShadowProtocolError::ProtocolPaused);
    assert_eq!(p.next_auction_id, 2);
}

#[test]
fn id_counter_exhaustion() {
    let mut p = fresh();
    p.next_auction_id = u64::MAX;
    assert_eq!(sealed(&mut p, 10, 60, 0).unwrap_err(), ShadowProtocolError::FeeCalculationOverflow);
    assert_eq!(p.next_auction_id, u64::MAX);
}
