use vstd::prelude::*;
use crate::error::ShadowProtocolError;
use crate::pricing::{fee_of, split_protocol_fee};
use crate::state::{
    is_zero_address, Address, AuctionAccount, AuctionStatus, BatchSettlement, BatchStatus, ProtocolState,
    MAX_BATCH_SIZE,
};

verus! {

/// The value movements that complete a settlement, carried out by the caller.
#[derive(Clone, Copy, Debug, PartialEq, Eq, Structural)]
pub struct SettlementTransfers {
    /// From the asset vault to the winner.
    pub asset_to_winner: u64,
    /// From the winner to the auction's creator.
    pub payment_to_creator: u64,
    /// From the winner to the protocol's fee recipient.
    pub fee_to_protocol: u64,
}

/// Records the verification commitment of an ended auction and authorizes its settlement; only
/// the protocol authority may, and only once.
pub fn authorize_settlement(
    auction: &mut AuctionAccount,
    protocol: &ProtocolState,
    signer: Address,
    auction_id: u64,
    mpc_verification_hash: [u8; 32],
) -> (r: Result<(), ShadowProtocolError>)
    ensures
        old(auction).auction_id != auction_id ==> r == Err::<(), _>(ShadowProtocolError::InvalidAuctionStatus),
        old(auction).auction_id == auction_id && signer != protocol.authority ==> r == Err::<(), _>(
            ShadowProtocolError::Unauthorized,
        ),
        old(auction).auction_id == auction_id && signer == protocol.authority && old(auction).status
            != AuctionStatus::Ended ==> r == Err::<(), _>(ShadowProtocolError::InvalidAuctionStatus),
        old(auction).auction_id == auction_id && signer == protocol.authority && old(auction).status
            == AuctionStatus::Ended && old(auction).settlement_authorized ==> r == Err::<(), _>(
            ShadowProtocolError::AuctionAlreadySettled,
        ),
        r is Err ==> *final(auction) == *old(auction),
        old(auction).auction_id == auction_id && signer == protocol.authority && old(auction).status
            == AuctionStatus::Ended && !old(auction).settlement_authorized ==> r is Ok && *final(auction)
            == (AuctionAccount {
            mpc_verification_hash: Some(mpc_verification_hash),
            settlement_authorized: true,
            ..*old(auction)
        }),
{
    if auction.auction_id != auction_id {
        return Err(ShadowProtocolError::InvalidAuctionStatus);
    }
    if signer != protocol.authority {
        return Err(ShadowProtocolError::Unauthorized);
    }
    if auction.status != AuctionStatus::Ended {
        return Err(ShadowProtocolError::InvalidAuctionStatus);
    }
    if auction.settlement_authorized {
        return Err(ShadowProtocolError::AuctionAlreadySettled);
    }
    auction.mpc_verification_hash = Some(mpc_verification_hash);
    auction.settlement_authorized = true;
    Ok(())
}

/// Why a settlement request is refused, in the order the checks are made.
pub open spec fn settle_rejection(auction: AuctionAccount, protocol: ProtocolState, now: i64) -> Option<ShadowProtocolError> {
    if auction.status == AuctionStatus::Settled {
        Some(ShadowProtocolError::AuctionAlreadySettled)
    } else if auction.status != AuctionStatus::Active && auction.status != AuctionStatus::Ended {
        Some(ShadowProtocolError::InvalidAuctionStatus)
    } else if now < auction.end_time {
        Some(ShadowProtocolError::AuctionNotEnded)
    } else if protocol.paused {
        Some(ShadowProtocolError::ProtocolPaused)
    } else {
        None
    }
}

/// Requests settlement of an auction whose end time has passed: it moves to `Ended`, and the
/// caller then dispatches the confidential winner determination.
pub fn settle_auction(auction: &mut AuctionAccount, protocol: &ProtocolState, now: i64) -> (r: Result<(), ShadowProtocolError>)
    ensures
        (match settle_rejection(*old(auction), *protocol, now) {
            Some(e) => r == Err::<(), _>(e) && *final(auction) == *old(auction),
            None => r is Ok && *final(auction) == AuctionAccount { status: AuctionStatus::Ended, ..*old(auction) },
        }),
{
    if auction.status == AuctionStatus::Settled {
        return Err(ShadowProtocolError::AuctionAlreadySettled);
    }
    if auction.status != AuctionStatus::Active && auction.status != AuctionStatus::Ended {
        return Err(ShadowProtocolError::InvalidAuctionStatus);
    }
    if now < auction.end_time {
        return Err(ShadowProtocolError::AuctionNotEnded);
    }
    if protocol.paused {
        return Err(ShadowProtocolError::ProtocolPaused);
    }
    auction.status = AuctionStatus::Ended;
    Ok(())
}

/// Groups 1 to `MAX_BATCH_SIZE` auctions into one batch, created at `now` (which is also its id)
/// and settling from the moment its computation is dispatched.
pub fn batch_settle(creator: Address, auction_ids: &Vec<u64>, now: i64) -> (r: Result<BatchSettlement, ShadowProtocolError>)
    ensures
        (auction_ids@.len() == 0 || auction_ids@.len() > MAX_BATCH_SIZE) <==> r == Err::<BatchSettlement, _>(
            ShadowProtocolError::InvalidBatchSize,
        ),
        r is Err ==> r == Err::<BatchSettlement, _>(ShadowProtocolError::InvalidBatchSize),
        1 <= auction_ids@.len() <= MAX_BATCH_SIZE ==> r is Ok,
        r is Ok ==> r->Ok_0.batch_id == now as u64 && r->Ok_0.creator == creator && r->Ok_0.auction_ids@
            == auction_ids@ && r->Ok_0.status == BatchStatus::Settling && r->Ok_0.created_at == now
            && r->Ok_0.settled_at is None,
{
    if auction_ids.len() == 0 || auction_ids.len() > MAX_BATCH_SIZE {
        return Err(ShadowProtocolError::InvalidBatchSize);
    }
    let mut ids: Vec<u64> = Vec::new();
    let mut i: usize = 0;
    while i < auction_ids.len()
        invariant
            i <= auction_ids@.len(),
            ids@ == auction_ids@.take(i as int),
        decreases auction_ids.len() - i,
    {
        ids.push(auction_ids[i]);
        assert(ids@ =~= auction_ids@.take(i as int + 1));
        i = i + 1;
    }
    assert(auction_ids@.take(auction_ids@.len() as int) =~= auction_ids@);
    Ok(
        BatchSettlement {
            batch_id: now as u64,
            creator,
            auction_ids: ids,
            status: BatchStatus::Settling,
            created_at: now,
            settled_at: None,
        },
    )
}

/// Why executing a settlement is refused, in the order the checks are made.
pub open spec fn execution_rejection(
    auction: AuctionAccount,
    protocol: ProtocolState,
    winner: Address,
    winning_amount: u64,
    vault_balance: u64,
) -> Option<ShadowProtocolError> {
    if protocol.paused {
        Some(ShadowProtocolError::ProtocolPaused)
    } else if !auction.settlement_authorized {
        Some(ShadowProtocolError::SettlementNotAuthorized)
    } else if auction.status != AuctionStatus::Ended {
        Some(ShadowProtocolError::InvalidAuctionStatus)
    } else if winning_amount == 0 {
        Some(ShadowProtocolError::InvalidAssetAmount)
    } else if vault_balance < auction.asset_amount {
        Some(ShadowProtocolError::InvalidAssetAmount)
    } else if is_zero_address(winner) {
        Some(ShadowProtocolError::InvalidWinnerDetermination)
    } else if winning_amount as int * protocol.protocol_fee as int > u64::MAX || fee_of(
        winning_amount as int,
        protocol.protocol_fee as int,
    ) > winning_amount {
        Some(ShadowProtocolError::FeeCalculationOverflow)
    } else {
        None
    }
}

/// Executes an authorized settlement at `now`: the auction becomes `Settled` with `winner`
/// paying `winning_amount`, of which the protocol keeps `winning_amount * fee / 10000`. Returns
/// the transfers for the caller to carry out.
pub fn execute_settlement(
    auction: &mut AuctionAccount,
    protocol: &ProtocolState,
    winner: Address,
    winning_amount: u64,
    vault_balance: u64,
    now: i64,
) -> (r: Result<SettlementTransfers, ShadowProtocolError>)
    ensures
        !old(auction).settlement_authorized ==> r is Err,
        !old(auction).settlement_authorized && !protocol.paused ==> r == Err::<SettlementTransfers, _>(
            ShadowProtocolError::SettlementNotAuthorized,
        ),
        (match execution_rejection(*old(auction), *protocol, winner, winning_amount, vault_balance) {
            Some(e) => r == Err::<SettlementTransfers, _>(e) && *final(auction) == *old(auction),
            None => r == Ok::<SettlementTransfers, ShadowProtocolError>(
                SettlementTransfers {
                    asset_to_winner: old(auction).asset_amount,
                    payment_to_creator: (winning_amount - fee_of(winning_amount as int, protocol.protocol_fee as int)) as u64,
                    fee_to_protocol: fee_of(winning_amount as int, protocol.protocol_fee as int) as u64,
                },
            ) && *final(auction) == AuctionAccount {
                winner: Some(winner),
                winning_amount,
                status: AuctionStatus::Settled,
                settled_at: Some(now),
                ..*old(auction)
            },
        }),
{
    if protocol.paused {
        return Err(ShadowProtocolError::ProtocolPaused);
    }
    if !auction.settlement_authorized {
        return Err(ShadowProtocolError::SettlementNotAuthorized);
    }
    if auction.status != AuctionStatus::Ended {
        return Err(ShadowProtocolError::InvalidAuctionStatus);
    }
    if winning_amount == 0 {
        return Err(ShadowProtocolError::InvalidAssetAmount);
    }
    if vault_balance < auction.asset_amount {
        return Err(ShadowProtocolError::InvalidAssetAmount);
    }
    if winner.is_zero() {
        return Err(ShadowProtocolError::InvalidWinnerDetermination);
    }
    let (fee_amount, transfer_amount) = match split_protocol_fee(winning_amount, protocol.protocol_fee) {
        Ok(split) => split,
        Err(e) => return Err(e),
    };
    auction.winner = Some(winner);
    auction.winning_amount = winning_amount;
    auction.status = AuctionStatus::Settled;
    auction.settled_at = Some(now);
    Ok(
        SettlementTransfers {
            asset_to_winner: auction.asset_amount,
            payment_to_creator: transfer_amount,
            fee_to_protocol: fee_amount,
        },
    )
}

} // verus!
