use vstd::prelude::*;

verus! {

/// Every condition under which an operation of the protocol is refused.
#[derive(Clone, Copy, Debug, PartialEq, Eq, Structural)]
pub enum ShadowProtocolError {
    AuctionEnded,
    AuctionNotEnded,
    AuctionAlreadySettled,
    BidBelowMinimum,
    InvalidAuctionType,
    InvalidAuctionStatus,
    AuctionDurationTooLong,
    ProtocolPaused,
    Unauthorized,
    InvalidEncryption,
    MaxBidsExceeded,
    BatchSettlementFailed,
    InvalidReservePrice,
    ComputationFailed,
    AssetTransferFailed,
    InvalidPriceDecreaseRate,
    DutchPriceNotMet,
    InvalidBatchSize,
    AuctionNotInBatch,
    FeeCalculationOverflow,
    InvalidProtocolFee,
    InsufficientFunds,
    InvalidTimestamp,
    DecryptionFailed,
    InvalidWinnerDetermination,
    MpcVerificationFailed,
    SettlementNotAuthorized,
    AuthorityTransferPending,
    AuthorityTransferTimelockNotElapsed,
    NoPendingAuthorityTransfer,
    AuctionIdAlreadyExists,
    InsufficientCollateral,
    InvalidAssetAmount,
    PriceBelowMinimumFloor,
    /// The bidder already holds a bid record for this auction.
    BidAlreadyExists,
}

} // verus!
