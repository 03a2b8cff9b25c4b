pub mod bytes;
pub mod error;
pub mod state;
pub mod pricing;
pub mod winner;
pub mod confidential;
pub mod sealed_bid;
pub mod dutch_auction;
pub mod circuits;
pub mod admin;
pub mod auction_management;
pub mod bidding;
pub mod settlement;
pub mod callbacks;
pub mod batch_settlement;
