//! A single-item ascending auction over token accounts: a seller lists an asset,
//! bidders escrow payment tokens, and each new bid refunds the previous leader.
//!
//! The library decides every transition from plain account data and returns the
//! token movements that the host ledger must carry out atomically.

pub mod address;
pub mod error;
pub mod state;
pub mod instructions;
pub mod ledger;

pub use address::Address;
pub use error::BiddingError;
pub use instructions::{bid, bid_checked, listing, listing_checked, Bid, BidPlan, Listing, ListingPlan};
pub use state::{Auction, MintAccount, TokenAccount, TokenApproval, TokenTransfer};
