//! The persistent auction record and the account data the transitions read.

use vstd::prelude::*;
use crate::address::Address;

verus! {

/// One auction, stored at the address derived from `asset_acc`.
#[derive(Clone, Copy, Debug)]
pub struct Auction {
    pub min_price: u64,
    pub highest_bid: u64,
    pub bidder_acc: Option<Address>,
    pub payment_mint: Address,
    pub asset_acc: Address,
    pub deposit_acc: Address,
    pub seller: Address,
}

impl Auction {
    /// Space reserved for a serialized record.
    pub const LEN: usize = 264;
}

/// What the transitions read of a token type.
#[derive(Clone, Copy, Debug)]
pub struct MintAccount {
    pub key: Address,
    pub decimals: u8,
}

/// What the transitions read of a token account.
#[derive(Clone, Copy, Debug)]
pub struct TokenAccount {
    pub key: Address,
    pub mint: Address,
    pub owner: Address,
    pub amount: u64,
}

/// A move of `amount` tokens from `from` to `to`, authorized by `authority`.
#[derive(Clone, Copy, Debug)]
pub struct TokenTransfer {
    pub from: Address,
    pub to: Address,
    pub authority: Address,
    pub amount: u64,
}

/// A grant to `delegate` of the right to move up to `amount` out of `account`,
/// authorized by `authority`.
#[derive(Clone, Copy, Debug)]
pub struct TokenApproval {
    pub account: Address,
    pub delegate: Address,
    pub authority: Address,
    pub amount: u64,
}

} // verus!
