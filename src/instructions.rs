//! The two transitions: listing an asset and bidding on it.

use vstd::prelude::*;
use crate::address::{derived_view, find_program_address, program_address, Address};
use crate::error::BiddingError;
use crate::state::{Auction, MintAccount, TokenAccount, TokenApproval, TokenTransfer};

verus! {

/// The accounts a listing presents.
#[derive(Clone, Copy, Debug)]
pub struct Listing {
    pub seller: Address,
    pub payment_mint: MintAccount,
    pub asset_mint: MintAccount,
    pub asset_acc: TokenAccount,
    /// Where the new auction record is to be created.
    pub auction_account: Address,
    /// Whether a record already lives at `auction_account`.
    pub auction_account_in_use: bool,
    /// Where the new bid escrow is to be created.
    pub deposit_bid_acc: Address,
}

/// The accounts a bid presents.
#[derive(Clone, Copy, Debug)]
pub struct Bid {
    pub bidder: Address,
    pub payment_mint: MintAccount,
    pub bidding_account: TokenAccount,
    /// The address of the presented auction record.
    pub auction_account: Address,
    /// The record stored there.
    pub auction: Auction,
    pub last_bidder_acc: Address,
    pub deposit_bid_acc: Address,
}

/// What an accepted listing creates and asks of the token program.
#[derive(Clone, Copy, Debug)]
pub struct ListingPlan {
    pub auction: Auction,
    pub approval: TokenApproval,
    pub auction_bump: u8,
    pub deposit_bump: u8,
}

/// What an accepted bid asks of the token program, in order, and the record it
/// leaves behind once both transfers have gone through.
#[derive(Clone, Copy, Debug)]
pub struct BidPlan {
    /// Pays the previous leader back out of the escrow, signed by the record itself.
    pub refund: Option<TokenTransfer>,
    /// Moves the new bid from the bidder's account into the escrow.
    pub deposit: TokenTransfer,
    pub auction: Auction,
    /// The bump that, with `asset_acc`, lets the record sign the refund.
    pub auction_bump: u8,
}

/// Whether `d` is a derived address equal to `key`.
pub open spec fn is_derived(d: Option<(Seq<u8>, u8)>, key: Address) -> bool {
    d matches Some((a, _)) && a == key@
}

/// The record a listing creates.
pub open spec fn listed_auction(ctx: Listing, min_price: u64) -> Auction {
    Auction {
        min_price,
        highest_bid: 0,
        bidder_acc: None,
        payment_mint: ctx.payment_mint.key,
        asset_acc: ctx.asset_acc.key,
        deposit_acc: ctx.deposit_bid_acc,
        seller: ctx.seller,
    }
}

/// The outcome of a listing, given the addresses derived from the asset account
/// (for the record) and from the record (for the escrow).
pub open spec fn listing_outcome(
    ctx: Listing,
    auction_pda: Option<(Seq<u8>, u8)>,
    deposit_pda: Option<(Seq<u8>, u8)>,
    amount: u64,
    min_price: u64,
) -> Result<ListingPlan, BiddingError> {
    if !is_derived(auction_pda, ctx.auction_account) {
        Err(BiddingError::InvalidAccountError)
    } else if ctx.auction_account_in_use {
        Err(BiddingError::AuctionAlreadyExists)
    } else if !is_derived(deposit_pda, ctx.deposit_bid_acc) {
        Err(BiddingError::InvalidAccountError)
    } else if ctx.asset_mint.decimals != 0 {
        Err(BiddingError::AssetInvalidError)
    } else if ctx.asset_acc.mint@ != ctx.asset_mint.key@ {
        Err(BiddingError::InvalidAccountError)
    } else {
        Ok(ListingPlan {
            auction: listed_auction(ctx, min_price),
            approval: TokenApproval {
                account: ctx.asset_acc.key,
                delegate: ctx.auction_account,
                authority: ctx.seller,
                amount,
            },
            auction_bump: auction_pda->Some_0.1,
            deposit_bump: deposit_pda->Some_0.1,
        })
    }
}

/// The outcome of a listing under `program_id`.
pub open spec fn listing_spec(ctx: Listing, program_id: Seq<u8>, amount: u64, min_price: u64) -> Result<
    ListingPlan,
    BiddingError,
> {
    listing_outcome(
        ctx,
        program_address(ctx.asset_acc.key@, program_id),
        program_address(ctx.auction_account@, program_id),
        amount,
        min_price,
    )
}

/// The record an accepted bid leaves.
pub open spec fn outbid_auction(ctx: Bid, amount: u64) -> Auction {
    Auction { highest_bid: amount, bidder_acc: Some(ctx.bidding_account.key), ..ctx.auction }
}

/// The outcome of a bid, given the address derived from the record's asset account.
pub open spec fn bid_outcome(ctx: Bid, auction_pda: Option<(Seq<u8>, u8)>, amount: u64) -> Result<
    BidPlan,
    BiddingError,
> {
    let a = ctx.auction;
    if ctx.bidding_account.mint@ != a.payment_mint@ {
        Err(BiddingError::InvalidAccountError)
    } else if ctx.bidding_account.amount < a.highest_bid || ctx.bidding_account.amount < amount {
        Err(BiddingError::InsufficientAccountError)
    } else if !is_derived(auction_pda, ctx.auction_account) {
        Err(BiddingError::InvalidAccountError)
    } else if a.bidder_acc matches Some(b) && b@ != ctx.last_bidder_acc@ {
        Err(BiddingError::InvalidLastBidAccount)
    } else {
        Ok(BidPlan {
            refund: if a.bidder_acc is Some {
                Some(
                    TokenTransfer {
                        from: ctx.deposit_bid_acc,
                        to: ctx.last_bidder_acc,
                        authority: ctx.auction_account,
                        amount: a.highest_bid,
                    },
                )
            } else {
                None
            },
            deposit: TokenTransfer {
                from: ctx.bidding_account.key,
                to: ctx.deposit_bid_acc,
                authority: ctx.bidder,
                amount,
            },
            auction: outbid_auction(ctx, amount),
            auction_bump: auction_pda->Some_0.1,
        })
    }
}

/// The outcome of a bid under `program_id`.
pub open spec fn bid_spec(ctx: Bid, program_id: Seq<u8>, amount: u64) -> Result<BidPlan, BiddingError> {
    bid_outcome(ctx, program_address(ctx.auction.asset_acc@, program_id), amount)
}

/// Decides a listing once the two derived addresses are known.
pub fn listing_checked(
    ctx: &Listing,
    auction_pda: Option<(Address, u8)>,
    deposit_pda: Option<(Address, u8)>,
    amount: u64,
    min_price: u64,
) -> (r: Result<ListingPlan, BiddingError>)
    ensures
        r == listing_outcome(*ctx, derived_view(auction_pda), derived_view(deposit_pda), amount, min_price),
{
    let auction_bump = match auction_pda {
        Some((key, bump)) if key == ctx.auction_account => bump,
        _ => return Err(BiddingError::InvalidAccountError),
    };
    if ctx.auction_account_in_use {
        return Err(BiddingError::AuctionAlreadyExists);
    }
    let deposit_bump = match deposit_pda {
        Some((key, bump)) if key == ctx.deposit_bid_acc => bump,
        _ => return Err(BiddingError::InvalidAccountError),
    };
    if ctx.asset_mint.decimals != 0 {
        return Err(BiddingError::AssetInvalidError);
    }
    if ctx.asset_acc.mint != ctx.asset_mint.key {
        return Err(BiddingError::InvalidAccountError);
    }
    let auction = Auction {
        min_price,
        highest_bid: 0,
        bidder_acc: None,
        payment_mint: ctx.payment_mint.key,
        asset_acc: ctx.asset_acc.key,
        deposit_acc: ctx.deposit_bid_acc,
        seller: ctx.seller,
    };
    let approval = TokenApproval {
        account: ctx.asset_acc.key,
        delegate: ctx.auction_account,
        authority: ctx.seller,
        amount,
    };
    Ok(ListingPlan { auction, approval, auction_bump, deposit_bump })
}

/// Opens an auction: checks the presented accounts and returns the record to
/// create and the approval that lets the record move the asset later.
pub fn listing(ctx: &Listing, program_id: &Address, amount: u64, min_price: u64) -> (r: Result<
    ListingPlan,
    BiddingError,
>)
    ensures
        r == listing_spec(*ctx, program_id@, amount, min_price),
{
    let auction_pda = find_program_address(&ctx.asset_acc.key, program_id);
    let deposit_pda = find_program_address(&ctx.auction_account, program_id);
    listing_checked(ctx, auction_pda, deposit_pda, amount, min_price)
}

/// Decides a bid once the record's derived address is known.
pub fn bid_checked(ctx: &Bid, auction_pda: Option<(Address, u8)>, amount: u64) -> (r: Result<
    BidPlan,
    BiddingError,
>)
    ensures
        r == bid_outcome(*ctx, derived_view(auction_pda), amount),
{
    let auction = &ctx.auction;
    if ctx.bidding_account.mint != auction.payment_mint {
        return Err(BiddingError::InvalidAccountError);
    }
    if ctx.bidding_account.amount < auction.highest_bid || ctx.bidding_account.amount < amount {
        return Err(BiddingError::InsufficientAccountError);
    }
    let auction_bump = match auction_pda {
        Some((key, bump)) if key == ctx.auction_account => bump,
        _ => return Err(BiddingError::InvalidAccountError),
    };
    let refund = match auction.bidder_acc {
        Some(leader) => {
            if leader != ctx.last_bidder_acc {
                return Err(BiddingError::InvalidLastBidAccount);
            }
            Some(
                TokenTransfer {
                    from: ctx.deposit_bid_acc,
                    to: ctx.last_bidder_acc,
                    authority: ctx.auction_account,
                    amount: auction.highest_bid,
                },
            )
        },
        None => None,
    };
    let deposit = TokenTransfer {
        from: ctx.bidding_account.key,
        to: ctx.deposit_bid_acc,
        authority: ctx.bidder,
        amount,
    };
    let next = Auction {
        highest_bid: amount,
        bidder_acc: Some(ctx.bidding_account.key),
        ..*auction
    };
    Ok(BidPlan { refund, deposit, auction: next, auction_bump })
}

/// Places a bid: checks funds and accounts, and returns the refund of the
/// previous leader, the new deposit and the updated record.
pub fn bid(ctx: &Bid, program_id: &Address, amount: u64) -> (r: Result<BidPlan, BiddingError>)
    ensures
        r == bid_spec(*ctx, program_id@, amount),
{
    let auction_pda = find_program_address(&ctx.auction.asset_acc, program_id);
    bid_checked(ctx, auction_pda, amount)
}

} // verus!
