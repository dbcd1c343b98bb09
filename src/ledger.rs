//! A model of the host ledger around the transitions: token balances moved by
//! an atomic transfer primitive, and the auction records by address. The laws
//! of the auction are stated and proved over it.

use vstd::prelude::*;
use crate::address::program_address;
use crate::error::BiddingError;
use crate::instructions::{bid_spec, is_derived, listing_spec, Bid, BidPlan, Listing};
use crate::state::{Auction, TokenTransfer};

verus! {

/// The token primitive: moves exactly `t.amount` when the source holds enough,
/// and otherwise fails with no effect.
pub open spec fn apply_transfer(bal: Map<Seq<u8>, int>, t: TokenTransfer) -> Option<Map<Seq<u8>, int>> {
    if bal.contains_key(t.from@) && bal.contains_key(t.to@) && bal[t.from@] >= t.amount {
        if t.from@ == t.to@ {
            Some(bal)
        } else {
            Some(bal.insert(t.from@, bal[t.from@] - t.amount).insert(t.to@, bal[t.to@] + t.amount))
        }
    } else {
        None
    }
}

/// Carries out a bid's transfers in order: the refund, then the deposit.
pub open spec fn settle_bid(bal: Map<Seq<u8>, int>, plan: BidPlan) -> Option<Map<Seq<u8>, int>> {
    let refunded = match plan.refund {
        Some(t) => apply_transfer(bal, t),
        None => Some(bal),
    };
    match refunded {
        Some(b) => apply_transfer(b, plan.deposit),
        None => None,
    }
}

/// One bid against the ledger, all or nothing: the record and the balances
/// change together, or neither does.
pub open spec fn bid_step(ctx: Bid, program_id: Seq<u8>, amount: u64, bal: Map<Seq<u8>, int>) -> (
    Auction,
    Map<Seq<u8>, int>,
) {
    match bid_spec(ctx, program_id, amount) {
        Ok(plan) => match settle_bid(bal, plan) {
            Some(after) => (plan.auction, after),
            None => (ctx.auction, bal),
        },
        Err(_) => (ctx.auction, bal),
    }
}

/// One listing against the ledger's records: the ledger reports whether the
/// presented record address is taken, and stores the new record on success.
pub open spec fn listing_step(
    records: Map<Seq<u8>, Auction>,
    ctx: Listing,
    program_id: Seq<u8>,
    amount: u64,
    min_price: u64,
) -> Map<Seq<u8>, Auction> {
    let presented = Listing { auction_account_in_use: records.contains_key(ctx.auction_account@), ..ctx };
    match listing_spec(presented, program_id, amount, min_price) {
        Ok(plan) => records.insert(ctx.auction_account@, plan.auction),
        Err(_) => records,
    }
}

/// The escrow holds exactly the leading bid.
pub open spec fn escrow_matches(a: Auction, bal: Map<Seq<u8>, int>) -> bool {
    bal.contains_key(a.deposit_acc@) && bal[a.deposit_acc@] == a.highest_bid
}

/// A leader is recorded exactly when a non-zero bid is held.
pub open spec fn leader_matches(a: Auction) -> bool {
    (a.highest_bid == 0) == (a.bidder_acc is None)
}

/// The leader, if any, is not the escrow itself.
pub open spec fn leader_outside_escrow(a: Auction) -> bool {
    a.bidder_acc matches Some(b) ==> b@ != a.deposit_acc@
}

/// A new listing starts with no leader, and with its fresh, empty escrow
/// holding exactly the (zero) high bid.
pub proof fn lemma_listing_starts_consistent(
    ctx: Listing,
    program_id: Seq<u8>,
    amount: u64,
    min_price: u64,
    bal: Map<Seq<u8>, int>,
)
    requires
        listing_spec(ctx, program_id, amount, min_price) is Ok,
        bal.contains_key(ctx.deposit_bid_acc@),
        bal[ctx.deposit_bid_acc@] == 0,
    ensures
        ({
            let a = listing_spec(ctx, program_id, amount, min_price)->Ok_0.auction;
            &&& escrow_matches(a, bal)
            &&& leader_matches(a)
            &&& leader_outside_escrow(a)
        }),
{
}

/// Every bid step keeps the escrow balance equal to the high bid, provided the
/// bid presents the record's own escrow and is not funded from it.
pub proof fn lemma_bid_keeps_escrow_equal_to_high_bid(
    ctx: Bid,
    program_id: Seq<u8>,
    amount: u64,
    bal: Map<Seq<u8>, int>,
)
    requires
        escrow_matches(ctx.auction, bal),
        ctx.auction.bidder_acc is None ==> ctx.auction.highest_bid == 0,
        leader_outside_escrow(ctx.auction),
        ctx.deposit_bid_acc@ == ctx.auction.deposit_acc@,
        ctx.bidding_account.key@ != ctx.auction.deposit_acc@,
    ensures
        escrow_matches(bid_step(ctx, program_id, amount, bal).0, bid_step(ctx, program_id, amount, bal).1),
        leader_outside_escrow(bid_step(ctx, program_id, amount, bal).0),
        bid_step(ctx, program_id, amount, bal).0.bidder_acc is None ==> bid_step(
            ctx,
            program_id,
            amount,
            bal,
        ).0.highest_bid == 0,
{
}

/// Every bid step of a non-zero amount keeps "no leader exactly when the high
/// bid is zero".
pub proof fn lemma_bid_keeps_leader_consistent(
    ctx: Bid,
    program_id: Seq<u8>,
    amount: u64,
    bal: Map<Seq<u8>, int>,
)
    requires
        leader_matches(ctx.auction),
        amount > 0,
    ensures
        leader_matches(bid_step(ctx, program_id, amount, bal).0),
{
}

/// An accepted bid records exactly its amount as the high bid, so a bid of at
/// least the current high bid never lowers it.
pub proof fn lemma_bid_never_lowers_high_bid(ctx: Bid, program_id: Seq<u8>, amount: u64, bal: Map<Seq<u8>, int>)
    requires
        amount >= ctx.auction.highest_bid,
    ensures
        bid_step(ctx, program_id, amount, bal).0.highest_bid >= ctx.auction.highest_bid,
        bid_spec(ctx, program_id, amount) matches Ok(plan) ==> plan.auction.highest_bid == amount,
{
}

/// Once a listing for an asset account has been stored, any later listing
/// for the same asset account fails and leaves the records as they were.
pub proof fn lemma_no_double_listing(
    records: Map<Seq<u8>, Auction>,
    first: Listing,
    second: Listing,
    program_id: Seq<u8>,
    amount1: u64,
    min_price1: u64,
    amount2: u64,
    min_price2: u64,
)
    requires
        listing_step(records, first, program_id, amount1, min_price1) != records,
        second.asset_acc.key@ == first.asset_acc.key@,
    ensures
        ({
            let stored = listing_step(records, first, program_id, amount1, min_price1);
            let presented = Listing {
                auction_account_in_use: stored.contains_key(second.auction_account@),
                ..second
            };
            &&& listing_spec(presented, program_id, amount2, min_price2) is Err
            &&& listing_step(stored, second, program_id, amount2, min_price2) == stored
        }),
{
}

/// After a successful outbid, the previous leader has been paid back exactly
/// the previous high bid and the escrow holds only the new bid, provided the
/// new bid is funded from neither the leader's account nor the escrow.
pub proof fn lemma_outbid_refunds_previous_leader(
    ctx: Bid,
    program_id: Seq<u8>,
    amount: u64,
    bal: Map<Seq<u8>, int>,
    leader: Seq<u8>,
)
    requires
        ctx.auction.bidder_acc matches Some(b) && b@ == leader,
        escrow_matches(ctx.auction, bal),
        leader_outside_escrow(ctx.auction),
        ctx.deposit_bid_acc@ == ctx.auction.deposit_acc@,
        ctx.bidding_account.key@ != ctx.auction.deposit_acc@,
        ctx.bidding_account.key@ != leader,
        bid_spec(ctx, program_id, amount) matches Ok(plan) && settle_bid(bal, plan) is Some,
    ensures
        ({
            let after = bid_step(ctx, program_id, amount, bal).1;
            &&& after[leader] == bal[leader] + ctx.auction.highest_bid
            &&& after[ctx.auction.deposit_acc@] == amount
        }),
{
}

/// A bid that names anyone but the recorded leader as the previous leader is
/// refused as such, and changes neither the record nor any balance.
pub proof fn lemma_spoofed_leader_rejected(ctx: Bid, program_id: Seq<u8>, amount: u64, bal: Map<Seq<u8>, int>)
    requires
        ctx.auction.bidder_acc matches Some(b) && b@ != ctx.last_bidder_acc@,
        ctx.bidding_account.mint@ == ctx.auction.payment_mint@,
        ctx.bidding_account.amount >= ctx.auction.highest_bid,
        ctx.bidding_account.amount >= amount,
        is_derived(program_address(ctx.auction.asset_acc@, program_id), ctx.auction_account),
    ensures
        bid_spec(ctx, program_id, amount) == Err::<BidPlan, BiddingError>(BiddingError::InvalidLastBidAccount),
        bid_step(ctx, program_id, amount, bal) == (ctx.auction, bal),
{
}

/// A bid funded by less than the current high bid is refused for want of
/// funds, and changes neither the record nor any balance.
pub proof fn lemma_underfunded_bid_rejected(ctx: Bid, program_id: Seq<u8>, amount: u64, bal: Map<Seq<u8>, int>)
    requires
        ctx.bidding_account.mint@ == ctx.auction.payment_mint@,
        ctx.bidding_account.amount < ctx.auction.highest_bid,
    ensures
        bid_spec(ctx, program_id, amount) == Err::<BidPlan, BiddingError>(BiddingError::InsufficientAccountError),
        bid_step(ctx, program_id, amount, bal) == (ctx.auction, bal),
{
}

} // verus!
