//! Why a listing or a bid is refused.

use vstd::prelude::*;

verus! {

/// The reasons a transition is rejected. Every one is terminal: nothing moves.
#[derive(Clone, Copy, Debug, PartialEq, Eq, Structural)]
pub enum BiddingError {
    /// The asset is not a non-fungible unit (its mint has decimals).
    AssetInvalidError,
    /// A presented account does not match the mint or the derived address required.
    InvalidAccountError,
    /// The presented previous leader is not the recorded one.
    InvalidLastBidAccount,
    /// The funding balance is below the current high bid or the bid amount.
    InsufficientAccountError,
    /// An auction record already lives at the derived address.
    AuctionAlreadyExists,
}

} // verus!
