//! The error taxonomy shared by every operation of the engine.

use vstd::prelude::*;

verus! {

/// Why an operation was rejected. Every check is fail-fast: an operation
/// that returns an error has performed no state mutation and has produced
/// no fund movement.
#[derive(Clone, Copy, Debug, PartialEq, Eq, Structural)]
pub enum MarketplaceError {
    /// A listing price (new or updated) is above the anti-scalping cap.
    PriceExceedsCap,
    /// The three royalty percentages of a config sum above 100%.
    InvalidSplit,
    /// An auction bid does not beat the current bid, or a purchase at a
    /// descending price offers less than the displayed price.
    BidTooLow,
    /// An offer of zero value.
    InsufficientFunds,
    /// The caller is not the party allowed to perform the operation.
    Unauthorized,
    /// The listing is not in the `Active` state.
    ListingNotActive,
    /// The listing's expiry time has passed, or a supplied expiry is not
    /// strictly in the future.
    ListingExpired,
    /// The offer is not in the `Active` state.
    OfferNotActive,
    /// The offer's expiry time has passed, or a supplied expiry is not
    /// strictly in the future.
    OfferExpired,
    /// The listing does not accept offers.
    OffersNotAllowed,
    /// The auction is not in the `Active` state, its end time has passed,
    /// or the operation does not apply to its auction type.
    AuctionNotActive,
    /// The auction's end time has not been reached yet.
    AuctionNotYetEnded,
    /// The source account does not hold exactly one unit.
    WrongQuantity,
    /// The vault has already released its unit.
    EmptyVault,
    /// A multiplication, addition or subtraction would leave the numeric
    /// range.
    ArithmeticOverflow,
}

} // verus!
