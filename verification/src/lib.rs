//! Resale marketplace settlement engine for unique, non-divisible
//! collectible units ("tickets").
//!
//! The engine manages the listing lifecycle, custodial escrow of the unit
//! during a sale or auction, anti-scalping price caps, and atomic
//! multi-party payment splitting between the seller, the original creator,
//! the venue and the platform.
//!
//! Every operation is a pure transition: it validates its inputs, and on
//! success returns the updated entities together with the full set of fund
//! movements ([`addr::Transfer`] values) that the ledger substrate must
//! apply as one atomic unit. On failure it returns a typed error and
//! leaves every entity unchanged, so no partial effect is ever observable.
//!
//! The substrate authenticates callers and hands each operation the
//! entities named by its derived storage keys; the `requires` clauses of
//! the operations state exactly that linkage (a vault belongs to its
//! listing, an offer to its listing), while everything a caller could get
//! wrong at runtime is rejected with a [`errors::MarketplaceError`].

pub mod addr;
pub mod auction;
pub mod errors;
pub mod escrow;
pub mod listing;
pub mod offer;
pub mod royalty;
pub mod settlement;
