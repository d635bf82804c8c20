//! Listing lifecycle: creation under the anti-scalping price cap,
//! purchase with atomic settlement, cancellation and update.

use vstd::prelude::*;

use crate::addr::{derived_address, sum_amounts, Addr, Transfer, NS_LISTING};
use crate::errors::MarketplaceError;
use crate::escrow::{EscrowVault, TokenAccount};
use crate::royalty::RoyaltyConfig;
use crate::settlement::{
    mul_bp, scaled_bp, settlement_transfer_seq, settlement_transfers, split, split_of, split_ok,
    Settlement,
};

verus! {

/// Lifecycle state of a listing. `Active` is the only state from which a
/// transition is possible; every transition out of it is one-way.
#[derive(Clone, Copy, Debug, PartialEq, Eq, Structural)]
pub enum ListingStatus {
    Active,
    Sold,
    Cancelled,
    Expired,
}

/// A unit offered for resale. While the listing is active, the unit sits
/// in the escrow vault created alongside it.
#[derive(Clone, Copy, Debug, PartialEq, Eq, Structural)]
pub struct Listing {
    /// Stable identifier of the unit being sold.
    pub unit_id: u64,
    /// Who is selling the unit and receives the seller share.
    pub seller: Addr,
    /// Asking price.
    pub price: u64,
    /// The unit's original issuance price, from collection metadata.
    pub original_price: u64,
    /// Anti-scalping ceiling: the price may never exceed it.
    pub price_cap: u64,
    /// When the listing expires, if ever.
    pub expires_at: Option<i64>,
    /// Whether offers below the asking price are accepted.
    pub allow_offers: bool,
    /// When the listing was created.
    pub created_at: i64,
    /// Lifecycle state.
    pub status: ListingStatus,
}

impl Listing {
    /// The listing invariant: the price never exceeds the cap.
    pub open spec fn wf(self) -> bool {
        self.price <= self.price_cap
    }

    /// The storage address of this listing's record, derived from the
    /// unit it sells.
    pub open spec fn address(self) -> Addr {
        derived_address(NS_LISTING, self.unit_id)
    }

    /// Whether the listing's own expiry has passed at time `now`. A
    /// listing without an expiry never expires.
    pub open spec fn expired_at(self, now: i64) -> bool {
        match self.expires_at {
            Some(e) => e <= now,
            None => false,
        }
    }
}

/// Creates a listing for the unit held in `source` and locks that unit
/// into a fresh escrow vault.
///
/// The price cap is `original_price * cap_multiplier_bp / 10000` exactly,
/// with `original_price` read from the unit's collection metadata by the
/// caller. Fails with `ArithmeticOverflow` when that product leaves the
/// numeric range; with `PriceExceedsCap` when `price` is above the cap;
/// with `ListingExpired` when a supplied expiry is not strictly in the
/// future; with `WrongQuantity` when `source` does not hold exactly one
/// unit. On failure nothing changes.
pub fn create_listing(
    source: &mut TokenAccount,
    seller: Addr,
    price: u64,
    original_price: u64,
    config: &RoyaltyConfig,
    expires_at: Option<i64>,
    allow_offers: bool,
    now: i64,
) -> (r: Result<(Listing, EscrowVault), MarketplaceError>)
    requires
        old(source).owner == seller,
    ensures
        match r {
            Ok((l, v)) => {
                &&& original_price * config.cap_multiplier_bp <= u64::MAX
                &&& l == (Listing {
                    unit_id: old(source).unit_id,
                    seller,
                    price,
                    original_price,
                    price_cap: scaled_bp(
                        original_price as int,
                        config.cap_multiplier_bp as int,
                    ) as u64,
                    expires_at,
                    allow_offers,
                    created_at: now,
                    status: ListingStatus::Active,
                })
                &&& l.wf()
                &&& !l.expired_at(now)
                &&& v == (EscrowVault { unit_id: old(source).unit_id, released_to: None })
                &&& *final(source) == (TokenAccount { amount: 0, ..*old(source) })
            },
            Err(e) => {
                &&& *final(source) == *old(source)
                &&& (e == MarketplaceError::ArithmeticOverflow <==> original_price
                    * config.cap_multiplier_bp > u64::MAX)
                &&& (e == MarketplaceError::PriceExceedsCap <==> original_price
                    * config.cap_multiplier_bp <= u64::MAX && price > scaled_bp(
                    original_price as int,
                    config.cap_multiplier_bp as int,
                ))
                &&& (e == MarketplaceError::ListingExpired <==> original_price
                    * config.cap_multiplier_bp <= u64::MAX && price <= scaled_bp(
                    original_price as int,
                    config.cap_multiplier_bp as int,
                ) && (expires_at matches Some(x) && x <= now))
                &&& (e == MarketplaceError::WrongQuantity <==> original_price
                    * config.cap_multiplier_bp <= u64::MAX && price <= scaled_bp(
                    original_price as int,
                    config.cap_multiplier_bp as int,
                ) && !(expires_at matches Some(x) && x <= now) && old(source).amount != 1)
                &&& (e == MarketplaceError::ArithmeticOverflow || e
                    == MarketplaceError::PriceExceedsCap || e == MarketplaceError::ListingExpired
                    || e == MarketplaceError::WrongQuantity)
            },
        },
        r is Ok <==> original_price * config.cap_multiplier_bp <= u64::MAX && price <= scaled_bp(
            original_price as int,
            config.cap_multiplier_bp as int,
        ) && !(expires_at matches Some(x) && x <= now) && old(source).amount == 1,
{
    let price_cap = match mul_bp(original_price, config.cap_multiplier_bp) {
        Some(c) => c,
        None => return Err(MarketplaceError::ArithmeticOverflow),
    };
    if price > price_cap {
        return Err(MarketplaceError::PriceExceedsCap);
    }
    if let Some(e) = expires_at {
        if e <= now {
            return Err(MarketplaceError::ListingExpired);
        }
    }
    let vault = match EscrowVault::lock(source) {
        Ok(v) => v,
        Err(e) => return Err(e),
    };
    Ok(
        (
            Listing {
                unit_id: vault.unit_id,
                seller,
                price,
                original_price,
                price_cap,
                expires_at,
                allow_offers,
                created_at: now,
                status: ListingStatus::Active,
            },
            vault,
        ),
    )
}

/// Checks the anti-scalping invariant of a listing: succeeds exactly when
/// the price is within the cap.
pub fn enforce_price_cap(listing: &Listing) -> (r: Result<(), MarketplaceError>)
    ensures
        match r {
            Ok(_) => listing.wf(),
            Err(e) => e == MarketplaceError::PriceExceedsCap && !listing.wf(),
        },
{
    if listing.price <= listing.price_cap {
        Ok(())
    } else {
        Err(MarketplaceError::PriceExceedsCap)
    }
}

/// Buys an active listing at its asking price.
///
/// Computes the royalty split of the price, and on success returns the
/// settlement together with the fund movements that pay the seller and
/// every non-zero royalty share from the buyer, releases the escrowed
/// unit to the buyer, and marks the listing sold — one atomic unit. Fails
/// with `ListingNotActive` unless the listing is active, `ListingExpired`
/// when its expiry has passed, and `ArithmeticOverflow` when the split
/// does; on failure nothing changes and no funds move.
pub fn buy_ticket(
    listing: &mut Listing,
    vault: &mut EscrowVault,
    buyer: Addr,
    config: &RoyaltyConfig,
    now: i64,
) -> (r: Result<(Settlement, Vec<Transfer>), MarketplaceError>)
    requires
        old(vault).unit_id == old(listing).unit_id,
        old(listing).status == ListingStatus::Active ==> old(vault).is_locked(),
    ensures
        match r {
            Ok((s, ts)) => {
                &&& old(listing).status == ListingStatus::Active
                &&& !old(listing).expired_at(now)
                &&& s == split_of(old(listing).price, *config)
                &&& s.wf()
                &&& s.total == old(listing).price
                &&& ts@ == settlement_transfer_seq(buyer, old(listing).seller, *config, s)
                &&& sum_amounts(ts@) == old(listing).price
                &&& *final(listing) == (Listing { status: ListingStatus::Sold, ..*old(listing) })
                &&& *final(vault) == (EscrowVault {
                    unit_id: old(vault).unit_id,
                    released_to: Some(buyer),
                })
            },
            Err(e) => {
                &&& *final(listing) == *old(listing)
                &&& *final(vault) == *old(vault)
                &&& (e == MarketplaceError::ListingNotActive <==> old(listing).status
                    != ListingStatus::Active)
                &&& (e == MarketplaceError::ListingExpired <==> old(listing).status
                    == ListingStatus::Active && old(listing).expired_at(now))
                &&& (e == MarketplaceError::ArithmeticOverflow <==> old(listing).status
                    == ListingStatus::Active && !old(listing).expired_at(now) && !split_ok(
                    old(listing).price,
                    *config,
                ))
                &&& (e == MarketplaceError::ListingNotActive || e
                    == MarketplaceError::ListingExpired || e == MarketplaceError::ArithmeticOverflow)
            },
        },
        r is Ok <==> old(listing).status == ListingStatus::Active && !old(listing).expired_at(now)
            && split_ok(old(listing).price, *config),
{
    if !matches!(listing.status, ListingStatus::Active) {
        return Err(MarketplaceError::ListingNotActive);
    }
    if let Some(e) = listing.expires_at {
        if e <= now {
            return Err(MarketplaceError::ListingExpired);
        }
    }
    let s = match split(listing.price, config) {
        Ok(s) => s,
        Err(e) => return Err(e),
    };
    let ts = settlement_transfers(buyer, listing.seller, config, &s);
    let released = vault.release(buyer);
    proof {
        assert(released is Ok);
    }
    listing.status = ListingStatus::Sold;
    Ok((s, ts))
}

/// Cancels an active listing and returns the escrowed unit to exactly the
/// original seller. No funds move.
///
/// Fails with `Unauthorized` unless the caller is the seller, and with
/// `ListingNotActive` unless the listing is active; on failure nothing
/// changes.
pub fn cancel_listing(
    listing: &mut Listing,
    vault: &mut EscrowVault,
    caller: Addr,
) -> (r: Result<(), MarketplaceError>)
    requires
        old(vault).unit_id == old(listing).unit_id,
        old(listing).status == ListingStatus::Active ==> old(vault).is_locked(),
    ensures
        match r {
            Ok(_) => {
                &&& caller == old(listing).seller
                &&& old(listing).status == ListingStatus::Active
                &&& *final(listing) == (Listing {
                    status: ListingStatus::Cancelled,
                    ..*old(listing)
                })
                &&& *final(vault) == (EscrowVault {
                    unit_id: old(vault).unit_id,
                    released_to: Some(old(listing).seller),
                })
            },
            Err(e) => {
                &&& *final(listing) == *old(listing)
                &&& *final(vault) == *old(vault)
                &&& (e == MarketplaceError::Unauthorized <==> caller != old(listing).seller)
                &&& (e == MarketplaceError::ListingNotActive <==> caller == old(listing).seller
                    && old(listing).status != ListingStatus::Active)
                &&& (e == MarketplaceError::Unauthorized || e == MarketplaceError::ListingNotActive)
            },
        },
        r is Ok <==> caller == old(listing).seller && old(listing).status == ListingStatus::Active,
{
    if caller != listing.seller {
        return Err(MarketplaceError::Unauthorized);
    }
    if !matches!(listing.status, ListingStatus::Active) {
        return Err(MarketplaceError::ListingNotActive);
    }
    let released = vault.release(listing.seller);
    proof {
        assert(released is Ok);
    }
    listing.status = ListingStatus::Cancelled;
    Ok(())
}

/// Updates an active listing, applying only the fields supplied.
///
/// Fails with `Unauthorized` unless the caller is the seller;
/// `ListingNotActive` unless the listing is active; `ListingExpired` when
/// the listing's own expiry has passed or a supplied new expiry is not
/// strictly in the future; `PriceExceedsCap` when a supplied new price is
/// above the cap. Validation is complete before anything is applied, so
/// on failure the listing is unchanged.
pub fn update_listing(
    listing: &mut Listing,
    caller: Addr,
    new_price: Option<u64>,
    new_expires_at: Option<i64>,
    new_allow_offers: Option<bool>,
    now: i64,
) -> (r: Result<(), MarketplaceError>)
    ensures
        match r {
            Ok(_) => {
                &&& caller == old(listing).seller
                &&& old(listing).status == ListingStatus::Active
                &&& !old(listing).expired_at(now)
                &&& *final(listing) == (Listing {
                    price: match new_price {
                        Some(p) => p,
                        None => old(listing).price,
                    },
                    expires_at: match new_expires_at {
                        Some(x) => Some(x),
                        None => old(listing).expires_at,
                    },
                    allow_offers: match new_allow_offers {
                        Some(b) => b,
                        None => old(listing).allow_offers,
                    },
                    ..*old(listing)
                })
                &&& (old(listing).wf() ==> final(listing).wf())
            },
            Err(e) => {
                &&& *final(listing) == *old(listing)
                &&& (e == MarketplaceError::Unauthorized <==> caller != old(listing).seller)
                &&& (e == MarketplaceError::ListingNotActive <==> caller == old(listing).seller
                    && old(listing).status != ListingStatus::Active)
                &&& (e == MarketplaceError::PriceExceedsCap <==> caller == old(listing).seller
                    && old(listing).status == ListingStatus::Active && !old(listing).expired_at(now)
                    && (new_price matches Some(p) && p > old(listing).price_cap))
                &&& (e == MarketplaceError::ListingExpired <==> caller == old(listing).seller
                    && old(listing).status == ListingStatus::Active && (old(listing).expired_at(now)
                    || (!(new_price matches Some(p) && p > old(listing).price_cap) && (
                    new_expires_at matches Some(x) && x <= now))))
                &&& (e == MarketplaceError::Unauthorized || e == MarketplaceError::ListingNotActive
                    || e == MarketplaceError::PriceExceedsCap || e
                    == MarketplaceError::ListingExpired)
            },
        },
        r is Ok <==> caller == old(listing).seller && old(listing).status == ListingStatus::Active
            && !old(listing).expired_at(now) && !(new_price matches Some(p) && p > old(
            listing,
        ).price_cap) && !(new_expires_at matches Some(x) && x <= now),
{
    if caller != listing.seller {
        return Err(MarketplaceError::Unauthorized);
    }
    if !matches!(listing.status, ListingStatus::Active) {
        return Err(MarketplaceError::ListingNotActive);
    }
    if let Some(e) = listing.expires_at {
        if e <= now {
            return Err(MarketplaceError::ListingExpired);
        }
    }
    if let Some(p) = new_price {
        if p > listing.price_cap {
            return Err(MarketplaceError::PriceExceedsCap);
        }
    }
    if let Some(x) = new_expires_at {
        if x <= now {
            return Err(MarketplaceError::ListingExpired);
        }
    }
    if let Some(p) = new_price {
        listing.price = p;
    }
    if let Some(x) = new_expires_at {
        listing.expires_at = Some(x);
    }
    if let Some(b) = new_allow_offers {
        listing.allow_offers = b;
    }
    Ok(())
}

} // verus!
