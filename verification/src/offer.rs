//! Offer negotiation against an active listing: making, accepting and
//! countering offers below (or above) the asking price.

use vstd::prelude::*;

use crate::addr::{account_address, sum_amounts, Addr, Transfer, NS_LISTING};
use crate::errors::MarketplaceError;
use crate::escrow::EscrowVault;
use crate::listing::{Listing, ListingStatus};
use crate::royalty::RoyaltyConfig;
use crate::settlement::{
    settlement_transfer_seq, settlement_transfers, split, split_of, split_ok, Settlement,
};

verus! {

/// Lifecycle state of an offer. `Active` is the only state from which a
/// transition is possible; every other state is terminal.
#[derive(Clone, Copy, Debug, PartialEq, Eq, Structural)]
pub enum OfferStatus {
    Active,
    Accepted,
    Rejected,
    Cancelled,
    Expired,
    CounterOffered,
}

/// A prospective buyer's bid on a listing, at a price of the buyer's
/// choosing.
#[derive(Clone, Copy, Debug, PartialEq, Eq, Structural)]
pub struct Offer {
    /// The storage address of the listing this offer is for.
    pub listing: Addr,
    /// Who made the offer and receives the unit if it is accepted.
    pub buyer: Addr,
    /// Offered amount.
    pub amount: u64,
    /// When the offer lapses.
    pub expires_at: i64,
    /// When the offer was made.
    pub created_at: i64,
    /// Lifecycle state.
    pub status: OfferStatus,
}

/// Makes an offer on an active listing.
///
/// Fails with `ListingNotActive` unless the listing is active;
/// `OffersNotAllowed` unless the listing accepts offers; `OfferExpired`
/// when the offer's expiry is not strictly in the future; and
/// `InsufficientFunds` when the offered amount is zero.
pub fn make_offer(
    listing: &Listing,
    buyer: Addr,
    amount: u64,
    expires_at: i64,
    now: i64,
) -> (r: Result<Offer, MarketplaceError>)
    ensures
        match r {
            Ok(o) => o == (Offer {
                listing: listing.address(),
                buyer,
                amount,
                expires_at,
                created_at: now,
                status: OfferStatus::Active,
            }),
            Err(e) => {
                &&& (e == MarketplaceError::ListingNotActive <==> listing.status
                    != ListingStatus::Active)
                &&& (e == MarketplaceError::OffersNotAllowed <==> listing.status
                    == ListingStatus::Active && !listing.allow_offers)
                &&& (e == MarketplaceError::OfferExpired <==> listing.status
                    == ListingStatus::Active && listing.allow_offers && expires_at <= now)
                &&& (e == MarketplaceError::InsufficientFunds <==> listing.status
                    == ListingStatus::Active && listing.allow_offers && expires_at > now && amount
                    == 0)
                &&& (e == MarketplaceError::ListingNotActive || e
                    == MarketplaceError::OffersNotAllowed || e == MarketplaceError::OfferExpired
                    || e == MarketplaceError::InsufficientFunds)
            },
        },
        r is Ok <==> listing.status == ListingStatus::Active && listing.allow_offers && expires_at
            > now && amount > 0,
{
    if !matches!(listing.status, ListingStatus::Active) {
        return Err(MarketplaceError::ListingNotActive);
    }
    if !listing.allow_offers {
        return Err(MarketplaceError::OffersNotAllowed);
    }
    if expires_at <= now {
        return Err(MarketplaceError::OfferExpired);
    }
    if amount == 0 {
        return Err(MarketplaceError::InsufficientFunds);
    }
    let listing_addr = account_address(NS_LISTING, listing.unit_id);
    Ok(
        Offer {
            listing: listing_addr,
            buyer,
            amount,
            expires_at,
            created_at: now,
            status: OfferStatus::Active,
        },
    )
}

/// Accepts an active offer: settles at the offered amount instead of the
/// asking price, following the same settlement path as a purchase.
///
/// On success the offer is accepted, the listing sold, the escrowed unit
/// released to the offer's buyer, and the returned transfers pay the
/// seller and every non-zero royalty share from that buyer — one atomic
/// unit. Fails with `Unauthorized` unless the caller is the listing's
/// seller; `ListingNotActive` / `ListingExpired` as a purchase does;
/// `OfferNotActive` unless the offer is active; `OfferExpired` when the
/// offer's expiry has passed; `ArithmeticOverflow` when the split fails.
/// On failure nothing changes and no funds move.
pub fn accept_offer(
    offer: &mut Offer,
    listing: &mut Listing,
    vault: &mut EscrowVault,
    caller: Addr,
    config: &RoyaltyConfig,
    now: i64,
) -> (r: Result<(Settlement, Vec<Transfer>), MarketplaceError>)
    requires
        old(offer).listing == old(listing).address(),
        old(vault).unit_id == old(listing).unit_id,
        old(listing).status == ListingStatus::Active ==> old(vault).is_locked(),
    ensures
        match r {
            Ok((s, ts)) => {
                &&& caller == old(listing).seller
                &&& old(listing).status == ListingStatus::Active
                &&& !old(listing).expired_at(now)
                &&& old(offer).status == OfferStatus::Active
                &&& old(offer).expires_at > now
                &&& s == split_of(old(offer).amount, *config)
                &&& s.wf()
                &&& s.total == old(offer).amount
                &&& ts@ == settlement_transfer_seq(old(offer).buyer, old(listing).seller, *config, s)
                &&& sum_amounts(ts@) == old(offer).amount
                &&& *final(offer) == (Offer { status: OfferStatus::Accepted, ..*old(offer) })
                &&& *final(listing) == (Listing { status: ListingStatus::Sold, ..*old(listing) })
                &&& *final(vault) == (EscrowVault {
                    unit_id: old(vault).unit_id,
                    released_to: Some(old(offer).buyer),
                })
            },
            Err(e) => {
                &&& *final(offer) == *old(offer)
                &&& *final(listing) == *old(listing)
                &&& *final(vault) == *old(vault)
                &&& (e == MarketplaceError::Unauthorized <==> caller != old(listing).seller)
                &&& (e == MarketplaceError::ListingNotActive <==> caller == old(listing).seller
                    && old(listing).status != ListingStatus::Active)
                &&& (e == MarketplaceError::ListingExpired <==> caller == old(listing).seller
                    && old(listing).status == ListingStatus::Active && old(listing).expired_at(now))
                &&& (e == MarketplaceError::OfferNotActive <==> caller == old(listing).seller
                    && old(listing).status == ListingStatus::Active && !old(listing).expired_at(now)
                    && old(offer).status != OfferStatus::Active)
                &&& (e == MarketplaceError::OfferExpired <==> caller == old(listing).seller && old(
                    listing,
                ).status == ListingStatus::Active && !old(listing).expired_at(now) && old(
                    offer,
                ).status == OfferStatus::Active && old(offer).expires_at <= now)
                &&& (e == MarketplaceError::ArithmeticOverflow <==> caller == old(listing).seller
                    && old(listing).status == ListingStatus::Active && !old(listing).expired_at(now)
                    && old(offer).status == OfferStatus::Active && old(offer).expires_at > now
                    && !split_ok(old(offer).amount, *config))
            },
        },
        r is Ok <==> caller == old(listing).seller && old(listing).status == ListingStatus::Active
            && !old(listing).expired_at(now) && old(offer).status == OfferStatus::Active && old(
            offer,
        ).expires_at > now && split_ok(old(offer).amount, *config),
{
    if caller != listing.seller {
        return Err(MarketplaceError::Unauthorized);
    }
    if !matches!(listing.status, ListingStatus::Active) {
        return Err(MarketplaceError::ListingNotActive);
    }
    if let Some(e) = listing.expires_at {
        if e <= now {
            return Err(MarketplaceError::ListingExpired);
        }
    }
    if !matches!(offer.status, OfferStatus::Active) {
        return Err(MarketplaceError::OfferNotActive);
    }
    if offer.expires_at <= now {
        return Err(MarketplaceError::OfferExpired);
    }
    let s = match split(offer.amount, config) {
        Ok(s) => s,
        Err(e) => return Err(e),
    };
    let ts = settlement_transfers(offer.buyer, listing.seller, config, &s);
    let released = vault.release(offer.buyer);
    proof {
        assert(released is Ok);
    }
    offer.status = OfferStatus::Accepted;
    listing.status = ListingStatus::Sold;
    Ok((s, ts))
}

/// Counters an active offer with a new amount and expiry of the seller's
/// choosing; the offer moves to the terminal `CounterOffered` state.
///
/// Fails with `Unauthorized` unless the caller is the listing's seller;
/// `OfferNotActive` unless the offer is active; `OfferExpired` when the
/// new expiry is not strictly in the future; `InsufficientFunds` when the
/// new amount is zero. On failure the offer is unchanged.
pub fn counter_offer(
    offer: &mut Offer,
    listing: &Listing,
    caller: Addr,
    new_amount: u64,
    new_expires_at: i64,
    now: i64,
) -> (r: Result<(), MarketplaceError>)
    requires
        old(offer).listing == listing.address(),
    ensures
        match r {
            Ok(_) => {
                &&& caller == listing.seller
                &&& old(offer).status == OfferStatus::Active
                &&& *final(offer) == (Offer {
                    amount: new_amount,
                    expires_at: new_expires_at,
                    status: OfferStatus::CounterOffered,
                    ..*old(offer)
                })
            },
            Err(e) => {
                &&& *final(offer) == *old(offer)
                &&& (e == MarketplaceError::Unauthorized <==> caller != listing.seller)
                &&& (e == MarketplaceError::OfferNotActive <==> caller == listing.seller && old(
                    offer,
                ).status != OfferStatus::Active)
                &&& (e == MarketplaceError::OfferExpired <==> caller == listing.seller && old(
                    offer,
                ).status == OfferStatus::Active && new_expires_at <= now)
                &&& (e == MarketplaceError::InsufficientFunds <==> caller == listing.seller && old(
                    offer,
                ).status == OfferStatus::Active && new_expires_at > now && new_amount == 0)
                &&& (e == MarketplaceError::Unauthorized || e == MarketplaceError::OfferNotActive
                    || e == MarketplaceError::OfferExpired || e
                    == MarketplaceError::InsufficientFunds)
            },
        },
        r is Ok <==> caller == listing.seller && old(offer).status == OfferStatus::Active
            && new_expires_at > now && new_amount > 0,
{
    if caller != listing.seller {
        return Err(MarketplaceError::Unauthorized);
    }
    if !matches!(offer.status, OfferStatus::Active) {
        return Err(MarketplaceError::OfferNotActive);
    }
    if new_expires_at <= now {
        return Err(MarketplaceError::OfferExpired);
    }
    if new_amount == 0 {
        return Err(MarketplaceError::InsufficientFunds);
    }
    offer.amount = new_amount;
    offer.expires_at = new_expires_at;
    offer.status = OfferStatus::CounterOffered;
    Ok(())
}

} // verus!
