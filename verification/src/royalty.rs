//! Per-collection royalty split configuration.

use vstd::prelude::*;

use crate::addr::Addr;
use crate::errors::MarketplaceError;

verus! {

/// Basis points of a whole: 10000 = 100%.
pub const BP_DENOMINATOR: u64 = 10000;

/// The royalty split and price-cap policy of one collection. Created once
/// per collection by its authority; immutable for the lifetime of the
/// listings and auctions that reference it.
#[derive(Clone, Copy, Debug, PartialEq, Eq, Structural)]
pub struct RoyaltyConfig {
    /// Stable identifier of the collection this config applies to.
    pub collection_id: u64,
    /// Receives the artist's royalty share.
    pub artist_wallet: Addr,
    /// Receives the venue's royalty share.
    pub venue_wallet: Addr,
    /// Receives the platform's fee share.
    pub platform_wallet: Addr,
    /// The only party allowed to change the config.
    pub authority: Addr,
    /// Artist royalty in basis points (1000 = 10%).
    pub artist_bp: u16,
    /// Venue royalty in basis points.
    pub venue_bp: u16,
    /// Platform fee in basis points.
    pub platform_bp: u16,
    /// Resale price cap as a multiple of the original price, in basis
    /// points (20000 = 200%).
    pub cap_multiplier_bp: u16,
    /// When the config was created.
    pub created_at: i64,
}

impl RoyaltyConfig {
    /// A config is valid when its three royalty percentages sum to at most
    /// 100%, so a settlement can never pay out more than its total.
    pub open spec fn wf(self) -> bool {
        self.artist_bp + self.venue_bp + self.platform_bp <= BP_DENOMINATOR
    }
}

/// Creates the royalty configuration of a collection. Rejects with
/// `InvalidSplit` exactly when the three royalty percentages sum above
/// 100%; every stored config is therefore valid.
pub fn configure_royalty(
    collection_id: u64,
    artist_wallet: Addr,
    venue_wallet: Addr,
    platform_wallet: Addr,
    artist_bp: u16,
    venue_bp: u16,
    platform_bp: u16,
    cap_multiplier_bp: u16,
    authority: Addr,
    now: i64,
) -> (r: Result<RoyaltyConfig, MarketplaceError>)
    ensures
        match r {
            Ok(c) => {
                &&& artist_bp + venue_bp + platform_bp <= BP_DENOMINATOR
                &&& c == (RoyaltyConfig {
                    collection_id,
                    artist_wallet,
                    venue_wallet,
                    platform_wallet,
                    authority,
                    artist_bp,
                    venue_bp,
                    platform_bp,
                    cap_multiplier_bp,
                    created_at: now,
                })
                &&& c.wf()
            },
            Err(e) => {
                &&& e == MarketplaceError::InvalidSplit
                &&& artist_bp + venue_bp + platform_bp > BP_DENOMINATOR
            },
        },
{
    let total_bp: u32 = artist_bp as u32 + venue_bp as u32 + platform_bp as u32;
    if total_bp > BP_DENOMINATOR as u32 {
        return Err(MarketplaceError::InvalidSplit);
    }
    Ok(RoyaltyConfig {
        collection_id,
        artist_wallet,
        venue_wallet,
        platform_wallet,
        authority,
        artist_bp,
        venue_bp,
        platform_bp,
        cap_multiplier_bp,
        created_at: now,
    })
}

/// A read-only summary of a collection's royalty policy.
#[derive(Clone, Copy, Debug, PartialEq, Eq, Structural)]
pub struct RoyaltyAnalytics {
    pub artist_wallet: Addr,
    pub artist_bp: u16,
    pub venue_bp: u16,
    pub platform_bp: u16,
    pub cap_multiplier_bp: u16,
}

/// Reports how a collection's proceeds are divided and how its resale
/// prices are capped.
pub fn get_royalty_analytics(config: &RoyaltyConfig) -> (r: RoyaltyAnalytics)
    ensures
        r == (RoyaltyAnalytics {
            artist_wallet: config.artist_wallet,
            artist_bp: config.artist_bp,
            venue_bp: config.venue_bp,
            platform_bp: config.platform_bp,
            cap_multiplier_bp: config.cap_multiplier_bp,
        }),
{
    RoyaltyAnalytics {
        artist_wallet: config.artist_wallet,
        artist_bp: config.artist_bp,
        venue_bp: config.venue_bp,
        platform_bp: config.platform_bp,
        cap_multiplier_bp: config.cap_multiplier_bp,
    }
}

} // verus!
