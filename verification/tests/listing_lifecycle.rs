use marketplace_engine::addr::Addr;
use marketplace_engine::errors::MarketplaceError;
use marketplace_engine::escrow::TokenAccount;
use marketplace_engine::listing::{
    buy_ticket, cancel_listing, create_listing, enforce_price_cap, update_listing, ListingStatus,
};
use marketplace_engine::royalty::{configure_royalty, RoyaltyConfig};

fn addr(value: u128) -> Addr {
    Addr { value }
}

fn artist() -> Addr {
    addr(11)
}

fn venue() -> Addr {
    addr(12)
}

fn platform() -> Addr {
    addr(13)
}

fn seller() -> Addr {
    addr(21)
}

fn buyer() -> Addr {
    addr(22)
}

fn config() -> RoyaltyConfig {
    configure_royalty(7, artist(), venue(), platform(), 1000, 500, 100, 20000, addr(14), 0)
        .unwrap()
}

fn seller_holding(unit_id: u64) -> TokenAccount {
    TokenAccount { owner: seller(), unit_id, amount: 1 }
}

#[test]
fn price_cap_is_twice_the_original_price() {
    // original 5 * 10^9 at a 200% multiplier caps at 10 * 10^9
    let c = config();
    let mut tok = seller_holding(42);
    let over = create_listing(
        &mut tok,
        seller(),
        10_000_000_001,
        5_000_000_000,
        &c,
        None,
        true,
        100,
    );
    assert_eq!(over.unwrap_err(), MarketplaceError::PriceExceedsCap);
    assert_eq!(tok.amount, 1);

    let (listing, vault) = create_listing(
        &mut tok,
        seller(),
        10_000_000_000,
        5_000_000_000,
        &c,
        None,
        true,
        100,
    )
    .unwrap();
    assert_eq!(listing.price_cap, 10_000_000_000);
    assert_eq!(listing.price, 10_000_000_000);
    assert_eq!(listing.status, ListingStatus::Active);
    assert_eq!(tok.amount, 0);
    assert_eq!(vault.released_to, None);
    assert!(enforce_price_cap(&listing).is_ok());
}

#[test]
fn listing_rejects_expiry_not_in_the_future() {
    let c = config();
    let mut tok = seller_holding(42);
    let r = create_listing(&mut tok, seller(), 100, 1000, &c, Some(50), false, 50);
    assert_eq!(r.unwrap_err(), MarketplaceError::ListingExpired);
    let ok = create_listing(&mut tok, seller(), 100, 1000, &c, Some(51), false, 50);
    assert!(ok.is_ok());
}

#[test]
fn listing_rejects_empty_source_account() {
    let c = config();
    let mut tok = TokenAccount { owner: seller(), unit_id: 42, amount: 0 };
    let r = create_listing(&mut tok, seller(), 100, 1000, &c, None, false, 0);
    assert_eq!(r.unwrap_err(), MarketplaceError::WrongQuantity);
}

#[test]
fn listing_cap_computation_overflows_on_huge_original_price() {
    let c = config();
    let mut tok = seller_holding(42);
    let r = create_listing(&mut tok, seller(), 100, u64::MAX, &c, None, false, 0);
    assert_eq!(r.unwrap_err(), MarketplaceError::ArithmeticOverflow);
}

#[test]
fn buying_pays_every_party_and_releases_the_unit() {
    let c = config();
    let mut tok = seller_holding(42);
    let (mut listing, mut vault) =
        create_listing(&mut tok, seller(), 1000, 5000, &c, None, false, 0).unwrap();
    let (s, ts) = buy_ticket(&mut listing, &mut vault, buyer(), &c, 10).unwrap();
    assert_eq!(s.total, 1000);
    assert_eq!(s.seller_share, 840);
    // seller first, then artist, venue, platform; all paid by the buyer
    assert_eq!(ts.len(), 4);
    assert_eq!((ts[0].from, ts[0].to, ts[0].amount), (buyer(), seller(), 840));
    assert_eq!((ts[1].from, ts[1].to, ts[1].amount), (buyer(), artist(), 100));
    assert_eq!((ts[2].from, ts[2].to, ts[2].amount), (buyer(), venue(), 50));
    assert_eq!((ts[3].from, ts[3].to, ts[3].amount), (buyer(), platform(), 10));
    assert_eq!(ts.iter().map(|t| t.amount).sum::<u64>(), 1000);
    assert_eq!(listing.status, ListingStatus::Sold);
    assert_eq!(vault.released_to, Some(buyer()));
}

#[test]
fn buying_skips_zero_shares() {
    let c = configure_royalty(7, artist(), venue(), platform(), 1000, 0, 100, 20000, addr(14), 0)
        .unwrap();
    let mut tok = seller_holding(42);
    let (mut listing, mut vault) =
        create_listing(&mut tok, seller(), 1000, 5000, &c, None, false, 0).unwrap();
    let (_, ts) = buy_ticket(&mut listing, &mut vault, buyer(), &c, 10).unwrap();
    assert_eq!(ts.len(), 3);
    assert!(ts.iter().all(|t| t.amount > 0));
    assert!(ts.iter().all(|t| t.to != venue()));
}

#[test]
fn buying_an_expired_listing_fails() {
    let c = config();
    let mut tok = seller_holding(42);
    let (mut listing, mut vault) =
        create_listing(&mut tok, seller(), 1000, 5000, &c, Some(100), false, 0).unwrap();
    let r = buy_ticket(&mut listing, &mut vault, buyer(), &c, 100);
    assert_eq!(r.unwrap_err(), MarketplaceError::ListingExpired);
    assert_eq!(listing.status, ListingStatus::Active);
    assert_eq!(vault.released_to, None);
}

#[test]
fn cancel_returns_the_unit_to_exactly_the_seller_and_moves_no_funds() {
    let c = config();
    let mut tok = seller_holding(42);
    let (mut listing, mut vault) =
        create_listing(&mut tok, seller(), 1000, 5000, &c, None, false, 0).unwrap();

    let refused = cancel_listing(&mut listing, &mut vault, buyer());
    assert_eq!(refused.unwrap_err(), MarketplaceError::Unauthorized);
    assert_eq!(listing.status, ListingStatus::Active);

    cancel_listing(&mut listing, &mut vault, seller()).unwrap();
    assert_eq!(listing.status, ListingStatus::Cancelled);
    assert_eq!(vault.released_to, Some(seller()));
}

#[test]
fn buying_a_cancelled_or_sold_listing_fails_and_changes_nothing() {
    let c = config();
    let mut tok = seller_holding(42);
    let (mut listing, mut vault) =
        create_listing(&mut tok, seller(), 1000, 5000, &c, None, false, 0).unwrap();
    cancel_listing(&mut listing, &mut vault, seller()).unwrap();

    let before_listing = listing;
    let before_vault = vault;
    let r = buy_ticket(&mut listing, &mut vault, buyer(), &c, 10);
    assert_eq!(r.unwrap_err(), MarketplaceError::ListingNotActive);
    assert_eq!(listing, before_listing);
    assert_eq!(vault, before_vault);

    let mut tok2 = seller_holding(43);
    let (mut sold, mut sold_vault) =
        create_listing(&mut tok2, seller(), 1000, 5000, &c, None, false, 0).unwrap();
    buy_ticket(&mut sold, &mut sold_vault, buyer(), &c, 10).unwrap();
    let r2 = buy_ticket(&mut sold, &mut sold_vault, addr(99), &c, 11);
    assert_eq!(r2.unwrap_err(), MarketplaceError::ListingNotActive);
    assert_eq!(sold.status, ListingStatus::Sold);
    assert_eq!(sold_vault.released_to, Some(buyer()));
}

#[test]
fn update_applies_only_the_supplied_fields() {
    let c = config();
    let mut tok = seller_holding(42);
    let (mut listing, _) =
        create_listing(&mut tok, seller(), 1000, 5000, &c, Some(1000), false, 0).unwrap();

    update_listing(&mut listing, seller(), Some(2000), None, Some(true), 10).unwrap();
    assert_eq!(listing.price, 2000);
    assert_eq!(listing.expires_at, Some(1000));
    assert!(listing.allow_offers);

    update_listing(&mut listing, seller(), None, Some(5000), None, 10).unwrap();
    assert_eq!(listing.price, 2000);
    assert_eq!(listing.expires_at, Some(5000));
}

#[test]
fn update_rejects_bad_inputs_and_leaves_the_listing_unchanged() {
    let c = config();
    let mut tok = seller_holding(42);
    let (mut listing, _) =
        create_listing(&mut tok, seller(), 1000, 5000, &c, Some(1000), false, 0).unwrap();
    let before = listing;

    let r = update_listing(&mut listing, buyer(), Some(2000), None, None, 10);
    assert_eq!(r.unwrap_err(), MarketplaceError::Unauthorized);
    assert_eq!(listing, before);

    // cap is 5000 * 2 = 10000
    let r = update_listing(&mut listing, seller(), Some(10_001), None, None, 10);
    assert_eq!(r.unwrap_err(), MarketplaceError::PriceExceedsCap);
    assert_eq!(listing, before);

    let r = update_listing(&mut listing, seller(), None, Some(10), None, 10);
    assert_eq!(r.unwrap_err(), MarketplaceError::ListingExpired);
    assert_eq!(listing, before);

    // the listing's own expiry has passed
    let r = update_listing(&mut listing, seller(), Some(500), None, None, 1000);
    assert_eq!(r.unwrap_err(), MarketplaceError::ListingExpired);
    assert_eq!(listing, before);
}

#[test]
fn enforce_price_cap_rejects_a_listing_over_its_cap() {
    let c = config();
    let mut tok = seller_holding(42);
    let (mut listing, _) =
        create_listing(&mut tok, seller(), 1000, 5000, &c, None, false, 0).unwrap();
    assert!(enforce_price_cap(&listing).is_ok());
    listing.price = listing.price_cap + 1;
    assert_eq!(
        enforce_price_cap(&listing).unwrap_err(),
        MarketplaceError::PriceExceedsCap
    );
}
