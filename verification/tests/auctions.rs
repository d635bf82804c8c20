use marketplace_engine::addr::{account_address, Addr, NS_AUCTION};
use marketplace_engine::auction::{
    create_auction, dutch_buy, dutch_price, end_auction, place_bid, Auction, AuctionStatus,
    AuctionType,
};
use marketplace_engine::errors::MarketplaceError;
use marketplace_engine::escrow::TokenAccount;
use marketplace_engine::royalty::{configure_royalty, RoyaltyConfig};

fn addr(value: u128) -> Addr {
    Addr { value }
}

fn artist() -> Addr {
    addr(11)
}

fn venue() -> Addr {
    addr(12)
}

fn platform() -> Addr {
    addr(13)
}

fn seller() -> Addr {
    addr(21)
}

fn config() -> RoyaltyConfig {
    configure_royalty(7, artist(), venue(), platform(), 1000, 500, 100, 20000, addr(14), 0)
        .unwrap()
}

fn english(unit_id: u64, starting_bid: u64) -> (Auction, marketplace_engine::escrow::EscrowVault) {
    let mut tok = TokenAccount { owner: seller(), unit_id, amount: 1 };
    create_auction(&mut tok, seller(), starting_bid, 1, AuctionType::English, 0).unwrap()
}

#[test]
fn auction_starts_with_no_bidder_and_the_unit_in_escrow() {
    let mut tok = TokenAccount { owner: seller(), unit_id: 42, amount: 1 };
    let (a, v) = create_auction(&mut tok, seller(), 100, 2, AuctionType::English, 1000).unwrap();
    assert_eq!(a.status, AuctionStatus::Active);
    assert_eq!(a.current_bid, 100);
    assert_eq!(a.highest_bidder, None);
    assert_eq!(a.end_time, 1000 + 2 * 3600);
    assert_eq!(a.escrowed_funds, 0);
    assert_eq!(tok.amount, 0);
    assert_eq!(v.released_to, None);
}

#[test]
fn auction_end_time_overflow_is_rejected() {
    let mut tok = TokenAccount { owner: seller(), unit_id: 42, amount: 1 };
    let r = create_auction(&mut tok, seller(), 100, u64::MAX, AuctionType::English, 0);
    assert_eq!(r.unwrap_err(), MarketplaceError::ArithmeticOverflow);
    assert_eq!(tok.amount, 1);
}

#[test]
fn bidding_war_refunds_the_prior_bidder_exactly() {
    // starting_bid=100; bid(A,150) ok; bid(B,140) too low; bid(B,200) refunds A 150
    let (mut auction, _) = english(42, 100);
    let a = addr(31);
    let b = addr(32);
    let escrow = account_address(NS_AUCTION, 42);

    let ts = place_bid(&mut auction, a, 150, 10).unwrap();
    assert_eq!(auction.highest_bidder, Some(a));
    assert_eq!(auction.current_bid, 150);
    assert_eq!(auction.escrowed_funds, 150);
    assert_eq!(ts.len(), 1);
    assert_eq!((ts[0].from, ts[0].to, ts[0].amount), (a, escrow, 150));

    let low = place_bid(&mut auction, b, 140, 20);
    assert_eq!(low.unwrap_err(), MarketplaceError::BidTooLow);
    assert_eq!(auction.highest_bidder, Some(a));
    assert_eq!(auction.current_bid, 150);

    let equal = place_bid(&mut auction, b, 150, 20);
    assert_eq!(equal.unwrap_err(), MarketplaceError::BidTooLow);

    let ts = place_bid(&mut auction, b, 200, 30).unwrap();
    assert_eq!(auction.highest_bidder, Some(b));
    assert_eq!(auction.current_bid, 200);
    assert_eq!(auction.escrowed_funds, 200);
    // refund before deposit, never the reverse
    assert_eq!(ts.len(), 2);
    assert_eq!((ts[0].from, ts[0].to, ts[0].amount), (escrow, a, 150));
    assert_eq!((ts[1].from, ts[1].to, ts[1].amount), (b, escrow, 200));
}

#[test]
fn bids_after_the_end_time_or_on_other_states_are_rejected() {
    let (mut auction, mut vault) = english(42, 100);
    let late = place_bid(&mut auction, addr(31), 150, 3600);
    assert_eq!(late.unwrap_err(), MarketplaceError::AuctionNotActive);

    let c = config();
    end_auction(&mut auction, &mut vault, &c, 3600).unwrap();
    let after = place_bid(&mut auction, addr(31), 150, 10);
    assert_eq!(after.unwrap_err(), MarketplaceError::AuctionNotActive);
}

#[test]
fn english_bids_on_a_dutch_auction_are_rejected() {
    let mut tok = TokenAccount { owner: seller(), unit_id: 42, amount: 1 };
    let (mut auction, _) =
        create_auction(&mut tok, seller(), 1000, 1, AuctionType::Dutch, 0).unwrap();
    let r = place_bid(&mut auction, addr(31), 2000, 10);
    assert_eq!(r.unwrap_err(), MarketplaceError::AuctionNotActive);
}

#[test]
fn winning_bid_is_split_and_paid_from_the_auction_escrow() {
    let (mut auction, mut vault) = english(42, 100);
    let a = addr(31);
    let c = config();
    place_bid(&mut auction, a, 1000, 10).unwrap();

    let early = end_auction(&mut auction, &mut vault, &c, 100);
    assert_eq!(early.unwrap_err(), MarketplaceError::AuctionNotYetEnded);

    let (s, ts) = end_auction(&mut auction, &mut vault, &c, 3600).unwrap();
    let s = s.unwrap();
    assert_eq!(s.total, 1000);
    assert_eq!(s.seller_share, 840);
    let escrow = account_address(NS_AUCTION, 42);
    assert_eq!(ts.len(), 4);
    assert_eq!((ts[0].from, ts[0].to, ts[0].amount), (escrow, seller(), 840));
    assert_eq!((ts[1].from, ts[1].to, ts[1].amount), (escrow, artist(), 100));
    assert_eq!((ts[2].from, ts[2].to, ts[2].amount), (escrow, venue(), 50));
    assert_eq!((ts[3].from, ts[3].to, ts[3].amount), (escrow, platform(), 10));
    // the payout drains the escrowed funds exactly
    assert_eq!(ts.iter().map(|t| t.amount).sum::<u64>(), 1000);
    assert_eq!(auction.escrowed_funds, 0);
    assert_eq!(auction.status, AuctionStatus::Ended);
    assert_eq!(vault.released_to, Some(a));

    let again = end_auction(&mut auction, &mut vault, &c, 7200);
    assert_eq!(again.unwrap_err(), MarketplaceError::AuctionNotActive);
}

#[test]
fn auction_with_no_bids_returns_the_unit_and_moves_no_funds() {
    let (mut auction, mut vault) = english(42, 100);
    let c = config();
    let (s, ts) = end_auction(&mut auction, &mut vault, &c, 3600).unwrap();
    assert!(s.is_none());
    assert!(ts.is_empty());
    assert_eq!(auction.status, AuctionStatus::Cancelled);
    assert_eq!(vault.released_to, Some(seller()));
}

#[test]
fn dutch_price_decays_linearly_from_the_starting_bid_to_zero() {
    let mut tok = TokenAccount { owner: seller(), unit_id: 42, amount: 1 };
    // duration 1h from t=0: price = 1000 * (3600 - now) / 3600
    let (auction, _) = create_auction(&mut tok, seller(), 1000, 1, AuctionType::Dutch, 0).unwrap();
    assert_eq!(dutch_price(&auction, -5), 1000);
    assert_eq!(dutch_price(&auction, 0), 1000);
    assert_eq!(dutch_price(&auction, 900), 750);
    assert_eq!(dutch_price(&auction, 1800), 500);
    assert_eq!(dutch_price(&auction, 2700), 250);
    assert_eq!(dutch_price(&auction, 3599), 0);
    assert_eq!(dutch_price(&auction, 3600), 0);
    assert_eq!(dutch_price(&auction, 7200), 0);
    // monotone on a finer grid
    let mut last = u64::MAX;
    for t in 0..=3600 {
        let p = dutch_price(&auction, t);
        assert!(p <= last);
        last = p;
    }
}

#[test]
fn dutch_purchase_settles_at_the_displayed_price() {
    let mut tok = TokenAccount { owner: seller(), unit_id: 42, amount: 1 };
    let (mut auction, mut vault) =
        create_auction(&mut tok, seller(), 1000, 1, AuctionType::Dutch, 0).unwrap();
    let b = addr(31);
    let c = config();

    // displayed price at t=1800 is 500; offering less fails
    let low = dutch_buy(&mut auction, &mut vault, b, 499, &c, 1800);
    assert_eq!(low.unwrap_err(), MarketplaceError::BidTooLow);
    assert_eq!(auction.status, AuctionStatus::Active);

    // offering more still settles at the displayed price
    let (s, ts) = dutch_buy(&mut auction, &mut vault, b, 800, &c, 1800).unwrap();
    assert_eq!(s.total, 500);
    assert_eq!(s.seller_share, 420);
    assert_eq!(ts.len(), 4);
    assert_eq!((ts[0].from, ts[0].to, ts[0].amount), (b, seller(), 420));
    assert_eq!(ts.iter().map(|t| t.amount).sum::<u64>(), 500);
    assert_eq!(auction.status, AuctionStatus::Ended);
    assert_eq!(auction.current_bid, 500);
    assert_eq!(auction.highest_bidder, Some(b));
    assert_eq!(vault.released_to, Some(b));

    let again = dutch_buy(&mut auction, &mut vault, b, 800, &c, 1900);
    assert_eq!(again.unwrap_err(), MarketplaceError::AuctionNotActive);
}

#[test]
fn dutch_purchase_on_an_english_auction_is_rejected() {
    let (mut auction, mut vault) = english(42, 100);
    let c = config();
    let r = dutch_buy(&mut auction, &mut vault, addr(31), 1000, &c, 10);
    assert_eq!(r.unwrap_err(), MarketplaceError::AuctionNotActive);
}
