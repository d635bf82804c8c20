//! English and Dutch auction lifecycle: bid tracking with
//! refund-on-outbid, descending-price purchase, and finalization through
//! the settlement splitter.

use vstd::prelude::*;

use vstd::arithmetic::div_mod::{
    lemma_div_is_ordered, lemma_div_multiples_vanish, lemma_div_pos_is_pos,
};
use vstd::arithmetic::mul::{lemma_mul_inequality, lemma_mul_is_commutative, lemma_mul_nonnegative};

use crate::addr::{
    account_address, derived_address, lemma_sum_amounts_concat, lemma_sum_amounts_single,
    sum_amounts, Addr, Transfer, NS_AUCTION,
};
use crate::errors::MarketplaceError;
use crate::escrow::{EscrowVault, TokenAccount};
use crate::royalty::RoyaltyConfig;
use crate::settlement::{
    settlement_transfer_seq, settlement_transfers, split, split_of, split_ok, Settlement,
};

verus! {

/// How an auction sells its unit: bidding the price up, or letting the
/// displayed price fall until someone buys.
#[derive(Clone, Copy, Debug, PartialEq, Eq, Structural)]
pub enum AuctionType {
    English,
    Dutch,
}

/// Lifecycle state of an auction. `Active` is the only state from which a
/// transition is possible.
#[derive(Clone, Copy, Debug, PartialEq, Eq, Structural)]
pub enum AuctionStatus {
    Active,
    Ended,
    Cancelled,
}

/// A unit offered at auction. While the auction is active, the unit sits
/// in the escrow vault created alongside it, and the highest bid (if any)
/// sits as funds in the auction's own account.
#[derive(Clone, Copy, Debug, PartialEq, Eq, Structural)]
pub struct Auction {
    /// Stable identifier of the unit being auctioned.
    pub unit_id: u64,
    /// Who is selling the unit and receives the seller share.
    pub seller: Addr,
    /// The minimum first bid (English), or the opening displayed price
    /// (Dutch).
    pub starting_bid: u64,
    /// The highest accepted bid, or the final sale price once ended.
    pub current_bid: u64,
    /// Who placed the current bid, if anyone has.
    pub highest_bidder: Option<Addr>,
    /// When the auction started.
    pub created_at: i64,
    /// When the auction ends.
    pub end_time: i64,
    /// English or Dutch.
    pub auction_type: AuctionType,
    /// Lifecycle state.
    pub status: AuctionStatus,
    /// Funds currently held in custody by the auction's own account:
    /// exactly the current bid while a bidder stands, nothing otherwise.
    pub escrowed_funds: u64,
}

impl Auction {
    /// The auction invariant. While active: a bidder stands exactly when
    /// the current bid has risen above the starting bid (English only),
    /// and the auction account holds exactly that bid; with no bidder the
    /// current bid is the starting bid and no funds are held. Once no
    /// longer active, no funds remain in custody.
    pub open spec fn wf(self) -> bool {
        &&& self.created_at <= self.end_time
        &&& (self.status == AuctionStatus::Active ==> match self.highest_bidder {
            None => self.current_bid == self.starting_bid && self.escrowed_funds == 0,
            Some(_) => self.current_bid > self.starting_bid && self.escrowed_funds
                == self.current_bid && self.auction_type == AuctionType::English,
        })
        &&& (self.status != AuctionStatus::Active ==> self.escrowed_funds == 0)
    }

    /// The storage address of this auction's record (which also holds the
    /// escrowed bid funds), derived from the unit it sells.
    pub open spec fn address(self) -> Addr {
        derived_address(NS_AUCTION, self.unit_id)
    }
}

/// Starts an auction for the unit held in `source` and locks that unit
/// into a fresh escrow vault. The auction runs for `duration_hours` from
/// `now`; the seller funds nothing.
///
/// Fails with `ArithmeticOverflow` when the end time leaves the numeric
/// range, and with `WrongQuantity` when `source` does not hold exactly
/// one unit. On failure nothing changes.
pub fn create_auction(
    source: &mut TokenAccount,
    seller: Addr,
    starting_bid: u64,
    duration_hours: u64,
    auction_type: AuctionType,
    now: i64,
) -> (r: Result<(Auction, EscrowVault), MarketplaceError>)
    requires
        old(source).owner == seller,
    ensures
        match r {
            Ok((a, v)) => {
                &&& now + duration_hours * 3600 <= i64::MAX
                &&& a == (Auction {
                    unit_id: old(source).unit_id,
                    seller,
                    starting_bid,
                    current_bid: starting_bid,
                    highest_bidder: None,
                    created_at: now,
                    end_time: (now + duration_hours * 3600) as i64,
                    auction_type,
                    status: AuctionStatus::Active,
                    escrowed_funds: 0,
                })
                &&& a.wf()
                &&& v == (EscrowVault { unit_id: old(source).unit_id, released_to: None })
                &&& *final(source) == (TokenAccount { amount: 0, ..*old(source) })
            },
            Err(e) => {
                &&& *final(source) == *old(source)
                &&& (e == MarketplaceError::ArithmeticOverflow <==> now + duration_hours * 3600
                    > i64::MAX)
                &&& (e == MarketplaceError::WrongQuantity <==> now + duration_hours * 3600
                    <= i64::MAX && old(source).amount != 1)
                &&& (e == MarketplaceError::ArithmeticOverflow || e
                    == MarketplaceError::WrongQuantity)
            },
        },
        r is Ok <==> now + duration_hours * 3600 <= i64::MAX && old(source).amount == 1,
{
    let end_wide: i128 = now as i128 + duration_hours as i128 * 3600;
    if end_wide > i64::MAX as i128 {
        return Err(MarketplaceError::ArithmeticOverflow);
    }
    let end_time: i64 = end_wide as i64;
    let vault = match EscrowVault::lock(source) {
        Ok(v) => v,
        Err(e) => return Err(e),
    };
    Ok(
        (
            Auction {
                unit_id: vault.unit_id,
                seller,
                starting_bid,
                current_bid: starting_bid,
                highest_bidder: None,
                created_at: now,
                end_time,
                auction_type,
                status: AuctionStatus::Active,
                escrowed_funds: 0,
            },
            vault,
        ),
    )
}

/// The fund movements of an accepted English bid: first the refund of the
/// standing bid to its bidder (when one stands), then the new bid into
/// the auction's custody — refund before deposit, never the reverse.
pub open spec fn bid_transfer_seq(a: Auction, bidder: Addr, amount: u64) -> Seq<Transfer> {
    (match a.highest_bidder {
        Some(prev) => seq![Transfer { from: a.address(), to: prev, amount: a.current_bid }],
        None => Seq::empty(),
    }) + seq![Transfer { from: bidder, to: a.address(), amount }]
}

/// Places a bid in an English auction.
///
/// A bid is accepted exactly when the auction is active, its end time has
/// not passed, it is English, and the bid strictly beats the current bid;
/// otherwise nothing changes (`AuctionNotActive` or `BidTooLow`). On
/// success the prior bidder — if one stands — is refunded exactly the
/// prior bid before the new bid's funds enter custody, and the bid and
/// bidder are recorded.
pub fn place_bid(
    auction: &mut Auction,
    bidder: Addr,
    amount: u64,
    now: i64,
) -> (r: Result<Vec<Transfer>, MarketplaceError>)
    requires
        old(auction).wf(),
    ensures
        match r {
            Ok(ts) => {
                &&& old(auction).status == AuctionStatus::Active
                &&& now < old(auction).end_time
                &&& old(auction).auction_type == AuctionType::English
                &&& amount > old(auction).current_bid
                &&& ts@ == bid_transfer_seq(*old(auction), bidder, amount)
                &&& *final(auction) == (Auction {
                    current_bid: amount,
                    highest_bidder: Some(bidder),
                    escrowed_funds: amount,
                    ..*old(auction)
                })
                &&& final(auction).wf()
                &&& sum_amounts(ts@) == amount + (match old(auction).highest_bidder {
                    Some(_) => old(auction).current_bid as int,
                    None => 0,
                })
            },
            Err(e) => {
                &&& *final(auction) == *old(auction)
                &&& (e == MarketplaceError::AuctionNotActive <==> !(old(auction).status
                    == AuctionStatus::Active && now < old(auction).end_time && old(
                    auction,
                ).auction_type == AuctionType::English))
                &&& (e == MarketplaceError::BidTooLow <==> old(auction).status
                    == AuctionStatus::Active && now < old(auction).end_time && old(
                    auction,
                ).auction_type == AuctionType::English && amount <= old(auction).current_bid)
                &&& (e == MarketplaceError::AuctionNotActive || e == MarketplaceError::BidTooLow)
            },
        },
        r is Ok <==> old(auction).status == AuctionStatus::Active && now < old(auction).end_time
            && old(auction).auction_type == AuctionType::English && amount > old(
            auction,
        ).current_bid,
{
    if !matches!(auction.status, AuctionStatus::Active) {
        return Err(MarketplaceError::AuctionNotActive);
    }
    if now >= auction.end_time {
        return Err(MarketplaceError::AuctionNotActive);
    }
    if !matches!(auction.auction_type, AuctionType::English) {
        return Err(MarketplaceError::AuctionNotActive);
    }
    if amount <= auction.current_bid {
        return Err(MarketplaceError::BidTooLow);
    }
    let auction_addr = account_address(NS_AUCTION, auction.unit_id);
    let mut ts: Vec<Transfer> = Vec::new();
    if let Some(prev) = auction.highest_bidder {
        ts.push(Transfer { from: auction_addr, to: prev, amount: auction.current_bid });
    }
    ts.push(Transfer { from: bidder, to: auction_addr, amount });
    proof {
        assert(ts@ =~= bid_transfer_seq(*old(auction), bidder, amount));
        let deposit = seq![Transfer { from: bidder, to: auction_addr, amount }];
        lemma_sum_amounts_single(Transfer { from: bidder, to: auction_addr, amount });
        match old(auction).highest_bidder {
            Some(prev) => {
                let refund = seq![
                    Transfer {
                        from: auction_addr,
                        to: prev,
                        amount: old(auction).current_bid,
                    },
                ];
                lemma_sum_amounts_single(
                    Transfer { from: auction_addr, to: prev, amount: old(auction).current_bid },
                );
                lemma_sum_amounts_concat(refund, deposit);
            },
            None => {
                lemma_sum_amounts_concat(Seq::empty(), deposit);
            },
        }
    }
    auction.current_bid = amount;
    auction.highest_bidder = Some(bidder);
    auction.escrowed_funds = amount;
    Ok(ts)
}

/// The price a Dutch auction displays at time `now`: the starting bid
/// before the auction starts, zero once it has ended, and in between a
/// linear decay from the starting bid toward zero across the auction's
/// whole duration, rounded down.
pub open spec fn dutch_price_spec(a: Auction, now: i64) -> int {
    if now <= a.created_at {
        a.starting_bid as int
    } else if now >= a.end_time {
        0
    } else {
        a.starting_bid * (a.end_time - now) / (a.end_time - a.created_at)
    }
}

/// Law: the displayed price of a Dutch auction never leaves the range
/// from zero to the starting bid.
pub proof fn lemma_dutch_price_bounds(a: Auction, now: i64)
    requires
        a.created_at <= a.end_time,
    ensures
        0 <= dutch_price_spec(a, now) <= a.starting_bid,
{
    if a.created_at < now < a.end_time {
        let sb = a.starting_bid as int;
        let remaining = a.end_time - now;
        let window = a.end_time - a.created_at;
        lemma_mul_nonnegative(sb, remaining);
        lemma_div_pos_is_pos(sb * remaining, window);
        lemma_mul_inequality(remaining, window, sb);
        lemma_mul_is_commutative(remaining, sb);
        lemma_mul_is_commutative(window, sb);
        lemma_div_is_ordered(sb * remaining, sb * window, window);
        lemma_mul_is_commutative(window, sb);
        lemma_div_multiples_vanish(sb, window);
    }
}

/// Law: the displayed price of a Dutch auction decreases monotonically
/// over time.
pub proof fn lemma_dutch_price_monotonic(a: Auction, t1: i64, t2: i64)
    requires
        a.created_at <= a.end_time,
        t1 <= t2,
    ensures
        dutch_price_spec(a, t2) <= dutch_price_spec(a, t1),
{
    lemma_dutch_price_bounds(a, t1);
    lemma_dutch_price_bounds(a, t2);
    if a.created_at < t1 && t2 < a.end_time {
        let sb = a.starting_bid as int;
        let window = a.end_time - a.created_at;
        lemma_mul_inequality(a.end_time - t2, a.end_time - t1, sb);
        lemma_mul_is_commutative(a.end_time - t2, sb);
        lemma_mul_is_commutative(a.end_time - t1, sb);
        lemma_div_is_ordered(sb * (a.end_time - t2), sb * (a.end_time - t1), window);
    }
}

/// Computes the price a Dutch auction displays at time `now`.
pub fn dutch_price(auction: &Auction, now: i64) -> (p: u64)
    requires
        auction.created_at <= auction.end_time,
    ensures
        p == dutch_price_spec(*auction, now),
        p <= auction.starting_bid,
{
    proof {
        lemma_dutch_price_bounds(*auction, now);
    }
    if now <= auction.created_at {
        auction.starting_bid
    } else if now >= auction.end_time {
        0
    } else {
        let remaining: u128 = (auction.end_time as i128 - now as i128) as u128;
        let window: u128 = (auction.end_time as i128 - auction.created_at as i128) as u128;
        proof {
            assert((auction.starting_bid as u128) * remaining <= u128::MAX) by (nonlinear_arith)
                requires
                    auction.starting_bid as u128 <= 0xFFFF_FFFF_FFFF_FFFFu128,
                    remaining <= 0xFFFF_FFFF_FFFF_FFFFu128,
            ;
        }
        let scaled: u128 = auction.starting_bid as u128 * remaining / window;
        proof {
            assert(scaled == dutch_price_spec(*auction, now));
        }
        scaled as u64
    }
}

/// Buys from a Dutch auction at (or above) the currently displayed
/// price, finalizing the auction immediately at the displayed price.
///
/// Succeeds exactly when the auction is active, Dutch, its end time has
/// not passed, the amount offered covers the displayed price, and the
/// settlement split of that price fits the numeric range. On success the
/// returned transfers pay the seller and every non-zero royalty share of
/// the displayed price from the buyer, the unit is released to the
/// buyer, and the auction ends at that price — one atomic unit. On
/// failure (`AuctionNotActive`, `BidTooLow`, `ArithmeticOverflow`)
/// nothing changes and no funds move.
pub fn dutch_buy(
    auction: &mut Auction,
    vault: &mut EscrowVault,
    buyer: Addr,
    amount: u64,
    config: &RoyaltyConfig,
    now: i64,
) -> (r: Result<(Settlement, Vec<Transfer>), MarketplaceError>)
    requires
        old(auction).wf(),
        old(vault).unit_id == old(auction).unit_id,
        old(auction).status == AuctionStatus::Active ==> old(vault).is_locked(),
    ensures
        match r {
            Ok((s, ts)) => {
                &&& old(auction).status == AuctionStatus::Active
                &&& now < old(auction).end_time
                &&& old(auction).auction_type == AuctionType::Dutch
                &&& amount >= dutch_price_spec(*old(auction), now)
                &&& s == split_of(dutch_price_spec(*old(auction), now) as u64, *config)
                &&& s.wf()
                &&& s.total == dutch_price_spec(*old(auction), now)
                &&& ts@ == settlement_transfer_seq(buyer, old(auction).seller, *config, s)
                &&& sum_amounts(ts@) == s.total
                &&& *final(auction) == (Auction {
                    current_bid: s.total,
                    highest_bidder: Some(buyer),
                    status: AuctionStatus::Ended,
                    ..*old(auction)
                })
                &&& final(auction).wf()
                &&& *final(vault) == (EscrowVault {
                    unit_id: old(vault).unit_id,
                    released_to: Some(buyer),
                })
            },
            Err(e) => {
                &&& *final(auction) == *old(auction)
                &&& *final(vault) == *old(vault)
                &&& (e == MarketplaceError::AuctionNotActive <==> !(old(auction).status
                    == AuctionStatus::Active && now < old(auction).end_time && old(
                    auction,
                ).auction_type == AuctionType::Dutch))
                &&& (e == MarketplaceError::BidTooLow <==> old(auction).status
                    == AuctionStatus::Active && now < old(auction).end_time && old(
                    auction,
                ).auction_type == AuctionType::Dutch && amount < dutch_price_spec(
                    *old(auction),
                    now,
                ))
                &&& (e == MarketplaceError::ArithmeticOverflow <==> old(auction).status
                    == AuctionStatus::Active && now < old(auction).end_time && old(
                    auction,
                ).auction_type == AuctionType::Dutch && amount >= dutch_price_spec(
                    *old(auction),
                    now,
                ) && !split_ok(dutch_price_spec(*old(auction), now) as u64, *config))
            },
        },
        r is Ok <==> old(auction).status == AuctionStatus::Active && now < old(auction).end_time
            && old(auction).auction_type == AuctionType::Dutch && amount >= dutch_price_spec(
            *old(auction),
            now,
        ) && split_ok(dutch_price_spec(*old(auction), now) as u64, *config),
{
    if !matches!(auction.status, AuctionStatus::Active) {
        return Err(MarketplaceError::AuctionNotActive);
    }
    if now >= auction.end_time {
        return Err(MarketplaceError::AuctionNotActive);
    }
    if !matches!(auction.auction_type, AuctionType::Dutch) {
        return Err(MarketplaceError::AuctionNotActive);
    }
    let price = dutch_price(auction, now);
    if amount < price {
        return Err(MarketplaceError::BidTooLow);
    }
    let s = match split(price, config) {
        Ok(s) => s,
        Err(e) => return Err(e),
    };
    let ts = settlement_transfers(buyer, auction.seller, config, &s);
    let released = vault.release(buyer);
    proof {
        assert(released is Ok);
    }
    auction.current_bid = price;
    auction.highest_bidder = Some(buyer);
    auction.status = AuctionStatus::Ended;
    Ok((s, ts))
}

/// Ends an auction whose end time has been reached.
///
/// With a standing bidder: the winning bid held in the auction's custody
/// is split and paid out to the seller and every non-zero royalty payee
/// from the auction's own account, the unit is released to the winner,
/// and the auction ends — one atomic unit that drains the escrowed funds
/// exactly. With no bids: the unit returns to the seller, the auction is
/// cancelled, and no funds move. Fails with `AuctionNotActive` unless
/// active, `AuctionNotYetEnded` before the end time, and
/// `ArithmeticOverflow` when the split fails; on failure nothing changes.
pub fn end_auction(
    auction: &mut Auction,
    vault: &mut EscrowVault,
    config: &RoyaltyConfig,
    now: i64,
) -> (r: Result<(Option<Settlement>, Vec<Transfer>), MarketplaceError>)
    requires
        old(auction).wf(),
        old(vault).unit_id == old(auction).unit_id,
        old(auction).status == AuctionStatus::Active ==> old(vault).is_locked(),
    ensures
        match r {
            Ok((s, ts)) => {
                &&& old(auction).status == AuctionStatus::Active
                &&& now >= old(auction).end_time
                &&& match old(auction).highest_bidder {
                    Some(winner) => {
                        &&& s matches Some(st)
                        &&& st == split_of(old(auction).current_bid, *config)
                        &&& st.wf()
                        &&& st.total == old(auction).current_bid
                        &&& ts@ == settlement_transfer_seq(
                            old(auction).address(),
                            old(auction).seller,
                            *config,
                            st,
                        )
                        &&& sum_amounts(ts@) == old(auction).escrowed_funds
                        &&& *final(auction) == (Auction {
                            status: AuctionStatus::Ended,
                            escrowed_funds: 0,
                            ..*old(auction)
                        })
                        &&& *final(vault) == (EscrowVault {
                            unit_id: old(vault).unit_id,
                            released_to: Some(winner),
                        })
                    },
                    None => {
                        &&& s is None
                        &&& ts@ == Seq::<Transfer>::empty()
                        &&& *final(auction) == (Auction {
                            status: AuctionStatus::Cancelled,
                            ..*old(auction)
                        })
                        &&& *final(vault) == (EscrowVault {
                            unit_id: old(vault).unit_id,
                            released_to: Some(old(auction).seller),
                        })
                    },
                }
                &&& final(auction).wf()
            },
            Err(e) => {
                &&& *final(auction) == *old(auction)
                &&& *final(vault) == *old(vault)
                &&& (e == MarketplaceError::AuctionNotActive <==> old(auction).status
                    != AuctionStatus::Active)
                &&& (e == MarketplaceError::AuctionNotYetEnded <==> old(auction).status
                    == AuctionStatus::Active && now < old(auction).end_time)
                &&& (e == MarketplaceError::ArithmeticOverflow <==> old(auction).status
                    == AuctionStatus::Active && now >= old(auction).end_time && old(
                    auction,
                ).highest_bidder is Some && !split_ok(old(auction).current_bid, *config))
            },
        },
        r is Ok <==> old(auction).status == AuctionStatus::Active && now >= old(auction).end_time
            && (old(auction).highest_bidder is Some ==> split_ok(
            old(auction).current_bid,
            *config,
        )),
{
    if !matches!(auction.status, AuctionStatus::Active) {
        return Err(MarketplaceError::AuctionNotActive);
    }
    if now < auction.end_time {
        return Err(MarketplaceError::AuctionNotYetEnded);
    }
    match auction.highest_bidder {
        Some(winner) => {
            let s = match split(auction.current_bid, config) {
                Ok(s) => s,
                Err(e) => return Err(e),
            };
            let auction_addr = account_address(NS_AUCTION, auction.unit_id);
            let ts = settlement_transfers(auction_addr, auction.seller, config, &s);
            let released = vault.release(winner);
            proof {
                assert(released is Ok);
            }
            auction.status = AuctionStatus::Ended;
            auction.escrowed_funds = 0;
            Ok((Some(s), ts))
        },
        None => {
            let released = vault.release(auction.seller);
            proof {
                assert(released is Ok);
            }
            auction.status = AuctionStatus::Cancelled;
            Ok((None, Vec::new()))
        },
    }
}

} // verus!
