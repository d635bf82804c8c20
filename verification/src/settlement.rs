//! Royalty-bounded payment splitting: dividing a sale's total price among
//! the seller and the royalty payees without losing or creating value.

use vstd::prelude::*;

use crate::addr::{
    lemma_sum_amounts_concat, lemma_sum_amounts_single, sum_amounts, Addr, Transfer,
};
use crate::errors::MarketplaceError;
use crate::royalty::{RoyaltyConfig, BP_DENOMINATOR};

verus! {

/// An amount scaled by a basis-point fraction, rounded down:
/// `amount * bp / 10000`.
pub open spec fn scaled_bp(amount: int, bp: int) -> int {
    amount * bp / (BP_DENOMINATOR as int)
}

/// Computes `scaled_bp(amount, bp)`, or `None` when the intermediate
/// product `amount * bp` does not fit in the numeric range.
pub fn mul_bp(amount: u64, bp: u16) -> (r: Option<u64>)
    ensures
        match r {
            Some(x) => amount * bp <= u64::MAX && x == scaled_bp(amount as int, bp as int),
            None => amount * bp > u64::MAX,
        },
{
    match amount.checked_mul(bp as u64) {
        Some(product) => Some(product / BP_DENOMINATOR),
        None => None,
    }
}

/// Law: when the three royalty percentages sum to at most 100%, the three
/// rounded-down shares of any total sum to at most that total, so the
/// seller's remainder never underflows.
pub proof fn lemma_share_sum_le_total(total: int, a: int, v: int, p: int)
    requires
        total >= 0,
        a >= 0,
        v >= 0,
        p >= 0,
        a + v + p <= BP_DENOMINATOR,
    ensures
        0 <= scaled_bp(total, a) + scaled_bp(total, v) + scaled_bp(total, p) <= total,
{
    let ta = total * a;
    let tv = total * v;
    let tp = total * p;
    assert(ta >= 0 && tv >= 0 && tp >= 0 && ta + tv + tp <= total * 10000) by (nonlinear_arith)
        requires
            total >= 0,
            a >= 0,
            v >= 0,
            p >= 0,
            a + v + p <= 10000,
            ta == total * a,
            tv == total * v,
            tp == total * p,
    ;
    assert(10000 * (ta / 10000) + ta % 10000 == ta);
    assert(10000 * (tv / 10000) + tv % 10000 == tv);
    assert(10000 * (tp / 10000) + tp % 10000 == tp);
}

/// The division of a sale's total among the payees. Ephemeral: computed
/// during settlement, returned for observability, never stored.
#[derive(Clone, Copy, Debug, PartialEq, Eq, Structural)]
pub struct Settlement {
    pub total: u64,
    pub artist_share: u64,
    pub venue_share: u64,
    pub platform_share: u64,
    pub seller_share: u64,
}

impl Settlement {
    /// No value leaks and none is created: the four shares sum exactly to
    /// the total. The seller's share absorbs the rounding remainder.
    pub open spec fn wf(self) -> bool {
        self.artist_share + self.venue_share + self.platform_share + self.seller_share
            == self.total
    }
}

/// Whether `split` succeeds: each royalty product fits in the numeric
/// range, and the three rounded shares do not exceed the total (always the
/// case for a valid config, see [`lemma_share_sum_le_total`]).
pub open spec fn split_ok(total: u64, c: RoyaltyConfig) -> bool {
    &&& total * c.artist_bp <= u64::MAX
    &&& total * c.venue_bp <= u64::MAX
    &&& total * c.platform_bp <= u64::MAX
    &&& scaled_bp(total as int, c.artist_bp as int) + scaled_bp(total as int, c.venue_bp as int)
        + scaled_bp(total as int, c.platform_bp as int) <= total
}

/// The settlement `split` computes when it succeeds: each royalty share is
/// the rounded-down basis-point fraction of the total, and the seller
/// receives the remainder.
pub open spec fn split_of(total: u64, c: RoyaltyConfig) -> Settlement {
    let a = scaled_bp(total as int, c.artist_bp as int);
    let v = scaled_bp(total as int, c.venue_bp as int);
    let p = scaled_bp(total as int, c.platform_bp as int);
    Settlement {
        total,
        artist_share: a as u64,
        venue_share: v as u64,
        platform_share: p as u64,
        seller_share: (total - a - v - p) as u64,
    }
}

/// Computes the royalty-bounded payment split of `total` under `config`.
///
/// Fails with `ArithmeticOverflow` exactly when a royalty product leaves
/// the numeric range, or — defensively, impossible for a valid config —
/// when the three shares would exceed the total.
pub fn split(total: u64, config: &RoyaltyConfig) -> (r: Result<Settlement, MarketplaceError>)
    ensures
        match r {
            Ok(s) => split_ok(total, *config) && s == split_of(total, *config) && s.wf(),
            Err(e) => e == MarketplaceError::ArithmeticOverflow && !split_ok(total, *config),
        },
        config.wf() && total * config.artist_bp <= u64::MAX && total * config.venue_bp
            <= u64::MAX && total * config.platform_bp <= u64::MAX ==> r is Ok,
{
    proof {
        if config.wf() {
            lemma_share_sum_le_total(
                total as int,
                config.artist_bp as int,
                config.venue_bp as int,
                config.platform_bp as int,
            );
        }
    }
    let artist_share = match mul_bp(total, config.artist_bp) {
        Some(x) => x,
        None => return Err(MarketplaceError::ArithmeticOverflow),
    };
    let venue_share = match mul_bp(total, config.venue_bp) {
        Some(x) => x,
        None => return Err(MarketplaceError::ArithmeticOverflow),
    };
    let platform_share = match mul_bp(total, config.platform_bp) {
        Some(x) => x,
        None => return Err(MarketplaceError::ArithmeticOverflow),
    };
    let after_artist = match total.checked_sub(artist_share) {
        Some(x) => x,
        None => return Err(MarketplaceError::ArithmeticOverflow),
    };
    let after_venue = match after_artist.checked_sub(venue_share) {
        Some(x) => x,
        None => return Err(MarketplaceError::ArithmeticOverflow),
    };
    let seller_share = match after_venue.checked_sub(platform_share) {
        Some(x) => x,
        None => return Err(MarketplaceError::ArithmeticOverflow),
    };
    Ok(Settlement { total, artist_share, venue_share, platform_share, seller_share })
}

/// The fund movements that pay out a settlement: the seller's share from
/// the paying account to the seller, then each non-zero royalty share to
/// its payee. A share of exactly zero is skipped.
pub open spec fn settlement_transfer_seq(
    payer: Addr,
    seller: Addr,
    c: RoyaltyConfig,
    s: Settlement,
) -> Seq<Transfer> {
    seq![Transfer { from: payer, to: seller, amount: s.seller_share }] + (if s.artist_share > 0 {
        seq![Transfer { from: payer, to: c.artist_wallet, amount: s.artist_share }]
    } else {
        Seq::empty()
    }) + (if s.venue_share > 0 {
        seq![Transfer { from: payer, to: c.venue_wallet, amount: s.venue_share }]
    } else {
        Seq::empty()
    }) + (if s.platform_share > 0 {
        seq![Transfer { from: payer, to: c.platform_wallet, amount: s.platform_share }]
    } else {
        Seq::empty()
    })
}

/// Law: paying out a settlement moves exactly its total — nothing leaks,
/// nothing is created, whichever shares happen to be zero.
pub proof fn lemma_settlement_transfers_conserve(
    payer: Addr,
    seller: Addr,
    c: RoyaltyConfig,
    s: Settlement,
)
    requires
        s.wf(),
    ensures
        sum_amounts(settlement_transfer_seq(payer, seller, c, s)) == s.total,
{
    let t0 = seq![Transfer { from: payer, to: seller, amount: s.seller_share }];
    let t1 = if s.artist_share > 0 {
        seq![Transfer { from: payer, to: c.artist_wallet, amount: s.artist_share }]
    } else {
        Seq::empty()
    };
    let t2 = if s.venue_share > 0 {
        seq![Transfer { from: payer, to: c.venue_wallet, amount: s.venue_share }]
    } else {
        Seq::empty()
    };
    let t3 = if s.platform_share > 0 {
        seq![Transfer { from: payer, to: c.platform_wallet, amount: s.platform_share }]
    } else {
        Seq::empty()
    };
    lemma_sum_amounts_single(Transfer { from: payer, to: seller, amount: s.seller_share });
    lemma_sum_amounts_single(Transfer { from: payer, to: c.artist_wallet, amount: s.artist_share });
    lemma_sum_amounts_single(Transfer { from: payer, to: c.venue_wallet, amount: s.venue_share });
    lemma_sum_amounts_single(
        Transfer { from: payer, to: c.platform_wallet, amount: s.platform_share },
    );
    assert(sum_amounts(Seq::<Transfer>::empty()) == 0);
    lemma_sum_amounts_concat(t0, t1);
    lemma_sum_amounts_concat(t0 + t1, t2);
    lemma_sum_amounts_concat(t0 + t1 + t2, t3);
}

/// Builds the payout transfers of a settlement, in the mandated order:
/// seller first, then artist, venue and platform where non-zero.
pub fn settlement_transfers(
    payer: Addr,
    seller: Addr,
    config: &RoyaltyConfig,
    s: &Settlement,
) -> (ts: Vec<Transfer>)
    ensures
        ts@ == settlement_transfer_seq(payer, seller, *config, *s),
        s.wf() ==> sum_amounts(ts@) == s.total,
{
    let mut ts: Vec<Transfer> = Vec::new();
    ts.push(Transfer { from: payer, to: seller, amount: s.seller_share });
    if s.artist_share > 0 {
        ts.push(Transfer { from: payer, to: config.artist_wallet, amount: s.artist_share });
    }
    if s.venue_share > 0 {
        ts.push(Transfer { from: payer, to: config.venue_wallet, amount: s.venue_share });
    }
    if s.platform_share > 0 {
        ts.push(Transfer { from: payer, to: config.platform_wallet, amount: s.platform_share });
    }
    proof {
        assert(ts@ =~= settlement_transfer_seq(payer, seller, *config, *s));
        if s.wf() {
            lemma_settlement_transfers_conserve(payer, seller, *config, *s);
        }
    }
    ts
}

} // verus!
