//! The oracle adapter: keyed price feeds, their scheduled refresh from
//! the upstream quote source, freshness validation, and administrative
//! overrides.
//!
//! The upstream quote fetch is a placeholder in this revision: each
//! refresh serves a fixed quote table, as the surrounding protocol does
//! until the live oracle contracts are wired in. Everything around the
//! quotes — gating, change bookkeeping, storage, freshness — is the real
//! logic and is verified.

use vstd::prelude::*;

verus! {

use crate::assets::{ASSET_BTC, ASSET_KALE, ASSET_USDC, ASSET_XLM};
use crate::errors::Error;
use crate::math::trunc_div;

/// The oracle configuration singleton: upstream oracle identities, the
/// refresh schedule and the freshness bound.
#[derive(Clone, Copy, Debug, PartialEq, Eq, Structural)]
pub struct OracleConfig {
    pub reflector_usd_oracle: u64,
    pub reflector_stellar_oracle: u64,
    pub update_frequency: u64,
    pub price_deviation_threshold: u32,
    pub max_price_age: u64,
    pub decimals: u32,
}

/// Where a stored quote came from.
#[derive(Clone, Copy, Debug, PartialEq, Eq, Structural)]
pub enum PriceSource {
    Reflector,
    Emergency,
}

/// One stored quote: the asset's USD price (scaled), when it was taken,
/// and how much to trust it.
#[derive(Clone, Copy, Debug, PartialEq, Eq)]
pub struct PriceFeed {
    pub asset: u64,
    pub price_usd: i128,
    pub price_xlm: Option<i128>,
    pub timestamp: u64,
    pub confidence: u32,
    pub source: PriceSource,
}

/// What one refresh reports for one asset: the quote movement since the
/// previous stored quote.
#[derive(Clone, Copy, Debug, PartialEq, Eq, Structural)]
pub struct PriceUpdate {
    pub asset: u64,
    pub old_price: i128,
    pub new_price: i128,
    pub price_change: i128,
    pub price_change_percent: i32,
    pub timestamp: u64,
}

/// The four tracked USD prices side by side, with how stale they are.
#[derive(Clone, Copy, Debug, PartialEq, Eq, Structural)]
pub struct AggregatedPrices {
    pub kale_usd: i128,
    pub xlm_usd: i128,
    pub btc_usd: i128,
    pub usdc_usd: i128,
    pub last_updated: u64,
    pub data_freshness: u64,
}

/// The oracle adapter state: administrator identity, configuration, the
/// keyed quote store and the time of the last refresh.
#[derive(Debug)]
pub struct ReflectorAdapterContract {
    pub admin: u64,
    pub config: OracleConfig,
    pub last_update: u64,
    pub feeds: Vec<PriceFeed>,
}

/// No two stored quotes share an asset id.
pub open spec fn feeds_unique(s: Seq<PriceFeed>) -> bool {
    forall|i: int, j: int|
        0 <= i < s.len() && 0 <= j < s.len() && i != j ==> #[trigger] s[i].asset != #[trigger] s[
            j
        ].asset
}

/// Whether a quote is stored for `asset`.
pub open spec fn has_feed(s: Seq<PriceFeed>, asset: u64) -> bool {
    exists|i: int| 0 <= i < s.len() && (#[trigger] s[i]).asset == asset
}

/// The quote stored for `asset`, if any.
pub open spec fn feed_of(s: Seq<PriceFeed>, asset: u64) -> Option<PriceFeed> {
    if has_feed(s, asset) {
        let i = choose|i: int| 0 <= i < s.len() && (#[trigger] s[i]).asset == asset;
        Some(s[i])
    } else {
        None
    }
}

/// The stored USD price for `asset`, or `default` when none is stored.
pub open spec fn price_usd_or(s: Seq<PriceFeed>, asset: u64, default: i128) -> i128 {
    match feed_of(s, asset) {
        Some(f) => f.price_usd,
        None => default,
    }
}

/// The price a refresh compares the fresh quote against: the stored one,
/// or the fresh quote itself when nothing is stored yet.
pub open spec fn reference_price(s: Seq<PriceFeed>, asset: u64, new_price: i128) -> i128 {
    match feed_of(s, asset) {
        Some(f) => f.price_usd,
        None => new_price,
    }
}

/// Whether booking the movement from `old_price` to `new_price` leaves
/// the 128-bit difference or the 32-bit percentage representation.
pub open spec fn price_update_overflows(old_price: i128, new_price: i128) -> bool {
    ||| new_price - old_price > i128::MAX
    ||| new_price - old_price < i128::MIN
    ||| (old_price != 0 && ((new_price - old_price) * 10000 > i128::MAX || (new_price - old_price)
        * 10000 < i128::MIN || trunc_div((new_price - old_price) * 10000, old_price as int)
        > i32::MAX || trunc_div((new_price - old_price) * 10000, old_price as int) < i32::MIN))
}

/// The movement record a refresh reports for one asset.
pub open spec fn price_update_value(
    asset: u64,
    old_price: i128,
    new_price: i128,
    now: u64,
) -> PriceUpdate {
    PriceUpdate {
        asset,
        old_price,
        new_price,
        price_change: (new_price - old_price) as i128,
        price_change_percent: (if old_price != 0 {
            trunc_div((new_price - old_price) * 10000, old_price as int)
        } else {
            0
        }) as i32,
        timestamp: now,
    }
}

/// The quote a refresh stores for one asset: high confidence, sourced
/// from the upstream oracle.
pub open spec fn refreshed_feed(asset: u64, new_price: i128, now: u64) -> PriceFeed {
    PriceFeed {
        asset,
        price_usd: new_price,
        price_xlm: None,
        timestamp: now,
        confidence: 9500,
        source: PriceSource::Reflector,
    }
}

/// The quote an emergency override stores: medium confidence.
pub open spec fn override_feed(asset: u64, price: i128, now: u64) -> PriceFeed {
    PriceFeed {
        asset,
        price_usd: price,
        price_xlm: None,
        timestamp: now,
        confidence: 5000,
        source: PriceSource::Emergency,
    }
}

/// Share of `trade_amount` in `total_liquidity`, in basis points, capped
/// at 10000; full impact when there is no liquidity.
pub open spec fn price_impact_value(trade_amount: i128, total_liquidity: i128) -> int {
    if total_liquidity == 0 {
        10000
    } else {
        let impact = (trade_amount * 10000) / (total_liquidity as int);
        if impact > 10000 {
            10000
        } else {
            impact
        }
    }
}

proof fn lemma_feed_of_present(s: Seq<PriceFeed>, i: int)
    requires
        feeds_unique(s),
        0 <= i < s.len(),
    ensures
        feed_of(s, s[i].asset) == Some(s[i]),
        has_feed(s, s[i].asset),
{
    let asset = s[i].asset;
    assert(has_feed(s, asset));
    let k = choose|k: int| 0 <= k < s.len() && (#[trigger] s[k]).asset == asset;
    assert(k == i);
}

proof fn lemma_feed_of_update(s: Seq<PriceFeed>, i: int, f: PriceFeed)
    requires
        feeds_unique(s),
        0 <= i < s.len(),
        f.asset == s[i].asset,
    ensures
        feeds_unique(s.update(i, f)),
        feed_of(s.update(i, f), f.asset) == Some(f),
        forall|a: u64| a != f.asset ==> #[trigger] feed_of(s.update(i, f), a) == feed_of(s, a),
{
    let t = s.update(i, f);
    assert forall|p: int, q: int|
        0 <= p < t.len() && 0 <= q < t.len() && p != q implies #[trigger] t[p].asset
        != #[trigger] t[q].asset by {
        assert(s[p].asset != s[q].asset);
    }
    lemma_feed_of_present(t, i);
    assert forall|a: u64| a != f.asset implies #[trigger] feed_of(t, a) == feed_of(s, a) by {
        if has_feed(s, a) {
            let k = choose|k: int| 0 <= k < s.len() && (#[trigger] s[k]).asset == a;
            assert(t[k].asset == a);
        }
        if has_feed(t, a) {
            let k = choose|k: int| 0 <= k < t.len() && (#[trigger] t[k]).asset == a;
            assert(s[k].asset == a);
        }
        if has_feed(s, a) {
            let k = choose|k: int| 0 <= k < s.len() && (#[trigger] s[k]).asset == a;
            let k2 = choose|k: int| 0 <= k < t.len() && (#[trigger] t[k]).asset == a;
            assert(t[k].asset == a);
            assert(s[k2].asset == a);
            assert(k == k2);
        }
    }
}

proof fn lemma_feed_of_push(s: Seq<PriceFeed>, f: PriceFeed)
    requires
        feeds_unique(s),
        !has_feed(s, f.asset),
    ensures
        feeds_unique(s.push(f)),
        feed_of(s.push(f), f.asset) == Some(f),
        forall|a: u64| a != f.asset ==> #[trigger] feed_of(s.push(f), a) == feed_of(s, a),
{
    let t = s.push(f);
    let n = s.len() as int;
    assert(t[n] == f);
    assert forall|p: int, q: int|
        0 <= p < t.len() && 0 <= q < t.len() && p != q implies #[trigger] t[p].asset
        != #[trigger] t[q].asset by {
        if p < n && q < n {
            assert(s[p].asset != s[q].asset);
        } else if p == n {
            assert(t[q] == s[q]);
            assert(s[q].asset != f.asset);
        } else {
            assert(t[p] == s[p]);
            assert(s[p].asset != f.asset);
        }
    }
    lemma_feed_of_present(t, n);
    assert forall|a: u64| a != f.asset implies #[trigger] feed_of(t, a) == feed_of(s, a) by {
        if has_feed(s, a) {
            let k = choose|k: int| 0 <= k < s.len() && (#[trigger] s[k]).asset == a;
            assert(t[k].asset == a);
        }
        if has_feed(t, a) {
            let k = choose|k: int| 0 <= k < t.len() && (#[trigger] t[k]).asset == a;
            assert(k < n);
            assert(s[k].asset == a);
        }
        if has_feed(s, a) {
            let k = choose|k: int| 0 <= k < s.len() && (#[trigger] s[k]).asset == a;
            let k2 = choose|k: int| 0 <= k < t.len() && (#[trigger] t[k]).asset == a;
            assert(t[k].asset == a);
            assert(k2 < n);
            assert(s[k2].asset == a);
            assert(k == k2);
        }
    }
}

impl ReflectorAdapterContract {
    /// Validity of the adapter state: quotes are uniquely keyed.
    pub open spec fn wf(self) -> bool {
        feeds_unique(self.feeds@)
    }

    /// Whether the stored quote for `asset` is recent enough to act on: it
    /// exists, is not stamped in the future, and is at most
    /// `max_price_age` seconds old.
    pub open spec fn price_fresh(self, asset: u64, now: u64) -> bool {
        match feed_of(self.feeds@, asset) {
            Some(f) => f.timestamp <= now && now - f.timestamp <= self.config.max_price_age,
            None => false,
        }
    }

    /// Set up the adapter: store the administrator and configuration, with
    /// an empty quote store and no refresh on record.
    pub fn initialize(
        admin: u64,
        reflector_usd_oracle: u64,
        reflector_stellar_oracle: u64,
        update_frequency: u64,
        price_deviation_threshold: u32,
        max_price_age: u64,
        decimals: u32,
    ) -> (c: Self)
        ensures
            c.wf(),
            c.admin == admin,
            c.config == (OracleConfig {
                reflector_usd_oracle,
                reflector_stellar_oracle,
                update_frequency,
                price_deviation_threshold,
                max_price_age,
                decimals,
            }),
            c.last_update == 0,
            c.feeds@.len() == 0,
    {
        ReflectorAdapterContract {
            admin,
            config: OracleConfig {
                reflector_usd_oracle,
                reflector_stellar_oracle,
                update_frequency,
                price_deviation_threshold,
                max_price_age,
                decimals,
            },
            last_update: 0,
            feeds: Vec::new(),
        }
    }

    /// The stored quote for `asset`, if any.
    pub fn get_price(&self, asset: u64) -> (r: Option<PriceFeed>)
        requires
            self.wf(),
        ensures
            r == feed_of(self.feeds@, asset),
    {
        let mut i: usize = 0;
        while i < self.feeds.len()
            invariant
                self.wf(),
                i <= self.feeds@.len(),
                forall|j: int| 0 <= j < i ==> (#[trigger] self.feeds@[j]).asset != asset,
            decreases self.feeds@.len() - i,
        {
            if self.feeds[i].asset == asset {
                proof {
                    lemma_feed_of_present(self.feeds@, i as int);
                }
                return Some(self.feeds[i]);
            }
            i = i + 1;
        }
        None
    }

    /// Store one quote, replacing the quote of its asset or appending a
    /// new one.
    fn store_feed(feeds: &mut Vec<PriceFeed>, feed: PriceFeed)
        requires
            feeds_unique(old(feeds)@),
        ensures
            feeds_unique(final(feeds)@),
            feed_of(final(feeds)@, feed.asset) == Some(feed),
            forall|a: u64|
                a != feed.asset ==> #[trigger] feed_of(final(feeds)@, a) == feed_of(old(feeds)@, a),
    {
        let mut i: usize = 0;
        while i < feeds.len()
            invariant
                i <= feeds@.len(),
                feeds@ == old(feeds)@,
                feeds_unique(feeds@),
                forall|j: int| 0 <= j < i ==> (#[trigger] feeds@[j]).asset != feed.asset,
            decreases feeds@.len() - i,
        {
            if feeds[i].asset == feed.asset {
                proof {
                    lemma_feed_of_update(feeds@, i as int, feed);
                }
                feeds.set(i, feed);
                return ;
            }
            i = i + 1;
        }
        proof {
            lemma_feed_of_push(feeds@, feed);
        }
        feeds.push(feed);
    }

    /// The movement record and fresh quote one refresh produces for one
    /// asset, against the currently stored quote.
    fn compute_update(&self, asset: u64, new_price: i128, now: u64) -> (r: Result<
        (PriceUpdate, PriceFeed),
        Error,
    >)
        requires
            self.wf(),
        ensures
            r is Ok <==> !price_update_overflows(
                reference_price(self.feeds@, asset, new_price),
                new_price,
            ),
            r matches Ok(pair) ==> pair.0 == price_update_value(
                asset,
                reference_price(self.feeds@, asset, new_price),
                new_price,
                now,
            ) && pair.1 == refreshed_feed(asset, new_price, now),
            r matches Err(e) ==> e == Error::ArithmeticOverflow,
    {
        let old_price = match self.get_price(asset) {
            Some(f) => f.price_usd,
            None => new_price,
        };
        let price_change = match new_price.checked_sub(old_price) {
            Some(c) => c,
            None => {
                return Err(Error::ArithmeticOverflow);
            },
        };
        let price_change_percent: i32 = if old_price != 0 {
            let scaled = match price_change.checked_mul(10000) {
                Some(s) => s,
                None => {
                    return Err(Error::ArithmeticOverflow);
                },
            };
            let quotient = match scaled.checked_div(old_price) {
                Some(q) => q,
                None => {
                    return Err(Error::ArithmeticOverflow);
                },
            };
            if quotient > i32::MAX as i128 || quotient < i32::MIN as i128 {
                return Err(Error::ArithmeticOverflow);
            }
            quotient as i32
        } else {
            0
        };
        Ok(
            (
                PriceUpdate {
                    asset,
                    old_price,
                    new_price,
                    price_change,
                    price_change_percent,
                    timestamp: now,
                },
                PriceFeed {
                    asset,
                    price_usd: new_price,
                    price_xlm: None,
                    timestamp: now,
                    confidence: 9500,
                    source: PriceSource::Reflector,
                },
            ),
        )
    }

    /// Refresh the quotes of all four tracked assets from the upstream
    /// source: gate on the refresh schedule, book each asset's movement
    /// against its stored quote, store the fresh quotes, and stamp the
    /// refresh time. A refresh that cannot book a movement leaves the
    /// whole store untouched.
    pub fn update_prices(&mut self, caller: u64, now: u64) -> (r: Result<Vec<PriceUpdate>, Error>)
        requires
            old(self).wf(),
        ensures
            final(self).wf(),
            final(self).admin == old(self).admin,
            final(self).config == old(self).config,
            r is Err ==> *final(self) == *old(self),
            r == Err::<Vec<PriceUpdate>, Error>(Error::UpdateTooSoon) <==> now < old(
                self,
            ).last_update + old(self).config.update_frequency,
            now >= old(self).last_update + old(self).config.update_frequency ==> ((r is Err) <==> (
            price_update_overflows(
                reference_price(old(self).feeds@, ASSET_KALE, 100000000),
                100000000,
            ) || price_update_overflows(
                reference_price(old(self).feeds@, ASSET_XLM, 11000000),
                11000000,
            ) || price_update_overflows(
                reference_price(old(self).feeds@, ASSET_BTC, 430000000000),
                430000000000,
            ) || price_update_overflows(
                reference_price(old(self).feeds@, ASSET_USDC, 10000000),
                10000000,
            ))),
            now >= old(self).last_update + old(self).config.update_frequency && r is Err ==> r
                == Err::<Vec<PriceUpdate>, Error>(Error::ArithmeticOverflow),
            r matches Ok(updates) ==> updates@ == seq![
                price_update_value(
                    ASSET_KALE,
                    reference_price(old(self).feeds@, ASSET_KALE, 100000000),
                    100000000,
                    now,
                ),
                price_update_value(
                    ASSET_XLM,
                    reference_price(old(self).feeds@, ASSET_XLM, 11000000),
                    11000000,
                    now,
                ),
                price_update_value(
                    ASSET_BTC,
                    reference_price(old(self).feeds@, ASSET_BTC, 430000000000),
                    430000000000,
                    now,
                ),
                price_update_value(
                    ASSET_USDC,
                    reference_price(old(self).feeds@, ASSET_USDC, 10000000),
                    10000000,
                    now,
                ),
            ],
            r is Ok ==> feed_of(final(self).feeds@, ASSET_KALE) == Some(
                refreshed_feed(ASSET_KALE, 100000000, now),
            ) && feed_of(final(self).feeds@, ASSET_XLM) == Some(
                refreshed_feed(ASSET_XLM, 11000000, now),
            ) && feed_of(final(self).feeds@, ASSET_BTC) == Some(
                refreshed_feed(ASSET_BTC, 430000000000, now),
            ) && feed_of(final(self).feeds@, ASSET_USDC) == Some(
                refreshed_feed(ASSET_USDC, 10000000, now),
            ),
            r is Ok ==> forall|a: u64|
                a != ASSET_KALE && a != ASSET_XLM && a != ASSET_BTC && a != ASSET_USDC
                    ==> #[trigger] feed_of(final(self).feeds@, a) == feed_of(old(self).feeds@, a),
            r is Ok ==> final(self).last_update == now,
    {
        if now < self.last_update || now - self.last_update < self.config.update_frequency {
            return Err(Error::UpdateTooSoon);
        }
        let (kale_update, kale_feed) = match self.compute_update(ASSET_KALE, 100000000, now) {
            Ok(p) => p,
            Err(e) => {
                return Err(e);
            },
        };
        let (xlm_update, xlm_feed) = match self.compute_update(ASSET_XLM, 11000000, now) {
            Ok(p) => p,
            Err(e) => {
                return Err(e);
            },
        };
        let (btc_update, btc_feed) = match self.compute_update(ASSET_BTC, 430000000000, now) {
            Ok(p) => p,
            Err(e) => {
                return Err(e);
            },
        };
        let (usdc_update, usdc_feed) = match self.compute_update(ASSET_USDC, 10000000, now) {
            Ok(p) => p,
            Err(e) => {
                return Err(e);
            },
        };
        Self::store_feed(&mut self.feeds, kale_feed);
        Self::store_feed(&mut self.feeds, xlm_feed);
        Self::store_feed(&mut self.feeds, btc_feed);
        Self::store_feed(&mut self.feeds, usdc_feed);
        self.last_update = now;
        let mut price_updates: Vec<PriceUpdate> = Vec::new();
        price_updates.push(kale_update);
        price_updates.push(xlm_update);
        price_updates.push(btc_update);
        price_updates.push(usdc_update);
        proof {
            assert(price_updates@ =~= seq![kale_update, xlm_update, btc_update, usdc_update]);
        }
        Ok(price_updates)
    }

    /// The four tracked USD prices side by side: stored quotes where
    /// present, the documented defaults (zero, and one dollar for the
    /// stable asset) where not, with the time since the last refresh.
    pub fn get_all_prices(&self, now: u64) -> (r: AggregatedPrices)
        requires
            self.wf(),
        ensures
            r.kale_usd == price_usd_or(self.feeds@, ASSET_KALE, 0),
            r.xlm_usd == price_usd_or(self.feeds@, ASSET_XLM, 0),
            r.btc_usd == price_usd_or(self.feeds@, ASSET_BTC, 0),
            r.usdc_usd == price_usd_or(self.feeds@, ASSET_USDC, 10000000),
            r.last_updated == self.last_update,
            r.data_freshness == if now > self.last_update {
                now - self.last_update
            } else {
                0
            },
    {
        let kale_price = match self.get_price(ASSET_KALE) {
            Some(f) => f.price_usd,
            None => 0,
        };
        let xlm_price = match self.get_price(ASSET_XLM) {
            Some(f) => f.price_usd,
            None => 0,
        };
        let btc_price = match self.get_price(ASSET_BTC) {
            Some(f) => f.price_usd,
            None => 0,
        };
        let usdc_price = match self.get_price(ASSET_USDC) {
            Some(f) => f.price_usd,
            None => 10000000,
        };
        let data_freshness = if now > self.last_update {
            now - self.last_update
        } else {
            0
        };
        AggregatedPrices {
            kale_usd: kale_price,
            xlm_usd: xlm_price,
            btc_usd: btc_price,
            usdc_usd: usdc_price,
            last_updated: self.last_update,
            data_freshness,
        }
    }

    /// Basis-point share of a trade in the available liquidity, capped at
    /// 100%; full impact when there is no liquidity.
    pub fn calculate_price_impact(asset: u64, trade_amount: i128, total_liquidity: i128) -> (r: u32)
        requires
            trade_amount >= 0,
            total_liquidity >= 0,
            trade_amount * 10000 <= i128::MAX,
        ensures
            r == price_impact_value(trade_amount, total_liquidity),
    {
        if total_liquidity == 0 {
            return 10000;
        }
        let scaled = trade_amount * 10000;
        proof {
            vstd::arithmetic::div_mod::lemma_div_pos_is_pos(scaled as int, total_liquidity as int);
        }
        let impact = match scaled.checked_div(total_liquidity) {
            Some(q) => q,
            // unreachable: a nonnegative dividend over a positive divisor
            // stays in range
            None => 0,
        };
        if impact > 10000 {
            10000
        } else {
            impact as u32
        }
    }

    /// Whether the stored quote for `asset` is recent enough to act on; a
    /// quote stamped in the future is not.
    pub fn is_price_fresh(&self, asset: u64, now: u64) -> (r: bool)
        requires
            self.wf(),
        ensures
            r == self.price_fresh(asset, now),
    {
        match self.get_price(asset) {
            Some(price_feed) => price_feed.timestamp <= now && now - price_feed.timestamp
                <= self.config.max_price_age,
            None => false,
        }
    }

    /// The stored quote for `asset`, only while it is fresh.
    pub fn get_fresh_price(&self, asset: u64, now: u64) -> (r: Option<PriceFeed>)
        requires
            self.wf(),
        ensures
            self.price_fresh(asset, now) ==> r == feed_of(self.feeds@, asset),
            !self.price_fresh(asset, now) ==> r is None,
    {
        if self.is_price_fresh(asset, now) {
            self.get_price(asset)
        } else {
            None
        }
    }

    /// Time-weighted average price over a window. Historical quote
    /// retention is a placeholder in this revision, so the current stored
    /// quote stands in for the average, whatever the window.
    pub fn calculate_twap(&self, asset: u64, time_window: u64) -> (r: Option<i128>)
        requires
            self.wf(),
        ensures
            feed_of(self.feeds@, asset) matches Some(f) ==> r == Some(f.price_usd),
            feed_of(self.feeds@, asset) is None ==> r is None,
    {
        match self.get_price(asset) {
            Some(f) => Some(f.price_usd),
            None => None,
        }
    }

    /// Replace the oracle configuration, admin only.
    pub fn update_config(&mut self, caller: u64, config: OracleConfig) -> (r: Result<(), Error>)
        requires
            old(self).wf(),
        ensures
            final(self).wf(),
            caller != old(self).admin ==> r == Err::<(), Error>(Error::Unauthorized) && *final(self)
                == *old(self),
            caller == old(self).admin ==> r == Ok::<(), Error>(()) && final(self).config == config
                && final(self).admin == old(self).admin && final(self).last_update == old(
                self,
            ).last_update && final(self).feeds@ == old(self).feeds@,
    {
        if caller != self.admin {
            return Err(Error::Unauthorized);
        }
        self.config = config;
        Ok(())
    }

    /// The oracle configuration.
    pub fn get_config(&self) -> (c: OracleConfig)
        ensures
            c == self.config,
    {
        self.config
    }

    /// Store a quote by decree, admin only: medium confidence, stamped
    /// now, marked as an emergency source. The refresh schedule is not
    /// touched.
    pub fn emergency_price_override(
        &mut self,
        caller: u64,
        asset: u64,
        price: i128,
        reason: u64,
        now: u64,
    ) -> (r: Result<(), Error>)
        requires
            old(self).wf(),
        ensures
            final(self).wf(),
            final(self).admin == old(self).admin,
            final(self).config == old(self).config,
            final(self).last_update == old(self).last_update,
            caller != old(self).admin ==> r == Err::<(), Error>(Error::Unauthorized) && *final(self)
                == *old(self),
            caller == old(self).admin ==> r == Ok::<(), Error>(()) && feed_of(
                final(self).feeds@,
                asset,
            ) == Some(override_feed(asset, price, now)) && forall|a: u64|
                a != asset ==> #[trigger] feed_of(final(self).feeds@, a) == feed_of(
                    old(self).feeds@,
                    a,
                ),
    {
        if caller != self.admin {
            return Err(Error::Unauthorized);
        }
        let emergency_feed = PriceFeed {
            asset,
            price_usd: price,
            price_xlm: None,
            timestamp: now,
            confidence: 5000,
            source: PriceSource::Emergency,
        };
        Self::store_feed(&mut self.feeds, emergency_feed);
        Ok(())
    }
}

} // verus!
