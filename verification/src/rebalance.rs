//! The portfolio rebalancer: decides whether rebalancing is due and
//! needed, derives sell orders for over-allocated assets from a portfolio
//! snapshot and live prices, and books their (simulated) execution.

use vstd::prelude::*;

verus! {

use vstd::arithmetic::div_mod::{
    lemma_div_is_ordered,
    lemma_div_multiples_vanish,
    lemma_div_nonincreasing,
    lemma_div_pos_is_pos,
};
use vstd::arithmetic::mul::{lemma_mul_inequality, lemma_mul_nonnegative};
use crate::assets::{ASSET_BTC, ASSET_KALE, ASSET_USDC, ASSET_XLM};
use crate::errors::Error;
use crate::risk::abs_diff_value;

/// USD prices are scaled by this factor (1e7).
pub const PRICE_SCALE: i128 = 10000000;

/// Placeholder pool balances the snapshot reports until live balances are
/// wired in; they mirror what the pension fund would hold.
pub const KALE_POOL_BALANCE: i128 = 1000000;

/// Placeholder BTC pool balance, in stroops.
pub const BTC_POOL_BALANCE: i128 = 50000000;

/// Placeholder USDC pool balance, in stroops.
pub const USDC_POOL_BALANCE: i128 = 2000000000;

/// Placeholder XLM pool balance, in stroops.
pub const XLM_POOL_BALANCE: i128 = 500000000;

/// The rebalancer configuration singleton.
#[derive(Clone, Copy, Debug, PartialEq, Eq, Structural)]
pub struct RebalanceConfig {
    pub min_rebalance_amount: i128,
    pub max_slippage: u32,
    pub rebalance_frequency: u64,
    pub gas_limit: u32,
    pub max_trades_per_rebalance: u32,
}

/// One registered asset pool. Kept for pool registration; the current
/// revision's rebalancing logic reads balances from the snapshot instead.
#[derive(Clone, Copy, Debug, PartialEq, Eq, Structural)]
pub struct AssetPool {
    pub asset_address: u64,
    pub current_balance: i128,
    pub target_percentage: u32,
    pub last_price: i128,
    pub liquidity_score: u32,
}

/// One instruction to trade out of an over-allocated asset.
#[derive(Clone, Copy, Debug, PartialEq, Eq, Structural)]
pub struct RebalanceOrder {
    pub from_asset: u64,
    pub to_asset: u64,
    pub amount: i128,
    pub min_received: i128,
    pub max_slippage: u32,
    pub priority: u32,
}

/// What one rebalance invocation reports back.
#[derive(Clone, Copy, Debug, PartialEq, Eq, Structural)]
pub struct RebalanceResult {
    pub total_value_before: i128,
    pub total_value_after: i128,
    pub orders_executed: u32,
    pub gas_used: u32,
    pub slippage_incurred: u32,
    pub timestamp: u64,
}

/// Per-asset balances, USD values and portfolio percentages at one
/// instant; derived from balances and prices, never persisted.
#[derive(Clone, Copy, Debug, PartialEq, Eq, Structural)]
pub struct PortfolioSnapshot {
    pub total_value_usd: i128,
    pub kale_balance: i128,
    pub btc_balance: i128,
    pub usdc_balance: i128,
    pub xlm_balance: i128,
    pub kale_percentage: u32,
    pub btc_percentage: u32,
    pub usdc_percentage: u32,
    pub xlm_percentage: u32,
}

/// Target portfolio weight of each asset, in basis points.
#[derive(Clone, Copy, Debug, PartialEq, Eq, Structural)]
pub struct TargetAllocations {
    pub kale: u32,
    pub btc: u32,
    pub usdc: u32,
    pub xlm: u32,
}

/// The USD price of each asset, scaled by `PRICE_SCALE`. The oracle side
/// substitutes its defaults for assets it has no quote for before the
/// prices reach the core.
#[derive(Clone, Copy, Debug, PartialEq, Eq, Structural)]
pub struct AssetPrices {
    pub kale: i128,
    pub btc: i128,
    pub usdc: i128,
    pub xlm: i128,
}

/// The rebalancer state: administrator identity, configuration and the
/// time of the last order-executing rebalance.
#[derive(Clone, Copy, Debug, PartialEq, Eq, Structural)]
pub struct RebalancerContract {
    pub admin: u64,
    pub config: RebalanceConfig,
    pub last_rebalance: u64,
}

/// USD value of a balance at a scaled price: `balance * price / 1e7`.
pub open spec fn value_of(balance: i128, price: i128) -> int {
    (balance * price) / (PRICE_SCALE as int)
}

/// Share of `value` in `total`, in basis points; zero when the portfolio
/// is empty.
pub open spec fn pct_of(value: int, total: int) -> int {
    if total > 0 {
        (value * 10000) / total
    } else {
        0
    }
}

/// Whether the supplied target weights distribute exactly 100%.
pub open spec fn targets_valid(t: TargetAllocations) -> bool {
    t.kale + t.btc + t.usdc + t.xlm == 10000
}

/// Whether building a snapshot at these prices overflows the 128-bit
/// value arithmetic.
pub open spec fn snapshot_overflows(p: AssetPrices) -> bool {
    let vk = value_of(KALE_POOL_BALANCE, p.kale);
    let vb = value_of(BTC_POOL_BALANCE, p.btc);
    let vu = value_of(USDC_POOL_BALANCE, p.usdc);
    let vx = value_of(XLM_POOL_BALANCE, p.xlm);
    ||| KALE_POOL_BALANCE * p.kale > i128::MAX
    ||| BTC_POOL_BALANCE * p.btc > i128::MAX
    ||| USDC_POOL_BALANCE * p.usdc > i128::MAX
    ||| XLM_POOL_BALANCE * p.xlm > i128::MAX
    ||| vk + vb + vu + vx > i128::MAX
    ||| (vk + vb + vu + vx > 0 && (vk * 10000 > i128::MAX || vb * 10000 > i128::MAX || vu * 10000
        > i128::MAX || vx * 10000 > i128::MAX))
}

/// The snapshot built from the placeholder balances and the supplied
/// prices.
pub open spec fn spec_snapshot(p: AssetPrices) -> PortfolioSnapshot {
    let vk = value_of(KALE_POOL_BALANCE, p.kale);
    let vb = value_of(BTC_POOL_BALANCE, p.btc);
    let vu = value_of(USDC_POOL_BALANCE, p.usdc);
    let vx = value_of(XLM_POOL_BALANCE, p.xlm);
    let total = vk + vb + vu + vx;
    PortfolioSnapshot {
        total_value_usd: total as i128,
        kale_balance: KALE_POOL_BALANCE,
        btc_balance: BTC_POOL_BALANCE,
        usdc_balance: USDC_POOL_BALANCE,
        xlm_balance: XLM_POOL_BALANCE,
        kale_percentage: pct_of(vk, total) as u32,
        btc_percentage: pct_of(vb, total) as u32,
        usdc_percentage: pct_of(vu, total) as u32,
        xlm_percentage: pct_of(vx, total) as u32,
    }
}

/// Target USD value of one asset: `total * weight / 10000`.
pub open spec fn target_value_of(total: i128, bp: u32) -> int {
    (total * bp) / 10000
}

/// Whether the sell for one asset's excess overflows the 128-bit value
/// arithmetic.
pub open spec fn sell_overflows(cur: int, tgt: int) -> bool {
    cur > tgt && ((cur - tgt) * (PRICE_SCALE as int) > i128::MAX || (cur - tgt) * 9800 > i128::MAX)
}

/// Whether deriving orders from this snapshot, these targets and these
/// prices overflows the 128-bit value arithmetic.
pub open spec fn generate_overflows(
    portfolio: PortfolioSnapshot,
    t: TargetAllocations,
    p: AssetPrices,
) -> bool {
    let total = portfolio.total_value_usd;
    ||| total * t.kale > i128::MAX
    ||| total * t.btc > i128::MAX
    ||| total * t.usdc > i128::MAX
    ||| total * t.xlm > i128::MAX
    ||| portfolio.kale_balance * p.kale > i128::MAX
    ||| portfolio.btc_balance * p.btc > i128::MAX
    ||| portfolio.usdc_balance * p.usdc > i128::MAX
    ||| portfolio.xlm_balance * p.xlm > i128::MAX
    ||| sell_overflows(value_of(portfolio.kale_balance, p.kale), target_value_of(total, t.kale))
    ||| sell_overflows(value_of(portfolio.btc_balance, p.btc), target_value_of(total, t.btc))
    ||| sell_overflows(value_of(portfolio.usdc_balance, p.usdc), target_value_of(total, t.usdc))
    ||| sell_overflows(value_of(portfolio.xlm_balance, p.xlm), target_value_of(total, t.xlm))
}

/// The counter-asset an excess is sold into: the stable reserve, except
/// that an excess of the stable reserve itself is sold into the native
/// token.
pub open spec fn counter_asset(asset: u64) -> u64 {
    if asset == ASSET_USDC {
        ASSET_XLM
    } else {
        ASSET_USDC
    }
}

/// The sell order that liquidates an excess value of `from` into its
/// counter-asset, with a 2% slippage tolerance and a fixed mid priority.
pub open spec fn sell_order(from: u64, excess: int, price: i128) -> RebalanceOrder {
    RebalanceOrder {
        from_asset: from,
        to_asset: counter_asset(from),
        amount: ((excess * (PRICE_SCALE as int)) / (price as int)) as i128,
        min_received: ((excess * 9800) / 10000) as i128,
        max_slippage: 200,
        priority: 5,
    }
}

/// The orders one rebalance derives for one asset: a single sell of the
/// excess when the asset's current value exceeds its target value,
/// nothing otherwise.
pub open spec fn sell_orders_for(from: u64, cur: int, tgt: int, price: i128) -> Seq<
    RebalanceOrder,
> {
    if cur > tgt {
        seq![sell_order(from, cur - tgt, price)]
    } else {
        Seq::empty()
    }
}

/// The orders one rebalance derives: one sell per over-allocated asset,
/// in asset order. Only the sell side is generated; the under-allocated
/// assets are the implicit buy side.
pub open spec fn spec_orders(
    portfolio: PortfolioSnapshot,
    t: TargetAllocations,
    p: AssetPrices,
) -> Seq<RebalanceOrder> {
    let total = portfolio.total_value_usd;
    sell_orders_for(
        ASSET_KALE,
        value_of(portfolio.kale_balance, p.kale),
        target_value_of(total, t.kale),
        p.kale,
    ) + sell_orders_for(
        ASSET_BTC,
        value_of(portfolio.btc_balance, p.btc),
        target_value_of(total, t.btc),
        p.btc,
    ) + sell_orders_for(
        ASSET_USDC,
        value_of(portfolio.usdc_balance, p.usdc),
        target_value_of(total, t.usdc),
        p.usdc,
    ) + sell_orders_for(
        ASSET_XLM,
        value_of(portfolio.xlm_balance, p.xlm),
        target_value_of(total, t.xlm),
        p.xlm,
    )
}

/// How many of the queued orders one rebalance executes: all of them, up
/// to the configured trade cap.
pub open spec fn executed_count(n_orders: int, max_trades: int) -> int {
    if n_orders <= max_trades {
        n_orders
    } else {
        max_trades
    }
}

/// The largest realized slippage over the first `n` executed orders; the
/// simulated execution realizes half of each order's tolerance.
pub open spec fn max_observed_slippage(orders: Seq<RebalanceOrder>, n: int) -> int
    decreases n,
{
    if n <= 0 {
        0
    } else {
        let prev = max_observed_slippage(orders, n - 1);
        let s = (orders[n - 1].max_slippage as int) / 2;
        if s > prev {
            s
        } else {
            prev
        }
    }
}

/// What executing `orders` under `config` at time `now` reports. The
/// before/after values are placeholders (zero) until live valuation of
/// executed trades is wired in, as in the order execution itself.
pub open spec fn spec_rebalance_result(
    orders: Seq<RebalanceOrder>,
    config: RebalanceConfig,
    now: u64,
) -> RebalanceResult {
    let n = executed_count(orders.len() as int, config.max_trades_per_rebalance as int);
    RebalanceResult {
        total_value_before: 0,
        total_value_after: 0,
        orders_executed: n as u32,
        gas_used: (50000 * n) as u32,
        slippage_incurred: max_observed_slippage(orders, n) as u32,
        timestamp: now,
    }
}

/// The result a rebalance reports when no corrective action is needed:
/// nothing executed, value unchanged.
pub open spec fn noop_result(total: i128, now: u64) -> RebalanceResult {
    RebalanceResult {
        total_value_before: total,
        total_value_after: total,
        orders_executed: 0,
        gas_used: 0,
        slippage_incurred: 0,
        timestamp: now,
    }
}

/// `balance * price / 1e7`, or `None` when the product leaves the signed
/// 128-bit range.
fn usd_value(balance: i128, price: i128) -> (r: Option<i128>)
    requires
        balance >= 0,
        price >= 0,
    ensures
        r is Some <==> balance * price <= i128::MAX,
        r matches Some(v) ==> v == value_of(balance, price) && v >= 0 && v <= balance * price,
{
    proof {
        lemma_mul_nonnegative(balance as int, price as int);
    }
    match balance.checked_mul(price) {
        None => None,
        Some(product) => {
            proof {
                lemma_div_pos_is_pos(product as int, PRICE_SCALE as int);
                lemma_div_nonincreasing(product as int, PRICE_SCALE as int);
            }
            match product.checked_div(PRICE_SCALE) {
                None => None,
                Some(v) => Some(v),
            }
        },
    }
}

/// Basis-point share of `value` in `total`, or `None` when `value *
/// 10000` leaves the signed 128-bit range.
fn pct(value: i128, total: i128) -> (r: Option<u32>)
    requires
        0 <= value <= total,
    ensures
        r is Some <==> (total <= 0 || value * 10000 <= i128::MAX),
        r matches Some(x) ==> x == pct_of(value as int, total as int),
{
    if total > 0 {
        match value.checked_mul(10000) {
            None => None,
            Some(scaled) => {
                proof {
                    lemma_div_pos_is_pos(scaled as int, total as int);
                    lemma_mul_inequality(value as int, total as int, 10000);
                    lemma_div_is_ordered(
                        (value as int) * 10000,
                        (total as int) * 10000,
                        total as int,
                    );
                    lemma_div_multiples_vanish(10000, total as int);
                }
                match scaled.checked_div(total) {
                    None => None,
                    Some(share) => Some(share as u32),
                }
            },
        }
    } else {
        Some(0)
    }
}

impl RebalancerContract {
    /// Whether enough time has passed since the last order-executing
    /// rebalance.
    pub open spec fn rebalance_due(self, now: u64) -> bool {
        now >= self.last_rebalance + self.config.rebalance_frequency
    }

    /// Whether the portfolio is worth correcting: its value meets the
    /// configured minimum and some asset's share deviates from its target
    /// by more than 500 bp.
    pub open spec fn needs_rebalancing_value(
        self,
        portfolio: PortfolioSnapshot,
        t: TargetAllocations,
    ) -> bool {
        &&& portfolio.total_value_usd >= self.config.min_rebalance_amount
        &&& (abs_diff_value(portfolio.kale_percentage, t.kale) > 500 || abs_diff_value(
            portfolio.btc_percentage,
            t.btc,
        ) > 500 || abs_diff_value(portfolio.usdc_percentage, t.usdc) > 500 || abs_diff_value(
            portfolio.xlm_percentage,
            t.xlm,
        ) > 500)
    }

    /// Set up the rebalancer: store the administrator and configuration,
    /// with no rebalance on record.
    pub fn initialize(
        admin: u64,
        min_rebalance_amount: i128,
        max_slippage: u32,
        rebalance_frequency: u64,
        gas_limit: u32,
        max_trades_per_rebalance: u32,
    ) -> (c: Self)
        ensures
            c.admin == admin,
            c.config == (RebalanceConfig {
                min_rebalance_amount,
                max_slippage,
                rebalance_frequency,
                gas_limit,
                max_trades_per_rebalance,
            }),
            c.last_rebalance == 0,
    {
        RebalancerContract {
            admin,
            config: RebalanceConfig {
                min_rebalance_amount,
                max_slippage,
                rebalance_frequency,
                gas_limit,
                max_trades_per_rebalance,
            },
            last_rebalance: 0,
        }
    }

    /// Build the portfolio snapshot: each asset's USD value from the
    /// placeholder pool balances at the supplied prices, and each asset's
    /// basis-point share of the total.
    pub fn get_portfolio_snapshot(current_prices: &AssetPrices) -> (r: Result<
        PortfolioSnapshot,
        Error,
    >)
        requires
            current_prices.kale >= 0,
            current_prices.btc >= 0,
            current_prices.usdc >= 0,
            current_prices.xlm >= 0,
        ensures
            r is Ok <==> !snapshot_overflows(*current_prices),
            r matches Ok(s) ==> s == spec_snapshot(*current_prices),
            r matches Ok(s) ==> s.total_value_usd >= 0 && s.kale_balance >= 0 && s.btc_balance >= 0
                && s.usdc_balance >= 0 && s.xlm_balance >= 0,
            r matches Err(e) ==> e == Error::ArithmeticOverflow,
    {
        let kale_value = match usd_value(KALE_POOL_BALANCE, current_prices.kale) {
            Some(v) => v,
            None => {
                return Err(Error::ArithmeticOverflow);
            },
        };
        let btc_value = match usd_value(BTC_POOL_BALANCE, current_prices.btc) {
            Some(v) => v,
            None => {
                return Err(Error::ArithmeticOverflow);
            },
        };
        let usdc_value = match usd_value(USDC_POOL_BALANCE, current_prices.usdc) {
            Some(v) => v,
            None => {
                return Err(Error::ArithmeticOverflow);
            },
        };
        let xlm_value = match usd_value(XLM_POOL_BALANCE, current_prices.xlm) {
            Some(v) => v,
            None => {
                return Err(Error::ArithmeticOverflow);
            },
        };
        let partial = match kale_value.checked_add(btc_value) {
            Some(t) => t,
            None => {
                return Err(Error::ArithmeticOverflow);
            },
        };
        let partial = match partial.checked_add(usdc_value) {
            Some(t) => t,
            None => {
                return Err(Error::ArithmeticOverflow);
            },
        };
        let total_value = match partial.checked_add(xlm_value) {
            Some(t) => t,
            None => {
                return Err(Error::ArithmeticOverflow);
            },
        };
        let kale_percentage = match pct(kale_value, total_value) {
            Some(x) => x,
            None => {
                return Err(Error::ArithmeticOverflow);
            },
        };
        let btc_percentage = match pct(btc_value, total_value) {
            Some(x) => x,
            None => {
                return Err(Error::ArithmeticOverflow);
            },
        };
        let usdc_percentage = match pct(usdc_value, total_value) {
            Some(x) => x,
            None => {
                return Err(Error::ArithmeticOverflow);
            },
        };
        let xlm_percentage = match pct(xlm_value, total_value) {
            Some(x) => x,
            None => {
                return Err(Error::ArithmeticOverflow);
            },
        };
        Ok(
            PortfolioSnapshot {
                total_value_usd: total_value,
                kale_balance: KALE_POOL_BALANCE,
                btc_balance: BTC_POOL_BALANCE,
                usdc_balance: USDC_POOL_BALANCE,
                xlm_balance: XLM_POOL_BALANCE,
                kale_percentage,
                btc_percentage,
                usdc_percentage,
                xlm_percentage,
            },
        )
    }

    /// Whether the snapshot deviates enough from the targets, and is
    /// valuable enough, for corrective orders.
    pub fn needs_rebalancing(
        &self,
        portfolio: &PortfolioSnapshot,
        target_allocations: &TargetAllocations,
    ) -> (r: bool)
        ensures
            r == self.needs_rebalancing_value(*portfolio, *target_allocations),
    {
        if portfolio.total_value_usd < self.config.min_rebalance_amount {
            return false;
        }
        let kale_deviation = Self::abs_diff(portfolio.kale_percentage, target_allocations.kale);
        let btc_deviation = Self::abs_diff(portfolio.btc_percentage, target_allocations.btc);
        let usdc_deviation = Self::abs_diff(portfolio.usdc_percentage, target_allocations.usdc);
        let xlm_deviation = Self::abs_diff(portfolio.xlm_percentage, target_allocations.xlm);
        kale_deviation > 500 || btc_deviation > 500 || usdc_deviation > 500 || xlm_deviation > 500
    }

    /// Derive the corrective orders: for each over-allocated asset, sell
    /// its excess value into the counter-asset at the supplied price,
    /// with a 2% slippage tolerance. The matching buy side stays
    /// implicit.
    pub fn generate_rebalance_orders(
        portfolio: &PortfolioSnapshot,
        target_allocations: &TargetAllocations,
        current_prices: &AssetPrices,
    ) -> (r: Result<Vec<RebalanceOrder>, Error>)
        requires
            portfolio.total_value_usd >= 0,
            portfolio.kale_balance >= 0,
            portfolio.btc_balance >= 0,
            portfolio.usdc_balance >= 0,
            portfolio.xlm_balance >= 0,
            current_prices.kale >= 0,
            current_prices.btc >= 0,
            current_prices.usdc >= 0,
            current_prices.xlm >= 0,
        ensures
            r is Ok <==> !generate_overflows(*portfolio, *target_allocations, *current_prices),
            r matches Ok(orders) ==> orders@ == spec_orders(
                *portfolio,
                *target_allocations,
                *current_prices,
            ),
            r matches Err(e) ==> e == Error::ArithmeticOverflow,
    {
        let total = portfolio.total_value_usd;
        let kale_target_value = match Self::target_value(total, target_allocations.kale) {
            Some(v) => v,
            None => {
                return Err(Error::ArithmeticOverflow);
            },
        };
        let btc_target_value = match Self::target_value(total, target_allocations.btc) {
            Some(v) => v,
            None => {
                return Err(Error::ArithmeticOverflow);
            },
        };
        let usdc_target_value = match Self::target_value(total, target_allocations.usdc) {
            Some(v) => v,
            None => {
                return Err(Error::ArithmeticOverflow);
            },
        };
        let xlm_target_value = match Self::target_value(total, target_allocations.xlm) {
            Some(v) => v,
            None => {
                return Err(Error::ArithmeticOverflow);
            },
        };
        let kale_current_value = match usd_value(portfolio.kale_balance, current_prices.kale) {
            Some(v) => v,
            None => {
                return Err(Error::ArithmeticOverflow);
            },
        };
        let btc_current_value = match usd_value(portfolio.btc_balance, current_prices.btc) {
            Some(v) => v,
            None => {
                return Err(Error::ArithmeticOverflow);
            },
        };
        let usdc_current_value = match usd_value(portfolio.usdc_balance, current_prices.usdc) {
            Some(v) => v,
            None => {
                return Err(Error::ArithmeticOverflow);
            },
        };
        let xlm_current_value = match usd_value(portfolio.xlm_balance, current_prices.xlm) {
            Some(v) => v,
            None => {
                return Err(Error::ArithmeticOverflow);
            },
        };
        proof {
            // a zero price values the position at zero, so an
            // over-allocated asset always has a positive price
            lemma_div_pos_is_pos(0, PRICE_SCALE as int);
            lemma_div_nonincreasing(0, PRICE_SCALE as int);
            if current_prices.kale == 0 {
                assert((portfolio.kale_balance as int) * (current_prices.kale as int) == 0)
                    by (nonlinear_arith)
                    requires current_prices.kale == 0;
            }
            if current_prices.btc == 0 {
                assert((portfolio.btc_balance as int) * (current_prices.btc as int) == 0)
                    by (nonlinear_arith)
                    requires current_prices.btc == 0;
            }
            if current_prices.usdc == 0 {
                assert((portfolio.usdc_balance as int) * (current_prices.usdc as int) == 0)
                    by (nonlinear_arith)
                    requires current_prices.usdc == 0;
            }
            if current_prices.xlm == 0 {
                assert((portfolio.xlm_balance as int) * (current_prices.xlm as int) == 0)
                    by (nonlinear_arith)
                    requires current_prices.xlm == 0;
            }
        }
        let mut orders: Vec<RebalanceOrder> = Vec::new();
        match Self::push_sell_order(
            &mut orders,
            ASSET_KALE,
            kale_current_value,
            kale_target_value,
            current_prices.kale,
        ) {
            Ok(()) => {},
            Err(e) => {
                return Err(e);
            },
        }
        match Self::push_sell_order(
            &mut orders,
            ASSET_BTC,
            btc_current_value,
            btc_target_value,
            current_prices.btc,
        ) {
            Ok(()) => {},
            Err(e) => {
                return Err(e);
            },
        }
        match Self::push_sell_order(
            &mut orders,
            ASSET_USDC,
            usdc_current_value,
            usdc_target_value,
            current_prices.usdc,
        ) {
            Ok(()) => {},
            Err(e) => {
                return Err(e);
            },
        }
        match Self::push_sell_order(
            &mut orders,
            ASSET_XLM,
            xlm_current_value,
            xlm_target_value,
            current_prices.xlm,
        ) {
            Ok(()) => {},
            Err(e) => {
                return Err(e);
            },
        }
        proof {
            assert(orders@ =~= spec_orders(*portfolio, *target_allocations, *current_prices));
        }
        Ok(orders)
    }

    /// The numeric id of the counter-asset an excess is sold into.
    fn counter_asset_for(asset: u64) -> (r: u64)
        ensures
            r == counter_asset(asset),
    {
        if asset == ASSET_USDC {
            ASSET_XLM
        } else {
            ASSET_USDC
        }
    }

    /// Append the sell order for one asset's excess, if its current value
    /// exceeds its target value.
    fn push_sell_order(
        orders: &mut Vec<RebalanceOrder>,
        from: u64,
        current_value: i128,
        target_value: i128,
        price: i128,
    ) -> (r: Result<(), Error>)
        requires
            price >= 0,
            target_value >= 0,
            current_value > target_value ==> price > 0,
        ensures
            r is Ok <==> !sell_overflows(current_value as int, target_value as int),
            r is Ok ==> final(orders)@ == old(orders)@ + sell_orders_for(
                from,
                current_value as int,
                target_value as int,
                price,
            ),
            r matches Err(e) ==> e == Error::ArithmeticOverflow,
    {
        if current_value > target_value {
            let excess_value = current_value - target_value;
            proof {
                lemma_mul_nonnegative(excess_value as int, PRICE_SCALE as int);
                lemma_mul_nonnegative(excess_value as int, 9800);
            }
            let excess_scaled = match excess_value.checked_mul(PRICE_SCALE) {
                Some(v) => v,
                None => {
                    return Err(Error::ArithmeticOverflow);
                },
            };
            proof {
                lemma_div_pos_is_pos(excess_scaled as int, price as int);
                lemma_div_nonincreasing(excess_scaled as int, price as int);
            }
            let amount = match excess_scaled.checked_div(price) {
                Some(v) => v,
                None => {
                    return Err(Error::ArithmeticOverflow);
                },
            };
            let min_scaled = match excess_value.checked_mul(9800) {
                Some(v) => v,
                None => {
                    return Err(Error::ArithmeticOverflow);
                },
            };
            proof {
                lemma_div_pos_is_pos(min_scaled as int, 10000);
                lemma_div_nonincreasing(min_scaled as int, 10000);
            }
            let min_received = match min_scaled.checked_div(10000) {
                Some(v) => v,
                None => {
                    return Err(Error::ArithmeticOverflow);
                },
            };
            orders.push(
                RebalanceOrder {
                    from_asset: from,
                    to_asset: Self::counter_asset_for(from),
                    amount,
                    min_received,
                    max_slippage: 200,
                    priority: 5,
                },
            );
            proof {
                assert(orders@ =~= old(orders)@ + sell_orders_for(
                    from,
                    current_value as int,
                    target_value as int,
                    price,
                ));
            }
            Ok(())
        } else {
            proof {
                assert(orders@ =~= old(orders)@ + sell_orders_for(
                    from,
                    current_value as int,
                    target_value as int,
                    price,
                ));
            }
            Ok(())
        }
    }

    /// `total * bp / 10000`, or `None` when the product leaves the signed
    /// 128-bit range.
    fn target_value(total: i128, bp: u32) -> (r: Option<i128>)
        requires
            total >= 0,
        ensures
            r is Some <==> total * bp <= i128::MAX,
            r matches Some(v) ==> v == target_value_of(total, bp) && v >= 0,
    {
        proof {
            lemma_mul_nonnegative(total as int, bp as int);
        }
        match total.checked_mul(bp as i128) {
            None => None,
            Some(product) => {
                proof {
                    lemma_div_pos_is_pos(product as int, 10000);
                    lemma_div_nonincreasing(product as int, 10000);
                }
                match product.checked_div(10000) {
                    None => None,
                    Some(v) => Some(v),
                }
            },
        }
    }

    /// Book the execution of the queued orders, up to the configured trade
    /// cap: each simulated execution costs a fixed 50000 gas and realizes
    /// half of the order's slippage tolerance.
    pub fn execute_rebalance_orders(
        orders: Vec<RebalanceOrder>,
        config: &RebalanceConfig,
        now: u64,
    ) -> (r: RebalanceResult)
        requires
            50000 * orders@.len() <= u32::MAX,
        ensures
            r == spec_rebalance_result(orders@, *config, now),
    {
        let mut orders_executed: u32 = 0;
        let mut total_gas_used: u32 = 0;
        let mut total_slippage: u32 = 0;
        let limit: usize = config.max_trades_per_rebalance as usize;
        let mut i: usize = 0;
        while i < orders.len() && i < limit
            invariant
                50000 * orders@.len() <= u32::MAX,
                limit == config.max_trades_per_rebalance,
                i <= orders@.len(),
                i <= limit,
                orders_executed == i,
                total_gas_used == 50000 * i,
                total_slippage == max_observed_slippage(orders@, i as int),
            decreases orders@.len() - i,
        {
            let order = &orders[i];
            let gas_used = Self::simulate_trade_execution(order);
            let slippage = Self::calculate_actual_slippage(order);
            total_gas_used = total_gas_used + gas_used;
            if slippage > total_slippage {
                total_slippage = slippage;
            }
            orders_executed = orders_executed + 1;
            i = i + 1;
        }
        RebalanceResult {
            total_value_before: 0,
            total_value_after: 0,
            orders_executed,
            gas_used: total_gas_used,
            slippage_incurred: total_slippage,
            timestamp: now,
        }
    }

    /// Check the frequency gate and the target-weight sum, snapshot the
    /// portfolio, and when a correction is both needed and derivable,
    /// execute the orders and stamp the rebalance time; a portfolio
    /// already within tolerance reports a no-op success and stamps
    /// nothing.
    pub fn rebalance(
        &mut self,
        caller: u64,
        target_allocations: &TargetAllocations,
        current_prices: &AssetPrices,
        now: u64,
    ) -> (r: Result<RebalanceResult, Error>)
        requires
            current_prices.kale >= 0,
            current_prices.btc >= 0,
            current_prices.usdc >= 0,
            current_prices.xlm >= 0,
        ensures
            final(self).admin == old(self).admin,
            final(self).config == old(self).config,
            r is Err ==> *final(self) == *old(self),
            r == Err::<RebalanceResult, Error>(Error::RebalanceTooSoon) <==> !old(
                self,
            ).rebalance_due(now),
            old(self).rebalance_due(now) ==> (r == Err::<RebalanceResult, Error>(
                Error::InvalidTargetAllocation,
            ) <==> !targets_valid(*target_allocations)),
            old(self).rebalance_due(now) && targets_valid(*target_allocations)
                && snapshot_overflows(*current_prices) ==> r == Err::<RebalanceResult, Error>(
                Error::ArithmeticOverflow,
            ),
            old(self).rebalance_due(now) && targets_valid(*target_allocations)
                && !snapshot_overflows(*current_prices) && !old(self).needs_rebalancing_value(
                spec_snapshot(*current_prices),
                *target_allocations,
            ) ==> r == Ok::<RebalanceResult, Error>(
                noop_result(spec_snapshot(*current_prices).total_value_usd, now),
            ) && *final(self) == *old(self),
            old(self).rebalance_due(now) && targets_valid(*target_allocations)
                && !snapshot_overflows(*current_prices) && old(self).needs_rebalancing_value(
                spec_snapshot(*current_prices),
                *target_allocations,
            ) ==> ((r is Err) <==> generate_overflows(
                spec_snapshot(*current_prices),
                *target_allocations,
                *current_prices,
            )),
            old(self).rebalance_due(now) && targets_valid(*target_allocations)
                && !snapshot_overflows(*current_prices) && old(self).needs_rebalancing_value(
                spec_snapshot(*current_prices),
                *target_allocations,
            ) && r is Err ==> r == Err::<RebalanceResult, Error>(Error::ArithmeticOverflow),
            old(self).rebalance_due(now) && targets_valid(*target_allocations)
                && !snapshot_overflows(*current_prices) && old(self).needs_rebalancing_value(
                spec_snapshot(*current_prices),
                *target_allocations,
            ) && !generate_overflows(
                spec_snapshot(*current_prices),
                *target_allocations,
                *current_prices,
            ) ==> r == Ok::<RebalanceResult, Error>(
                spec_rebalance_result(
                    spec_orders(
                        spec_snapshot(*current_prices),
                        *target_allocations,
                        *current_prices,
                    ),
                    old(self).config,
                    now,
                ),
            ) && final(self).last_rebalance == now,
    {
        if now < self.last_rebalance || now - self.last_rebalance
            < self.config.rebalance_frequency {
            return Err(Error::RebalanceTooSoon);
        }
        let total_allocation: u64 = target_allocations.kale as u64 + target_allocations.btc as u64
            + target_allocations.usdc as u64 + target_allocations.xlm as u64;
        if total_allocation != 10000 {
            return Err(Error::InvalidTargetAllocation);
        }
        let portfolio = match Self::get_portfolio_snapshot(current_prices) {
            Ok(p) => p,
            Err(e) => {
                return Err(e);
            },
        };
        if !self.needs_rebalancing(&portfolio, target_allocations) {
            return Ok(
                RebalanceResult {
                    total_value_before: portfolio.total_value_usd,
                    total_value_after: portfolio.total_value_usd,
                    orders_executed: 0,
                    gas_used: 0,
                    slippage_incurred: 0,
                    timestamp: now,
                },
            );
        }
        let orders = match Self::generate_rebalance_orders(
            &portfolio,
            target_allocations,
            current_prices,
        ) {
            Ok(o) => o,
            Err(e) => {
                return Err(e);
            },
        };
        let result = Self::execute_rebalance_orders(orders, &self.config, now);
        self.last_rebalance = now;
        Ok(result)
    }

    /// Replace the rebalancer configuration, admin only.
    pub fn update_config(&mut self, caller: u64, config: RebalanceConfig) -> (r: Result<
        (),
        Error,
    >)
        ensures
            caller != old(self).admin ==> r == Err::<(), Error>(Error::Unauthorized) && *final(self)
                == *old(self),
            caller == old(self).admin ==> r == Ok::<(), Error>(()) && *final(self)
                == (RebalancerContract { config, ..*old(self) }),
    {
        if caller != self.admin {
            return Err(Error::Unauthorized);
        }
        self.config = config;
        Ok(())
    }

    /// The rebalancer configuration.
    pub fn get_config(&self) -> (c: RebalanceConfig)
        ensures
            c == self.config,
    {
        self.config
    }

    /// The time of the last order-executing rebalance.
    pub fn get_last_rebalance(&self) -> (t: u64)
        ensures
            t == self.last_rebalance,
    {
        self.last_rebalance
    }

    /// Absolute difference of two basis-point weights.
    pub fn abs_diff(a: u32, b: u32) -> (r: u32)
        ensures
            r == abs_diff_value(a, b),
    {
        if a > b {
            a - b
        } else {
            b - a
        }
    }

    /// Trade execution is simulated in this revision: every order costs a
    /// fixed 50000 gas.
    fn simulate_trade_execution(order: &RebalanceOrder) -> (r: u32)
        ensures
            r == 50000,
    {
        50000
    }

    /// Realized slippage is simulated in this revision: half of the
    /// order's tolerance.
    fn calculate_actual_slippage(order: &RebalanceOrder) -> (r: u32)
        ensures
            r == order.max_slippage / 2,
    {
        order.max_slippage / 2
    }
}

/// The frequency window around the rebalance timestamp: once an
/// executing rebalance stamps time `now1`, another attempt is due again
/// exactly from `now1 + rebalance_frequency` on — any attempt before
/// that is rejected, any attempt from then on is accepted as due.
pub proof fn lemma_rebalance_gating(after: RebalancerContract, now1: u64, t: u64)
    requires
        after.last_rebalance == now1,
    ensures
        t < now1 + after.config.rebalance_frequency ==> !after.rebalance_due(t),
        t >= now1 + after.config.rebalance_frequency ==> after.rebalance_due(t),
{
}

} // verus!
