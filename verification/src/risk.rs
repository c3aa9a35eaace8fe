//! The risk manager: profile-based target asset allocations, risk
//! parameter administration, volatility records, and the risk assessment
//! and rebalance-trigger calculations.

use vstd::prelude::*;

verus! {

use vstd::arithmetic::div_mod::{lemma_div_is_ordered, lemma_div_multiples_vanish};
use crate::errors::Error;
use crate::fund::RiskProfile;

/// Target weight of each asset, in basis points over
/// {KALE, BTC, USDC, XLM}. A valid allocation's weights sum to exactly
/// 10000.
#[derive(Clone, Copy, Debug, PartialEq, Eq, Structural)]
pub struct AssetAllocation {
    pub kale_percentage: u32,
    pub btc_percentage: u32,
    pub usdc_percentage: u32,
    pub xlm_percentage: u32,
}

/// The admin-mutable risk parameter singleton, all in basis points.
#[derive(Clone, Copy, Debug, PartialEq, Eq, Structural)]
pub struct RiskParameters {
    pub max_position_size: u32,
    pub max_daily_volatility: u32,
    pub correlation_threshold: u32,
    pub stress_test_threshold: u32,
    pub rebalance_threshold: u32,
}

/// Volatility figures for one asset, keyed by its numeric id and
/// overwritten wholesale on each update.
#[derive(Clone, Copy, Debug, PartialEq, Eq, Structural)]
pub struct VolatilityData {
    pub asset: u64,
    pub daily_volatility: u32,
    pub weekly_volatility: u32,
    pub monthly_volatility: u32,
    pub last_updated: u64,
}

/// The outcome of a risk assessment: four component scores on a 0-10000
/// scale and their fixed weighted combination.
#[derive(Clone, Copy, Debug, PartialEq, Eq, Structural)]
pub struct RiskAssessment {
    pub profile: RiskProfile,
    pub recommended_allocation: AssetAllocation,
    pub risk_score: u32,
    pub volatility_score: u32,
    pub correlation_risk: u32,
    pub liquidity_risk: u32,
}

/// The risk manager state: administrator identity, the risk parameter
/// singleton, one stored allocation per risk profile, and the keyed
/// volatility records.
#[derive(Debug)]
pub struct RiskManagerContract {
    pub admin: u64,
    pub risk_params: RiskParameters,
    pub conservative_allocation: AssetAllocation,
    pub moderate_allocation: AssetAllocation,
    pub aggressive_allocation: AssetAllocation,
    pub volatility: Vec<VolatilityData>,
}

/// The sum of an allocation's four weights.
pub open spec fn allocation_sum(a: AssetAllocation) -> int {
    a.kale_percentage + a.btc_percentage + a.usdc_percentage + a.xlm_percentage
}

/// A valid allocation distributes exactly 100%.
pub open spec fn allocation_valid(a: AssetAllocation) -> bool {
    allocation_sum(a) == 10000
}

/// The hard-coded default allocation table, seeded at initialization.
pub open spec fn default_allocation(profile: RiskProfile) -> AssetAllocation {
    match profile {
        RiskProfile::Conservative => AssetAllocation {
            kale_percentage: 2000,
            btc_percentage: 3000,
            usdc_percentage: 4000,
            xlm_percentage: 1000,
        },
        RiskProfile::Moderate => AssetAllocation {
            kale_percentage: 3500,
            btc_percentage: 4000,
            usdc_percentage: 2000,
            xlm_percentage: 500,
        },
        RiskProfile::Aggressive => AssetAllocation {
            kale_percentage: 5000,
            btc_percentage: 3500,
            usdc_percentage: 1000,
            xlm_percentage: 500,
        },
    }
}

/// Absolute basis-point difference.
pub open spec fn abs_diff_value(a: u32, b: u32) -> int {
    if a >= b {
        a - b
    } else {
        b - a
    }
}

/// Mean absolute per-asset deviation between two allocations.
pub open spec fn allocation_risk_value(current: AssetAllocation, recommended: AssetAllocation) -> int {
    (abs_diff_value(current.kale_percentage, recommended.kale_percentage) + abs_diff_value(
        current.btc_percentage,
        recommended.btc_percentage,
    ) + abs_diff_value(current.usdc_percentage, recommended.usdc_percentage) + abs_diff_value(
        current.xlm_percentage,
        recommended.xlm_percentage,
    )) / 4
}

/// Largest absolute per-asset deviation between two allocations.
pub open spec fn max_deviation_value(current: AssetAllocation, recommended: AssetAllocation) -> int {
    let k = abs_diff_value(current.kale_percentage, recommended.kale_percentage);
    let b = abs_diff_value(current.btc_percentage, recommended.btc_percentage);
    let u = abs_diff_value(current.usdc_percentage, recommended.usdc_percentage);
    let x = abs_diff_value(current.xlm_percentage, recommended.xlm_percentage);
    let m1 = if k >= b {
        k
    } else {
        b
    };
    let m2 = if m1 >= u {
        m1
    } else {
        u
    };
    if m2 >= x {
        m2
    } else {
        x
    }
}

/// Sum of the daily volatilities of a sample sequence.
pub open spec fn sum_daily_volatility(s: Seq<VolatilityData>) -> int
    decreases s.len(),
{
    if s.len() == 0 {
        0
    } else {
        sum_daily_volatility(s.drop_last()) + s.last().daily_volatility
    }
}

/// Mean daily volatility of the samples, or the neutral score 5000 when
/// no samples were supplied.
pub open spec fn volatility_score_value(s: Seq<VolatilityData>) -> int {
    if s.len() == 0 {
        5000
    } else {
        sum_daily_volatility(s) / (s.len() as int)
    }
}

/// Tiered liquidity heuristic: a majority stable (USDC) weight scores low
/// risk, a majority volatile (KALE) weight scores high risk, anything
/// else is medium.
pub open spec fn liquidity_risk_value(a: AssetAllocation) -> int {
    if a.usdc_percentage > 5000 {
        1000
    } else if a.kale_percentage > 5000 {
        8000
    } else {
        4000
    }
}

/// The fixed weighted combination of the four component scores.
pub open spec fn combined_risk_score(
    allocation_risk: int,
    volatility_score: int,
    correlation_risk: int,
    liquidity_risk: int,
) -> int {
    (allocation_risk * 30 + volatility_score * 40 + correlation_risk * 20 + liquidity_risk * 10)
        / 100
}

/// No two stored volatility records share an asset id.
pub open spec fn vol_unique(s: Seq<VolatilityData>) -> bool {
    forall|i: int, j: int|
        0 <= i < s.len() && 0 <= j < s.len() && i != j ==> #[trigger] s[i].asset != #[trigger] s[
            j
        ].asset
}

/// Whether a volatility record is stored for `asset`.
pub open spec fn has_vol(s: Seq<VolatilityData>, asset: u64) -> bool {
    exists|i: int| 0 <= i < s.len() && (#[trigger] s[i]).asset == asset
}

/// The volatility record stored for `asset`, if any.
pub open spec fn vol_of(s: Seq<VolatilityData>, asset: u64) -> Option<VolatilityData> {
    if has_vol(s, asset) {
        let i = choose|i: int| 0 <= i < s.len() && (#[trigger] s[i]).asset == asset;
        Some(s[i])
    } else {
        None
    }
}

/// The last record for `asset` in an update batch, if the batch names it.
pub open spec fn last_vol_update(updates: Seq<VolatilityData>, asset: u64) -> Option<VolatilityData>
    decreases updates.len(),
{
    if updates.len() == 0 {
        None
    } else if updates.last().asset == asset {
        Some(updates.last())
    } else {
        last_vol_update(updates.drop_last(), asset)
    }
}

/// What a batch update leaves stored for `asset`: the batch's last record
/// for it, or the previously stored one.
pub open spec fn merged_vol(
    store: Seq<VolatilityData>,
    updates: Seq<VolatilityData>,
    asset: u64,
) -> Option<VolatilityData> {
    if last_vol_update(updates, asset) is Some {
        last_vol_update(updates, asset)
    } else {
        vol_of(store, asset)
    }
}

proof fn lemma_vol_of_present(s: Seq<VolatilityData>, i: int)
    requires
        vol_unique(s),
        0 <= i < s.len(),
    ensures
        vol_of(s, s[i].asset) == Some(s[i]),
        has_vol(s, s[i].asset),
{
    let asset = s[i].asset;
    assert(has_vol(s, asset));
    let k = choose|k: int| 0 <= k < s.len() && (#[trigger] s[k]).asset == asset;
    assert(k == i);
}

proof fn lemma_vol_of_update(s: Seq<VolatilityData>, i: int, d: VolatilityData)
    requires
        vol_unique(s),
        0 <= i < s.len(),
        d.asset == s[i].asset,
    ensures
        vol_unique(s.update(i, d)),
        vol_of(s.update(i, d), d.asset) == Some(d),
        forall|a: u64| a != d.asset ==> #[trigger] vol_of(s.update(i, d), a) == vol_of(s, a),
{
    let t = s.update(i, d);
    assert forall|p: int, q: int|
        0 <= p < t.len() && 0 <= q < t.len() && p != q implies #[trigger] t[p].asset
        != #[trigger] t[q].asset by {
        assert(s[p].asset != s[q].asset);
    }
    lemma_vol_of_present(t, i);
    assert forall|a: u64| a != d.asset implies #[trigger] vol_of(t, a) == vol_of(s, a) by {
        if has_vol(s, a) {
            let k = choose|k: int| 0 <= k < s.len() && (#[trigger] s[k]).asset == a;
            assert(t[k].asset == a);
        }
        if has_vol(t, a) {
            let k = choose|k: int| 0 <= k < t.len() && (#[trigger] t[k]).asset == a;
            assert(s[k].asset == a);
        }
        if has_vol(s, a) {
            let k = choose|k: int| 0 <= k < s.len() && (#[trigger] s[k]).asset == a;
            let k2 = choose|k: int| 0 <= k < t.len() && (#[trigger] t[k]).asset == a;
            assert(t[k].asset == a);
            assert(s[k2].asset == a);
            assert(k == k2);
        }
    }
}

proof fn lemma_vol_of_push(s: Seq<VolatilityData>, d: VolatilityData)
    requires
        vol_unique(s),
        !has_vol(s, d.asset),
    ensures
        vol_unique(s.push(d)),
        vol_of(s.push(d), d.asset) == Some(d),
        forall|a: u64| a != d.asset ==> #[trigger] vol_of(s.push(d), a) == vol_of(s, a),
{
    let t = s.push(d);
    let n = s.len() as int;
    assert(t[n] == d);
    assert forall|p: int, q: int|
        0 <= p < t.len() && 0 <= q < t.len() && p != q implies #[trigger] t[p].asset
        != #[trigger] t[q].asset by {
        if p < n && q < n {
            assert(s[p].asset != s[q].asset);
        } else if p == n {
            assert(t[q] == s[q]);
            assert(s[q].asset != d.asset);
        } else {
            assert(t[p] == s[p]);
            assert(s[p].asset != d.asset);
        }
    }
    lemma_vol_of_present(t, n);
    assert forall|a: u64| a != d.asset implies #[trigger] vol_of(t, a) == vol_of(s, a) by {
        if has_vol(s, a) {
            let k = choose|k: int| 0 <= k < s.len() && (#[trigger] s[k]).asset == a;
            assert(t[k].asset == a);
        }
        if has_vol(t, a) {
            let k = choose|k: int| 0 <= k < t.len() && (#[trigger] t[k]).asset == a;
            assert(k < n);
            assert(s[k].asset == a);
        }
        if has_vol(s, a) {
            let k = choose|k: int| 0 <= k < s.len() && (#[trigger] s[k]).asset == a;
            let k2 = choose|k: int| 0 <= k < t.len() && (#[trigger] t[k]).asset == a;
            assert(t[k].asset == a);
            assert(k2 < n);
            assert(s[k2].asset == a);
            assert(k == k2);
        }
    }
}

impl RiskManagerContract {
    /// Validity of the risk manager state: every stored allocation
    /// distributes exactly 100% and volatility records are uniquely keyed.
    pub open spec fn wf(self) -> bool {
        &&& allocation_valid(self.conservative_allocation)
        &&& allocation_valid(self.moderate_allocation)
        &&& allocation_valid(self.aggressive_allocation)
        &&& vol_unique(self.volatility@)
    }

    /// The allocation stored for a profile.
    pub open spec fn allocation_of(self, profile: RiskProfile) -> AssetAllocation {
        match profile {
            RiskProfile::Conservative => self.conservative_allocation,
            RiskProfile::Moderate => self.moderate_allocation,
            RiskProfile::Aggressive => self.aggressive_allocation,
        }
    }

    /// The state after replacing one profile's stored allocation.
    pub open spec fn with_allocation(
        self,
        profile: RiskProfile,
        allocation: AssetAllocation,
    ) -> RiskManagerContract {
        match profile {
            RiskProfile::Conservative => RiskManagerContract {
                conservative_allocation: allocation,
                ..self
            },
            RiskProfile::Moderate => RiskManagerContract { moderate_allocation: allocation, ..self },
            RiskProfile::Aggressive => RiskManagerContract {
                aggressive_allocation: allocation,
                ..self
            },
        }
    }

    /// Set up the risk manager: store the administrator and parameters and
    /// seed the default allocation for every profile.
    pub fn initialize(
        admin: u64,
        max_position_size: u32,
        max_daily_volatility: u32,
        correlation_threshold: u32,
        stress_test_threshold: u32,
        rebalance_threshold: u32,
    ) -> (mgr: Self)
        ensures
            mgr.wf(),
            mgr.admin == admin,
            mgr.risk_params == (RiskParameters {
                max_position_size,
                max_daily_volatility,
                correlation_threshold,
                stress_test_threshold,
                rebalance_threshold,
            }),
            forall|p: RiskProfile| #[trigger] mgr.allocation_of(p) == default_allocation(p),
            mgr.volatility@.len() == 0,
    {
        let mut mgr = RiskManagerContract {
            admin,
            risk_params: RiskParameters {
                max_position_size,
                max_daily_volatility,
                correlation_threshold,
                stress_test_threshold,
                rebalance_threshold,
            },
            conservative_allocation: AssetAllocation {
                kale_percentage: 0,
                btc_percentage: 0,
                usdc_percentage: 0,
                xlm_percentage: 0,
            },
            moderate_allocation: AssetAllocation {
                kale_percentage: 0,
                btc_percentage: 0,
                usdc_percentage: 0,
                xlm_percentage: 0,
            },
            aggressive_allocation: AssetAllocation {
                kale_percentage: 0,
                btc_percentage: 0,
                usdc_percentage: 0,
                xlm_percentage: 0,
            },
            volatility: Vec::new(),
        };
        mgr.set_default_allocations();
        mgr
    }

    /// Seed the hard-coded default allocation table.
    fn set_default_allocations(&mut self)
        ensures
            final(self).conservative_allocation == default_allocation(RiskProfile::Conservative),
            final(self).moderate_allocation == default_allocation(RiskProfile::Moderate),
            final(self).aggressive_allocation == default_allocation(RiskProfile::Aggressive),
            final(self).admin == old(self).admin,
            final(self).risk_params == old(self).risk_params,
            final(self).volatility == old(self).volatility,
    {
        self.conservative_allocation = AssetAllocation {
            kale_percentage: 2000,
            btc_percentage: 3000,
            usdc_percentage: 4000,
            xlm_percentage: 1000,
        };
        self.moderate_allocation = AssetAllocation {
            kale_percentage: 3500,
            btc_percentage: 4000,
            usdc_percentage: 2000,
            xlm_percentage: 500,
        };
        self.aggressive_allocation = AssetAllocation {
            kale_percentage: 5000,
            btc_percentage: 3500,
            usdc_percentage: 1000,
            xlm_percentage: 500,
        };
    }

    /// The default allocation table as a pure lookup, independent of any
    /// stored state.
    pub fn default_allocation_for(profile: RiskProfile) -> (a: AssetAllocation)
        ensures
            a == default_allocation(profile),
    {
        match profile {
            RiskProfile::Conservative => AssetAllocation {
                kale_percentage: 2000,
                btc_percentage: 3000,
                usdc_percentage: 4000,
                xlm_percentage: 1000,
            },
            RiskProfile::Moderate => AssetAllocation {
                kale_percentage: 3500,
                btc_percentage: 4000,
                usdc_percentage: 2000,
                xlm_percentage: 500,
            },
            RiskProfile::Aggressive => AssetAllocation {
                kale_percentage: 5000,
                btc_percentage: 3500,
                usdc_percentage: 1000,
                xlm_percentage: 500,
            },
        }
    }

    /// The recommended allocation for a profile.
    pub fn get_allocation(&self, profile: RiskProfile) -> (a: AssetAllocation)
        ensures
            a == self.allocation_of(profile),
    {
        match profile {
            RiskProfile::Conservative => self.conservative_allocation,
            RiskProfile::Moderate => self.moderate_allocation,
            RiskProfile::Aggressive => self.aggressive_allocation,
        }
    }

    /// Replace the stored allocation for a profile, admin only; the four
    /// weights must sum to exactly 10000 basis points.
    pub fn update_allocation(
        &mut self,
        caller: u64,
        profile: RiskProfile,
        allocation: AssetAllocation,
    ) -> (r: Result<(), Error>)
        requires
            old(self).wf(),
        ensures
            final(self).wf(),
            caller != old(self).admin ==> r == Err::<(), Error>(Error::Unauthorized) && *final(self)
                == *old(self),
            caller == old(self).admin && !allocation_valid(allocation) ==> r == Err::<(), Error>(
                Error::InvalidAllocation,
            ) && *final(self) == *old(self),
            caller == old(self).admin && allocation_valid(allocation) ==> r == Ok::<(), Error>(())
                && *final(self) == old(self).with_allocation(profile, allocation),
    {
        if caller != self.admin {
            return Err(Error::Unauthorized);
        }
        let total: u64 = allocation.kale_percentage as u64 + allocation.btc_percentage as u64
            + allocation.usdc_percentage as u64 + allocation.xlm_percentage as u64;
        if total != 10000 {
            return Err(Error::InvalidAllocation);
        }
        match profile {
            RiskProfile::Conservative => {
                self.conservative_allocation = allocation;
            },
            RiskProfile::Moderate => {
                self.moderate_allocation = allocation;
            },
            RiskProfile::Aggressive => {
                self.aggressive_allocation = allocation;
            },
        }
        Ok(())
    }

    /// Overwrite the stored volatility record of every asset named in the
    /// batch, admin only; later batch entries for the same asset win, and
    /// assets not named keep their stored record.
    pub fn update_volatility(&mut self, caller: u64, volatility_data: Vec<VolatilityData>) -> (r:
        Result<(), Error>)
        requires
            old(self).wf(),
        ensures
            final(self).wf(),
            final(self).admin == old(self).admin,
            final(self).risk_params == old(self).risk_params,
            final(self).conservative_allocation == old(self).conservative_allocation,
            final(self).moderate_allocation == old(self).moderate_allocation,
            final(self).aggressive_allocation == old(self).aggressive_allocation,
            caller != old(self).admin ==> r == Err::<(), Error>(Error::Unauthorized) && *final(self)
                == *old(self),
            caller == old(self).admin ==> r == Ok::<(), Error>(()) && forall|a: u64|
                #[trigger] vol_of(final(self).volatility@, a) == merged_vol(
                    old(self).volatility@,
                    volatility_data@,
                    a,
                ),
    {
        if caller != self.admin {
            return Err(Error::Unauthorized);
        }
        let ghost start = self.volatility@;
        let updates = volatility_data;
        let mut i: usize = 0;
        while i < updates.len()
            invariant
                i <= updates@.len(),
                vol_unique(self.volatility@),
                self.admin == old(self).admin,
                self.risk_params == old(self).risk_params,
                self.conservative_allocation == old(self).conservative_allocation,
                self.moderate_allocation == old(self).moderate_allocation,
                self.aggressive_allocation == old(self).aggressive_allocation,
                forall|a: u64|
                    #[trigger] vol_of(self.volatility@, a) == merged_vol(
                        start,
                        updates@.take(i as int),
                        a,
                    ),
            decreases updates@.len() - i,
        {
            let d = updates[i];
            let ghost before = self.volatility@;
            Self::store_volatility(&mut self.volatility, d);
            proof {
                assert(updates@.take(i + 1).drop_last() =~= updates@.take(i as int));
                assert(updates@.take(i + 1).last() == d);
                assert forall|a: u64|
                    #[trigger] vol_of(self.volatility@, a) == merged_vol(
                        start,
                        updates@.take(i + 1),
                        a,
                    ) by {
                    if a != d.asset {
                        assert(vol_of(self.volatility@, a) == vol_of(before, a));
                    }
                }
            }
            i = i + 1;
        }
        proof {
            assert(updates@.take(updates@.len() as int) =~= updates@);
        }
        Ok(())
    }

    /// Store one volatility record, replacing the record of its asset or
    /// appending a new one.
    fn store_volatility(store: &mut Vec<VolatilityData>, data: VolatilityData)
        requires
            vol_unique(old(store)@),
        ensures
            vol_unique(final(store)@),
            vol_of(final(store)@, data.asset) == Some(data),
            forall|a: u64|
                a != data.asset ==> #[trigger] vol_of(final(store)@, a) == vol_of(old(store)@, a),
    {
        let mut i: usize = 0;
        while i < store.len()
            invariant
                i <= store@.len(),
                store@ == old(store)@,
                vol_unique(store@),
                forall|j: int| 0 <= j < i ==> (#[trigger] store@[j]).asset != data.asset,
            decreases store@.len() - i,
        {
            if store[i].asset == data.asset {
                proof {
                    lemma_vol_of_update(store@, i as int, data);
                }
                store.set(i, data);
                return ;
            }
            i = i + 1;
        }
        proof {
            lemma_vol_of_push(store@, data);
        }
        store.push(data);
    }

    /// Combine the four component scores into a risk assessment for the
    /// supplied market conditions.
    pub fn assess_risk(
        &self,
        profile: RiskProfile,
        current_allocation: AssetAllocation,
        market_conditions: &Vec<VolatilityData>,
    ) -> (r: RiskAssessment)
        requires
            market_conditions@.len() <= u32::MAX,
        ensures
            r.profile == profile,
            r.recommended_allocation == self.allocation_of(profile),
            r.volatility_score == volatility_score_value(market_conditions@),
            r.correlation_risk == 3000,
            r.liquidity_risk == liquidity_risk_value(current_allocation),
            r.risk_score == combined_risk_score(
                allocation_risk_value(current_allocation, self.allocation_of(profile)),
                volatility_score_value(market_conditions@),
                3000,
                liquidity_risk_value(current_allocation),
            ),
    {
        let recommended_allocation = self.get_allocation(profile);
        let allocation_risk = Self::calculate_allocation_risk(
            &current_allocation,
            &recommended_allocation,
        );
        let volatility_score = Self::calculate_volatility_score(market_conditions);
        let correlation_risk = Self::calculate_correlation_risk(market_conditions);
        let liquidity_risk = Self::calculate_liquidity_risk(&current_allocation);
        let weighted: u64 = allocation_risk as u64 * 30 + volatility_score as u64 * 40
            + correlation_risk as u64 * 20 + liquidity_risk as u64 * 10;
        proof {
            lemma_div_is_ordered(weighted as int, 100 * (u32::MAX as int), 100);
            lemma_div_multiples_vanish(u32::MAX as int, 100);
        }
        let risk_score = (weighted / 100) as u32;
        RiskAssessment {
            profile,
            recommended_allocation,
            risk_score,
            volatility_score,
            correlation_risk,
            liquidity_risk,
        }
    }

    /// Whether any asset's weight deviates from the profile's recommended
    /// allocation by more than the configured rebalance threshold.
    pub fn should_rebalance(&self, profile: RiskProfile, current_allocation: AssetAllocation) -> (r:
        bool)
        ensures
            r == (max_deviation_value(current_allocation, self.allocation_of(profile))
                > self.risk_params.rebalance_threshold),
    {
        let recommended = self.get_allocation(profile);
        let kale_deviation = Self::abs_diff(
            current_allocation.kale_percentage,
            recommended.kale_percentage,
        );
        let btc_deviation = Self::abs_diff(
            current_allocation.btc_percentage,
            recommended.btc_percentage,
        );
        let usdc_deviation = Self::abs_diff(
            current_allocation.usdc_percentage,
            recommended.usdc_percentage,
        );
        let xlm_deviation = Self::abs_diff(
            current_allocation.xlm_percentage,
            recommended.xlm_percentage,
        );
        let mut max_deviation = kale_deviation;
        if btc_deviation > max_deviation {
            max_deviation = btc_deviation;
        }
        if usdc_deviation > max_deviation {
            max_deviation = usdc_deviation;
        }
        if xlm_deviation > max_deviation {
            max_deviation = xlm_deviation;
        }
        max_deviation > self.risk_params.rebalance_threshold
    }

    /// The current risk parameters.
    pub fn get_risk_parameters(&self) -> (p: RiskParameters)
        ensures
            p == self.risk_params,
    {
        self.risk_params
    }

    /// Replace the risk parameter singleton, admin only.
    pub fn update_risk_parameters(&mut self, caller: u64, risk_params: RiskParameters) -> (r:
        Result<(), Error>)
        requires
            old(self).wf(),
        ensures
            final(self).wf(),
            caller != old(self).admin ==> r == Err::<(), Error>(Error::Unauthorized) && *final(self)
                == *old(self),
            caller == old(self).admin ==> r == Ok::<(), Error>(()) && *final(self)
                == (RiskManagerContract { risk_params, ..*old(self) }),
    {
        if caller != self.admin {
            return Err(Error::Unauthorized);
        }
        self.risk_params = risk_params;
        Ok(())
    }

    /// Mean absolute per-asset deviation between two allocations.
    pub fn calculate_allocation_risk(
        current: &AssetAllocation,
        recommended: &AssetAllocation,
    ) -> (r: u32)
        ensures
            r == allocation_risk_value(*current, *recommended),
    {
        let kale_diff = Self::abs_diff(current.kale_percentage, recommended.kale_percentage);
        let btc_diff = Self::abs_diff(current.btc_percentage, recommended.btc_percentage);
        let usdc_diff = Self::abs_diff(current.usdc_percentage, recommended.usdc_percentage);
        let xlm_diff = Self::abs_diff(current.xlm_percentage, recommended.xlm_percentage);
        let total: u64 = kale_diff as u64 + btc_diff as u64 + usdc_diff as u64 + xlm_diff as u64;
        proof {
            lemma_div_is_ordered(total as int, 4 * (u32::MAX as int), 4);
            lemma_div_multiples_vanish(u32::MAX as int, 4);
        }
        (total / 4) as u32
    }

    /// Mean daily volatility of the samples, or the neutral score 5000
    /// when none were supplied.
    pub fn calculate_volatility_score(market_conditions: &Vec<VolatilityData>) -> (r: u32)
        requires
            market_conditions@.len() <= u32::MAX,
        ensures
            r == volatility_score_value(market_conditions@),
    {
        let n = market_conditions.len();
        if n == 0 {
            return 5000;
        }
        let mut total_volatility: u64 = 0;
        let mut i: usize = 0;
        while i < n
            invariant
                n == market_conditions@.len() <= u32::MAX,
                i <= n,
                total_volatility == sum_daily_volatility(market_conditions@.take(i as int)),
                total_volatility <= i * (u32::MAX as int),
            decreases n - i,
        {
            let d = market_conditions[i];
            proof {
                assert(market_conditions@.take(i + 1).drop_last() =~= market_conditions@.take(
                    i as int,
                ));
                assert(market_conditions@.take(i + 1).last() == d);
            }
            total_volatility = total_volatility + d.daily_volatility as u64;
            i = i + 1;
        }
        proof {
            assert(market_conditions@.take(n as int) =~= market_conditions@);
            lemma_div_is_ordered(total_volatility as int, (n as int) * (u32::MAX as int), n as int);
            lemma_div_multiples_vanish(u32::MAX as int, n as int);
            assert((n as int) * (u32::MAX as int) == (u32::MAX as int) * (n as int)) by (nonlinear_arith);
        }
        (total_volatility / n as u64) as u32
    }

    /// Cross-asset correlation estimation is a placeholder in this
    /// revision: a fixed 3000 on the 0-10000 scale, regardless of the
    /// supplied market conditions.
    pub fn calculate_correlation_risk(market_conditions: &Vec<VolatilityData>) -> (r: u32)
        ensures
            r == 3000,
    {
        3000
    }

    /// Tiered liquidity heuristic over the stable and volatile weights.
    pub fn calculate_liquidity_risk(allocation: &AssetAllocation) -> (r: u32)
        ensures
            r == liquidity_risk_value(*allocation),
    {
        let stable_allocation = allocation.usdc_percentage;
        let volatile_allocation = allocation.kale_percentage;
        if stable_allocation > 5000 {
            1000
        } else if volatile_allocation > 5000 {
            8000
        } else {
            4000
        }
    }

    /// Absolute difference of two basis-point weights.
    pub fn abs_diff(a: u32, b: u32) -> (r: u32)
        ensures
            r == abs_diff_value(a, b),
    {
        if a > b {
            a - b
        } else {
            b - a
        }
    }
}

/// An allocation accepted by `update_allocation` is exactly what
/// `get_allocation` serves afterward: storing a valid allocation for a
/// profile makes it that profile's recommendation and leaves every other
/// profile's recommendation unchanged.
pub proof fn lemma_update_then_get_allocation(
    mgr: RiskManagerContract,
    profile: RiskProfile,
    allocation: AssetAllocation,
)
    requires
        allocation_valid(allocation),
    ensures
        mgr.with_allocation(profile, allocation).allocation_of(profile) == allocation,
        forall|p: RiskProfile|
            p != profile ==> #[trigger] mgr.with_allocation(profile, allocation).allocation_of(p)
                == mgr.allocation_of(p),
{
}

} // verus!
