//! Rewards of a storage node, by the charge of its battery: a tenth of the
//! transaction fees at 98% and above, a share of that tenth in proportion to
//! the charge from 80% up, nothing below.

use vstd::prelude::*;
use crate::storage_node::battery::charging::BatteryChargingSystem;

verus! {

/// The reward tiers.
#[derive(Clone, Copy, Debug, PartialEq, Eq, Structural)]
pub enum RewardTier {
    Maximum,
    Proportional,
    NoReward,
}

/// The tier of a battery at `level` out of `max`.
pub open spec fn reward_tier_for(level: u64, max: u64) -> RewardTier {
    if 100 * level >= 98 * max {
        RewardTier::Maximum
    } else if 100 * level >= 80 * max {
        RewardTier::Proportional
    } else {
        RewardTier::NoReward
    }
}

/// A tenth of the fees, with the multiplication saturating at `u64::MAX`.
pub open spec fn base_reward(fees: u64) -> int {
    (if 10 * fees > u64::MAX { u64::MAX as int } else { 10 * fees }) / 100
}

/// The reward for `fees` with a battery at `level` out of `max`.
pub open spec fn reward_for(fees: u64, level: u64, max: u64) -> u64 {
    match reward_tier_for(level, max) {
        RewardTier::Maximum => base_reward(fees) as u64,
        RewardTier::Proportional => ((base_reward(fees) * level) / (max as int)) as u64,
        RewardTier::NoReward => 0,
    }
}

/// A reward is never more than a tenth of the fees, and reaches it at the
/// top tier.
pub proof fn lemma_reward_at_most_a_tenth(fees: u64, level: u64, max: u64)
    ensures
        reward_for(fees, level, max) <= base_reward(fees),
        reward_tier_for(level, max) == RewardTier::Maximum ==> reward_for(fees, level, max)
            == base_reward(fees),
        reward_tier_for(level, max) == RewardTier::NoReward ==> reward_for(fees, level, max) == 0,
{
    let b = base_reward(fees);
    assert(0 <= b <= u64::MAX);
    if reward_tier_for(level, max) == RewardTier::Proportional {
        assert(level < max);
        let q = (b * level) / (max as int);
        assert(0 <= q <= b) by (nonlinear_arith)
            requires
                0 <= b,
                level < max,
                max > 0,
                q == (b * level) / (max as int),
        ;
    }
}

/// The tiers by charge percentage: below 80% of the maximum no reward at
/// all; from 80% up to below 98% the tenth of the fees scaled by the charge;
/// from 98% the full tenth.
pub proof fn lemma_reward_tiers_by_percentage(fees: u64, level: u64, max: u64)
    ensures
        100 * level < 80 * max ==> reward_tier_for(level, max) == RewardTier::NoReward
            && reward_for(fees, level, max) == 0,
        80 * max <= 100 * level < 98 * max ==> reward_tier_for(level, max)
            == RewardTier::Proportional && reward_for(fees, level, max) == (base_reward(fees) * level)
            / (max as int),
        100 * level >= 98 * max ==> reward_tier_for(level, max) == RewardTier::Maximum
            && reward_for(fees, level, max) == base_reward(fees),
{
    lemma_reward_at_most_a_tenth(fees, level, max);
    if 80 * max <= 100 * level < 98 * max {
        let b = base_reward(fees);
        assert(0 <= b <= u64::MAX);
        let q = (b * level) / (max as int);
        assert(0 <= q <= b) by (nonlinear_arith)
            requires
                0 <= b,
                level < max,
                max > 0,
                q == (b * level) / (max as int),
        ;
    }
}

/// `(a * k) / (d * k) == a / d` for positive `d` and `k`.
proof fn lemma_div_common_factor(a: int, d: int, k: int)
    requires
        a >= 0,
        d > 0,
        k > 0,
    ensures
        (a * k) / (d * k) == a / d,
{
    let q = a / d;
    let r = a % d;
    vstd::arithmetic::div_mod::lemma_fundamental_div_mod(a, d);
    assert(0 <= r < d);
    assert(a * k == q * (d * k) + r * k && 0 <= r * k < d * k) by (nonlinear_arith)
        requires
            a == d * q + r,
            0 <= r < d,
            k > 0,
    ;
    vstd::arithmetic::div_mod::lemma_fundamental_div_mod_converse(a * k, d * k, q, r * k);
}

/// The tier and the reward depend on the level only through its ratio to
/// the maximum: scaling both by the same factor changes neither.
pub proof fn lemma_reward_depends_on_ratio(fees: u64, level: u64, max: u64, k: u64)
    requires
        k > 0,
        k * level <= u64::MAX,
        k * max <= u64::MAX,
    ensures
        reward_tier_for((k * level) as u64, (k * max) as u64) == reward_tier_for(level, max),
        reward_for(fees, (k * level) as u64, (k * max) as u64) == reward_for(fees, level, max),
{
    let kl = (k * level) as u64;
    let km = (k * max) as u64;
    assert(100 * kl >= 98 * km <==> 100 * level >= 98 * max) by (nonlinear_arith)
        requires
            kl == k * level,
            km == k * max,
            k > 0,
    ;
    assert(100 * kl >= 80 * km <==> 100 * level >= 80 * max) by (nonlinear_arith)
        requires
            kl == k * level,
            km == k * max,
            k > 0,
    ;
    if reward_tier_for(level, max) == RewardTier::Proportional {
        let b = base_reward(fees);
        assert(b >= 0);
        assert(max > 0);
        lemma_div_common_factor(b * level, max as int, k as int);
        assert(b * kl == (b * level) * k && km == (max as int) * k) by (nonlinear_arith)
            requires
                kl == k * level,
                km == k * max,
        ;
        assert(b * level >= 0) by (nonlinear_arith)
            requires
                b >= 0,
        ;
    }
}

/// Distributes rewards according to a battery.
pub struct RewardDistributor {
    battery_system: BatteryChargingSystem,
}

impl RewardDistributor {
    /// The battery the rewards follow.
    pub closed spec fn battery(&self) -> BatteryChargingSystem {
        self.battery_system
    }

    /// A distributor following the given battery.
    pub fn new(battery_system: BatteryChargingSystem) -> (r: RewardDistributor)
        ensures
            r.battery() == battery_system,
    {
        RewardDistributor { battery_system }
    }

    /// The reward for the given fees (see `reward_for`).
    pub fn calculate_reward(&self, transaction_fees: u64) -> (r: u64)
        ensures
            r == reward_for(
                transaction_fees,
                self.battery().battery_level,
                self.battery().spec_config().max_battery,
            ),
    {
        let level = self.battery_system.battery_level;
        let max = self.battery_system.config().max_battery;
        let tenfold = if transaction_fees <= u64::MAX / 10 {
            transaction_fees * 10
        } else {
            u64::MAX
        };
        let base = tenfold / 100;
        let scaled = (level as u128) * 100;
        if scaled >= (max as u128) * 98 {
            base
        } else if scaled >= (max as u128) * 80 {
            assert(max > 0);
            assert(level < max);
            assert((base as u128) * (level as u128) <= 0xffff_ffff_ffff_ffffu128
                * 0xffff_ffff_ffff_ffffu128) by (nonlinear_arith)
                requires
                    base <= 0xffff_ffff_ffff_ffffu64,
                    level <= 0xffff_ffff_ffff_ffffu64,
            ;
            let product = (base as u128) * (level as u128);
            let share = product / (max as u128);
            assert(share <= base) by (nonlinear_arith)
                requires
                    product == base * level,
                    share == product / (max as u128),
                    level < max,
                    max > 0,
            ;
            share as u64
        } else {
            0
        }
    }

    /// Pays out the reward for the given fees, and gives it.
    pub fn distribute_rewards(&self, transaction_fees: u64) -> (r: u64)
        ensures
            r == reward_for(
                transaction_fees,
                self.battery().battery_level,
                self.battery().spec_config().max_battery,
            ),
    {
        let reward = self.calculate_reward(transaction_fees);
        if reward > 0 {
            reward
        } else {
            0
        }
    }

    /// The tier of the battery (see `reward_tier_for`).
    pub fn get_reward_tier(&self) -> (r: RewardTier)
        ensures
            r == reward_tier_for(self.battery().battery_level, self.battery().spec_config().max_battery),
    {
        let scaled = (self.battery_system.battery_level as u128) * 100;
        let max = self.battery_system.config().max_battery as u128;
        if scaled >= max * 98 {
            RewardTier::Maximum
        } else if scaled >= max * 80 {
            RewardTier::Proportional
        } else {
            RewardTier::NoReward
        }
    }
}

} // verus!
