//! The battery of a storage node: processing discharges it, synchronisation
//! recharges it, and its charge sets the node's reward multiplier.
//!
//! Charge percentages are exact: a level `l` out of a maximum `m` is at or
//! above `p` percent when `100 * l >= p * m`.

use vstd::prelude::*;
use crate::error::SystemErrorType;
use crate::storage_node::storage_node_contract::BatteryConfig;

verus! {

/// The reward multiplier, in percent, for a battery at `level` out of `max`:
/// 100 at 98% and above, the whole percentage from 80% up, 0 below. An empty
/// maximum counts any charge as full.
pub open spec fn reward_multiplier_for(level: u64, max: u64) -> u64 {
    if max == 0 {
        if level > 0 {
            100
        } else {
            0
        }
    } else if 100 * level >= 98 * max {
        100
    } else if 100 * level >= 80 * max {
        ((100 * level) / (max as int)) as u64
    } else {
        0
    }
}

/// Computes `reward_multiplier_for`.
pub fn reward_multiplier(level: u64, max: u64) -> (r: u64)
    ensures
        r == reward_multiplier_for(level, max),
{
    if max == 0 {
        if level > 0 {
            100
        } else {
            0
        }
    } else {
        let scaled = (level as u128) * 100;
        if scaled >= (max as u128) * 98 {
            100
        } else if scaled >= (max as u128) * 80 {
            assert(scaled / (max as u128) < 98) by (nonlinear_arith)
                requires
                    scaled < (max as u128) * 98,
                    max > 0,
            ;
            (scaled / (max as u128)) as u64
        } else {
            0
        }
    }
}

/// The level after taking `rate` from `level`, wrapping below zero.
pub open spec fn discharged(level: u64, rate: u64) -> u64 {
    if level >= rate {
        (level - rate) as u64
    } else {
        (level - rate + 0x1_0000_0000_0000_0000) as u64
    }
}

/// The level after adding `charge` to `level`, capped at `max`.
pub open spec fn capped_charge(level: u64, charge: int, max: u64) -> int {
    if level + charge < max {
        level + charge
    } else {
        max as int
    }
}

/// The reward multiplier is 0, or a percentage from 80 to 100.
pub proof fn lemma_reward_multiplier_range(level: u64, max: u64)
    ensures
        reward_multiplier_for(level, max) == 0 || 80 <= reward_multiplier_for(level, max) <= 100,
{
    if max > 0 && 100 * level < 98 * max && 100 * level >= 80 * max {
        let q = (100 * level) / (max as int);
        assert(80 <= q < 98) by (nonlinear_arith)
            requires
                max > 0,
                100 * level < 98 * max,
                100 * level >= 80 * max,
                q == (100 * level) / (max as int),
        ;
    }
}

/// A recharge that succeeds leaves the level at most at the maximum, and
/// never below where it was when it was under the maximum.
pub proof fn lemma_capped_charge_bounds(level: u64, charge: int, max: u64)
    requires
        level < max,
        charge >= 0,
    ensures
        level <= capped_charge(level, charge, max) <= max,
{
}

/// The battery of a storage node.
#[derive(Clone, Debug)]
pub struct BatteryChargingSystem {
    pub battery_level: u64,
    pub config: BatteryConfig,
    pub last_charge_time: u64,
    pub reward_multiplier: u64,
    pub stake_amount: u64,
}

impl BatteryChargingSystem {
    /// The battery's configuration.
    pub open spec fn spec_config(&self) -> BatteryConfig {
        self.config
    }

    /// The time of the last recharge (or of creation).
    pub open spec fn spec_last_charge_time(&self) -> u64 {
        self.last_charge_time
    }

    /// A full battery created at time `now`, with a multiplier of 100.
    pub open spec fn new_spec(config: BatteryConfig, stake_amount: u64, now: u64) -> BatteryChargingSystem {
        BatteryChargingSystem {
            battery_level: config.max_battery,
            config,
            last_charge_time: now,
            reward_multiplier: 100,
            stake_amount,
        }
    }

    /// A full battery created at time `now`, with a multiplier of 100.
    pub fn new(config: BatteryConfig, stake_amount: u64, now: u64) -> (r: BatteryChargingSystem)
        ensures
            r.battery_level == config.max_battery,
            r.spec_config() == config,
            r.spec_last_charge_time() == now,
            r.reward_multiplier == 100,
            r.stake_amount == stake_amount,
            r == Self::new_spec(config, stake_amount, now),
    {
        BatteryChargingSystem {
            battery_level: config.max_battery,
            config,
            last_charge_time: now,
            reward_multiplier: 100,
            stake_amount,
        }
    }

    /// The battery's configuration.
    pub fn config(&self) -> (r: BatteryConfig)
        ensures
            r == self.spec_config(),
    {
        self.config
    }

    /// The time of the last recharge (or of creation).
    pub fn last_charge_time(&self) -> (r: u64)
        ensures
            r == self.spec_last_charge_time(),
    {
        self.last_charge_time
    }

    /// Discharges the battery for one processing step at time `now`:
    /// `InsufficientBalance` below the minimum level, `SpendingLimitExceeded`
    /// within the cooldown after the last recharge; otherwise the level drops
    /// by the discharge rate (wrapping below zero, as an atomic subtraction
    /// does) and the multiplier follows the new level.
    pub fn charge_for_processing(&mut self, now: u64) -> (r: Result<(), SystemErrorType>)
        requires
            old(self).spec_last_charge_time() <= now,
        ensures
            final(self).spec_config() == old(self).spec_config(),
            final(self).spec_last_charge_time() == old(self).spec_last_charge_time(),
            final(self).stake_amount == old(self).stake_amount,
            old(self).battery_level < old(self).spec_config().min_battery ==> r == Err::<
                (),
                SystemErrorType,
            >(SystemErrorType::InsufficientBalance) && *final(self) == *old(self),
            old(self).battery_level >= old(self).spec_config().min_battery && now
                - old(self).spec_last_charge_time() < old(self).spec_config().charge_cooldown ==> r
                == Err::<(), SystemErrorType>(SystemErrorType::SpendingLimitExceeded) && *final(self)
                == *old(self),
            old(self).battery_level >= old(self).spec_config().min_battery && now
                - old(self).spec_last_charge_time() >= old(self).spec_config().charge_cooldown ==> r
                is Ok && final(self).battery_level == discharged(
                old(self).battery_level,
                old(self).spec_config().discharge_rate,
            ) && final(self).reward_multiplier
                == reward_multiplier_for(final(self).battery_level, old(self).spec_config().max_battery),
    {
        if self.battery_level < self.config.min_battery {
            return Err(SystemErrorType::InsufficientBalance);
        }
        if now - self.last_charge_time < self.config.charge_cooldown {
            return Err(SystemErrorType::SpendingLimitExceeded);
        }
        self.battery_level = self.battery_level.wrapping_sub(self.config.discharge_rate);
        self.update_reward_multiplier();
        Ok(())
    }

    /// Recharges the battery at time `now` from `synchronized_nodes`
    /// synchronised peers: `SpendingLimitExceeded` within the cooldown; no
    /// change at or above the maximum; otherwise the level rises by the
    /// charge rate per peer, capped at the maximum, the recharge time becomes
    /// `now` and the multiplier follows the new level.
    pub fn recharge(&mut self, synchronized_nodes: u64, now: u64) -> (r: Result<(), SystemErrorType>)
        requires
            old(self).spec_last_charge_time() <= now,
            old(self).spec_config().charge_rate * synchronized_nodes <= u64::MAX,
        ensures
            final(self).spec_config() == old(self).spec_config(),
            final(self).stake_amount == old(self).stake_amount,
            now - old(self).spec_last_charge_time() < old(self).spec_config().charge_cooldown ==> r
                == Err::<(), SystemErrorType>(SystemErrorType::SpendingLimitExceeded) && *final(self)
                == *old(self),
            now - old(self).spec_last_charge_time() >= old(self).spec_config().charge_cooldown
                && old(self).battery_level >= old(self).spec_config().max_battery ==> r is Ok
                && *final(self) == *old(self),
            now - old(self).spec_last_charge_time() >= old(self).spec_config().charge_cooldown
                && old(self).battery_level < old(self).spec_config().max_battery ==> r is Ok
                && final(self).battery_level == capped_charge(
                old(self).battery_level,
                old(self).spec_config().charge_rate * synchronized_nodes,
                old(self).spec_config().max_battery,
            ) && final(self).spec_last_charge_time() == now && final(self).reward_multiplier
                == reward_multiplier_for(final(self).battery_level, old(self).spec_config().max_battery),
    {
        if now - self.last_charge_time < self.config.charge_cooldown {
            return Err(SystemErrorType::SpendingLimitExceeded);
        }
        let current_level = self.battery_level;
        if current_level >= self.config.max_battery {
            return Ok(());
        }
        let charge_rate = self.config.charge_rate * synchronized_nodes;
        let new_level = current_level.saturating_add(charge_rate);
        let capped_level = if new_level < self.config.max_battery {
            new_level
        } else {
            self.config.max_battery
        };
        self.battery_level = capped_level;
        self.last_charge_time = now;
        self.update_reward_multiplier();
        Ok(())
    }

    /// Sets the multiplier from the current level.
    fn update_reward_multiplier(&mut self)
        ensures
            final(self).reward_multiplier == reward_multiplier_for(
                old(self).battery_level,
                old(self).spec_config().max_battery,
            ),
            final(self).battery_level == old(self).battery_level,
            final(self).spec_config() == old(self).spec_config(),
            final(self).spec_last_charge_time() == old(self).spec_last_charge_time(),
            final(self).stake_amount == old(self).stake_amount,
    {
        self.reward_multiplier = reward_multiplier(self.battery_level, self.config.max_battery);
    }

    /// The multiplier.
    pub fn get_reward_multiplier(&self) -> (r: u64)
        ensures
            r == self.reward_multiplier,
    {
        self.reward_multiplier
    }

    /// The stake.
    pub fn get_stake_amount(&self) -> (r: u64)
        ensures
            r == self.stake_amount,
    {
        self.stake_amount
    }

    /// Whether the level is at or above the minimum.
    pub fn has_sufficient_charge(&self) -> (r: bool)
        ensures
            r == (self.battery_level >= self.spec_config().min_battery),
    {
        self.battery_level >= self.config.min_battery
    }

    /// One step of waiting for a sufficient charge, after `attempts` waits:
    /// done when the level reaches the minimum; `SpendingLimitExceeded` once
    /// the attempts are used up; `InsufficientBalance` on an empty battery;
    /// otherwise wait `charge_wait_ms` and try again.
    pub fn wait_for_sufficient_charge_step(&self, attempts: u64) -> (r: ChargeWait)
        ensures
            self.battery_level >= self.spec_config().min_battery ==> r == ChargeWait::Ready,
            self.battery_level < self.spec_config().min_battery && attempts
                >= self.spec_config().max_charge_attempts ==> r == ChargeWait::Failed(
                SystemErrorType::SpendingLimitExceeded,
            ),
            self.battery_level < self.spec_config().min_battery && attempts
                < self.spec_config().max_charge_attempts && self.battery_level == 0 ==> r
                == ChargeWait::Failed(SystemErrorType::InsufficientBalance),
            self.battery_level < self.spec_config().min_battery && attempts
                < self.spec_config().max_charge_attempts && self.battery_level > 0 ==> r
                == ChargeWait::Wait(self.spec_config().charge_wait_ms),
    {
        if self.battery_level >= self.config.min_battery {
            ChargeWait::Ready
        } else if attempts >= self.config.max_charge_attempts {
            ChargeWait::Failed(SystemErrorType::SpendingLimitExceeded)
        } else if self.battery_level == 0 {
            ChargeWait::Failed(SystemErrorType::InsufficientBalance)
        } else {
            ChargeWait::Wait(self.config.charge_wait_ms)
        }
    }
}

/// What to do next while waiting for a sufficient charge.
#[derive(Clone, Copy, Debug, PartialEq, Eq, Structural)]
pub enum ChargeWait {
    Ready,
    Wait(u64),
    Failed(SystemErrorType),
}

} // verus!
