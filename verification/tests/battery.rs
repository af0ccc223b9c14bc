use overpass::error::SystemErrorType;
use overpass::storage_node::battery::charging::{reward_multiplier, BatteryChargingSystem, ChargeWait};
use overpass::storage_node::battery::monitoring::{
    check_battery_status, recover_from_suspension, should_resume, MonitorAction,
};
use overpass::storage_node::battery::rewards::{RewardDistributor, RewardTier};
use overpass::storage_node::storage_and_retreival::StorageAndRetrievalMetrics;
use overpass::storage_node::storage_node_contract::BatteryConfig;
use overpass::storage_node::sync::SynchronizationManager;

fn config() -> BatteryConfig {
    BatteryConfig {
        max_battery: 100,
        min_battery: 20,
        charge_rate: 5,
        discharge_rate: 10,
        charge_cooldown: 50,
        max_charge_attempts: 3,
        charge_wait_ms: 250,
    }
}

#[test]
fn new_battery_is_full() {
    let b = BatteryChargingSystem::new(config(), 5000, 7);
    assert_eq!(b.battery_level, 100);
    assert_eq!(b.get_reward_multiplier(), 100);
    assert_eq!(b.get_stake_amount(), 5000);
    assert_eq!(b.last_charge_time(), 7);
}

#[test]
fn processing_discharges_after_cooldown() {
    let mut b = BatteryChargingSystem::new(config(), 1, 0);
    assert_eq!(b.charge_for_processing(10), Err(SystemErrorType::SpendingLimitExceeded));
    assert_eq!(b.battery_level, 100);
    assert_eq!(b.charge_for_processing(50), Ok(()));
    assert_eq!(b.battery_level, 90);
    assert_eq!(b.get_reward_multiplier(), 90);
    assert_eq!(b.charge_for_processing(60), Ok(()));
    assert_eq!(b.battery_level, 80);
    assert_eq!(b.get_reward_multiplier(), 80);
    assert_eq!(b.charge_for_processing(70), Ok(()));
    assert_eq!(b.get_reward_multiplier(), 0);
    b.battery_level = 19;
    assert_eq!(b.charge_for_processing(80), Err(SystemErrorType::InsufficientBalance));
    assert_eq!(b.battery_level, 19);
}

#[test]
fn discharge_wraps_like_an_atomic() {
    let mut cfg = config();
    cfg.min_battery = 0;
    cfg.charge_cooldown = 0;
    let mut b = BatteryChargingSystem::new(cfg, 1, 0);
    b.battery_level = 3;
    assert_eq!(b.charge_for_processing(0), Ok(()));
    assert_eq!(b.battery_level, u64::MAX - 6);
}

#[test]
fn recharge_is_capped_and_rate_limited() {
    let mut b = BatteryChargingSystem::new(config(), 1, 0);
    b.battery_level = 30;
    assert_eq!(b.recharge(2, 49), Err(SystemErrorType::SpendingLimitExceeded));
    assert_eq!(b.recharge(2, 100), Ok(()));
    assert_eq!(b.battery_level, 40);
    assert_eq!(b.last_charge_time(), 100);
    assert_eq!(b.get_reward_multiplier(), 0);
    assert_eq!(b.recharge(100, 200), Ok(()));
    assert_eq!(b.battery_level, 100);
    assert_eq!(b.get_reward_multiplier(), 100);
    // at the maximum nothing changes, not even the recharge time
    assert_eq!(b.recharge(1, 300), Ok(()));
    assert_eq!(b.last_charge_time(), 200);
}

#[test]
fn multiplier_thresholds() {
    assert_eq!(reward_multiplier(98, 100), 100);
    assert_eq!(reward_multiplier(97, 100), 97);
    assert_eq!(reward_multiplier(80, 100), 80);
    assert_eq!(reward_multiplier(79, 100), 0);
    assert_eq!(reward_multiplier(49, 50), 100);
    assert_eq!(reward_multiplier(41, 50), 82);
    assert_eq!(reward_multiplier(5, 0), 100);
    assert_eq!(reward_multiplier(0, 0), 0);
    assert_eq!(reward_multiplier(250, 100), 100);
}

#[test]
fn waiting_for_charge() {
    let mut b = BatteryChargingSystem::new(config(), 1, 0);
    assert_eq!(b.wait_for_sufficient_charge_step(0), ChargeWait::Ready);
    b.battery_level = 10;
    assert!(!b.has_sufficient_charge());
    assert_eq!(b.wait_for_sufficient_charge_step(0), ChargeWait::Wait(250));
    assert_eq!(b.wait_for_sufficient_charge_step(3), ChargeWait::Failed(SystemErrorType::SpendingLimitExceeded));
    b.battery_level = 0;
    assert_eq!(b.wait_for_sufficient_charge_step(1), ChargeWait::Failed(SystemErrorType::InsufficientBalance));
}

#[test]
fn rewards_follow_the_charge() {
    let mut b = BatteryChargingSystem::new(config(), 1, 0);
    let d = RewardDistributor::new(b.clone());
    assert_eq!(d.get_reward_tier(), RewardTier::Maximum);
    assert_eq!(d.calculate_reward(1000), 100);
    assert_eq!(d.distribute_rewards(1000), 100);
    b.battery_level = 90;
    let d = RewardDistributor::new(b.clone());
    assert_eq!(d.get_reward_tier(), RewardTier::Proportional);
    assert_eq!(d.calculate_reward(1000), 90);
    b.battery_level = 50;
    let d = RewardDistributor::new(b.clone());
    assert_eq!(d.get_reward_tier(), RewardTier::NoReward);
    assert_eq!(d.calculate_reward(1000), 0);
    b.battery_level = 100;
    let d = RewardDistributor::new(b);
    assert_eq!(d.calculate_reward(u64::MAX), u64::MAX / 100);
}

#[test]
fn monitor_decisions() {
    let peers = [[1u8; 32], [2u8; 32]];
    let mut b = BatteryChargingSystem::new(config(), 1, 0);
    assert_eq!(check_battery_status(&b, &peers), vec![]);
    b.battery_level = 5;
    assert_eq!(
        check_battery_status(&b, &peers),
        vec![MonitorAction::LowBatteryAlert([1u8; 32]), MonitorAction::LowBatteryAlert([2u8; 32])]
    );
    assert!(should_resume(&b));
    b.battery_level = 0;
    assert_eq!(
        check_battery_status(&b, &peers),
        vec![
            MonitorAction::LowBatteryAlert([1u8; 32]),
            MonitorAction::LowBatteryAlert([2u8; 32]),
            MonitorAction::SuspensionNotice,
            MonitorAction::Recharge(2),
        ]
    );
    assert!(!should_resume(&b));
    assert_eq!(check_battery_status(&b, &[]), vec![MonitorAction::SuspensionNotice, MonitorAction::Recharge(0)]);
}

#[test]
fn recovery_after_suspension() {
    let mut b = BatteryChargingSystem::new(config(), 1, 0);
    b.battery_level = 0;
    assert_eq!(recover_from_suspension(&mut b, 2, 10), Err(SystemErrorType::SpendingLimitExceeded));
    assert_eq!(b.battery_level, 0);
    assert_eq!(recover_from_suspension(&mut b, 2, 60), Ok(true));
    assert_eq!(b.battery_level, 10);
    let mut c = BatteryChargingSystem::new(config(), 1, 0);
    c.battery_level = 0;
    assert_eq!(recover_from_suspension(&mut c, 0, 60), Ok(false));
    assert_eq!(c.battery_level, 0);
}

#[test]
fn synchronization_boost_rises_only() {
    let mut m = SynchronizationManager::new(1000, 2, 10);
    assert_eq!(m.check_synchronization_boost(1), None);
    assert_eq!(m.check_synchronization_boost(5), Some(3));
    m.record_boost(3);
    assert_eq!(m.get_synchronization_boost(), 3);
    assert_eq!(m.check_synchronization_boost(4), None);
    assert_eq!(m.check_synchronization_boost(50), Some(10));
    assert_eq!(m.get_interval_ms(), 1000);
}

#[test]
fn metrics_start_at_zero() {
    let m = StorageAndRetrievalMetrics::new();
    assert_eq!(m, StorageAndRetrievalMetrics::default());
    assert_eq!((m.store_boc, m.store_proof, m.retrieve_boc, m.retrieve_proof), (0, 0, 0, 0));
}
