//! The decisions of the battery monitor: which peers to alert of a low
//! battery, when to suspend and recharge and from how many peers, and when
//! to resume.

use vstd::prelude::*;
use crate::error::SystemErrorType;
use crate::storage_node::battery::charging::{BatteryChargingSystem, capped_charge, reward_multiplier_for};

verus! {

/// One step of a battery check, to be carried out in order.
#[derive(Clone, Copy, Debug, PartialEq, Eq)]
pub enum MonitorAction {
    /// Send the peer a low-battery alert.
    LowBatteryAlert([u8; 32]),
    /// Send the suspension notice.
    SuspensionNotice,
    /// Wait the suspension period, then recharge from the given number of
    /// synchronised peers (see `recover_from_suspension`), and send the
    /// resume notice when it says so.
    Recharge(u64),
}

/// A low-battery alert for each peer, in order.
pub open spec fn low_battery_alerts(peers: Seq<[u8; 32]>) -> Seq<MonitorAction> {
    peers.map_values(|p: [u8; 32]| MonitorAction::LowBatteryAlert(p))
}

/// The steps of one check of a battery at `level` with minimum `min` and the
/// given peers: first an alert to every peer when the level is below the
/// minimum; then, on an empty battery, the suspension notice and a recharge
/// from as many peers as there are.
pub open spec fn monitor_plan(level: u64, min: u64, peers: Seq<[u8; 32]>) -> Seq<MonitorAction> {
    (if level < min {
        low_battery_alerts(peers)
    } else {
        Seq::empty()
    }) + (if level == 0 {
        seq![MonitorAction::SuspensionNotice, MonitorAction::Recharge(peers.len() as u64)]
    } else {
        Seq::empty()
    })
}

/// The steps of one check of the battery with the given peers (see
/// `monitor_plan`).
pub fn check_battery_status(battery_system: &BatteryChargingSystem, peers: &[[u8; 32]]) -> (r: Vec<
    MonitorAction,
>)
    ensures
        r@ == monitor_plan(
            battery_system.battery_level,
            battery_system.spec_config().min_battery,
            peers@,
        ),
{
    let current_level = battery_system.battery_level;
    let mut actions: Vec<MonitorAction> = Vec::new();
    if current_level < battery_system.config().min_battery {
        let mut i: usize = 0;
        while i < peers.len()
            invariant
                i <= peers@.len(),
                actions@ == low_battery_alerts(peers@.take(i as int)),
            decreases peers@.len() - i,
        {
            actions.push(MonitorAction::LowBatteryAlert(peers[i]));
            i = i + 1;
            assert(actions@ =~= low_battery_alerts(peers@.take(i as int)));
        }
        assert(peers@.take(peers@.len() as int) =~= peers@);
    }
    let ghost alerts = actions@;
    if current_level == 0 {
        actions.push(MonitorAction::SuspensionNotice);
        actions.push(MonitorAction::Recharge(peers.len() as u64));
        assert(actions@ =~= alerts + seq![
            MonitorAction::SuspensionNotice,
            MonitorAction::Recharge(peers@.len() as u64),
        ]);
    } else {
        assert(actions@ =~= alerts + Seq::<MonitorAction>::empty());
    }
    actions
}

/// Whether a node may resume after its recharge: it holds some charge again.
pub fn should_resume(battery_system: &BatteryChargingSystem) -> (r: bool)
    ensures
        r == (battery_system.battery_level > 0),
{
    battery_system.battery_level > 0
}

/// After the suspension period, recharges the battery at time `now` from
/// `synchronized_nodes` peers (see `BatteryChargingSystem::recharge`) and
/// says whether to send the resume notice: when the battery holds some
/// charge again. A refused recharge gives its error.
pub fn recover_from_suspension(
    battery_system: &mut BatteryChargingSystem,
    synchronized_nodes: u64,
    now: u64,
) -> (r: Result<bool, SystemErrorType>)
    requires
        old(battery_system).spec_last_charge_time() <= now,
        old(battery_system).spec_config().charge_rate * synchronized_nodes <= u64::MAX,
    ensures
        final(battery_system).spec_config() == old(battery_system).spec_config(),
        final(battery_system).stake_amount == old(battery_system).stake_amount,
        now - old(battery_system).spec_last_charge_time() < old(
            battery_system,
        ).spec_config().charge_cooldown ==> r == Err::<bool, SystemErrorType>(
            SystemErrorType::SpendingLimitExceeded,
        ) && *final(battery_system) == *old(battery_system),
        now - old(battery_system).spec_last_charge_time() >= old(
            battery_system,
        ).spec_config().charge_cooldown && old(battery_system).battery_level >= old(
            battery_system,
        ).spec_config().max_battery ==> *final(battery_system) == *old(battery_system),
        now - old(battery_system).spec_last_charge_time() >= old(
            battery_system,
        ).spec_config().charge_cooldown && old(battery_system).battery_level < old(
            battery_system,
        ).spec_config().max_battery ==> final(battery_system).battery_level == capped_charge(
            old(battery_system).battery_level,
            old(battery_system).spec_config().charge_rate * synchronized_nodes,
            old(battery_system).spec_config().max_battery,
        ) && final(battery_system).spec_last_charge_time() == now
            && final(battery_system).reward_multiplier == reward_multiplier_for(
            final(battery_system).battery_level,
            old(battery_system).spec_config().max_battery,
        ),
        now - old(battery_system).spec_last_charge_time() >= old(
            battery_system,
        ).spec_config().charge_cooldown ==> r == Ok::<bool, SystemErrorType>(
            final(battery_system).battery_level > 0,
        ),
{
    match battery_system.recharge(synchronized_nodes, now) {
        Ok(()) => {},
        Err(e) => return Err(e),
    }
    Ok(should_resume(battery_system))
}

} // verus!
