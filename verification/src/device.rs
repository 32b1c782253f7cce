//! The device record: registration, liveness updates, and the record
//! invariant every operation preserves.

use vstd::prelude::*;
use crate::network::NetworkState;
use crate::staking::spec_tier_for_stake;
use crate::types::{DeviceSpecs, DeviceTier};

verus! {

/// One registered device. The owner identity is an opaque fixed-width
/// handle supplied by the surrounding application; timestamps are seconds
/// since the epoch.
#[derive(Clone, Debug)]
pub struct DeviceAccount {
    pub owner: u64,
    pub device_id: String,
    pub specs: DeviceSpecs,
    pub is_active: bool,
    pub reputation_score: u16,
    pub total_tasks_completed: u32,
    pub total_tokens_earned: u64,
    pub current_load: u8,
    pub last_active: i64,
    pub tier: DeviceTier,
    pub staked_amount: u64,
    pub stake_timestamp: i64,
    pub total_verifications: u32,
}

impl DeviceAccount {
    /// Record invariant: timestamps are non-negative, and the tier is
    /// exactly the value the threshold table derives from the current
    /// staked amount — it is recomputed on every staking mutation, never
    /// set independently.
    pub open spec fn wf(self) -> bool {
        &&& self.last_active >= 0
        &&& self.stake_timestamp >= 0
        &&& self.tier == spec_tier_for_stake(self.staked_amount)
    }
}

/// Creates a device record with reputation 100, tier Bronze, no stake and
/// all counters zeroed, and counts it in the network aggregate.
pub fn register_device(
    owner: u64,
    device_id: String,
    device_specs: DeviceSpecs,
    network: &mut NetworkState,
    now: i64,
) -> (d: DeviceAccount)
    requires
        old(network).total_devices < u32::MAX,
        now >= 0,
    ensures
        d.owner == owner,
        d.device_id == device_id,
        d.specs == device_specs,
        d.is_active,
        d.reputation_score == 100,
        d.total_tasks_completed == 0,
        d.total_tokens_earned == 0,
        d.current_load == 0,
        d.last_active == now,
        d.tier == DeviceTier::Bronze,
        d.staked_amount == 0,
        d.stake_timestamp == 0,
        d.total_verifications == 0,
        d.wf(),
        *final(network) == (NetworkState {
            total_devices: (old(network).total_devices + 1) as u32,
            ..*old(network)
        }),
{
    network.total_devices = network.total_devices + 1;
    DeviceAccount {
        owner,
        device_id,
        specs: device_specs,
        is_active: true,
        reputation_score: 100,
        total_tasks_completed: 0,
        total_tokens_earned: 0,
        current_load: 0,
        last_active: now,
        tier: DeviceTier::Bronze,
        staked_amount: 0,
        stake_timestamp: 0,
        total_verifications: 0,
    }
}

/// Sets the device's liveness flag and load and refreshes `last_active`.
pub fn update_device_status(device: &mut DeviceAccount, is_active: bool, current_load: u8, now: i64)
    requires
        old(device).wf(),
        now >= 0,
    ensures
        *final(device) == (DeviceAccount {
            is_active,
            current_load,
            last_active: now,
            ..*old(device)
        }),
        final(device).wf(),
{
    device.is_active = is_active;
    device.current_load = current_load;
    device.last_active = now;
}

} // verus!
