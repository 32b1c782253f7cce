//! Staking & tier engine: the stake-to-tier threshold table, staking and
//! unstaking with the seven-day lock-up. Moving the tokens themselves
//! between the owner's balance and custody is the job of the surrounding
//! application; these functions own the record state that decides whether
//! the move is allowed.

use vstd::prelude::*;
use crate::device::DeviceAccount;
use crate::types::{ComputeError, DeviceTier};

verus! {

/// Seconds a device's whole stake stays locked after its most recent
/// staking operation: seven days. Every additional stake restarts the
/// full lock for the entire balance; a partial unstake does not.
pub const MIN_STAKING_PERIOD_SECONDS: i64 = 7 * 24 * 60 * 60;

/// The closed, total stake-to-tier threshold table:
/// `[0, 1000]` Bronze, `[1001, 5000]` Silver, `[5001, 20000]` Gold,
/// above that Platinum.
pub open spec fn spec_tier_for_stake(amount: u64) -> DeviceTier {
    if amount <= 1000 {
        DeviceTier::Bronze
    } else if amount <= 5000 {
        DeviceTier::Silver
    } else if amount <= 20000 {
        DeviceTier::Gold
    } else {
        DeviceTier::Platinum
    }
}

/// Derives the tier a staked amount earns, by the threshold table.
pub fn tier_for_stake(amount: u64) -> (t: DeviceTier)
    ensures
        t == spec_tier_for_stake(amount),
{
    if amount <= 1000 {
        DeviceTier::Bronze
    } else if amount <= 5000 {
        DeviceTier::Silver
    } else if amount <= 20000 {
        DeviceTier::Gold
    } else {
        DeviceTier::Platinum
    }
}

/// Credits `amount` to the device's stake, restarts the seven-day lock at
/// `now`, and recomputes the tier from the new balance. The caller has
/// already moved the tokens into custody.
pub fn stake_tokens(device: &mut DeviceAccount, amount: u64, now: i64)
    requires
        old(device).wf(),
        now >= 0,
        old(device).staked_amount + amount <= u64::MAX,
    ensures
        final(device).staked_amount == old(device).staked_amount + amount,
        final(device).stake_timestamp == now,
        final(device).tier == spec_tier_for_stake(final(device).staked_amount),
        *final(device) == (DeviceAccount {
            staked_amount: (old(device).staked_amount + amount) as u64,
            stake_timestamp: now,
            tier: spec_tier_for_stake((old(device).staked_amount + amount) as u64),
            ..*old(device)
        }),
        final(device).wf(),
{
    device.staked_amount = device.staked_amount + amount;
    device.stake_timestamp = now;
    device.tier = tier_for_stake(device.staked_amount);
}

/// Debits `amount` from the device's stake and recomputes the tier, but
/// only if the balance covers it and the seven-day lock has elapsed; on
/// either failure nothing changes and the specific error says which check
/// failed. On success the caller moves the tokens back to the owner. The
/// lock timestamp is deliberately not reset by a partial unstake.
pub fn unstake_tokens(device: &mut DeviceAccount, amount: u64, now: i64) -> (r: Result<
    (),
    ComputeError,
>)
    requires
        old(device).wf(),
        now >= 0,
    ensures
        amount > old(device).staked_amount ==> r == Err::<(), ComputeError>(
            ComputeError::InsufficientStake,
        ) && *final(device) == *old(device),
        amount <= old(device).staked_amount && now - old(device).stake_timestamp
            < MIN_STAKING_PERIOD_SECONDS ==> r == Err::<(), ComputeError>(
            ComputeError::StakingPeriodNotMet,
        ) && *final(device) == *old(device),
        amount <= old(device).staked_amount && now - old(device).stake_timestamp
            >= MIN_STAKING_PERIOD_SECONDS ==> r == Ok::<(), ComputeError>(()) && *final(device)
            == (DeviceAccount {
            staked_amount: (old(device).staked_amount - amount) as u64,
            tier: spec_tier_for_stake((old(device).staked_amount - amount) as u64),
            ..*old(device)
        }),
        final(device).wf(),
{
    if device.staked_amount < amount {
        return Err(ComputeError::InsufficientStake);
    }
    let staking_duration: i64 = now - device.stake_timestamp;
    if staking_duration < MIN_STAKING_PERIOD_SECONDS {
        return Err(ComputeError::StakingPeriodNotMet);
    }
    device.staked_amount = device.staked_amount - amount;
    device.tier = tier_for_stake(device.staked_amount);
    Ok(())
}

} // verus!
