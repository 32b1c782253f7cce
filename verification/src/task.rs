//! Task lifecycle state machine: submission, assignment with the
//! capability and tier gate, and completion with lazy expiry and the
//! performance-adjusted reward. The reward payment itself is the job of
//! the surrounding application; `complete_task` decides the amount and
//! reports it, and aborts with no state change before any payment could
//! be owed.

use vstd::prelude::*;
use crate::device::DeviceAccount;
use crate::matcher::{meets_capabilities, spec_meets_capabilities, spec_tier_allows, tier_allows};
use crate::network::NetworkState;
use crate::types::{ComputeError, ComputeRequirements, TaskStatus, TaskType};

verus! {

/// One submitted task. The submitter identity and the assigned-device
/// reference are opaque fixed-width handles supplied by the surrounding
/// application; timestamps are seconds since the epoch.
#[derive(Clone, Debug)]
pub struct TaskAccount {
    pub submitter: u64,
    pub task_id: String,
    pub task_type: TaskType,
    pub compute_requirements: ComputeRequirements,
    pub reward_amount: u64,
    pub status: TaskStatus,
    pub assigned_device: Option<u64>,
    pub result_hash: String,
    pub created_at: i64,
    pub assigned_at: i64,
    pub completed_at: i64,
    pub expires_at: i64,
    pub verifications: u8,
    pub valid_verifications: u8,
    pub is_verified: bool,
}

impl TaskAccount {
    /// Record invariant: timestamps are non-negative, the valid-vote count
    /// never exceeds the vote count, and the assigned-device reference is
    /// present exactly on the statuses that follow an assignment. Failed
    /// tasks always carry the reference because no transition in this
    /// design fails a task that was never assigned.
    pub open spec fn wf(self) -> bool {
        &&& self.created_at >= 0
        &&& self.assigned_at >= 0
        &&& self.completed_at >= 0
        &&& self.expires_at >= 0
        &&& self.valid_verifications <= self.verifications
        &&& self.status == TaskStatus::Pending ==> self.assigned_device is None
        &&& (self.status == TaskStatus::Assigned || self.status == TaskStatus::Completed
            || self.status == TaskStatus::Failed) ==> self.assigned_device is Some
    }
}

/// Creates a task record in `Pending` with all counters and timestamps
/// zeroed except `created_at`.
pub fn submit_task(
    submitter: u64,
    task_id: String,
    task_type: TaskType,
    compute_requirements: ComputeRequirements,
    reward_amount: u64,
    now: i64,
) -> (t: TaskAccount)
    requires
        now >= 0,
    ensures
        t.submitter == submitter,
        t.task_id == task_id,
        t.task_type == task_type,
        t.compute_requirements == compute_requirements,
        t.reward_amount == reward_amount,
        t.status == TaskStatus::Pending,
        t.assigned_device is None,
        t.result_hash@.len() == 0,
        t.created_at == now,
        t.assigned_at == 0,
        t.completed_at == 0,
        t.expires_at == 0,
        t.verifications == 0,
        t.valid_verifications == 0,
        !t.is_verified,
        t.wf(),
{
    TaskAccount {
        submitter,
        task_id,
        task_type,
        compute_requirements,
        reward_amount,
        status: TaskStatus::Pending,
        assigned_device: None,
        result_hash: String::new(),
        created_at: now,
        assigned_at: 0,
        completed_at: 0,
        expires_at: 0,
        verifications: 0,
        valid_verifications: 0,
        is_verified: false,
    }
}

/// Every gate an assignment must pass: the task is still pending, the
/// device is active, its hardware satisfies the task's demands, and its
/// tier passes the task type's gate.
pub open spec fn spec_assignment_accepted(t: TaskAccount, d: DeviceAccount) -> bool {
    &&& t.status == TaskStatus::Pending
    &&& d.is_active
    &&& spec_meets_capabilities(d.specs, t.compute_requirements)
    &&& spec_tier_allows(d.tier, t.task_type)
}

/// Assigns a pending task to an eligible device, stamping the assignment
/// time and a deadline of twice the submitter's duration estimate past
/// `now`. Each failing gate yields its own error, checked in the order
/// pending, active, capabilities, tier, and leaves the task unchanged.
pub fn assign_task(task: &mut TaskAccount, device: &DeviceAccount, device_key: u64, now: i64) -> (r:
    Result<(), ComputeError>)
    requires
        old(task).wf(),
        now >= 0,
        spec_assignment_accepted(*old(task), *device) ==> now + 2 * (
        old(task).compute_requirements.estimated_duration as int) <= i64::MAX,
    ensures
        old(task).status != TaskStatus::Pending ==> r == Err::<(), ComputeError>(
            ComputeError::TaskNotPending,
        ) && *final(task) == *old(task),
        old(task).status == TaskStatus::Pending && !device.is_active ==> r == Err::<(),
            ComputeError,
        >(ComputeError::DeviceNotActive) && *final(task) == *old(task),
        old(task).status == TaskStatus::Pending && device.is_active && !spec_meets_capabilities(
            device.specs,
            old(task).compute_requirements,
        ) ==> r == Err::<(), ComputeError>(ComputeError::InsufficientCapabilities) && *final(task)
            == *old(task),
        old(task).status == TaskStatus::Pending && device.is_active && spec_meets_capabilities(
            device.specs,
            old(task).compute_requirements,
        ) && !spec_tier_allows(device.tier, old(task).task_type) ==> r == Err::<(), ComputeError>(
            ComputeError::InsufficientTier,
        ) && *final(task) == *old(task),
        spec_assignment_accepted(*old(task), *device) ==> {
            &&& r == Ok::<(), ComputeError>(())
            &&& *final(task) == (TaskAccount {
                status: TaskStatus::Assigned,
                assigned_device: Some(device_key),
                assigned_at: now,
                expires_at: (now + 2 * (
                old(task).compute_requirements.estimated_duration as int)) as i64,
                ..*old(task)
            })
        },
        final(task).wf(),
{
    if task.status != TaskStatus::Pending {
        return Err(ComputeError::TaskNotPending);
    }
    if !device.is_active {
        return Err(ComputeError::DeviceNotActive);
    }
    if !meets_capabilities(&device.specs, &task.compute_requirements) {
        return Err(ComputeError::InsufficientCapabilities);
    }
    if !tier_allows(device.tier, task.task_type) {
        return Err(ComputeError::InsufficientTier);
    }
    let estimated: i64 = task.compute_requirements.estimated_duration as i64;
    task.status = TaskStatus::Assigned;
    task.assigned_device = Some(device_key);
    task.assigned_at = now;
    task.expires_at = now + 2 * estimated;
    Ok(())
}

/// The reward multiplier a completion at `now` earns: 110 percent when the
/// task finished strictly faster than the submitter's estimate, else 100.
pub open spec fn spec_performance_multiplier(t: TaskAccount, now: i64) -> int {
    if now - t.assigned_at < t.compute_requirements.estimated_duration as int {
        110
    } else {
        100
    }
}

/// The reward actually paid for a completion at `now`: the bounty scaled
/// by the performance multiplier, in integer arithmetic.
pub open spec fn spec_adjusted_reward(t: TaskAccount, now: i64) -> int {
    t.reward_amount * spec_performance_multiplier(t, now) / 100
}

/// Whether scaling the bounty by the multiplier leaves the representable
/// range; such a completion must abort rather than wrap.
pub open spec fn spec_reward_overflows(t: TaskAccount, now: i64) -> bool {
    t.reward_amount * spec_performance_multiplier(t, now) > u64::MAX
}

/// Every gate a completion must pass to be accepted as `Completed`: the
/// task is assigned, to this very device, and its deadline has not passed.
pub open spec fn spec_completion_accepted(t: TaskAccount, device_key: u64, now: i64) -> bool {
    &&& t.status == TaskStatus::Assigned
    &&& t.assigned_device == Some(device_key)
    &&& !(t.expires_at < now)
}

/// Completes an assigned task, checking expiry lazily. Past the deadline
/// the task is marked failed, the device loses 10 reputation, and
/// `TaskExpired` is reported: the one error that also commits a state
/// change, and no reward is owed. Otherwise the task becomes `Completed`,
/// the reward is scaled by the performance multiplier with overflow
/// surfacing as `MathOverflow` before any state change, and the device and
/// network aggregates are credited. Returns the adjusted reward the caller
/// owes the device owner.
pub fn complete_task(
    task: &mut TaskAccount,
    device: &mut DeviceAccount,
    network: &mut NetworkState,
    device_key: u64,
    result_hash: String,
    now: i64,
) -> (r: Result<u64, ComputeError>)
    requires
        old(task).wf(),
        old(device).wf(),
        now >= 0,
        spec_completion_accepted(*old(task), device_key, now) && !spec_reward_overflows(
            *old(task),
            now,
        ) ==> {
            &&& old(device).total_tasks_completed < u32::MAX
            &&& old(device).total_tokens_earned + spec_adjusted_reward(*old(task), now)
                <= u64::MAX
            &&& old(network).total_tasks_completed < u64::MAX
            &&& old(network).total_tokens_distributed + spec_adjusted_reward(*old(task), now)
                <= u64::MAX
        },
    ensures
        old(task).status != TaskStatus::Assigned ==> {
            &&& r == Err::<u64, ComputeError>(ComputeError::TaskNotAssigned)
            &&& *final(task) == *old(task)
            &&& *final(device) == *old(device)
            &&& *final(network) == *old(network)
        },
        old(task).status == TaskStatus::Assigned && old(task).assigned_device != Some(device_key)
            ==> {
            &&& r == Err::<u64, ComputeError>(ComputeError::DeviceNotAssigned)
            &&& *final(task) == *old(task)
            &&& *final(device) == *old(device)
            &&& *final(network) == *old(network)
        },
        old(task).status == TaskStatus::Assigned && old(task).assigned_device == Some(device_key)
            && old(task).expires_at < now ==> {
            &&& r == Err::<u64, ComputeError>(ComputeError::TaskExpired)
            &&& *final(task) == (TaskAccount { status: TaskStatus::Failed, ..*old(task) })
            &&& *final(device) == (DeviceAccount {
                reputation_score: old(device).reputation_score.saturating_sub(10),
                ..*old(device)
            })
            &&& *final(network) == *old(network)
        },
        spec_completion_accepted(*old(task), device_key, now) && spec_reward_overflows(
            *old(task),
            now,
        ) ==> {
            &&& r == Err::<u64, ComputeError>(ComputeError::MathOverflow)
            &&& *final(task) == *old(task)
            &&& *final(device) == *old(device)
            &&& *final(network) == *old(network)
        },
        spec_completion_accepted(*old(task), device_key, now) && !spec_reward_overflows(
            *old(task),
            now,
        ) ==> {
            &&& r == Ok::<u64, ComputeError>(spec_adjusted_reward(*old(task), now) as u64)
            &&& *final(task) == (TaskAccount {
                status: TaskStatus::Completed,
                result_hash: result_hash,
                completed_at: now,
                ..*old(task)
            })
            &&& *final(device) == (DeviceAccount {
                total_tasks_completed: (old(device).total_tasks_completed + 1) as u32,
                total_tokens_earned: (old(device).total_tokens_earned + spec_adjusted_reward(
                    *old(task),
                    now,
                )) as u64,
                last_active: now,
                reputation_score: old(device).reputation_score.saturating_add(5),
                ..*old(device)
            })
            &&& *final(network) == (NetworkState {
                total_tasks_completed: (old(network).total_tasks_completed + 1) as u64,
                total_tokens_distributed: (old(network).total_tokens_distributed
                    + spec_adjusted_reward(*old(task), now)) as u64,
                ..*old(network)
            })
        },
        spec_completion_accepted(*old(task), device_key, now) && !spec_reward_overflows(
            *old(task),
            now,
        ) && now - old(task).assigned_at < old(task).compute_requirements.estimated_duration as int
            ==> r == Ok::<u64, ComputeError>(
            (old(task).reward_amount * 110 / 100) as u64,
        ),
        spec_completion_accepted(*old(task), device_key, now) && !spec_reward_overflows(
            *old(task),
            now,
        ) && now - old(task).assigned_at >= old(task).compute_requirements.estimated_duration as int
            ==> r == Ok::<u64, ComputeError>(old(task).reward_amount),
        final(task).wf(),
        final(device).wf(),
{
    if task.status != TaskStatus::Assigned {
        return Err(ComputeError::TaskNotAssigned);
    }
    let assigned_to_caller: bool = match task.assigned_device {
        Some(k) => k == device_key,
        None => false,
    };
    if !assigned_to_caller {
        return Err(ComputeError::DeviceNotAssigned);
    }
    if task.expires_at < now {
        task.status = TaskStatus::Failed;
        device.reputation_score = device.reputation_score.saturating_sub(10);
        return Err(ComputeError::TaskExpired);
    }
    let time_taken: i64 = now - task.assigned_at;
    let estimated: i64 = task.compute_requirements.estimated_duration as i64;
    let performance_multiplier: u64 = if time_taken < estimated {
        110
    } else {
        100
    };
    let scaled: u64 = match task.reward_amount.checked_mul(performance_multiplier) {
        Some(p) => p,
        None => {
            return Err(ComputeError::MathOverflow);
        },
    };
    let adjusted_reward: u64 = scaled / 100;
    task.status = TaskStatus::Completed;
    task.result_hash = result_hash;
    task.completed_at = now;
    device.total_tasks_completed = device.total_tasks_completed + 1;
    device.total_tokens_earned = device.total_tokens_earned + adjusted_reward;
    device.last_active = now;
    device.reputation_score = device.reputation_score.saturating_add(5);
    network.total_tasks_completed = network.total_tasks_completed + 1;
    network.total_tokens_distributed = network.total_tokens_distributed + adjusted_reward;
    Ok(adjusted_reward)
}

} // verus!
