//! Plain data shared by every component: hardware specifications, task
//! requirements, the task and tier enumerations, and the error taxonomy.

use vstd::prelude::*;

verus! {

/// Hardware capabilities a device advertises at registration time.
#[derive(Clone, Copy, PartialEq, Eq, Structural, Debug)]
pub struct DeviceSpecs {
    pub cpu_cores: u8,
    pub ram_gb: u8,
    pub storage_gb: u16,
    pub gpu_available: bool,
    pub network_speed: u32,
}

/// Minimum resources a task demands from the device that runs it, and the
/// submitter's estimate of its duration in seconds.
#[derive(Clone, Copy, PartialEq, Eq, Structural, Debug)]
pub struct ComputeRequirements {
    pub cpu_cores_required: u8,
    pub ram_gb_required: u8,
    pub storage_gb_required: u16,
    pub gpu_required: bool,
    pub estimated_duration: u32,
}

/// The kind of work a task asks for; each kind gates on a minimum tier.
#[derive(Clone, Copy, PartialEq, Eq, Structural, Debug)]
pub enum TaskType {
    DataProcessing,
    MLInference,
    ImageProcessing,
    VideoTranscoding,
    GeneralCompute,
}

/// Lifecycle state of a task. `InProgress` is reserved: no transition in
/// this design produces it.
#[derive(Clone, Copy, PartialEq, Eq, Structural, Debug)]
pub enum TaskStatus {
    Pending,
    Assigned,
    InProgress,
    Completed,
    Failed,
}

/// Stake-derived capability class, ordered Bronze < Silver < Gold < Platinum.
#[derive(Clone, Copy, PartialEq, Eq, Structural, Debug)]
pub enum DeviceTier {
    Bronze,
    Silver,
    Gold,
    Platinum,
}

/// Terminal, caller-visible validation failures. Every precondition
/// violation aborts the whole operation with no state change, with one
/// exception: `TaskExpired` is reported as an error and still commits the
/// transition that marks the task failed and penalizes the device.
#[derive(Clone, Copy, PartialEq, Eq, Structural, Debug)]
pub enum ComputeError {
    TaskNotPending,
    DeviceNotActive,
    TaskNotAssigned,
    DeviceNotAssigned,
    InsufficientCapabilities,
    TaskExpired,
    InsufficientTier,
    InsufficientStake,
    StakingPeriodNotMet,
    TaskNotCompleted,
    InsufficientReputation,
    MathOverflow,
}

/// Ordinal position of a tier in the Bronze < Silver < Gold < Platinum order.
pub open spec fn spec_tier_rank(t: DeviceTier) -> int {
    match t {
        DeviceTier::Bronze => 0,
        DeviceTier::Silver => 1,
        DeviceTier::Gold => 2,
        DeviceTier::Platinum => 3,
    }
}

/// Ordinal position of a tier, for comparing tiers in executable code.
pub fn tier_rank(t: DeviceTier) -> (r: u8)
    ensures
        r == spec_tier_rank(t),
{
    match t {
        DeviceTier::Bronze => 0,
        DeviceTier::Silver => 1,
        DeviceTier::Gold => 2,
        DeviceTier::Platinum => 3,
    }
}

} // verus!
