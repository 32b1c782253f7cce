//! Capability & tier matcher: the pure predicates that decide whether a
//! device may be assigned a task of a given type.

use vstd::prelude::*;
use crate::types::{
    ComputeRequirements, DeviceSpecs, DeviceTier, TaskType, spec_tier_rank, tier_rank,
};

verus! {

/// A device satisfies a task's resource demands iff every advertised
/// capacity meets the corresponding minimum and, where a GPU is demanded,
/// one is available.
pub open spec fn spec_meets_capabilities(specs: DeviceSpecs, req: ComputeRequirements) -> bool {
    &&& specs.cpu_cores >= req.cpu_cores_required
    &&& specs.ram_gb >= req.ram_gb_required
    &&& specs.storage_gb >= req.storage_gb_required
    &&& (!req.gpu_required || specs.gpu_available)
}

/// Decides whether a device's hardware satisfies a task's demands.
pub fn meets_capabilities(specs: &DeviceSpecs, req: &ComputeRequirements) -> (r: bool)
    ensures
        r == spec_meets_capabilities(*specs, *req),
{
    specs.cpu_cores >= req.cpu_cores_required && specs.ram_gb >= req.ram_gb_required
        && specs.storage_gb >= req.storage_gb_required && (!req.gpu_required
        || specs.gpu_available)
}

/// The minimum tier each task type demands: data processing and general
/// compute are open to Bronze, machine-learning inference and image
/// processing demand Silver, video transcoding demands Gold.
pub open spec fn spec_min_tier_for(task_type: TaskType) -> DeviceTier {
    match task_type {
        TaskType::DataProcessing => DeviceTier::Bronze,
        TaskType::MLInference => DeviceTier::Silver,
        TaskType::ImageProcessing => DeviceTier::Silver,
        TaskType::VideoTranscoding => DeviceTier::Gold,
        TaskType::GeneralCompute => DeviceTier::Bronze,
    }
}

/// Returns the minimum tier a task type demands.
pub fn min_tier_for(task_type: TaskType) -> (t: DeviceTier)
    ensures
        t == spec_min_tier_for(task_type),
{
    match task_type {
        TaskType::DataProcessing => DeviceTier::Bronze,
        TaskType::MLInference => DeviceTier::Silver,
        TaskType::ImageProcessing => DeviceTier::Silver,
        TaskType::VideoTranscoding => DeviceTier::Gold,
        TaskType::GeneralCompute => DeviceTier::Bronze,
    }
}

/// A tier is eligible for a task type iff it is ordinally at or above the
/// type's minimum tier.
pub open spec fn spec_tier_allows(tier: DeviceTier, task_type: TaskType) -> bool {
    spec_tier_rank(tier) >= spec_tier_rank(spec_min_tier_for(task_type))
}

/// Decides whether a device tier is eligible for a task type.
pub fn tier_allows(tier: DeviceTier, task_type: TaskType) -> (r: bool)
    ensures
        r == spec_tier_allows(tier, task_type),
{
    tier_rank(tier) >= tier_rank(min_tier_for(task_type))
}

} // verus!
