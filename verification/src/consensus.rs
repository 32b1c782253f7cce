//! Verification consensus engine: collects verifier votes on completed
//! tasks and applies the 2/3-supermajority quorum rule once at least three
//! votes exist, adjusting the completed device's reputation either way and
//! rewarding the verifier unconditionally.

use vstd::prelude::*;
use crate::device::DeviceAccount;
use crate::task::TaskAccount;
use crate::types::{ComputeError, TaskStatus};

verus! {

/// Reputation a device must hold to act as a verifier; newly registered
/// devices start exactly at this floor.
pub const MIN_VERIFIER_REPUTATION: u16 = 100;

/// Votes needed before the quorum rule is evaluated at all.
pub const VERIFICATION_QUORUM: u8 = 3;

/// The Byzantine-fault-tolerance rule: a tally is accepted iff at least a
/// 2/3 supermajority of all votes cast so far judged the result valid.
pub open spec fn spec_quorum_accepts(valid_votes: int, total_votes: int) -> bool {
    valid_votes * 3 >= total_votes * 2
}

/// Records one verifier's vote on a completed task. The task must be
/// `Completed` and the verifier's reputation at least the floor, else the
/// specific error and no change. The vote tallies grow, and every time the
/// tally reaches the quorum floor the supermajority rule is re-evaluated:
/// acceptance marks the task verified and grants the completed device +2
/// reputation; rejection marks the task failed and costs it 20. The
/// verifier is credited one verification and +1 reputation whichever way
/// it voted.
pub fn verify_task_result(
    task: &mut TaskAccount,
    device: &mut DeviceAccount,
    verifier: &mut DeviceAccount,
    is_valid: bool,
) -> (r: Result<(), ComputeError>)
    requires
        old(task).wf(),
        old(device).wf(),
        old(verifier).wf(),
        old(task).status == TaskStatus::Completed && old(verifier).reputation_score
            >= MIN_VERIFIER_REPUTATION ==> old(task).verifications < u8::MAX && old(
            verifier,
        ).total_verifications < u32::MAX,
    ensures
        old(task).status != TaskStatus::Completed ==> {
            &&& r == Err::<(), ComputeError>(ComputeError::TaskNotCompleted)
            &&& *final(task) == *old(task)
            &&& *final(device) == *old(device)
            &&& *final(verifier) == *old(verifier)
        },
        old(task).status == TaskStatus::Completed && old(verifier).reputation_score
            < MIN_VERIFIER_REPUTATION ==> {
            &&& r == Err::<(), ComputeError>(ComputeError::InsufficientReputation)
            &&& *final(task) == *old(task)
            &&& *final(device) == *old(device)
            &&& *final(verifier) == *old(verifier)
        },
        old(task).status == TaskStatus::Completed && old(verifier).reputation_score
            >= MIN_VERIFIER_REPUTATION ==> {
            let total_votes = old(task).verifications + 1;
            let valid_votes = old(task).valid_verifications + if is_valid {
                1int
            } else {
                0int
            };
            &&& r == Ok::<(), ComputeError>(())
            &&& final(task).verifications == total_votes
            &&& final(task).valid_verifications == valid_votes
            &&& total_votes < VERIFICATION_QUORUM ==> *final(task) == (TaskAccount {
                verifications: total_votes as u8,
                valid_verifications: valid_votes as u8,
                ..*old(task)
            }) && *final(device) == *old(device)
            &&& total_votes >= VERIFICATION_QUORUM && spec_quorum_accepts(valid_votes, total_votes)
                ==> *final(task) == (TaskAccount {
                verifications: total_votes as u8,
                valid_verifications: valid_votes as u8,
                is_verified: true,
                ..*old(task)
            }) && *final(device) == (DeviceAccount {
                reputation_score: old(device).reputation_score.saturating_add(2),
                ..*old(device)
            })
            &&& total_votes >= VERIFICATION_QUORUM && !spec_quorum_accepts(
                valid_votes,
                total_votes,
            ) ==> *final(task) == (TaskAccount {
                verifications: total_votes as u8,
                valid_verifications: valid_votes as u8,
                status: TaskStatus::Failed,
                ..*old(task)
            }) && *final(device) == (DeviceAccount {
                reputation_score: old(device).reputation_score.saturating_sub(20),
                ..*old(device)
            })
            &&& *final(verifier) == (DeviceAccount {
                total_verifications: (old(verifier).total_verifications + 1) as u32,
                reputation_score: old(verifier).reputation_score.saturating_add(1),
                ..*old(verifier)
            })
        },
        final(task).wf(),
        final(device).wf(),
        final(verifier).wf(),
{
    if task.status != TaskStatus::Completed {
        return Err(ComputeError::TaskNotCompleted);
    }
    if verifier.reputation_score < MIN_VERIFIER_REPUTATION {
        return Err(ComputeError::InsufficientReputation);
    }
    task.verifications = task.verifications + 1;
    if is_valid {
        task.valid_verifications = task.valid_verifications + 1;
    }
    if task.verifications >= VERIFICATION_QUORUM {
        if (task.valid_verifications as u64) * 3 >= (task.verifications as u64) * 2 {
            task.is_verified = true;
            device.reputation_score = device.reputation_score.saturating_add(2);
        } else {
            task.status = TaskStatus::Failed;
            device.reputation_score = device.reputation_score.saturating_sub(20);
        }
    }
    verifier.total_verifications = verifier.total_verifications + 1;
    verifier.reputation_score = verifier.reputation_score.saturating_add(1);
    Ok(())
}

} // verus!
