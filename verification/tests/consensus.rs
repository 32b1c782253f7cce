use solmobile_compute::consensus::verify_task_result;
use solmobile_compute::device::{register_device, DeviceAccount};
use solmobile_compute::network::{initialize, NetworkState};
use solmobile_compute::task::{assign_task, complete_task, submit_task, TaskAccount};
use solmobile_compute::types::{
    ComputeError, ComputeRequirements, DeviceSpecs, TaskStatus, TaskType,
};

const DEVICE_KEY: u64 = 55;

fn sample_specs() -> DeviceSpecs {
    DeviceSpecs {
        cpu_cores: 4,
        ram_gb: 8,
        storage_gb: 100,
        gpu_available: true,
        network_speed: 50,
    }
}

fn sample_requirements() -> ComputeRequirements {
    ComputeRequirements {
        cpu_cores_required: 2,
        ram_gb_required: 4,
        storage_gb_required: 10,
        gpu_required: false,
        estimated_duration: 100,
    }
}

fn make_verifier(network: &mut NetworkState, owner: u64) -> DeviceAccount {
    register_device(owner, format!("verifier-{owner}"), sample_specs(), network, 100)
}

/// A device that has completed a task, together with that completed task.
fn completed_setup() -> (NetworkState, DeviceAccount, TaskAccount) {
    let mut network = initialize(7);
    let mut device = register_device(1, String::from("dev-1"), sample_specs(), &mut network, 100);
    let mut task = submit_task(
        2,
        String::from("task-1"),
        TaskType::DataProcessing,
        sample_requirements(),
        1000,
        100,
    );
    assign_task(&mut task, &device, DEVICE_KEY, 100).unwrap();
    complete_task(
        &mut task,
        &mut device,
        &mut network,
        DEVICE_KEY,
        String::from("hash"),
        140,
    )
    .unwrap();
    // Fast completion left the device at reputation 105.
    (network, device, task)
}

#[test]
fn vote_on_uncompleted_task_fails() {
    let mut network = initialize(7);
    let mut device = register_device(1, String::from("dev-1"), sample_specs(), &mut network, 100);
    let mut task = submit_task(
        2,
        String::from("task-1"),
        TaskType::DataProcessing,
        sample_requirements(),
        1000,
        100,
    );
    let mut v = make_verifier(&mut network, 3);
    let r = verify_task_result(&mut task, &mut device, &mut v, true);
    assert_eq!(r, Err(ComputeError::TaskNotCompleted));
    assert_eq!(task.verifications, 0);
    assert_eq!(v.reputation_score, 100);
}

#[test]
fn verifier_below_reputation_floor_is_rejected() {
    let (mut network, mut device, mut task) = completed_setup();
    // Drive a would-be verifier below the floor: it completes a task of its
    // own, and the quorum rejects the result, costing it 20 reputation.
    let mut low = register_device(9, String::from("low"), sample_specs(), &mut network, 100);
    let mut own_task = submit_task(
        2,
        String::from("task-2"),
        TaskType::DataProcessing,
        sample_requirements(),
        10,
        100,
    );
    assign_task(&mut own_task, &low, 77, 100).unwrap();
    complete_task(
        &mut own_task,
        &mut low,
        &mut network,
        77,
        String::from("h"),
        140,
    )
    .unwrap();
    for owner in [20, 21, 22] {
        let mut v = make_verifier(&mut network, owner);
        verify_task_result(&mut own_task, &mut low, &mut v, false).unwrap();
    }
    assert_eq!(own_task.status, TaskStatus::Failed);
    assert_eq!(low.reputation_score, 85);

    let r = verify_task_result(&mut task, &mut device, &mut low, true);
    assert_eq!(r, Err(ComputeError::InsufficientReputation));
    assert_eq!(task.verifications, 0);
    assert_eq!(low.total_verifications, 0);
}

#[test]
fn no_quorum_decision_below_three_votes() {
    let (mut network, mut device, mut task) = completed_setup();
    let mut v1 = make_verifier(&mut network, 3);
    let mut v2 = make_verifier(&mut network, 4);
    verify_task_result(&mut task, &mut device, &mut v1, false).unwrap();
    verify_task_result(&mut task, &mut device, &mut v2, false).unwrap();
    assert_eq!(task.verifications, 2);
    assert_eq!(task.valid_verifications, 0);
    assert!(!task.is_verified);
    assert_eq!(task.status, TaskStatus::Completed);
    assert_eq!(device.reputation_score, 105);
}

#[test]
fn two_of_three_valid_votes_verify_the_task() {
    let (mut network, mut device, mut task) = completed_setup();
    let mut v1 = make_verifier(&mut network, 3);
    let mut v2 = make_verifier(&mut network, 4);
    let mut v3 = make_verifier(&mut network, 5);
    verify_task_result(&mut task, &mut device, &mut v1, true).unwrap();
    verify_task_result(&mut task, &mut device, &mut v2, true).unwrap();
    verify_task_result(&mut task, &mut device, &mut v3, false).unwrap();
    assert_eq!(task.verifications, 3);
    assert_eq!(task.valid_verifications, 2);
    // 2 * 3 = 6 >= 3 * 2 = 6: the supermajority holds.
    assert!(task.is_verified);
    assert_eq!(task.status, TaskStatus::Completed);
    assert_eq!(device.reputation_score, 107);
    // Every verifier gains one reputation and one verification, however it voted.
    for v in [&v1, &v2, &v3] {
        assert_eq!(v.reputation_score, 101);
        assert_eq!(v.total_verifications, 1);
    }
}

#[test]
fn one_of_three_valid_votes_fails_the_task() {
    let (mut network, mut device, mut task) = completed_setup();
    let mut v1 = make_verifier(&mut network, 3);
    let mut v2 = make_verifier(&mut network, 4);
    let mut v3 = make_verifier(&mut network, 5);
    verify_task_result(&mut task, &mut device, &mut v1, true).unwrap();
    verify_task_result(&mut task, &mut device, &mut v2, false).unwrap();
    verify_task_result(&mut task, &mut device, &mut v3, false).unwrap();
    assert_eq!(task.verifications, 3);
    assert_eq!(task.valid_verifications, 1);
    // 1 * 3 = 3 < 3 * 2 = 6: no supermajority.
    assert!(!task.is_verified);
    assert_eq!(task.status, TaskStatus::Failed);
    assert_eq!(device.reputation_score, 85);
    assert_eq!(v3.reputation_score, 101);
}

#[test]
fn quorum_is_reevaluated_on_every_vote_past_the_floor() {
    let (mut network, mut device, mut task) = completed_setup();
    let mut v1 = make_verifier(&mut network, 3);
    let mut v2 = make_verifier(&mut network, 4);
    let mut v3 = make_verifier(&mut network, 5);
    let mut v4 = make_verifier(&mut network, 6);
    verify_task_result(&mut task, &mut device, &mut v1, true).unwrap();
    verify_task_result(&mut task, &mut device, &mut v2, true).unwrap();
    verify_task_result(&mut task, &mut device, &mut v3, false).unwrap();
    assert!(task.is_verified);
    assert_eq!(device.reputation_score, 107);
    // A fourth, invalid vote drops the tally to 2/4 and the rule re-fires:
    // the task flips to Failed, though the verified flag is never unset.
    verify_task_result(&mut task, &mut device, &mut v4, false).unwrap();
    assert_eq!(task.verifications, 4);
    assert_eq!(task.valid_verifications, 2);
    assert_eq!(task.status, TaskStatus::Failed);
    assert!(task.is_verified);
    assert_eq!(device.reputation_score, 87);
}

#[test]
fn further_votes_on_a_failed_task_are_rejected() {
    let (mut network, mut device, mut task) = completed_setup();
    let mut v1 = make_verifier(&mut network, 3);
    let mut v2 = make_verifier(&mut network, 4);
    let mut v3 = make_verifier(&mut network, 5);
    verify_task_result(&mut task, &mut device, &mut v1, false).unwrap();
    verify_task_result(&mut task, &mut device, &mut v2, false).unwrap();
    verify_task_result(&mut task, &mut device, &mut v3, false).unwrap();
    assert_eq!(task.status, TaskStatus::Failed);
    let mut v4 = make_verifier(&mut network, 6);
    let r = verify_task_result(&mut task, &mut device, &mut v4, true);
    assert_eq!(r, Err(ComputeError::TaskNotCompleted));
    assert_eq!(task.verifications, 3);
}

#[test]
fn reputation_saturates_at_zero_under_repeated_penalties() {
    let mut network = initialize(7);
    let mut device = register_device(1, String::from("dev-1"), sample_specs(), &mut network, 100);
    let mut owner = 100u64;
    // Each round: complete a task (+5), then three invalid votes (-20).
    // Starting from 100, the net -15 per round reaches 0 and stays there.
    for round in 0..12 {
        let mut task = submit_task(
            2,
            format!("task-{round}"),
            TaskType::DataProcessing,
            sample_requirements(),
            10,
            100,
        );
        assign_task(&mut task, &device, DEVICE_KEY, 100).unwrap();
        complete_task(
            &mut task,
            &mut device,
            &mut network,
            DEVICE_KEY,
            String::from("h"),
            140,
        )
        .unwrap();
        for _ in 0..3 {
            let mut v = make_verifier(&mut network, owner);
            owner += 1;
            verify_task_result(&mut task, &mut device, &mut v, false).unwrap();
        }
    }
    assert_eq!(device.reputation_score, 0);
}
