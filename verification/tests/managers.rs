use playground_websocket::error::CoordinatorManagerError;
use playground_websocket::manager::{
    reclaimed, shut_down, CoordinatorManager, IDLE_TIMEOUT_SECS, KIND_EXECUTE, N_KINDS, N_PARALLEL,
};
use std::sync::Arc;

fn manager() -> CoordinatorManager<&'static str, u32> {
    let mut manager = CoordinatorManager::new();
    assert!(manager.created(Ok("coordinator")).is_ok());
    manager
}

#[test]
fn limits() {
    assert_eq!(IDLE_TIMEOUT_SECS, 60);
    assert_eq!(N_PARALLEL, 2);
    assert_eq!(N_KINDS, 1);
    assert_eq!(KIND_EXECUTE, 0);
}

#[test]
fn coordinator_is_made_on_demand() {
    let mut manager: CoordinatorManager<&str, u32> = CoordinatorManager::new();
    assert!(manager.is_empty());
    assert!(manager.coordinator().is_none());
    assert!(manager.spawn().is_none());
    assert!(manager.is_empty());
    assert!(manager.created(Ok("first")).is_ok());
    let one = manager.coordinator().unwrap();
    let other = manager.coordinator().unwrap();
    assert_eq!(*one, "first");
    assert!(Arc::ptr_eq(&one, &other));
    let job = manager.spawn().unwrap();
    assert!(Arc::ptr_eq(&one, &job.coordinator));
}

#[test]
fn coordinator_that_is_not_made_is_an_error() {
    let mut manager: CoordinatorManager<&str, u32> = CoordinatorManager::new();
    match manager.created(Err("no docker".to_string())) {
        Err(CoordinatorManagerError::New { source }) => assert_eq!(source, "no docker"),
        other => panic!("{other:?}"),
    }
    assert!(manager.coordinator().is_none());
}

#[test]
fn older_job_is_handed_back_to_be_cancelled() {
    let mut manager = manager();
    manager.spawn().unwrap();
    assert_eq!(manager.spawned(10), None);
    manager.spawn().unwrap();
    assert_eq!(manager.spawned(20), Some(10));
    manager.spawn().unwrap();
    assert_eq!(manager.spawned(30), Some(20));
}

#[test]
fn jobs_beyond_the_limit_wait_for_their_turn() {
    let mut manager = manager();
    let starts: Vec<(usize, bool)> = (0..4)
        .map(|_| {
            let job = manager.spawn().unwrap();
            (job.id, job.start)
        })
        .collect();
    assert_eq!(starts, [(0, true), (1, true), (2, false), (3, false)]);
    assert_eq!(manager.joined(1), Some(Some(2)));
    assert_eq!(manager.joined(3), Some(None));
    assert_eq!(manager.joined(0), Some(None));
    assert_eq!(manager.joined(0), None);
    assert!(!manager.is_empty());
    assert_eq!(manager.joined(2), Some(None));
    assert!(manager.is_empty());
}

#[test]
fn waiting_job_that_ends_gives_no_turn() {
    let mut manager = manager();
    for _ in 0..4 {
        manager.spawn().unwrap();
    }
    assert_eq!(manager.joined(2), Some(None));
    assert_eq!(manager.joined(0), Some(Some(3)));
}

#[test]
fn numbers_are_used_again() {
    let mut manager = manager();
    for _ in 0..3 {
        manager.spawn().unwrap();
    }
    manager.joined(1).unwrap();
    assert_eq!(manager.spawn().unwrap().id, 1);
    assert_eq!(manager.spawn().unwrap().id, 3);
}

#[test]
fn idle_hands_back_the_only_coordinator() {
    let mut manager = manager();
    assert_eq!(manager.idle().unwrap(), Some("coordinator"));
    assert!(manager.coordinator().is_none());
    assert_eq!(manager.idle().unwrap(), None);
}

#[test]
fn idle_cannot_hand_back_a_coordinator_in_use() {
    let mut manager = manager();
    let job = manager.spawn().unwrap();
    assert!(matches!(manager.idle(), Err(CoordinatorManagerError::OutstandingCoordinator)));
    assert!(manager.coordinator().is_none());
    assert_eq!(*job.coordinator, "coordinator");
}

#[test]
fn outcomes_are_reported() {
    assert_eq!(reclaimed(Some(5)).unwrap(), 5);
    assert!(matches!(
        reclaimed::<u8>(None),
        Err(CoordinatorManagerError::OutstandingCoordinator)
    ));
    assert!(shut_down(Ok(())).is_ok());
    match shut_down(Err("stuck".to_string())) {
        Err(CoordinatorManagerError::Shutdown { source }) => assert_eq!(source, "stuck"),
        other => panic!("{other:?}"),
    }
}

#[test]
fn shut_down_jobs_are_forgotten() {
    let mut manager = manager();
    manager.spawn().unwrap();
    manager.spawn().unwrap();
    manager.jobs_shut_down();
    assert!(manager.is_empty());
    assert!(manager.coordinator().is_some());
}
