use minimeili::Promise;
use minimeili::Registry;
use minimeili::Task;
use minimeili::TaskKind;
use minimeili::TaskManager;
use minimeili::TaskStatus;
use minimeili::WaitError;
use minimeili::MAX_TICKETS;

fn successful_task(uid: u64) -> Task {
    Task {
        uid,
        index_uid: String::from("afejkone"),
        status: TaskStatus::Succeeded,
        kind: TaskKind::IndexDeletion { deleted_documents: None },
        canceled_by: None,
        error: None,
        duration: None,
        enqueued_at: String::from("fejkedtime"),
        started_at: None,
        finished_at: None,
    }
}

#[test]
fn single_waiter_on_pending_task() {
    let manager = TaskManager::new();
    let task_uid = 232;

    let promise = manager.subscribe(task_uid);
    manager.handle_task(successful_task(task_uid));

    let got = promise.wait().expect("waiter should resolve");
    assert_eq!(got.uid, task_uid);
}

#[test]
fn multiple_waiters_on_pending_task() {
    let manager = TaskManager::new();
    let task_uid = 232;

    let p1 = manager.subscribe(task_uid);
    let p2 = manager.subscribe(task_uid);
    let p3 = manager.subscribe(task_uid);

    manager.handle_task(successful_task(task_uid));

    assert!(p1.wait().is_ok());
    assert!(p2.wait().is_ok());
    assert!(p3.wait().is_ok());
}

#[test]
fn single_waiter_on_finished_task() {
    let manager = TaskManager::new();
    let task_uid = 232;

    manager.handle_task(successful_task(task_uid));
    assert!(manager.wait_for_task(task_uid).is_some());
}

#[test]
fn awaiting_notified_task() {
    let manager = TaskManager::new();
    let task_uid = 232;

    let p1 = manager.subscribe(task_uid);
    manager.handle_task(successful_task(task_uid));
    assert!(p1.wait().is_ok());

    assert!(manager.wait_for_task(task_uid).is_some());
}

#[test]
fn multiple_waiters_on_multiple_tasks() {
    let manager = TaskManager::new();

    let mut promises = Vec::new();
    for i in 0..45u64 {
        let task_uid = i % 3;
        promises.push((task_uid, manager.subscribe(task_uid)));
    }

    for i in 0..3u64 {
        manager.handle_task(successful_task(i));
    }

    for (task_uid, promise) in promises {
        let got = promise.wait().expect("every waiter should resolve");
        assert_eq!(got.uid, task_uid);
    }
}

#[test]
fn late_subscription_resolves_immediately() {
    let mut registry = Registry::new();
    let waiters = registry.report(successful_task(9));
    assert!(waiters.is_empty());

    let promise = registry.subscribe(9);
    assert!(matches!(promise, Promise::Ready(_)));
    let got = promise.wait().expect("late subscriber sees the stored task");
    assert_eq!(got, successful_task(9));
}

#[test]
fn duplicate_report_keeps_first_task() {
    let mut registry = Registry::new();
    registry.report(successful_task(3));

    let mut second = successful_task(3);
    second.index_uid = String::from("otherindex");
    second.status = TaskStatus::Failed;
    let waiters = registry.report(second);
    assert!(waiters.is_empty());

    let got = registry.subscribe(3).wait().expect("resolved");
    assert_eq!(got, successful_task(3));
}

#[test]
fn report_notifies_each_waiter_with_the_reported_task() {
    let mut registry = Registry::new();
    let p1 = registry.subscribe(44);
    let p2 = registry.subscribe(44);

    let waiters = registry.report(successful_task(44));
    assert_eq!(waiters.len(), 2);
    for sender in waiters {
        let _ = sender.send(successful_task(44));
    }

    assert_eq!(p1.wait().expect("first"), successful_task(44));
    assert_eq!(p2.wait().expect("second"), successful_task(44));
}

#[test]
fn capacity_evicts_smallest_uid_once_per_insertion() {
    let mut registry = Registry::new();
    for uid in 0..MAX_TICKETS as u64 {
        registry.report(successful_task(uid));
    }
    assert_eq!(registry.len(), MAX_TICKETS);

    registry.report(successful_task(MAX_TICKETS as u64));
    assert_eq!(registry.len(), MAX_TICKETS);
    assert!(registry.completed(0).is_none());
    assert!(registry.completed(1).is_some());
    assert!(registry.completed(MAX_TICKETS as u64).is_some());

    registry.report(successful_task(MAX_TICKETS as u64 + 1));
    assert_eq!(registry.len(), MAX_TICKETS);
    assert!(registry.completed(1).is_none());
    assert!(registry.completed(2).is_some());
}

#[test]
fn reporting_a_known_uid_never_evicts() {
    let mut registry = Registry::new();
    for uid in 0..MAX_TICKETS as u64 {
        registry.report(successful_task(uid));
    }
    registry.report(successful_task(7));
    assert_eq!(registry.len(), MAX_TICKETS);
    assert!(registry.completed(0).is_some());
}

#[test]
fn evicting_a_pending_ticket_fails_its_waiters_fast() {
    let mut registry = Registry::new();
    let promise = registry.subscribe(0);

    for uid in 1..=MAX_TICKETS as u64 {
        registry.report(successful_task(uid));
    }
    assert!(registry.completed(0).is_none());

    assert_eq!(promise.wait(), Err(WaitError::ManagerClosed));
}

#[test]
fn dropping_a_promise_does_not_disturb_siblings() {
    let mut registry = Registry::new();
    let abandoned = registry.subscribe(5);
    let kept = registry.subscribe(5);
    drop(abandoned);

    let waiters = registry.report(successful_task(5));
    assert_eq!(waiters.len(), 2);
    for sender in waiters {
        let _ = sender.send(successful_task(5));
    }

    assert_eq!(kept.wait().expect("sibling resolves"), successful_task(5));
}

#[test]
fn manager_stores_only_reported_uids() {
    let manager = TaskManager::new();
    manager.handle_task(successful_task(11));

    let got = manager.completed(11).expect("stored");
    assert_eq!(got, successful_task(11));
    assert!(manager.completed(12).is_none());
}
