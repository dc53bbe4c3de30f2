use std::time::Instant;
use minimeili::Task;
use minimeili::TaskKind;
use minimeili::TaskManager;
use minimeili::TaskStatus;
use minimeili::WaitError;

fn successful_task(uid: u64) -> Task {
    Task {
        uid,
        index_uid: String::from("afejkone"),
        status: TaskStatus::Succeeded,
        kind: TaskKind::IndexDeletion { deleted_documents: None },
        canceled_by: None,
        error: None,
        duration: None,
        enqueued_at: String::from("fejkedtime"),
        started_at: None,
        finished_at: None,
    }
}

#[test]
fn wait_with_timeout_times_out_without_a_report() {
    let manager = TaskManager::new();
    let promise = manager.subscribe(77);

    let started = Instant::now();
    let outcome = promise.wait_with_timeout(50);
    let elapsed = started.elapsed();

    assert_eq!(outcome, Err(WaitError::Timeout { waited_ms: 50 }));
    assert!(elapsed.as_millis() >= 40, "returned before the timeout");
    assert!(elapsed.as_millis() < 5000, "took far longer than the timeout");
}

#[test]
fn wait_with_timeout_returns_a_ready_task_at_once() {
    let manager = TaskManager::new();
    manager.handle_task(successful_task(8));

    let promise = manager.subscribe(8);
    let got = promise.wait_with_timeout(0).expect("already resolved");
    assert_eq!(got, successful_task(8));
}

#[test]
fn wait_with_timeout_sees_a_value_sent_before_the_wait() {
    let manager = TaskManager::new();
    let promise = manager.subscribe(15);
    manager.handle_task(successful_task(15));

    let got = promise.wait_with_timeout(1000).expect("value was already sent");
    assert_eq!(got, successful_task(15));
}
