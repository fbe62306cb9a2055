use std::sync::atomic::{AtomicU64, Ordering};
use std::sync::{Arc, Mutex};

use spironmc::scheduler::Scheduler;

type Task = Box<dyn FnMut(u64) + Send>;

fn counter() -> (Arc<AtomicU64>, Task) {
    let count = Arc::new(AtomicU64::new(0));
    let task_count = count.clone();
    let task: Task = Box::new(move |_| {
        task_count.fetch_add(1, Ordering::SeqCst);
    });
    (count, task)
}

#[test]
fn runs_next_tick_task_once() {
    let mut scheduler = Scheduler::new();
    let (count, task) = counter();
    scheduler.run_next_tick(task);

    scheduler.tick(0);
    assert_eq!(count.load(Ordering::SeqCst), 1);

    scheduler.tick(1);
    assert_eq!(count.load(Ordering::SeqCst), 1);
}

#[test]
fn runs_delayed_task_at_the_right_tick() {
    let mut scheduler = Scheduler::new();
    let (count, task) = counter();
    scheduler.run_later(5, task);

    for tick in 0..5 {
        scheduler.tick(tick);
        assert_eq!(count.load(Ordering::SeqCst), 0);
    }
    scheduler.tick(5);
    assert_eq!(count.load(Ordering::SeqCst), 1);
}

#[test]
fn runs_repeating_task_every_period() {
    let mut scheduler = Scheduler::new();
    let (count, task) = counter();
    scheduler.run_every(3, task);

    for tick in 0..10 {
        scheduler.tick(tick);
    }
    assert_eq!(count.load(Ordering::SeqCst), 3);
}

#[test]
fn runs_tasks_in_schedule_order() {
    let mut scheduler: Scheduler<Task> = Scheduler::new();
    let order = Arc::new(Mutex::new(Vec::new()));
    for id in [1, 2, 3] {
        let order = order.clone();
        scheduler.run_next_tick(Box::new(move |_| order.lock().unwrap().push(id)));
    }

    scheduler.tick(0);
    assert_eq!(*order.lock().unwrap(), vec![1, 2, 3]);
}

#[test]
fn passes_current_tick_to_tasks() {
    let mut scheduler: Scheduler<Task> = Scheduler::new();
    let seen = Arc::new(AtomicU64::new(u64::MAX));
    let task_seen = seen.clone();
    scheduler.run_later(4, Box::new(move |tick| task_seen.store(tick, Ordering::SeqCst)));

    scheduler.tick(4);
    assert_eq!(seen.load(Ordering::SeqCst), 4);
}

#[test]
fn later_tasks_wait_past_a_skipped_tick() {
    let mut scheduler = Scheduler::new();
    let (count, task) = counter();
    scheduler.tick(10);
    scheduler.run_later(u64::MAX, task);
    scheduler.tick(1_000_000);
    assert_eq!(count.load(Ordering::SeqCst), 0);
    scheduler.tick(u64::MAX);
    assert_eq!(count.load(Ordering::SeqCst), 1);
}
