use std::sync::mpsc;

use dirty::task::{Task, TaskPool};

type Job = Box<dyn FnOnce() -> u64 + Send + 'static>;

// Runs the work at once and hands its result through a channel, as a
// worker would.
fn spawn_thread(f: Job) -> mpsc::Receiver<u64> {
    let (tx, rx) = mpsc::channel();
    let _ = tx.send(f());
    rx
}

#[test]
fn task_runs_on_a_thread() {
    let mut t: Task<Job, mpsc::Receiver<u64>> = Task::new(Box::new(|| 6 * 7));
    assert!(!t.started());
    assert!(!t.done());
    assert_eq!(t.poll(|rx: &mpsc::Receiver<u64>| rx.try_recv().ok()), None);
    t.start(spawn_thread);
    assert!(t.started());
    let v = t.block(|rx: &mpsc::Receiver<u64>| rx.recv().ok());
    assert_eq!(v, Some(42));
    assert!(t.done());
    assert_eq!(t.poll(|rx: &mpsc::Receiver<u64>| rx.try_recv().ok()), None);
}

#[test]
fn task_exec_starts_at_once() {
    let mut t = Task::exec(Box::new(|| 5u64) as Job, spawn_thread);
    assert!(t.started());
    assert_eq!(t.block(|rx: &mpsc::Receiver<u64>| rx.recv().ok()), Some(5));
}

#[test]
fn task_block_before_start_gives_nothing() {
    let mut t: Task<Job, mpsc::Receiver<u64>> = Task::new(Box::new(|| 1));
    assert_eq!(t.block(|rx: &mpsc::Receiver<u64>| rx.recv().ok()), None);
    assert!(!t.done());
}

#[test]
fn pool_runs_at_most_max_in_queue_order() {
    // Work that finishes as soon as it starts: the handle is the result.
    let spawn = |a: u64| a * 10;
    let take = |r: &u64| Some(*r);
    let mut pool: TaskPool<u64, u64> = TaskPool::new(2);
    pool.exec(1, &spawn);
    pool.exec(2, &spawn);
    pool.exec(3, &spawn);
    pool.exec(4, &spawn);
    pool.exec(5, &spawn);
    assert_eq!(pool.poll(&take, &spawn), vec![10, 20]);
    assert_eq!(pool.poll(&take, &spawn), vec![30, 40]);
    assert_eq!(pool.poll(&take, &spawn), vec![50]);
    assert_eq!(pool.poll(&take, &spawn), Vec::<u64>::new());
}

#[test]
fn pool_clear_queue_drops_waiting_work() {
    let spawn = |a: u64| a;
    let take = |r: &u64| Some(*r);
    let mut pool: TaskPool<u64, u64> = TaskPool::new(1);
    pool.exec(7, &spawn);
    pool.exec(8, &spawn);
    pool.exec(9, &spawn);
    pool.clear_queue();
    assert_eq!(pool.poll(&take, &spawn), vec![7]);
    assert_eq!(pool.poll(&take, &spawn), Vec::<u64>::new());
}

#[test]
fn pool_with_zero_slots_starts_nothing() {
    let spawn = |a: u64| a;
    let take = |r: &u64| Some(*r);
    let mut pool: TaskPool<u64, u64> = TaskPool::new(0);
    pool.exec(1, &spawn);
    assert_eq!(pool.poll(&take, &spawn), Vec::<u64>::new());
}

#[test]
fn pool_with_channels() {
    let spawn = |f: Job| spawn_thread(f);
    let take = |rx: &mpsc::Receiver<u64>| rx.recv().ok();
    let mut pool: TaskPool<Job, mpsc::Receiver<u64>> = TaskPool::new(3);
    for i in 0..3u64 {
        pool.exec(Box::new(move || i + 100), &spawn);
    }
    let got = pool.poll(&take, &spawn);
    assert_eq!(got, vec![100, 101, 102]);
}

#[test]
fn task_stays_started_and_done_after_more_calls() {
    let mut t: Task<Job, mpsc::Receiver<u64>> = Task::new(Box::new(|| 3));
    t.start(spawn_thread);
    assert_eq!(t.poll(|rx: &mpsc::Receiver<u64>| rx.try_recv().ok()), Some(3));
    assert!(t.started());
    assert!(t.done());
    t.start(spawn_thread);
    assert_eq!(t.poll(|rx: &mpsc::Receiver<u64>| rx.try_recv().ok()), None);
    assert_eq!(t.block(|rx: &mpsc::Receiver<u64>| rx.recv().ok()), None);
    assert!(t.started());
    assert!(t.done());
}
