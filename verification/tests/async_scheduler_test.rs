use std::sync::atomic::{AtomicUsize, Ordering};
use std::sync::Arc;
use std::time::Duration;
use tulsa::async_scheduler::{AsyncEffect, AsyncScheduler};
use tulsa::AsyncTask;

type Work = std::pin::Pin<Box<dyn std::future::Future<Output = ()> + Send>>;

fn ticking(lines: Arc<AtomicUsize>, millis: u64) -> Work {
    Box::pin(async move {
        let mut interval = tokio::time::interval(Duration::from_millis(millis));
        for _ in 0..1000 {
            interval.tick().await;
            lines.fetch_add(1, Ordering::SeqCst);
        }
    })
}

fn wait(runtime: &tokio::runtime::Runtime, millis: u64) {
    runtime.block_on(async move { tokio::time::sleep(Duration::from_millis(millis)).await });
}

#[test]
fn async_scheduler_create() {
    let mut scheduler = AsyncScheduler::new();
    let runtime = scheduler.runtime().expect("a runtime");
    let lines = Arc::new(AtomicUsize::new(0));
    let task = AsyncTask::new(1, ticking(lines.clone(), 100));

    assert_eq!(lines.load(Ordering::SeqCst), 0);
    scheduler.handle(&runtime, task);
    assert!(scheduler.is_scheduled(1));
    assert_eq!(scheduler.len(), 1);

    wait(&runtime, 550);
    assert_eq!(lines.load(Ordering::SeqCst), 6);
}

#[test]
fn async_scheduler_delete() {
    let mut scheduler = AsyncScheduler::new();
    let runtime = scheduler.runtime().expect("a runtime");
    let lines = Arc::new(AtomicUsize::new(0));
    let task_id: usize = 2;
    let task = AsyncTask::new(task_id, ticking(lines.clone(), 100));

    assert_eq!(lines.load(Ordering::SeqCst), 0);
    scheduler.handle(&runtime, task);

    wait(&runtime, 550);
    assert_eq!(lines.load(Ordering::SeqCst), 6);

    scheduler.handle(&runtime, AsyncTask::<Work>::stop(task_id));
    assert!(!scheduler.is_scheduled(task_id));
    assert_eq!(scheduler.len(), 0);

    wait(&runtime, 550);
    assert_eq!(lines.load(Ordering::SeqCst), 6);
}

#[test]
fn async_update_replaces() {
    let mut scheduler = AsyncScheduler::new();
    let runtime = scheduler.runtime().expect("a runtime");
    let first = Arc::new(AtomicUsize::new(0));
    let second = Arc::new(AtomicUsize::new(0));

    scheduler.handle(&runtime, AsyncTask::new(3, ticking(first.clone(), 200)));
    wait(&runtime, 250);
    scheduler.handle(&runtime, AsyncTask::update(3, ticking(second.clone(), 50)));
    assert!(scheduler.is_scheduled(3));
    assert_eq!(scheduler.len(), 1);
    let first_at_update = first.load(Ordering::SeqCst);
    assert!(first_at_update <= 2);

    wait(&runtime, 250);
    assert!(second.load(Ordering::SeqCst) >= 4);
    assert_eq!(first.load(Ordering::SeqCst), first_at_update);
}

#[test]
fn async_burst_leaves_one_execution() {
    let mut scheduler = AsyncScheduler::new();
    let runtime = scheduler.runtime().expect("a runtime");
    let first = Arc::new(AtomicUsize::new(0));
    let second = Arc::new(AtomicUsize::new(0));
    scheduler.serve(
        &runtime,
        vec![
            AsyncTask::new(4, ticking(first.clone(), 100)),
            AsyncTask::stop(4),
            AsyncTask::new(4, ticking(second.clone(), 100)),
        ],
    );
    assert!(scheduler.is_scheduled(4));
    assert_eq!(scheduler.len(), 1);
    wait(&runtime, 250);
    assert!(first.load(Ordering::SeqCst) <= 1);
    assert_eq!(second.load(Ordering::SeqCst), 3);
}

#[test]
fn async_create_on_scheduled_id_replaces() {
    let mut scheduler = AsyncScheduler::new();
    let runtime = scheduler.runtime().expect("a runtime");
    let first = Arc::new(AtomicUsize::new(0));
    let second = Arc::new(AtomicUsize::new(0));
    scheduler.handle(&runtime, AsyncTask::new(5, ticking(first.clone(), 50)));
    wait(&runtime, 120);
    scheduler.handle(&runtime, AsyncTask::new(5, ticking(second.clone(), 50)));
    assert_eq!(scheduler.len(), 1);
    let first_at_replace = first.load(Ordering::SeqCst);
    wait(&runtime, 120);
    assert_eq!(first.load(Ordering::SeqCst), first_at_replace);
    assert!(second.load(Ordering::SeqCst) >= 2);
}

#[test]
fn async_unknown_delete_and_update() {
    let mut scheduler = AsyncScheduler::new();
    let runtime = scheduler.runtime().expect("a runtime");
    scheduler.handle(&runtime, AsyncTask::<Work>::stop(999));
    assert_eq!(scheduler.len(), 0);
    assert!(!scheduler.is_scheduled(999));

    let lines = Arc::new(AtomicUsize::new(0));
    scheduler.handle(&runtime, AsyncTask::update(6, ticking(lines.clone(), 50)));
    assert!(scheduler.is_scheduled(6));
    wait(&runtime, 120);
    assert!(lines.load(Ordering::SeqCst) >= 2);
}

#[test]
fn async_other_tasks_keep_running() {
    let mut scheduler = AsyncScheduler::new();
    let runtime = scheduler.runtime().expect("a runtime");
    let kept = Arc::new(AtomicUsize::new(0));
    let dropped = Arc::new(AtomicUsize::new(0));
    scheduler.handle(&runtime, AsyncTask::new(1, ticking(kept.clone(), 50)));
    scheduler.handle(&runtime, AsyncTask::new(2, ticking(dropped.clone(), 50)));
    scheduler.handle(&runtime, AsyncTask::<Work>::stop(2));
    assert!(scheduler.is_scheduled(1));
    assert!(!scheduler.is_scheduled(2));
    wait(&runtime, 220);
    assert!(kept.load(Ordering::SeqCst) >= 4);
    assert!(dropped.load(Ordering::SeqCst) <= 1);
}

#[test]
fn async_worker_thread_count() {
    assert!(AsyncScheduler::with_worker_threads(0).is_none());
    let scheduler = AsyncScheduler::with_worker_threads(2).expect("two workers");
    assert_eq!(scheduler.len(), 0);
    assert!(scheduler.runtime().is_some());
}

#[test]
fn async_handle_records_what_it_did() {
    let mut scheduler = AsyncScheduler::new();
    let runtime = scheduler.runtime().expect("a runtime");
    let lines = Arc::new(AtomicUsize::new(0));

    let done = scheduler.handle(&runtime, AsyncTask::new(7, ticking(lines.clone(), 50)));
    assert_eq!(done.len(), 1);
    assert!(matches!(done[0], AsyncEffect::Spawned { id: 7 }));

    let done = scheduler.handle(&runtime, AsyncTask::update(7, ticking(lines.clone(), 50)));
    assert_eq!(done.len(), 2);
    assert!(matches!(done[0], AsyncEffect::Cancelled { id: 7, .. }));
    assert!(matches!(done[1], AsyncEffect::Spawned { id: 7 }));

    let done = scheduler.handle(&runtime, AsyncTask::new(7, ticking(lines.clone(), 50)));
    assert_eq!(done.len(), 2);
    assert!(matches!(done[0], AsyncEffect::Cancelled { id: 7, .. }));
    assert!(matches!(done[1], AsyncEffect::Spawned { id: 7 }));

    let done = scheduler.handle(&runtime, AsyncTask::<Work>::stop(7));
    assert_eq!(done.len(), 1);
    assert!(matches!(done[0], AsyncEffect::Cancelled { id: 7, .. }));
    assert_eq!(scheduler.len(), 0);

    let done = scheduler.handle(&runtime, AsyncTask::<Work>::stop(7));
    assert!(done.is_empty());
    let done = scheduler.handle(&runtime, AsyncTask::<Work>::stop(999));
    assert!(done.is_empty());
}

#[test]
fn async_cancelled_execution_stops_ticking() {
    let mut scheduler = AsyncScheduler::new();
    let runtime = scheduler.runtime().expect("a runtime");
    let lines = Arc::new(AtomicUsize::new(0));
    scheduler.handle(&runtime, AsyncTask::new(1, ticking(lines.clone(), 20)));
    wait(&runtime, 90);
    let done = scheduler.handle(&runtime, AsyncTask::<Work>::stop(1));
    assert!(matches!(done[0], AsyncEffect::Cancelled { id: 1, .. }));
    wait(&runtime, 30);
    let settled = lines.load(Ordering::SeqCst);
    assert!(settled >= 4);
    wait(&runtime, 100);
    assert_eq!(lines.load(Ordering::SeqCst), settled);
}

#[test]
fn async_command_without_work_only_cancels() {
    let mut scheduler = AsyncScheduler::new();
    let runtime = scheduler.runtime().expect("a runtime");
    let lines = Arc::new(AtomicUsize::new(0));
    scheduler.handle(&runtime, AsyncTask::new(1, ticking(lines.clone(), 50)));
    let bare: AsyncTask<Work> = AsyncTask { id: 1, func: None, op: tulsa::Operation::Update };
    let done = scheduler.handle(&runtime, bare);
    assert_eq!(done.len(), 1);
    assert!(matches!(done[0], AsyncEffect::Cancelled { id: 1, .. }));
    assert!(!scheduler.is_scheduled(1));
}
