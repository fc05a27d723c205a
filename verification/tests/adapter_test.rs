use std::sync::mpsc::{channel, SendError};
use std::sync::{Arc, Mutex};
use std::time::Duration;
use tulsa::async_scheduler::AsyncScheduler;
use tulsa::scheduler_interface::{
    async_create, async_delete, async_update, sync_create, sync_delete, sync_update,
    transport_outcome,
};
use tulsa::thread_scheduler::{Effect, ThreadScheduler};
use tulsa::{
    build, AsyncTask, Feed, Operation, Scheduler, SchedulerInterface, SyncTask, TaskSend,
    ToScheduler, TransportError,
};

type Work = Box<dyn Fn() + Send + Sync>;
type Job = std::pin::Pin<Box<dyn std::future::Future<Output = ()> + Send>>;

struct MockSender<T> {
    tasks: Arc<Mutex<Vec<T>>>,
}

impl<T> TaskSend<T> for MockSender<T> {
    fn send(&self, task: T) -> Result<(), SendError<T>> {
        self.tasks.lock().unwrap().push(task);
        Ok(())
    }
}

fn feed(id: usize, frequency: u64) -> Feed {
    Feed {
        id,
        name: "Name".to_string(),
        url: "http".to_string(),
        frequency,
        headers: std::collections::HashMap::new(),
    }
}

fn work() -> Work {
    Box::new(|| {})
}

fn job() -> Job {
    Box::pin(std::future::ready(()))
}

#[test]
fn feed_commands_for_the_sync_substrate() {
    let feed = feed(12, 10);
    let task = sync_create(&feed, work());
    assert_eq!(task.id, 12);
    assert_eq!(task.op, Operation::Create);
    assert_eq!(task.frequency, Duration::from_secs(10));
    assert_eq!(task.frequency, Duration::from_millis(10_000));
    assert!(task.func.is_some());

    let task = sync_update(&feed, work());
    assert_eq!(task.id, 12);
    assert_eq!(task.op, Operation::Update);
    assert_eq!(task.frequency, Duration::from_secs(10));
    assert!(task.func.is_some());

    let task: SyncTask<Work> = sync_delete(&feed);
    assert_eq!(task.id, 12);
    assert_eq!(task.op, Operation::Delete);
    assert_eq!(task.frequency, Duration::ZERO);
    assert!(task.func.is_none());
}

#[test]
fn feed_commands_for_the_async_substrate() {
    let feed = feed(21, 20);
    let task = async_create(&feed, job());
    assert_eq!((task.id, task.op, task.func.is_some()), (21, Operation::Create, true));
    let task = async_update(&feed, job());
    assert_eq!((task.id, task.op, task.func.is_some()), (21, Operation::Update, true));
    let task: AsyncTask<Job> = async_delete(&feed);
    assert_eq!((task.id, task.op, task.func.is_some()), (21, Operation::Delete, false));
}

#[test]
fn transport_outcome_names_the_lost_command() {
    assert_eq!(transport_outcome::<u8>(Ok(()), 3, Operation::Update), Ok(()));
    assert_eq!(
        transport_outcome(Err(SendError(7u8)), 3, Operation::Update),
        Err(TransportError { id: 3, op: Operation::Update })
    );
    assert_eq!(
        transport_outcome(Err(SendError(7u8)), 0, Operation::Delete),
        Err(TransportError { id: 0, op: Operation::Delete })
    );
}

#[test]
fn adapter_sends_one_command_per_event() {
    let tasks = Arc::new(Mutex::new(Vec::new()));
    let interface: SchedulerInterface<MockSender<SyncTask<Work>>, SyncTask<Work>> =
        SchedulerInterface::new(MockSender { tasks: tasks.clone() });
    let feed = feed(1, 10);

    assert_eq!(interface.create(&feed, work()), Ok(()));
    assert_eq!(tasks.lock().unwrap().len(), 1);
    assert_eq!(tasks.lock().unwrap()[0].id, 1);
    assert_eq!(tasks.lock().unwrap()[0].op, Operation::Create);
    assert_eq!(tasks.lock().unwrap()[0].frequency, Duration::from_secs(10));

    assert_eq!(interface.update(&feed, work()), Ok(()));
    assert_eq!(tasks.lock().unwrap().len(), 2);
    assert_eq!(tasks.lock().unwrap()[1].id, 1);
    assert_eq!(tasks.lock().unwrap()[1].op, Operation::Update);

    assert_eq!(ToScheduler::<Work>::delete(&interface, &feed), Ok(()));
    assert_eq!(tasks.lock().unwrap().len(), 3);
    assert_eq!(tasks.lock().unwrap()[2].id, 1);
    assert_eq!(tasks.lock().unwrap()[2].op, Operation::Delete);
    assert!(tasks.lock().unwrap()[2].func.is_none());
}

#[test]
fn adapter_sends_async_commands() {
    let tasks = Arc::new(Mutex::new(Vec::new()));
    let interface: SchedulerInterface<MockSender<AsyncTask<Job>>, AsyncTask<Job>> =
        SchedulerInterface::new(MockSender { tasks: tasks.clone() });
    let feed = feed(9, 20);
    assert_eq!(interface.create(&feed, job()), Ok(()));
    assert_eq!(interface.update(&feed, job()), Ok(()));
    assert_eq!(ToScheduler::<Job>::delete(&interface, &feed), Ok(()));
    let sent = tasks.lock().unwrap();
    assert_eq!(sent.len(), 3);
    assert_eq!((sent[0].id, sent[0].op), (9, Operation::Create));
    assert_eq!((sent[1].id, sent[1].op), (9, Operation::Update));
    assert_eq!((sent[2].id, sent[2].op), (9, Operation::Delete));
}

#[test]
fn adapter_reports_a_closed_channel() {
    let (sender, receiver) = channel::<SyncTask<Work>>();
    drop(receiver);
    let interface = SchedulerInterface::new(sender);
    let feed = feed(5, 1);
    assert_eq!(
        interface.create(&feed, work()),
        Err(TransportError { id: 5, op: Operation::Create })
    );
    assert_eq!(
        interface.update(&feed, work()),
        Err(TransportError { id: 5, op: Operation::Update })
    );
    assert_eq!(
        ToScheduler::<Work>::delete(&interface, &feed),
        Err(TransportError { id: 5, op: Operation::Delete })
    );
}

#[test]
fn dispatcher_applies_commands_in_send_order() {
    let (interface, dispatcher) = build::<SyncTask<Work>>();
    let feed = feed(4, 3);
    assert_eq!(interface.create(&feed, work()), Ok(()));
    assert_eq!(ToScheduler::<Work>::delete(&interface, &feed), Ok(()));
    assert_eq!(interface.create(&feed, work()), Ok(()));
    drop(interface);

    let mut substrate = ThreadScheduler::new();
    let first = dispatcher.step(&mut substrate).expect("a create");
    assert_eq!(first.len(), 1);
    assert!(matches!(first[0], Effect::Launch { id: 4, .. }));
    assert_eq!(substrate.len(), 1);

    let second = dispatcher.step(&mut substrate).expect("a delete");
    assert_eq!(second.len(), 1);
    assert!(matches!(second[0], Effect::Halt { slot: 0, id: 4 }));
    assert_eq!(substrate.len(), 0);

    let third = dispatcher.step(&mut substrate).expect("a create");
    assert!(matches!(third[0], Effect::Launch { id: 4, .. }));
    assert_eq!(substrate.len(), 1);

    assert!(dispatcher.step(&mut substrate).is_none());
    assert_eq!(substrate.len(), 1);
}

#[test]
fn dispatcher_serves_the_async_substrate() {
    let (sender, receiver) = channel::<AsyncTask<Job>>();
    let dispatcher = Scheduler::new(receiver);
    let interface = SchedulerInterface::new(sender);
    let feed = feed(1, 1);
    assert_eq!(interface.create(&feed, job()), Ok(()));
    assert_eq!(ToScheduler::<Job>::delete(&interface, &feed), Ok(()));
    drop(interface);

    let mut substrate = AsyncScheduler::new();
    let runtime = substrate.runtime().expect("a runtime");
    assert!(dispatcher.step(&mut substrate, &runtime));
    assert!(substrate.is_scheduled(1));
    assert!(dispatcher.step(&mut substrate, &runtime));
    assert!(!substrate.is_scheduled(1));
    assert!(!dispatcher.step(&mut substrate, &runtime));
    assert_eq!(substrate.len(), 0);
}

#[test]
fn sender_gives_a_refused_command_back() {
    let (sender, receiver) = channel::<SyncTask<Work>>();
    drop(receiver);
    let task = SyncTask::new(17, Duration::from_millis(30), work());
    match TaskSend::send(&sender, task) {
        Ok(()) => panic!("the receiver is gone"),
        Err(SendError(back)) => {
            assert_eq!(back.id, 17);
            assert_eq!(back.op, Operation::Create);
            assert_eq!(back.frequency, Duration::from_millis(30));
            assert!(back.func.is_some());
        }
    }
}

#[test]
fn sender_delivers_while_the_receiver_lives() {
    let (sender, receiver) = channel::<SyncTask<Work>>();
    assert!(TaskSend::send(&sender, SyncTask::stop(3)).is_ok());
    let got = receiver.recv().expect("the command");
    assert_eq!((got.id, got.op), (3, Operation::Delete));
}

#[test]
fn connect_keeps_both_ends_of_the_channel() {
    let (sender, receiver) = channel::<SyncTask<Work>>();
    let (interface, dispatcher) = tulsa::scheduler_interface::connect(sender, receiver);
    let feed = feed(8, 2);
    assert_eq!(interface.update(&feed, work()), Ok(()));
    drop(interface);
    let mut substrate = ThreadScheduler::new();
    let effects = dispatcher.step(&mut substrate).expect("an update");
    assert_eq!(effects.len(), 1);
    assert!(matches!(effects[0], Effect::Launch { id: 8, .. }));
    assert!(dispatcher.step(&mut substrate).is_none());
}

#[test]
fn apply_serves_what_the_channel_gave() {
    let mut substrate = ThreadScheduler::new();
    let task = SyncTask::new(1, Duration::from_millis(10), work());
    let effects = Scheduler::<SyncTask<Work>>::apply(Some(task), &mut substrate).expect("effects");
    assert_eq!(effects.len(), 1);
    assert!(matches!(effects[0], Effect::Launch { id: 1, .. }));
    assert_eq!(substrate.len(), 1);

    assert!(Scheduler::<SyncTask<Work>>::apply(None, &mut substrate).is_none());
    assert_eq!(substrate.len(), 1);

    let effects = Scheduler::<SyncTask<Work>>::apply(Some(SyncTask::stop(1)), &mut substrate)
        .expect("effects");
    assert!(matches!(effects[0], Effect::Halt { slot: 0, id: 1 }));
    assert_eq!(substrate.len(), 0);
}

#[test]
fn apply_serves_the_async_substrate() {
    let mut substrate = AsyncScheduler::new();
    let runtime = substrate.runtime().expect("a runtime");
    assert!(Scheduler::<AsyncTask<Job>>::apply(
        Some(AsyncTask::new(2, job())),
        &mut substrate,
        &runtime
    ));
    assert!(substrate.is_scheduled(2));
    assert!(!Scheduler::<AsyncTask<Job>>::apply(None, &mut substrate, &runtime));
    assert!(substrate.is_scheduled(2));
    assert_eq!(substrate.len(), 1);
    assert!(Scheduler::<AsyncTask<Job>>::apply(
        Some(AsyncTask::stop(2)),
        &mut substrate,
        &runtime
    ));
    assert_eq!(substrate.len(), 0);
}
