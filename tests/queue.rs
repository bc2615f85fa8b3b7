use senvy::queue::{drain, FileTaskQueue, NextTask};
use senvy::memory::MemoryStore;
use senvy::task::{FileTask, FileTaskReturnType, Task};
use senvy::types::{Project, ProjectEntry, Var};
use tokio::sync::oneshot;

fn new_task() -> Task {
    let (rx, _) = oneshot::channel();
    Task::new(FileTask::ReadConfig("test".to_string()), rx)
}

fn project(name: &str, value: &str) -> Project {
    Project {
        name: name.to_string(),
        vars: vec![Var { name: "port".to_string(), value: value.to_string() }],
        path: "./.env".to_string(),
    }
}

#[test]
fn pushing() {
    let mut q = FileTaskQueue::new();
    for _ in 0..5 {
        let task = new_task();
        assert_eq!(true, q.push_task(task));
    }

    let mut number_of_tasks = 0;
    while let NextTask::Ready(_) = q.next_task() {
        number_of_tasks += 1;
        if number_of_tasks == 5 {
            q.end();
        }
    }
    assert!(true);
    assert_eq!(number_of_tasks, 5);
    assert!(matches!(q.next_task(), NextTask::End));
}

#[test]
fn empty_queue() {
    let mut q = FileTaskQueue::new();
    q.end();

    let task = new_task();
    assert_eq!(false, q.push_task(task));
}

#[test]
fn open_empty_queue_reports_empty() {
    let mut q = FileTaskQueue::new();
    assert!(matches!(q.next_task(), NextTask::Empty));
    assert!(!q.has_ended());
    q.end();
    assert!(q.has_ended());
    q.end();
    assert!(matches!(q.next_task(), NextTask::End));
}

#[test]
fn tasks_leave_in_push_order() {
    let mut q = FileTaskQueue::new();
    for name in ["a", "b", "c"] {
        let (tx, _rx) = oneshot::channel();
        assert!(q.push_task(Task::new(FileTask::DeleteConfig(name.to_string()), tx)));
    }
    let mut seen = Vec::new();
    while let NextTask::Ready(t) = q.next_task() {
        let (action, _) = t.start();
        seen.push(format!("{:?}", action));
    }
    assert_eq!(seen, vec!["Remove(\"a\")", "Remove(\"b\")", "Remove(\"c\")"]);
}

#[test]
fn concurrent_creates_one_wins() {
    let mut q = FileTaskQueue::new();
    let mut store = MemoryStore::new();
    let (tx1, mut rx1) = oneshot::channel();
    let (tx2, mut rx2) = oneshot::channel();
    assert!(q.push_task(Task::new(FileTask::CreateConfig(1, project("p", "1")), tx1)));
    assert!(q.push_task(Task::new(FileTask::CreateConfig(2, project("p", "2")), tx2)));
    drain(&mut q, &mut store);

    assert!(matches!(rx1.try_recv(), Ok(FileTaskReturnType::CreateReturn(Ok(true)))));
    assert!(matches!(rx2.try_recv(), Ok(FileTaskReturnType::CreateReturn(Ok(false)))));

    let (tx3, mut rx3) = oneshot::channel();
    assert!(q.push_task(Task::new(FileTask::ReadConfig("p".to_string()), tx3)));
    drain(&mut q, &mut store);
    let expected = ProjectEntry {
        timestamp: 1,
        path: "./.env".to_string(),
        vars: vec![Var { name: "port".to_string(), value: "1".to_string() }],
    };
    match rx3.try_recv() {
        Ok(FileTaskReturnType::ReadReturn(Ok(Some(e)))) => assert_eq!(e, expected),
        other => panic!("unexpected result {:?}", other),
    }
    assert_eq!(store.len(), 1);
}

#[test]
fn drain_applies_in_queue_order() {
    let mut q = FileTaskQueue::new();
    let mut store = MemoryStore::new();
    let (tx1, mut rx1) = oneshot::channel();
    let (tx2, mut rx2) = oneshot::channel();
    let (tx3, mut rx3) = oneshot::channel();
    let (tx4, mut rx4) = oneshot::channel();
    assert!(q.push_task(Task::new(FileTask::UpdateConfig(5, project("x", "0")), tx1)));
    assert!(q.push_task(Task::new(FileTask::CreateConfig(6, project("x", "1")), tx2)));
    assert!(q.push_task(Task::new(FileTask::DeleteConfig("x".to_string()), tx3)));
    assert!(q.push_task(Task::new(FileTask::ReadConfig("x".to_string()), tx4)));
    drain(&mut q, &mut store);
    assert!(matches!(rx1.try_recv(), Ok(FileTaskReturnType::UpdateReturn(Ok(false)))));
    assert!(matches!(rx2.try_recv(), Ok(FileTaskReturnType::CreateReturn(Ok(true)))));
    assert!(matches!(rx3.try_recv(), Ok(FileTaskReturnType::DeleteReturn(Ok(true)))));
    assert!(matches!(rx4.try_recv(), Ok(FileTaskReturnType::ReadReturn(Ok(None)))));
    assert_eq!(store.len(), 0);
    assert!(matches!(q.next_task(), NextTask::Empty));
}

#[test]
fn shutdown_abandons_queued_tasks() {
    let mut q = FileTaskQueue::new();
    let mut store = MemoryStore::new();
    let mut receivers = Vec::new();
    for i in 0..3 {
        let (tx, rx) = oneshot::channel();
        assert!(q.push_task(Task::new(FileTask::CreateConfig(i, project(&format!("p{}", i), "v")), tx)));
        receivers.push(rx);
    }
    q.end();
    drain(&mut q, &mut store);
    for mut rx in receivers {
        assert!(matches!(rx.try_recv(), Err(oneshot::error::TryRecvError::Closed)));
    }
    assert_eq!(store.len(), 0);
    assert!(matches!(q.next_task(), NextTask::End));
}

#[test]
fn push_after_shutdown_is_never_executed() {
    let mut q = FileTaskQueue::new();
    let mut store = MemoryStore::new();
    q.end();
    let (tx, mut rx) = oneshot::channel();
    assert!(!q.push_task(Task::new(FileTask::CreateConfig(1, project("late", "v")), tx)));
    drain(&mut q, &mut store);
    assert!(matches!(rx.try_recv(), Err(oneshot::error::TryRecvError::Closed)));
    assert_eq!(store.len(), 0);
}

#[test]
fn result_to_a_departed_submitter_is_dropped() {
    let mut store = MemoryStore::new();
    let (tx, rx) = oneshot::channel();
    drop(rx);
    let task = Task::new(FileTask::CreateConfig(9, project("gone", "v")), tx);
    assert!(!task.execute_on(&mut store));
    assert_eq!(store.len(), 1);
}
