//! The task queue: FIFO order, and that submission runs nothing.

use navigator_core::scheduler::TaskQueue;
use std::cell::Cell;
use std::rc::Rc;

#[test]
fn tasks_come_out_in_submission_order() {
    let mut q: TaskQueue<u32> = TaskQueue::new();
    assert_eq!(q.len(), 0);
    q.spawn(1);
    q.spawn(2);
    q.spawn(3);
    assert_eq!(q.len(), 3);
    assert_eq!(q.take_next(), Some(1));
    assert_eq!(q.take_next(), Some(2));
    assert_eq!(q.take_next(), Some(3));
    assert_eq!(q.take_next(), None);
    assert_eq!(q.len(), 0);
}

#[test]
fn spawn_returns_before_any_part_of_the_task_runs() {
    let ran = Rc::new(Cell::new(false));
    let flag = ran.clone();
    let mut q: TaskQueue<Box<dyn FnOnce()>> = TaskQueue::new();
    q.spawn(Box::new(move || flag.set(true)));
    // the task is queued, not driven — also when the host notification
    // that would follow a submission cannot be delivered
    assert!(!ran.get());
    assert_eq!(q.len(), 1);
    let task = q.take_next().expect("one task is queued");
    assert!(!ran.get());
    task();
    assert!(ran.get());
}

#[test]
fn an_abandoned_task_never_runs() {
    let ran = Rc::new(Cell::new(false));
    let flag = ran.clone();
    let mut q: TaskQueue<Box<dyn FnOnce()>> = TaskQueue::new();
    q.spawn(Box::new(move || flag.set(true)));
    drop(q);
    assert!(!ran.get());
}
