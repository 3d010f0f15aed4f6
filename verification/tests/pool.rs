use std::cell::Cell;
use std::cell::RefCell;
use std::rc::Rc;

use http_server::ThreadPool;

type Task = Box<dyn FnMut()>;

#[test]
fn five_tasks_on_a_pool_of_two_each_run_once() {
    let counter = Rc::new(Cell::new(0u32));
    let mut pool: ThreadPool<Task> = ThreadPool::new(2);

    for _ in 0..5 {
        let counter = Rc::clone(&counter);
        pool.spawn(Box::new(move || counter.set(counter.get() + 1)));
    }

    // The pool's workers drain the queue between them; each taken task runs
    // to completion exactly once, whichever worker got it.
    while let Some(mut task) = pool.take() {
        task();
    }

    assert_eq!(counter.get(), 5);
}

#[test]
fn tasks_come_out_in_submission_order() {
    let log = Rc::new(RefCell::new(Vec::new()));
    let mut pool: ThreadPool<Task> = ThreadPool::new(4);

    for tag in 0..4u32 {
        let log = Rc::clone(&log);
        pool.spawn(Box::new(move || log.borrow_mut().push(tag)));
    }

    while let Some(mut task) = pool.take() {
        task();
    }

    assert_eq!(*log.borrow(), vec![0, 1, 2, 3]);
}

#[test]
fn spawning_while_draining_loses_nothing() {
    let log = Rc::new(RefCell::new(Vec::new()));
    let mut pool: ThreadPool<Task> = ThreadPool::new(2);

    for tag in 0..2u32 {
        let log = Rc::clone(&log);
        pool.spawn(Box::new(move || log.borrow_mut().push(tag)));
    }

    let mut task = pool.take().expect("a task is pending");
    task();
    let log2 = Rc::clone(&log);
    pool.spawn(Box::new(move || log2.borrow_mut().push(9)));

    while let Some(mut task) = pool.take() {
        task();
    }

    assert_eq!(*log.borrow(), vec![0, 1, 9]);
}

#[test]
fn taking_from_an_empty_pool_returns_nothing() {
    let mut pool: ThreadPool<Task> = ThreadPool::new(8);
    assert!(pool.take().is_none());
}

#[test]
fn pool_keeps_its_size() {
    let pool: ThreadPool<Task> = ThreadPool::new(8);
    assert_eq!(pool.size, 8);
}
