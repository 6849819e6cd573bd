use market_feed::pool::{PoolError, ThreadPool};

#[test]
fn zero_size_rejected() {
    match ThreadPool::new(0) {
        Err(e) => assert_eq!(e, PoolError::InvalidSize),
        Ok(_) => panic!("a pool of size zero was accepted"),
    }
}

#[test]
fn closed_pool_rejects_work() {
    let mut pool = ThreadPool::new(1).unwrap();
    pool.execute(1).unwrap();
    pool.close();
    match pool.execute(2) {
        Err(e) => assert_eq!(e, PoolError::PoolClosed),
        Ok(_) => panic!("a closed pool accepted work"),
    }
    assert_eq!(pool.queue, vec![1]);
}

#[test]
fn at_most_size_tasks_run_concurrently() {
    let mut pool = ThreadPool::new(2).unwrap();
    for t in 1..=5 {
        pool.execute(t).unwrap();
    }

    assert_eq!(pool.take(), Some(1));
    assert_eq!(pool.take(), Some(2));
    assert_eq!(pool.running.len(), 2);
    // Both workers are busy: the queue holds work but nothing more starts.
    assert_eq!(pool.take(), None);

    assert!(pool.complete(1));
    assert_eq!(pool.take(), Some(3));
    assert!(pool.running.len() <= 2);
}

#[test]
fn all_tasks_complete_exactly_once_in_order() {
    let mut pool = ThreadPool::new(2).unwrap();
    for t in 1..=5 {
        pool.execute(t).unwrap();
    }
    pool.take();
    pool.take();
    assert!(pool.complete(1));
    pool.take();
    assert!(pool.complete(3));
    assert!(pool.complete(2));

    pool.close();
    pool.drain();
    assert!(pool.queue.is_empty());
    assert!(pool.running.is_empty());
    assert_eq!(pool.done, vec![1, 3, 2, 4, 5]);

    let mut sorted = pool.done.clone();
    sorted.sort();
    assert_eq!(sorted, vec![1, 2, 3, 4, 5]);
}

#[test]
fn completing_unknown_task_rejected() {
    let mut pool = ThreadPool::new(1).unwrap();
    pool.execute(1).unwrap();
    assert!(!pool.complete(1));
    assert!(pool.done.is_empty());
}

#[test]
fn take_from_an_empty_queue_yields_nothing() {
    let mut pool = ThreadPool::new(2).unwrap();
    assert_eq!(pool.take(), None);
    assert!(pool.running.is_empty());
}

#[test]
fn drain_preserves_fifo_order() {
    let mut pool = ThreadPool::new(3).unwrap();
    for t in [10, 20, 30] {
        pool.execute(t).unwrap();
    }
    pool.drain();
    assert_eq!(pool.done, vec![10, 20, 30]);
}
