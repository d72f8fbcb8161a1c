use kernel_core::KernelError;
use kernel_core::queue::ArrayQueue;

#[test]
fn count_tracks_pushes_minus_pops() {
    let mut q: ArrayQueue<u32, 4> = ArrayQueue::new(0);
    assert_eq!(q.count(), 0);
    assert_eq!(q.capasity(), 4);

    assert!(q.push(10).is_ok());
    assert!(q.push(20).is_ok());
    assert!(q.push(30).is_ok());
    assert_eq!(q.count(), 3);

    assert!(q.pop().is_ok());
    assert_eq!(q.count(), 2);
    assert!(q.pop().is_ok());
    assert!(q.pop().is_ok());
    assert_eq!(q.count(), 0);
}

#[test]
fn push_into_full_queue_fails_and_keeps_contents() {
    let mut q: ArrayQueue<u32, 2> = ArrayQueue::new(0);
    assert!(q.push(1).is_ok());
    assert!(q.push(2).is_ok());
    assert_eq!(q.push(3), Err(KernelError::QueueFull));
    assert_eq!(q.count(), 2);
    assert_eq!(*q.front(), 1);
    assert!(q.pop().is_ok());
    assert_eq!(*q.front(), 2);
}

#[test]
fn pop_from_empty_queue_fails_and_changes_nothing() {
    let mut q: ArrayQueue<u32, 2> = ArrayQueue::new(0);
    assert_eq!(q.pop(), Err(KernelError::QueueEmpty));
    assert_eq!(q.count(), 0);
    assert!(q.push(7).is_ok());
    assert!(q.pop().is_ok());
    assert_eq!(q.pop(), Err(KernelError::QueueEmpty));
    assert_eq!(q.count(), 0);
}

#[test]
fn front_returns_oldest_across_interleaved_operations() {
    let mut q: ArrayQueue<u32, 3> = ArrayQueue::new(0);
    assert!(q.push(1).is_ok());
    assert!(q.push(2).is_ok());
    assert_eq!(*q.front(), 1);
    assert!(q.pop().is_ok());
    assert_eq!(*q.front(), 2);
    assert!(q.push(3).is_ok());
    assert!(q.push(4).is_ok());
    assert_eq!(*q.front(), 2);
    assert!(q.pop().is_ok());
    assert_eq!(*q.front(), 3);
    assert!(q.pop().is_ok());
    assert_eq!(*q.front(), 4);
    assert!(q.push(5).is_ok());
    assert!(q.push(6).is_ok());
    assert!(q.pop().is_ok());
    assert_eq!(*q.front(), 5);
}

#[test]
fn cursors_wrap_around_the_backing_store() {
    let mut q: ArrayQueue<u32, 2> = ArrayQueue::new(0);
    for round in 0..10u32 {
        assert!(q.push(round).is_ok());
        assert_eq!(*q.front(), round);
        assert!(q.pop().is_ok());
    }
    assert_eq!(q.count(), 0);
}

#[test]
fn error_messages_match_the_reported_reasons() {
    assert_eq!(KernelError::QueueFull.message(), "queue is full.");
    assert_eq!(KernelError::QueueEmpty.message(), "queue is empty.");
}
