use remote_trait_object::queue::PopError;
use remote_trait_object::queue::Queue;
use remote_trait_object::queue::QueueClosed;
use std::time::Duration;

#[test]
fn first_in_first_out() {
    let mut queue: Queue<u32> = Queue::new(3);
    assert_eq!(queue.push(1), Ok(()));
    assert_eq!(queue.push(2), Ok(()));
    assert_eq!(queue.push(3), Ok(()));
    assert_eq!(queue.len(), 3);
    assert_eq!(queue.pop(None), Ok(1));
    assert_eq!(queue.pop(Some(Duration::from_millis(1))), Ok(2));
    assert_eq!(queue.push(4), Ok(()));
    assert_eq!(queue.pop(None), Ok(3));
    assert_eq!(queue.pop(None), Ok(4));
    assert_eq!(queue.len(), 0);
}

#[test]
fn empty_queue_times_out() {
    let mut queue: Queue<u32> = Queue::new(1);
    assert_eq!(queue.pop(Some(Duration::from_millis(1))), Err(PopError::Timeout));
    assert_eq!(queue.push(1), Ok(()));
    assert_eq!(queue.pop(Some(Duration::from_millis(1))), Ok(1));
    assert_eq!(queue.pop(Some(Duration::from_millis(0))), Err(PopError::Timeout));
    assert_ne!(PopError::Timeout, PopError::QueueClosed);
    assert_eq!(QueueClosed, QueueClosed);
}
