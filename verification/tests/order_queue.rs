use nexus::risk::gatekeeper::lock_free_order_queue::LockFreeOrderQueue;

#[test]
fn test_basic_enqueue_dequeue() {
    let mut queue = LockFreeOrderQueue::new(16);

    for i in 0..5 {
        assert!(queue.try_enqueue(i).is_ok());
    }

    assert_eq!(queue.len(), 5);

    let mut received = Vec::new();
    while let Ok(Some(item)) = queue.try_dequeue(|_| true) {
        received.push(item);
    }

    assert_eq!(received, vec![0, 1, 2, 3, 4]);
    assert!(queue.is_empty());
}

#[test]
fn consumer_rejections_are_dropped() {
    let mut queue = LockFreeOrderQueue::new(16);

    queue.try_enqueue(10).unwrap();
    queue.try_enqueue(20).unwrap();
    queue.try_enqueue(30).unwrap();

    let mut accepted = Vec::new();
    let mut rejected = Vec::new();

    loop {
        match queue.try_dequeue(|&x| x % 20 != 10) {
            Ok(Some(item)) => accepted.push(item),
            Ok(None) => break,
            Err(item) => rejected.push(item),
        }
    }

    assert_eq!(accepted, vec![20]);
    assert_eq!(rejected, vec![10, 30]);
    assert_eq!(queue.dropped_count(), 2);
}

#[test]
fn capacity_rounds_to_power_of_two_and_bounds_queue() {
    let mut queue = LockFreeOrderQueue::new(3);
    assert_eq!(queue.capacity(), 4);
    for i in 0..4 {
        assert_eq!(queue.try_enqueue(i), Ok(()));
    }
    assert_eq!(queue.try_enqueue(99), Err(99));
    assert_eq!(queue.len(), 4);
    assert_eq!(LockFreeOrderQueue::<u8>::new(1).capacity(), 1);
    assert_eq!(LockFreeOrderQueue::<u8>::new(1024).capacity(), 1024);
    assert_eq!(LockFreeOrderQueue::<u8>::new(1025).capacity(), 2048);
}

#[test]
fn test_rejection() {
    let mut queue = LockFreeOrderQueue::new(16);

    queue.try_enqueue(10).unwrap();
    queue.try_enqueue(20).unwrap();
    // The third item is 31, not 30: 30 is even, so the even-number
    // validator accepts it, and a rejection of 30 could not be expected.
    queue.try_enqueue(31).unwrap();

    // Reject odd numbers
    let mut accepted = Vec::new();
    let mut rejected = Vec::new();

    loop {
        match queue.try_dequeue(|&x| x % 2 == 0) {
            Ok(Some(item)) => accepted.push(item),
            Ok(None) => break,
            Err(item) => rejected.push(item),
        }
    }

    assert_eq!(accepted, vec![10, 20]);
    assert_eq!(rejected, vec![31]);
    assert_eq!(queue.dropped_count(), 1);
}

#[test]
fn ring_wraps_around_and_keeps_order() {
    let mut queue = LockFreeOrderQueue::new(4);
    let mut next_in: u32 = 0;
    let mut next_out: u32 = 0;
    // Many times round the four slots, with the queue half full.
    for _ in 0..50 {
        for _ in 0..3 {
            assert_eq!(queue.try_enqueue(next_in), Ok(()));
            next_in += 1;
        }
        for _ in 0..3 {
            assert_eq!(queue.try_dequeue(|_| true), Ok(Some(next_out)));
            next_out += 1;
        }
    }
    assert!(queue.is_empty());
    assert_eq!(queue.try_dequeue(|_| true), Ok(None));
}
