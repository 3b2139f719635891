use osc_relay::message::Message;
use osc_relay::queue::{Popped, PushError, RelayQueue};

#[test]
fn new_queue_is_empty_and_open() {
    let queue: RelayQueue<i32> = RelayQueue::new(100);
    assert_eq!(queue.len(), 0);
    assert_eq!(queue.capacity(), 100);
    assert!(queue.is_empty());
    assert!(!queue.is_full());
    assert!(!queue.is_closed());
}

#[test]
fn items_come_out_in_the_order_they_went_in() {
    let mut queue = RelayQueue::new(4);
    assert_eq!(queue.push(Message::X(1, 2)), Ok(()));
    assert_eq!(queue.push(Message::Y(3, 4)), Ok(()));
    assert_eq!(queue.push(Message::Z(5, 6)), Ok(()));
    assert_eq!(queue.len(), 3);
    assert_eq!(queue.pop(), Popped::Item(Message::X(1, 2)));
    assert_eq!(queue.pop(), Popped::Item(Message::Y(3, 4)));
    assert_eq!(queue.pop(), Popped::Item(Message::Z(5, 6)));
    assert_eq!(queue.pop(), Popped::Empty);
}

#[test]
fn order_holds_when_pushes_and_pops_alternate() {
    let mut queue = RelayQueue::new(2);
    assert_eq!(queue.push(1), Ok(()));
    assert_eq!(queue.push(2), Ok(()));
    assert_eq!(queue.pop(), Popped::Item(1));
    assert_eq!(queue.push(3), Ok(()));
    assert_eq!(queue.pop(), Popped::Item(2));
    assert_eq!(queue.push(4), Ok(()));
    assert_eq!(queue.pop(), Popped::Item(3));
    assert_eq!(queue.pop(), Popped::Item(4));
    assert_eq!(queue.pop(), Popped::Empty);
}

#[test]
fn equal_items_are_not_merged() {
    let mut queue = RelayQueue::new(3);
    assert_eq!(queue.push(7), Ok(()));
    assert_eq!(queue.push(7), Ok(()));
    assert_eq!(queue.len(), 2);
    assert_eq!(queue.pop(), Popped::Item(7));
    assert_eq!(queue.pop(), Popped::Item(7));
    assert_eq!(queue.pop(), Popped::Empty);
}

#[test]
fn push_beyond_capacity_waits_for_a_pop() {
    let capacity = 3;
    let mut queue = RelayQueue::new(capacity);
    for item in 0..capacity {
        assert_eq!(queue.push(item), Ok(()));
    }
    assert!(queue.is_full());
    assert_eq!(queue.push(capacity), Err(PushError::Full(capacity)));
    assert_eq!(queue.push(capacity), Err(PushError::Full(capacity)));
    assert_eq!(queue.len(), capacity);
    assert_eq!(queue.pop(), Popped::Item(0));
    assert!(!queue.is_full());
    assert_eq!(queue.push(capacity), Ok(()));
    for item in 1..=capacity {
        assert_eq!(queue.pop(), Popped::Item(item));
    }
    assert_eq!(queue.pop(), Popped::Empty);
}

#[test]
fn queue_of_one_hundred_takes_one_hundred() {
    let mut queue = RelayQueue::new(100);
    for item in 0..100 {
        assert_eq!(queue.push(item), Ok(()));
    }
    assert_eq!(queue.push(100), Err(PushError::Full(100)));
    assert_eq!(queue.len(), 100);
    for item in 0..100 {
        assert_eq!(queue.pop(), Popped::Item(item));
    }
    assert_eq!(queue.pop(), Popped::Empty);
}

#[test]
fn queue_without_capacity_takes_nothing() {
    let mut queue = RelayQueue::new(0);
    assert!(queue.is_full());
    assert!(queue.is_empty());
    assert_eq!(queue.push(1), Err(PushError::Full(1)));
    assert_eq!(queue.pop(), Popped::Empty);
}

#[test]
fn push_after_close_fails() {
    let mut queue = RelayQueue::new(2);
    queue.close();
    assert!(queue.is_closed());
    assert_eq!(queue.push(1), Err(PushError::Closed(1)));
    assert_eq!(queue.len(), 0);
}

#[test]
fn push_on_a_full_closed_queue_reports_the_close() {
    let mut queue = RelayQueue::new(1);
    assert_eq!(queue.push(1), Ok(()));
    queue.close();
    assert_eq!(queue.push(2), Err(PushError::Closed(2)));
}

#[test]
fn closed_queue_drains_before_it_ends() {
    let mut queue = RelayQueue::new(3);
    assert_eq!(queue.push(1), Ok(()));
    assert_eq!(queue.push(2), Ok(()));
    queue.close();
    assert_eq!(queue.len(), 2);
    assert_eq!(queue.pop(), Popped::Item(1));
    assert_eq!(queue.pop(), Popped::Item(2));
    assert_eq!(queue.pop(), Popped::Closed);
    assert_eq!(queue.pop(), Popped::Closed);
}

#[test]
fn close_twice_is_close_once() {
    let mut queue: RelayQueue<i32> = RelayQueue::new(3);
    queue.close();
    queue.close();
    assert!(queue.is_closed());
    assert_eq!(queue.capacity(), 3);
    assert_eq!(queue.pop(), Popped::Closed);
}
