//! The relay queue: a bounded, ordered buffer between the loop that receives
//! on one side and the loop that sends on the other.
//!
//! The queue never waits. Where the producer would have to wait for space, or
//! the consumer for an item, the operation says so and leaves the queue as it
//! was; the caller suspends and tries again once the other side has moved.

use vstd::prelude::*;
use std::collections::VecDeque;

verus! {

/// A push that the queue did not take. The item is handed back in either case.
#[derive(Debug, PartialEq, Eq)]
pub enum PushError<T> {
    /// The queue is full: the producer has to wait until an item is popped.
    Full(T),
    /// The queue was closed: it takes no more items.
    Closed(T),
}

/// What a pop found.
#[derive(Debug, PartialEq, Eq)]
pub enum Popped<T> {
    /// The oldest item of the queue.
    Item(T),
    /// Nothing yet: the consumer has to wait until an item is pushed.
    Empty,
    /// End of stream: the queue was closed and has been drained.
    Closed,
}

/// One operation on a queue.
pub enum QueueOp<T> {
    Push(T),
    Pop,
    Close,
}

/// The mathematical content of a [`RelayQueue`]: its items from oldest to
/// newest, its fixed capacity, and whether it was closed.
pub struct QueueView<T> {
    pub items: Seq<T>,
    pub capacity: nat,
    pub closed: bool,
}

/// What a run of operations did to a queue: the queue after it, the items that
/// were taken in, and the items that were handed out, each in order.
pub struct QueueRun<T> {
    pub queue: QueueView<T>,
    pub accepted: Seq<T>,
    pub delivered: Seq<T>,
}

impl<T> QueueView<T> {
    /// The empty, open queue of the given capacity.
    pub open spec fn empty(capacity: nat) -> QueueView<T> {
        QueueView { items: Seq::empty(), capacity, closed: false }
    }

    /// A queue never holds more than its capacity.
    pub open spec fn wf(self) -> bool {
        self.items.len() <= self.capacity
    }

    /// Whether the queue holds as many items as it can.
    pub open spec fn is_full(self) -> bool {
        self.items.len() >= self.capacity
    }

    /// Whether a push is taken: the queue is open and has space.
    pub open spec fn accepts(self) -> bool {
        !self.closed && !self.is_full()
    }

    /// The queue after a push of `item`: the item is appended if the push is
    /// taken, and nothing changes if it is not.
    pub open spec fn after_push(self, item: T) -> QueueView<T> {
        if self.accepts() {
            QueueView { items: self.items.push(item), ..self }
        } else {
            self
        }
    }

    /// What a pop finds: the oldest item; if there is none, end of stream on a
    /// closed queue and nothing yet on an open one.
    pub open spec fn popped(self) -> Popped<T> {
        if self.items.len() > 0 {
            Popped::Item(self.items.first())
        } else if self.closed {
            Popped::Closed
        } else {
            Popped::Empty
        }
    }

    /// The queue after a pop: the oldest item is gone, if there was one.
    pub open spec fn after_pop(self) -> QueueView<T> {
        if self.items.len() > 0 {
            QueueView { items: self.items.drop_first(), ..self }
        } else {
            self
        }
    }

    /// The queue after it was closed. Its items stay.
    pub open spec fn after_close(self) -> QueueView<T> {
        QueueView { closed: true, ..self }
    }

    /// The queue after one operation.
    pub open spec fn after(self, op: QueueOp<T>) -> QueueView<T> {
        match op {
            QueueOp::Push(item) => self.after_push(item),
            QueueOp::Pop => self.after_pop(),
            QueueOp::Close => self.after_close(),
        }
    }

    /// The queue after pushing each of `items` in turn, with no pop between.
    pub open spec fn after_pushes(self, items: Seq<T>) -> QueueView<T>
        decreases items.len(),
    {
        if items.len() == 0 {
            self
        } else {
            self.after_pushes(items.drop_last()).after_push(items.last())
        }
    }

    /// The outcome of running `ops` in order, starting from this queue.
    pub open spec fn run(self, ops: Seq<QueueOp<T>>) -> QueueRun<T>
        decreases ops.len(),
    {
        if ops.len() == 0 {
            QueueRun { queue: self, accepted: Seq::empty(), delivered: Seq::empty() }
        } else {
            let before = self.run(ops.drop_last());
            let queue = before.queue.after(ops.last());
            match ops.last() {
                QueueOp::Push(item) => if before.queue.accepts() {
                    QueueRun { queue, accepted: before.accepted.push(item), ..before }
                } else {
                    QueueRun { queue, ..before }
                },
                QueueOp::Pop => match before.queue.popped() {
                    Popped::Item(item) => QueueRun {
                        queue,
                        delivered: before.delivered.push(item),
                        ..before
                    },
                    _ => QueueRun { queue, ..before },
                },
                QueueOp::Close => QueueRun { queue, ..before },
            }
        }
    }

    /// Every operation keeps a queue within its capacity, and keeps the
    /// capacity.
    pub proof fn lemma_after_wf(self, op: QueueOp<T>)
        requires
            self.wf(),
        ensures
            self.after(op).wf(),
            self.after(op).capacity == self.capacity,
    {
    }

    /// Order and completeness: whatever operations run, the items handed out,
    /// followed by the items still queued, are the items that were there at
    /// the start followed by the items taken in. Nothing is lost, repeated or
    /// reordered, and the queue stays within its capacity.
    pub proof fn lemma_run_in_order(self, ops: Seq<QueueOp<T>>)
        requires
            self.wf(),
        ensures
            self.run(ops).delivered + self.run(ops).queue.items == self.items + self.run(
                ops,
            ).accepted,
            self.run(ops).queue.wf(),
            self.run(ops).queue.capacity == self.capacity,
        decreases ops.len(),
    {
        if ops.len() == 0 {
            assert(self.run(ops).delivered + self.run(ops).queue.items =~= self.items + self.run(
                ops,
            ).accepted);
        } else {
            self.lemma_run_in_order(ops.drop_last());
            let before = self.run(ops.drop_last());
            let after = self.run(ops);
            before.queue.lemma_after_wf(ops.last());
            assert(before.delivered + before.queue.items == self.items + before.accepted);
            match ops.last() {
                QueueOp::Push(item) => {
                    if before.queue.accepts() {
                        assert(after.delivered + after.queue.items =~= (before.delivered
                            + before.queue.items).push(item));
                        assert(self.items + after.accepted =~= (self.items
                            + before.accepted).push(item));
                    }
                },
                QueueOp::Pop => {
                    if before.queue.items.len() > 0 {
                        assert(after.delivered + after.queue.items =~= before.delivered
                            + before.queue.items);
                    }
                },
                QueueOp::Close => {},
            }
        }
    }

    /// Filling: pushing items onto an empty open queue, with no pop between,
    /// takes in the first `capacity` of them, in order, and no more.
    pub proof fn lemma_fill(capacity: nat, items: Seq<T>)
        ensures
            items.len() <= capacity ==> QueueView::empty(capacity).after_pushes(items).items
                == items,
            items.len() >= capacity ==> QueueView::empty(capacity).after_pushes(items).items
                == items.take(capacity as int),
            QueueView::empty(capacity).after_pushes(items).capacity == capacity,
            !QueueView::empty(capacity).after_pushes(items).closed,
        decreases items.len(),
    {
        let start = QueueView::<T>::empty(capacity);
        if items.len() == 0 {
            assert(items.take(0) =~= items);
        } else {
            QueueView::lemma_fill(capacity, items.drop_last());
            let before = start.after_pushes(items.drop_last());
            if items.len() <= capacity {
                assert(before.items.push(items.last()) =~= items);
                if items.len() == capacity {
                    assert(items.take(capacity as int) =~= items);
                }
            } else {
                assert(items.drop_last().take(capacity as int) =~= items.take(capacity as int));
            }
        }
    }

    /// Backpressure: a push onto a full open queue is not taken and changes
    /// nothing, so no queued item is dropped for it. Once an item has been
    /// popped, the same push is taken, behind the items that were queued.
    pub proof fn lemma_backpressure(self, item: T)
        requires
            self.wf(),
            !self.closed,
            self.is_full(),
        ensures
            !self.accepts(),
            self.after_push(item) == self,
            self.capacity > 0 ==> self.after_pop().accepts(),
            self.capacity > 0 ==> self.after_pop().after_push(item).items
                == self.items.drop_first().push(item),
    {
    }

    /// Backpressure at capacity `n`: of `n + 1` items pushed onto an empty open
    /// queue with no pop between, the first `n` are queued and the last is
    /// not taken; after one pop it is taken, and the queue holds all but the
    /// item that was popped, in order.
    pub proof fn lemma_one_too_many(items: Seq<T>)
        requires
            items.len() >= 2,
        ensures
            ({
                let n = (items.len() - 1) as nat;
                let full = QueueView::empty(n).after_pushes(items.drop_last());
                &&& full.items == items.drop_last()
                &&& !full.accepts()
                &&& QueueView::empty(n).after_pushes(items) == full
                &&& full.popped() == Popped::Item(items.first())
                &&& full.after_pop().after_push(items.last()).items == items.drop_first()
            }),
    {
        let n = (items.len() - 1) as nat;
        QueueView::lemma_fill(n, items.drop_last());
        let full = QueueView::<T>::empty(n).after_pushes(items.drop_last());
        assert(full.after_pop().after_push(items.last()).items =~= items.drop_first());
    }
}

/// A bounded first-in, first-out queue with one producer and one consumer.
///
/// The capacity is fixed when the queue is made. Items come out in the order
/// in which they went in; none is dropped, merged or reordered.
pub struct RelayQueue<T> {
    items: VecDeque<T>,
    capacity: usize,
    closed: bool,
}

impl<T> View for RelayQueue<T> {
    type V = QueueView<T>;

    closed spec fn view(&self) -> QueueView<T> {
        QueueView { items: self.items@, capacity: self.capacity as nat, closed: self.closed }
    }
}

impl<T> RelayQueue<T> {
    /// An empty, open queue that holds at most `capacity` items.
    pub fn new(capacity: usize) -> (queue: RelayQueue<T>)
        ensures
            queue@ == QueueView::<T>::empty(capacity as nat),
            queue@.wf(),
    {
        RelayQueue { items: VecDeque::new(), capacity, closed: false }
    }

    /// Appends `item`, if the queue is open and has space.
    ///
    /// On a closed queue the push fails with `Closed`; on a full one with
    /// `Full`, which tells the producer to wait for a pop. The item comes back
    /// with the error and the queue is unchanged.
    pub fn push(&mut self, item: T) -> (pushed: Result<(), PushError<T>>)
        ensures
            final(self)@ == old(self)@.after_push(item),
            old(self)@.wf() ==> final(self)@.wf(),
            match pushed {
                Ok(()) => old(self)@.accepts(),
                Err(PushError::Closed(back)) => old(self)@.closed && back == item,
                Err(PushError::Full(back)) => !old(self)@.closed && old(self)@.is_full() && back
                    == item,
            },
    {
        if self.closed {
            Err(PushError::Closed(item))
        } else if self.items.len() >= self.capacity {
            Err(PushError::Full(item))
        } else {
            self.items.push_back(item);
            Ok(())
        }
    }

    /// Takes the oldest item out of the queue.
    ///
    /// On an empty queue the answer is `Closed`, the end of the stream, if the
    /// queue was closed, and `Empty` if not, which tells the consumer to wait
    /// for a push. A closed queue still hands out what it holds.
    pub fn pop(&mut self) -> (popped: Popped<T>)
        ensures
            popped == old(self)@.popped(),
            final(self)@ == old(self)@.after_pop(),
            old(self)@.wf() ==> final(self)@.wf(),
    {
        match self.items.pop_front() {
            Some(item) => {
                assert(self.items@ =~= old(self).items@.drop_first());
                Popped::Item(item)
            },
            None => if self.closed {
                Popped::Closed
            } else {
                Popped::Empty
            },
        }
    }

    /// Closes the queue: pushes fail from now on, and pops report the end of
    /// the stream once the queue is drained.
    pub fn close(&mut self)
        ensures
            final(self)@ == old(self)@.after_close(),
            old(self)@.wf() ==> final(self)@.wf(),
    {
        self.closed = true;
    }

    /// The number of items in the queue.
    pub fn len(&self) -> (len: usize)
        ensures
            len == self@.items.len(),
    {
        self.items.len()
    }

    /// The largest number of items the queue holds.
    pub fn capacity(&self) -> (capacity: usize)
        ensures
            capacity == self@.capacity,
    {
        self.capacity
    }

    /// Whether the queue holds nothing.
    pub fn is_empty(&self) -> (empty: bool)
        ensures
            empty == (self@.items.len() == 0),
    {
        self.items.len() == 0
    }

    /// Whether the queue holds as many items as it can.
    pub fn is_full(&self) -> (full: bool)
        ensures
            full == self@.is_full(),
    {
        self.items.len() >= self.capacity
    }

    /// Whether the queue was closed.
    pub fn is_closed(&self) -> (closed: bool)
        ensures
            closed == self@.closed,
    {
        self.closed
    }
}

} // verus!
