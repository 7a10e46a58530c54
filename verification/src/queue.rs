//! The message event queue: events on their way from the tasks that take
//! messages in to the one task that delivers them.
//!
//! The queue is a plain value, first in, first out. It has no bound unless
//! it is made with one; a queue with a bound refuses what does not fit, and
//! a producer that wants to wait for room asks again. Whoever shares the
//! queue between tasks puts it behind a lock; a consumer that finds it empty
//! waits outside the lock and asks again.

use std::collections::VecDeque;
use vstd::prelude::*;

verus! {

/// A message on its way to delivery: the payload of a decoded message frame
/// and what is needed to route it.
#[derive(Clone, Debug, PartialEq, Eq)]
pub struct MessageEvent {
    pub sender: u64,
    pub destination: Option<u64>,
    pub sequence: u64,
    pub payload: Vec<u8>,
}

/// What a `MessageEvent` stands for: its fields, with the payload as a
/// sequence.
pub struct MessageEventView {
    pub sender: u64,
    pub destination: Option<u64>,
    pub sequence: u64,
    pub payload: Seq<u8>,
}

impl View for MessageEvent {
    type V = MessageEventView;

    open spec fn view(&self) -> MessageEventView {
        MessageEventView {
            sender: self.sender,
            destination: self.destination,
            sequence: self.sequence,
            payload: self.payload@,
        }
    }
}

/// Why an event was not taken.
#[derive(Clone, Copy, Debug, PartialEq, Eq, Structural)]
pub enum QueueError {
    /// The queue was closed before the event was sent.
    Closed,
    /// The queue is open but holds as many events as its bound allows.
    Full,
}

/// What the consumer gets when it asks for the next event.
#[derive(Clone, Debug, PartialEq, Eq)]
pub enum Received {
    /// The oldest event that was waiting.
    Event(MessageEvent),
    /// Nothing is waiting, but more may come: ask again later.
    Empty,
    /// Nothing is waiting and nothing will come.
    Closed,
}

/// What a queue stands for: the events that wait, oldest first, whether the
/// queue still takes new ones, and how many may wait at once, if that is
/// bounded.
pub struct QueueView {
    pub pending: Seq<MessageEvent>,
    pub accepting: bool,
    pub capacity: Option<usize>,
}

/// The queue.
pub struct MessageEventQueue {
    pending: VecDeque<MessageEvent>,
    accepting: bool,
    capacity: Option<usize>,
}

/// Whether one more event may wait in the queue.
pub open spec fn has_room(q: QueueView) -> bool {
    match q.capacity {
        None => true,
        Some(capacity) => q.pending.len() < capacity,
    }
}

/// What a producer is told when it sends to the queue: that the queue is
/// closed, else that it is full, else that the event was taken.
pub open spec fn send_result(q: QueueView) -> Result<(), QueueError> {
    if !q.accepting {
        Err(QueueError::Closed)
    } else if !has_room(q) {
        Err(QueueError::Full)
    } else {
        Ok(())
    }
}

/// The queue after an attempt to send `event`: with `event` behind all that
/// wait where the event was taken, else unchanged.
pub open spec fn after_send(q: QueueView, event: MessageEvent) -> QueueView {
    if send_result(q) is Ok {
        QueueView { pending: q.pending.push(event), accepting: q.accepting, capacity: q.capacity }
    } else {
        q
    }
}

/// The queue after the consumer asked for an event: without its oldest
/// event, where it had one.
pub open spec fn after_receive(q: QueueView) -> QueueView {
    if q.pending.len() > 0 {
        QueueView {
            pending: q.pending.drop_first(),
            accepting: q.accepting,
            capacity: q.capacity,
        }
    } else {
        q
    }
}

/// What the consumer gets from the queue.
pub open spec fn next_received(q: QueueView) -> Received {
    if q.pending.len() > 0 {
        Received::Event(q.pending[0])
    } else if q.accepting {
        Received::Empty
    } else {
        Received::Closed
    }
}

/// The queue after it was closed: what waits stays, nothing new is taken.
pub open spec fn after_close(q: QueueView) -> QueueView {
    QueueView { pending: q.pending, accepting: false, capacity: q.capacity }
}

impl View for MessageEventQueue {
    type V = QueueView;

    closed spec fn view(&self) -> QueueView {
        QueueView {
            pending: self.pending@,
            accepting: self.accepting,
            capacity: self.capacity,
        }
    }
}

impl MessageEventQueue {
    /// An empty, open queue without a bound.
    pub fn new() -> (queue: MessageEventQueue)
        ensures
            queue@ == (QueueView { pending: Seq::empty(), accepting: true, capacity: None }),
    {
        MessageEventQueue { pending: VecDeque::new(), accepting: true, capacity: None }
    }

    /// An empty, open queue in which at most `capacity` events wait at once.
    pub fn bounded(capacity: usize) -> (queue: MessageEventQueue)
        ensures
            queue@ == (QueueView {
                pending: Seq::empty(),
                accepting: true,
                capacity: Some(capacity),
            }),
    {
        MessageEventQueue { pending: VecDeque::new(), accepting: true, capacity: Some(capacity) }
    }

    /// Puts `event` behind all that wait, unless the queue is closed or
    /// full.
    pub fn send(&mut self, event: MessageEvent) -> (r: Result<(), QueueError>)
        ensures
            final(self)@ == after_send(old(self)@, event),
            r == send_result(old(self)@),
    {
        if !self.accepting {
            return Err(QueueError::Closed);
        }
        let room = match self.capacity {
            None => true,
            Some(capacity) => self.pending.len() < capacity,
        };
        if !room {
            return Err(QueueError::Full);
        }
        self.pending.push_back(event);
        Ok(())
    }

    /// Takes the oldest waiting event. Where none waits, tells whether more
    /// may come.
    pub fn receive(&mut self) -> (r: Received)
        ensures
            final(self)@ == after_receive(old(self)@),
            r == next_received(old(self)@),
    {
        match self.pending.pop_front() {
            Some(event) => {
                assert(self.pending@ =~= old(self).pending@.drop_first());
                Received::Event(event)
            },
            None => {
                if self.accepting {
                    Received::Empty
                } else {
                    Received::Closed
                }
            },
        }
    }

    /// Closes the queue. Events that wait can still be received.
    pub fn close(&mut self)
        ensures
            final(self)@ == after_close(old(self)@),
    {
        self.accepting = false;
    }

    /// The number of events that wait.
    pub fn len(&self) -> (n: usize)
        ensures
            n == self@.pending.len(),
    {
        self.pending.len()
    }

    /// Whether the queue has been closed.
    pub fn is_closed(&self) -> (r: bool)
        ensures
            r == !self@.accepting,
    {
        !self.accepting
    }
}

} // verus!
