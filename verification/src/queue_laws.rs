//! What holds of the queue over a whole run of operations: nothing is lost,
//! nothing comes twice, and what comes out comes in the order it went in.

use vstd::prelude::*;
use crate::queue::{
    after_close, after_receive, after_send, send_result, MessageEvent, QueueView,
};

verus! {

/// One operation on the queue.
pub enum QueueOp {
    Send(MessageEvent),
    Receive,
    Close,
}

/// The queue that nothing has touched yet, with or without a bound.
pub open spec fn fresh(capacity: Option<usize>) -> QueueView {
    QueueView { pending: Seq::empty(), accepting: true, capacity }
}

/// The queue after one operation.
pub open spec fn step(q: QueueView, op: QueueOp) -> QueueView {
    match op {
        QueueOp::Send(event) => after_send(q, event),
        QueueOp::Receive => after_receive(q),
        QueueOp::Close => after_close(q),
    }
}

/// The queue after a run of operations, first to last.
pub open spec fn run(q: QueueView, ops: Seq<QueueOp>) -> QueueView
    decreases ops.len(),
{
    if ops.len() == 0 {
        q
    } else {
        step(run(q, ops.drop_last()), ops.last())
    }
}

/// The events that the queue took during a run, in the order of the sends.
pub open spec fn accepted(q: QueueView, ops: Seq<QueueOp>) -> Seq<MessageEvent>
    decreases ops.len(),
{
    if ops.len() == 0 {
        Seq::empty()
    } else {
        let earlier = accepted(q, ops.drop_last());
        match ops.last() {
            QueueOp::Send(event) => if send_result(run(q, ops.drop_last())) is Ok {
                earlier.push(event)
            } else {
                earlier
            },
            _ => earlier,
        }
    }
}

/// The events that the consumer got during a run, in the order in which it
/// got them.
pub open spec fn delivered(q: QueueView, ops: Seq<QueueOp>) -> Seq<MessageEvent>
    decreases ops.len(),
{
    if ops.len() == 0 {
        Seq::empty()
    } else {
        let earlier = delivered(q, ops.drop_last());
        let before = run(q, ops.drop_last());
        match ops.last() {
            QueueOp::Receive => if before.pending.len() > 0 {
                earlier.push(before.pending[0])
            } else {
                earlier
            },
            _ => earlier,
        }
    }
}

/// The events of one producer among `events`, in the order they have there.
pub open spec fn from_producer(events: Seq<MessageEvent>, producer: u64) -> Seq<MessageEvent> {
    events.filter(|event: MessageEvent| event.sender == producer)
}

/// First in, first out: at any moment, what waited at the start followed by
/// what was taken since is what was delivered since followed by what waits
/// now. So every event taken is delivered at most once, none is dropped, and
/// the consumer gets them in the order in which the queue took them.
pub proof fn lemma_first_in_first_out(q: QueueView, ops: Seq<QueueOp>)
    ensures
        q.pending + accepted(q, ops) == delivered(q, ops) + run(q, ops).pending,
    decreases ops.len(),
{
    if ops.len() == 0 {
        assert(q.pending + accepted(q, ops) =~= delivered(q, ops) + run(q, ops).pending);
    } else {
        let rest = ops.drop_last();
        lemma_first_in_first_out(q, rest);
        let before = run(q, rest);
        assert(q.pending + accepted(q, rest) == delivered(q, rest) + before.pending);
        match ops.last() {
            QueueOp::Send(event) => {
                if send_result(before) is Ok {
                    assert(q.pending + accepted(q, rest).push(event) =~= (q.pending + accepted(
                        q,
                        rest,
                    )).push(event));
                    assert(delivered(q, rest) + before.pending.push(event) =~= (delivered(q, rest)
                        + before.pending).push(event));
                }
            },
            QueueOp::Receive => {
                if before.pending.len() > 0 {
                    assert(delivered(q, rest).push(before.pending[0])
                        + before.pending.drop_first() =~= delivered(q, rest) + before.pending);
                }
            },
            QueueOp::Close => {},
        }
        assert(q.pending + accepted(q, ops) =~= delivered(q, ops) + run(q, ops).pending);
    }
}

/// The order of each producer is kept: of the events that one producer got
/// into a fresh queue, the consumer has received the earliest, in the order
/// in which that producer sent them, and the later ones still wait in that
/// order. How the events of different producers fall among each other is
/// not constrained.
pub proof fn lemma_producer_order_is_kept(
    capacity: Option<usize>,
    ops: Seq<QueueOp>,
    producer: u64,
)
    ensures
        from_producer(accepted(fresh(capacity), ops), producer) == from_producer(
            delivered(fresh(capacity), ops),
            producer,
        ) + from_producer(run(fresh(capacity), ops).pending, producer),
{
    let q = fresh(capacity);
    lemma_first_in_first_out(q, ops);
    assert(q.pending + accepted(q, ops) =~= accepted(q, ops));
    Seq::filter_distributes_over_add(
        delivered(q, ops),
        run(q, ops).pending,
        |event: MessageEvent| event.sender == producer,
    );
}

/// No operation changes a queue's bound, and a queue that is within its
/// bound stays within it.
pub proof fn lemma_bound_is_kept(q: QueueView, ops: Seq<QueueOp>)
    requires
        q.capacity is Some ==> q.pending.len() <= q.capacity->Some_0,
    ensures
        run(q, ops).capacity == q.capacity,
        q.capacity is Some ==> run(q, ops).pending.len() <= q.capacity->Some_0,
    decreases ops.len(),
{
    if ops.len() > 0 {
        lemma_bound_is_kept(q, ops.drop_last());
    }
}

/// A closed queue stays closed.
pub proof fn lemma_closed_queue_stays_closed(q: QueueView, ops: Seq<QueueOp>)
    requires
        !q.accepting,
    ensures
        !run(q, ops).accepting,
        accepted(q, ops) == Seq::<MessageEvent>::empty(),
    decreases ops.len(),
{
    if ops.len() > 0 {
        lemma_closed_queue_stays_closed(q, ops.drop_last());
    }
}

/// A queue without a bound takes every event while it is open.
pub proof fn lemma_unbounded_queue_takes_all(q: QueueView, event: MessageEvent)
    requires
        q.accepting,
        q.capacity is None,
    ensures
        send_result(q) is Ok,
        after_send(q, event).pending == q.pending.push(event),
{
}

/// Once closed, a queue takes nothing more.
pub proof fn lemma_closed_queue_takes_nothing(q: QueueView, event: MessageEvent)
    requires
        !q.accepting,
    ensures
        after_send(q, event) == q,
{
}

} // verus!
