//! Bounded request queue between the dispatch loop and the inference
//! worker: the system's only backpressure point.

use vstd::prelude::*;

use crate::models::{Message, MessageV};

verus! {

/// Why a submission was not accepted.
#[derive(Copy, Clone, PartialEq, Eq, Structural, Debug)]
pub enum SubmitError {
    /// The queue is at capacity; the caller suspends and retries once an
    /// entry has been dequeued.
    QueueFull,
    /// The worker has terminated; no future submission can succeed.
    WorkerUnavailable,
}

/// A first-in-first-out queue of user messages earmarked for generation,
/// with a fixed capacity. Its view is the pending entries, oldest first.
#[derive(Debug)]
pub struct RequestQueue {
    entries: Vec<Message>,
    capacity: usize,
    closed: bool,
}

impl View for RequestQueue {
    type V = Seq<MessageV>;

    closed spec fn view(&self) -> Seq<MessageV> {
        self.entries@.map_values(|m: Message| m@)
    }
}

impl RequestQueue {
    /// The fixed capacity the queue was created with.
    pub closed spec fn spec_capacity(&self) -> int {
        self.capacity as int
    }

    /// Whether the worker side has been closed.
    pub closed spec fn spec_closed(&self) -> bool {
        self.closed
    }

    /// The queue never holds more than its capacity.
    pub open spec fn wf(&self) -> bool {
        self@.len() <= self.spec_capacity()
    }

    /// An empty open queue of the given capacity.
    pub fn new(capacity: usize) -> (r: RequestQueue)
        requires
            capacity >= 1,
        ensures
            r@.len() == 0,
            r.spec_capacity() == capacity,
            !r.spec_closed(),
            r.wf(),
    {
        RequestQueue { entries: Vec::new(), capacity, closed: false }
    }

    /// The fixed capacity.
    pub fn capacity(&self) -> (r: usize)
        ensures
            r as int == self.spec_capacity(),
    {
        self.capacity
    }

    /// How many requests are pending.
    pub fn len(&self) -> (r: usize)
        ensures
            r as int == self@.len(),
    {
        self.entries.len()
    }

    /// Whether the queue is at capacity.
    pub fn is_full(&self) -> (r: bool)
        ensures
            r == (self@.len() == self.spec_capacity()),
    {
        self.entries.len() == self.capacity
    }

    /// Mark the worker as terminated; every later submission fails with
    /// `WorkerUnavailable`.
    pub fn close(&mut self)
        ensures
            final(self)@ == old(self)@,
            final(self).spec_capacity() == old(self).spec_capacity(),
            final(self).spec_closed(),
            old(self).wf() ==> final(self).wf(),
    {
        self.closed = true;
    }

    /// Submit a request. It is accepted exactly when the worker is alive
    /// and the queue is below capacity; a full queue asks the caller to
    /// suspend, a closed one refuses for good. A rejected message comes
    /// back unchanged inside the error.
    pub fn try_submit(&mut self, message: Message) -> (r: Result<(), (SubmitError, Message)>)
        requires
            old(self).wf(),
        ensures
            final(self).spec_capacity() == old(self).spec_capacity(),
            final(self).spec_closed() == old(self).spec_closed(),
            final(self).wf(),
            match r {
                Ok(()) => {
                    &&& !old(self).spec_closed()
                    &&& old(self)@.len() < old(self).spec_capacity()
                    &&& final(self)@ == old(self)@.push(message@)
                },
                Err((e, m)) => {
                    &&& final(self)@ == old(self)@
                    &&& m@ == message@
                    &&& e == if old(self).spec_closed() {
                        SubmitError::WorkerUnavailable
                    } else {
                        SubmitError::QueueFull
                    }
                    &&& old(self).spec_closed() || old(self)@.len() == old(self).spec_capacity()
                },
            },
    {
        if self.closed {
            return Err((SubmitError::WorkerUnavailable, message));
        }
        if self.entries.len() == self.capacity {
            return Err((SubmitError::QueueFull, message));
        }
        let ghost pre = self.entries@.map_values(|m: Message| m@);
        let ghost mv = message@;
        self.entries.push(message);
        proof {
            assert(self.entries@.map_values(|m: Message| m@) =~= pre.push(mv));
        }
        Ok(())
    }

    /// Take the oldest pending request, if any.
    pub fn dequeue(&mut self) -> (r: Option<Message>)
        requires
            old(self).wf(),
        ensures
            final(self).spec_capacity() == old(self).spec_capacity(),
            final(self).spec_closed() == old(self).spec_closed(),
            final(self).wf(),
            match r {
                Some(m) => {
                    &&& old(self)@.len() > 0
                    &&& m@ == old(self)@.first()
                    &&& final(self)@ == old(self)@.drop_first()
                },
                None => {
                    &&& old(self)@.len() == 0
                    &&& final(self)@ == old(self)@
                },
            },
    {
        if self.entries.len() == 0 {
            return None;
        }
        let ghost pre = self.entries@.map_values(|m: Message| m@);
        let m = self.entries.remove(0);
        proof {
            assert(self.entries@.map_values(|m: Message| m@) =~= pre.drop_first());
        }
        Some(m)
    }
}

/// The order in which repeated `dequeue` calls hand out a queue's pending
/// entries: each call yields the first entry and leaves the rest.
pub open spec fn drained(pending: Seq<MessageV>) -> Seq<MessageV>
    decreases pending.len(),
{
    if pending.len() == 0 {
        Seq::empty()
    } else {
        seq![pending.first()] + drained(pending.drop_first())
    }
}

/// Processing order equals submission order: `try_submit` appends each
/// accepted request, so a queue that accepted a sequence of submissions
/// holds them in submission order, and draining it one request at a time
/// yields exactly that sequence.
pub proof fn lemma_fifo_order(pending: Seq<MessageV>)
    ensures
        drained(pending) == pending,
    decreases pending.len(),
{
    if pending.len() == 0 {
        assert(drained(pending) =~= pending);
    } else {
        lemma_fifo_order(pending.drop_first());
        assert(seq![pending.first()] + pending.drop_first() =~= pending);
    }
}

} // verus!
