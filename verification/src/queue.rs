//! The hand-off queue between the reader and the writer of one connection:
//! ordered, first-in-first-out, bounded at [`QUEUE_CAPACITY`] chunks, with
//! exactly one producer (the reader) and one consumer (the writer). Either
//! end can go away independently; the queue then reports that state instead
//! of blocking its peer: a send to a departed consumer is refused (the chunk
//! is discarded), and a receive from an empty queue whose producer is gone
//! yields an explicit closed signal, distinct from "empty but still open".

use vstd::prelude::*;

verus! {

/// How many chunks the queue holds at most; a send finding the queue full
/// must wait rather than drop data, which bounds the memory buffered per
/// connection.
pub const QUEUE_CAPACITY: usize = 100;

/// What became of a chunk handed to [`ChunkQueue::send`].
pub enum SendOutcome {
    /// The chunk was appended behind everything already pending.
    Sent,
    /// The queue already holds [`QUEUE_CAPACITY`] chunks; nothing was
    /// changed, and the caller must wait for room (back-pressure).
    Full,
    /// The consumer end is gone; the chunk was discarded.
    Disconnected,
}

/// What [`ChunkQueue::recv`] found.
pub enum RecvOutcome {
    /// The chunk that has waited longest: the front of the queue.
    Chunk(String),
    /// Nothing is pending, but the producer may still send; the caller
    /// should wait.
    Pending,
    /// Nothing is pending and the producer end is gone: no chunk will ever
    /// arrive again.
    Closed,
}

/// The bounded FIFO queue of decoded chunks.
pub struct ChunkQueue {
    items: Vec<String>,
    producer: bool,
    consumer: bool,
}

impl ChunkQueue {
    /// The chunks pending in the queue, oldest first.
    pub closed spec fn pending(&self) -> Seq<String> {
        self.items@
    }

    /// True while the producer end has not been dropped.
    pub closed spec fn producer_live(&self) -> bool {
        self.producer
    }

    /// True while the consumer end has not been dropped.
    pub closed spec fn consumer_live(&self) -> bool {
        self.consumer
    }

    /// The queue never holds more than its capacity.
    pub open spec fn wf(&self) -> bool {
        self.pending().len() <= QUEUE_CAPACITY
    }

    /// A fresh queue: empty, with both ends attached.
    pub fn new() -> (q: ChunkQueue)
        ensures
            q.wf(),
            q.pending() == Seq::<String>::empty(),
            q.producer_live(),
            q.consumer_live(),
    {
        ChunkQueue { items: Vec::new(), producer: true, consumer: true }
    }

    /// The producer's send. A chunk is appended only when the consumer is
    /// still there and the queue has room; a full queue refuses the chunk
    /// but keeps everything pending (the producer must wait), and a departed
    /// consumer swallows it.
    pub fn send(&mut self, chunk: String) -> (r: SendOutcome)
        requires
            old(self).wf(),
        ensures
            final(self).wf(),
            final(self).producer_live() == old(self).producer_live(),
            final(self).consumer_live() == old(self).consumer_live(),
            !old(self).consumer_live() ==> r is Disconnected
                && final(self).pending() == old(self).pending(),
            old(self).consumer_live() && old(self).pending().len() == QUEUE_CAPACITY ==> r is Full
                && final(self).pending() == old(self).pending(),
            old(self).consumer_live() && old(self).pending().len() < QUEUE_CAPACITY ==> r is Sent
                && final(self).pending() == old(self).pending().push(chunk),
    {
        if !self.consumer {
            SendOutcome::Disconnected
        } else if self.items.len() == QUEUE_CAPACITY {
            SendOutcome::Full
        } else {
            self.items.push(chunk);
            SendOutcome::Sent
        }
    }

    /// The consumer's receive: the front of the queue when anything is
    /// pending, otherwise a report of why nothing came — still open, or
    /// closed for good because the producer is gone.
    pub fn recv(&mut self) -> (r: RecvOutcome)
        requires
            old(self).wf(),
        ensures
            final(self).wf(),
            final(self).producer_live() == old(self).producer_live(),
            final(self).consumer_live() == old(self).consumer_live(),
            old(self).pending().len() > 0 ==> (r matches RecvOutcome::Chunk(c)
                && c == old(self).pending()[0]
                && final(self).pending() == old(self).pending().drop_first()),
            old(self).pending().len() == 0 && old(self).producer_live() ==> r is Pending
                && final(self).pending() == old(self).pending(),
            old(self).pending().len() == 0 && !old(self).producer_live() ==> r is Closed
                && final(self).pending() == old(self).pending(),
    {
        if self.items.len() > 0 {
            let c = self.items.remove(0);
            proof {
                assert(self.items@ =~= old(self).items@.drop_first());
            }
            RecvOutcome::Chunk(c)
        } else if self.producer {
            RecvOutcome::Pending
        } else {
            RecvOutcome::Closed
        }
    }

    /// The reader has returned: its end is dropped. Chunks already pending
    /// stay available to the consumer.
    pub fn drop_producer(&mut self)
        ensures
            final(self).pending() == old(self).pending(),
            !final(self).producer_live(),
            final(self).consumer_live() == old(self).consumer_live(),
            final(self).wf() == old(self).wf(),
    {
        self.producer = false;
    }

    /// The writer has returned: its end is dropped. Later sends are refused.
    pub fn drop_consumer(&mut self)
        ensures
            final(self).pending() == old(self).pending(),
            !final(self).consumer_live(),
            final(self).producer_live() == old(self).producer_live(),
            final(self).wf() == old(self).wf(),
    {
        self.consumer = false;
    }
}

/// FIFO hand-off: enqueueing chunk `a` and then chunk `b` places `a` closer
/// to the front, behind only what was already pending. Since `recv` always
/// takes the front, everything already pending is handed to the writer
/// first, then `a`, and only then `b` — never the other way around.
pub proof fn lemma_fifo_order(pending: Seq<String>, a: String, b: String)
    ensures
        ({
            let q = pending.push(a).push(b);
            &&& q.len() == pending.len() + 2
            &&& q[pending.len() as int] == a
            &&& q[pending.len() as int + 1] == b
            &&& forall|i: int| 0 <= i < pending.len() ==> q[i] == pending[i]
        }),
{
}

} // verus!
