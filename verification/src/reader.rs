//! The reader task's decisions. The task owns the inbound half of the
//! connection and loops: wait for read-readiness, read up to the buffer
//! size, and act on what the read returned. Every decision is a pure
//! function from the observed event to the next step, so the I/O shell only
//! observes, asks, and obeys.

use vstd::prelude::*;
use vstd::utf8::decode_utf8;
use vstd::utf8::valid_utf8;

use crate::chunk::decode_chunk;
use crate::chunk::lossy_decode;
use crate::queue::SendOutcome;

verus! {

/// How many bytes one read attempt may return at most.
pub const READ_BUFFER_SIZE: usize = 1024;

/// What one read attempt on the inbound half reported.
pub enum ReadEvent {
    /// Zero bytes: the peer closed its write side (orderly shutdown).
    Closed,
    /// The bytes of one successful non-empty read.
    Data(Vec<u8>),
    /// The read would block although readiness was reported: a spurious
    /// wake-up.
    WouldBlock,
    /// Any other I/O error.
    Failed,
}

/// The step the reader takes next.
pub enum ReaderStep {
    /// Terminate the task; the inbound half is dropped.
    Stop,
    /// Hand this chunk to the queue, waiting for room if it is full.
    Forward(String),
    /// Read again: wait for readiness and make the next read attempt.
    Poll,
    /// The queue had no room: wait and hand the same chunk over again.
    Retry,
}

/// The reader's decision on one read event: an orderly close or a genuine
/// I/O error ends the task; a spurious wake-up is tolerated; data is decoded
/// lossily into exactly one chunk and forwarded.
pub fn on_read(event: &ReadEvent) -> (step: ReaderStep)
    ensures
        event is Closed ==> step is Stop,
        event is Failed ==> step is Stop,
        event is WouldBlock ==> step is Poll,
        event matches ReadEvent::Data(bytes) ==> (step matches ReaderStep::Forward(chunk)
            && chunk@ == lossy_decode(bytes@)
            && (valid_utf8(bytes@) ==> chunk@ == decode_utf8(bytes@))),
{
    match event {
        ReadEvent::Closed => ReaderStep::Stop,
        ReadEvent::Data(bytes) => ReaderStep::Forward(decode_chunk(bytes.as_slice())),
        ReadEvent::WouldBlock => ReaderStep::Poll,
        ReadEvent::Failed => ReaderStep::Stop,
    }
}

/// The reader's decision once the queue has answered a send. The reader
/// never terminates on account of the queue: a full queue means waiting and
/// offering the same chunk again (back-pressure, nothing dropped), and a
/// departed consumer is logged and swallowed — the task reads on, chunks
/// from then on effectively discarded.
pub fn on_send_outcome(outcome: &SendOutcome) -> (step: ReaderStep)
    ensures
        !(step is Stop),
        outcome is Full <==> step is Retry,
        outcome is Sent ==> step is Poll,
        outcome is Disconnected ==> step is Poll,
{
    match outcome {
        SendOutcome::Sent => ReaderStep::Poll,
        SendOutcome::Full => ReaderStep::Retry,
        SendOutcome::Disconnected => ReaderStep::Poll,
    }
}

} // verus!
