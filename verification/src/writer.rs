//! The writer task's decisions. The task owns the outbound half of the
//! connection and loops: pull the next chunk from the queue, write all of
//! its bytes, pull again. Chunks leave in queue order, whole, and untouched:
//! the bytes written are exactly the UTF-8 encoding of the chunk.

use vstd::prelude::*;
use vstd::utf8::encode_utf8;

use crate::chunk::encode_chunk;
use crate::queue::RecvOutcome;

verus! {

/// The step the writer takes next.
pub enum WriterStep {
    /// Write all of these bytes to the outbound half, waiting as needed.
    Emit(Vec<u8>),
    /// Go back to the queue and pull the next chunk, waiting if none is
    /// pending.
    Pull,
    /// Terminate the task; the outbound half is dropped.
    Stop,
}

/// The writer's decision on what the queue handed back: a chunk is written
/// out as exactly its UTF-8 bytes; an empty queue — even one closed for good
/// because the producer is gone — only means waiting for more. The writer
/// never terminates on account of the queue, only on its own write error.
pub fn on_recv(outcome: RecvOutcome) -> (step: WriterStep)
    ensures
        outcome matches RecvOutcome::Chunk(chunk) ==> (step matches WriterStep::Emit(bytes)
            && bytes@ == encode_utf8(chunk@)),
        outcome is Pending ==> step is Pull,
        outcome is Closed ==> step is Pull,
{
    match outcome {
        RecvOutcome::Chunk(chunk) => WriterStep::Emit(encode_chunk(&chunk)),
        RecvOutcome::Pending => WriterStep::Pull,
        RecvOutcome::Closed => WriterStep::Pull,
    }
}

/// The writer's decision once a write has finished: success means pulling
/// the next chunk; any write error is fatal to the writer alone.
pub fn after_write(ok: bool) -> (step: WriterStep)
    ensures
        ok <==> step is Pull,
        !ok <==> step is Stop,
{
    if ok {
        WriterStep::Pull
    } else {
        WriterStep::Stop
    }
}

} // verus!
