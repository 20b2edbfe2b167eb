//! Core logic of a per-connection echo handler: each accepted connection is
//! split into an inbound and an outbound half, served by a reader and a
//! writer that communicate only through a bounded, ordered queue of decoded
//! chunks. This crate holds the verified part: the chunk codec, the queue
//! hand-off contract, and the decision rules of the two tasks. The I/O shell
//! around it supplies events and carries out the steps chosen here.

pub mod chunk;
pub mod queue;
pub mod reader;
pub mod session;
pub mod writer;
