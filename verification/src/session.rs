//! The whole hand-off, run end to end against the queue: a connection's
//! reader and writer, interleaved one chunk at a time over one bounded
//! queue. The contract of [`echo_session`] is the crate's central statement:
//! for any sequence of read events, the byte chunks written back are exactly
//! the lossy UTF-8 round trip of each data event, one output chunk per read,
//! in the order read, up to the first event that stops the reader.

use vstd::prelude::*;

use crate::chunk::chunk_echo;
use crate::queue::ChunkQueue;
use crate::reader::on_read;
use crate::reader::ReadEvent;
use crate::reader::ReaderStep;
use crate::writer::on_recv;
use crate::writer::WriterStep;

verus! {

/// The chunks a connection writes back for a sequence of read events: one
/// echoed chunk per data event, in order, up to the first event that stops
/// the reader (an orderly close or a read error); spurious wake-ups
/// contribute nothing.
pub open spec fn session_output(events: Seq<ReadEvent>) -> Seq<Seq<u8>>
    decreases events.len(),
{
    if events.len() == 0 {
        Seq::empty()
    } else {
        match events[0] {
            ReadEvent::Data(bytes) => seq![chunk_echo(bytes@)] + session_output(
                events.drop_first(),
            ),
            ReadEvent::WouldBlock => session_output(events.drop_first()),
            ReadEvent::Closed => Seq::empty(),
            ReadEvent::Failed => Seq::empty(),
        }
    }
}

/// The views of a sequence of byte vectors.
pub open spec fn bytes_views(out: Seq<Vec<u8>>) -> Seq<Seq<u8>> {
    Seq::new(out.len(), |i: int| out[i]@)
}

/// One connection, played out step by step: for each read event the reader
/// decides, forwards any chunk through the queue, and the writer drains and
/// encodes it. The result is precisely [`session_output`] of the events —
/// every chunk echoed after one lossy UTF-8 round trip, none dropped, none
/// reordered, nothing sent after the reader stopped.
pub fn echo_session(events: Vec<ReadEvent>) -> (out: Vec<Vec<u8>>)
    ensures
        bytes_views(out@) == session_output(events@),
{
    let mut q = ChunkQueue::new();
    let mut out: Vec<Vec<u8>> = Vec::new();
    let mut stopped = false;
    let mut i: usize = 0;
    proof {
        assert(events@.skip(0) =~= events@);
        assert(bytes_views(out@) =~= Seq::<Seq<u8>>::empty());
        assert(bytes_views(out@) + session_output(events@) =~= session_output(events@));
    }
    while i < events.len() && !stopped
        invariant
            i <= events.len(),
            q.wf(),
            q.pending() == Seq::<String>::empty(),
            q.producer_live(),
            q.consumer_live(),
            !stopped ==> session_output(events@) == bytes_views(out@) + session_output(
                events@.skip(i as int),
            ),
            stopped ==> session_output(events@) == bytes_views(out@),
        decreases events.len() - i + (if stopped { 0int } else { 1int }),
    {
        proof {
            assert(events@.skip(i as int).len() == events@.len() - i);
            assert(events@.skip(i as int)[0] == events@[i as int]);
            assert(events@.skip(i as int).drop_first() =~= events@.skip(i as int + 1));
        }
        let step = on_read(&events[i]);
        match step {
            ReaderStep::Stop => {
                proof {
                    match events@[i as int] {
                        ReadEvent::Closed => {},
                        ReadEvent::Failed => {},
                        ReadEvent::WouldBlock => assert(false),
                        ReadEvent::Data(_) => assert(false),
                    }
                    assert(session_output(events@.skip(i as int)) =~= Seq::<Seq<u8>>::empty());
                    assert(bytes_views(out@) + Seq::<Seq<u8>>::empty() =~= bytes_views(out@));
                }
                stopped = true;
            },
            ReaderStep::Poll => {
                proof {
                    match events@[i as int] {
                        ReadEvent::Closed => assert(false),
                        ReadEvent::Failed => assert(false),
                        ReadEvent::WouldBlock => {},
                        ReadEvent::Data(_) => assert(false),
                    }
                }
                i = i + 1;
            },
            ReaderStep::Retry => {
                proof {
                    match events@[i as int] {
                        ReadEvent::Closed => assert(false),
                        ReadEvent::Failed => assert(false),
                        ReadEvent::WouldBlock => assert(false),
                        ReadEvent::Data(_) => assert(false),
                    }
                }
            },
            ReaderStep::Forward(chunk) => {
                let ghost old_out = out@;
                let ghost chunk_view = chunk@;
                let outcome = q.send(chunk);
                proof {
                    assert(outcome is Sent);
                    assert(q.pending().len() == 1);
                }
                let received = q.recv();
                match on_recv(received) {
                    WriterStep::Emit(bytes) => {
                        proof {
                            assert(bytes@ == vstd::utf8::encode_utf8(chunk_view));
                        }
                        out.push(bytes);
                        proof {
                            match events@[i as int] {
                                ReadEvent::Data(data) => {
                                    assert(bytes@ == chunk_echo(data@));
                                    assert(session_output(events@.skip(i as int)) == seq![
                                        chunk_echo(data@),
                                    ] + session_output(events@.skip(i as int + 1)));
                                },
                                _ => assert(false),
                            }
                            assert(bytes_views(out@) =~= bytes_views(old_out).push(bytes@));
                            assert(bytes_views(old_out).push(bytes@) + session_output(
                                events@.skip(i as int + 1),
                            ) =~= bytes_views(old_out) + (seq![bytes@] + session_output(
                                events@.skip(i as int + 1),
                            )));
                        }
                    },
                    WriterStep::Pull => {
                        proof {
                            assert(false);
                        }
                    },
                    WriterStep::Stop => {
                        proof {
                            assert(false);
                        }
                    },
                }
                i = i + 1;
            },
        }
    }
    proof {
        if !stopped {
            assert(events@.skip(i as int) =~= Seq::<ReadEvent>::empty());
            assert(session_output(events@.skip(i as int)) =~= Seq::<Seq<u8>>::empty());
            assert(bytes_views(out@) + Seq::<Seq<u8>>::empty() =~= bytes_views(out@));
        }
    }
    out
}

} // verus!
