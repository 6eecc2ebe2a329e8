//! Batching of freshly read input lines.
//!
//! A background reader pulls raw lines from the input source and hands
//! them over in ordered batches.  The decisions of that reader — when a
//! batch is full, what happens on a read error, what happens at end of
//! stream — live here; the reading itself, the thread and the channel
//! stay with the surrounding program.  Batches arrive in order and are
//! appended to the line buffer in order, so no accepted line is ever
//! dropped or reordered.

use vstd::prelude::*;

use crate::decode::{decode_lossy, lossy_decode_of};

verus! {

/// One observation the background reader makes on its input source.
pub enum ReadEvent {
    /// A raw line was read, without its terminator.
    Line(Vec<u8>),
    /// Reading failed; the stream is unusable from here on.
    ReadError,
    /// The stream ended cleanly.
    EndOfStream,
}

/// What the background reader must do after an observation.
#[derive(Debug, PartialEq, Eq)]
pub enum WorkerAction {
    /// Keep reading into the current batch.
    Continue,
    /// The batch is full: send it, then keep reading.
    Flush,
    /// Send the partial batch, then report the read failure and stop.
    FlushThenError,
    /// The stream ended mid-batch: send what was read, then stop.
    FlushThenStop,
    /// The stream ended with nothing pending: stop without sending.
    Stop,
}

/// Collects decoded lines into batches of a target size.
pub struct IngestionBatcher {
    batch: Vec<String>,
    cap: usize,
}

impl View for IngestionBatcher {
    type V = Seq<Seq<char>>;

    closed spec fn view(&self) -> Seq<Seq<char>> {
        self.batch.deep_view()
    }
}

impl IngestionBatcher {
    /// The target batch size the batcher was created with.
    pub closed spec fn capacity(&self) -> int {
        self.cap as int
    }

    /// An empty batcher with the given target batch size.
    pub fn new(cap: usize) -> (r: Self)
        ensures
            r@ == Seq::<Seq<char>>::empty(),
            r.capacity() == cap as int,
    {
        let batch: Vec<String> = Vec::new();
        let r = IngestionBatcher { batch, cap };
        proof {
            assert(r@ =~= Seq::<Seq<char>>::empty());
        }
        r
    }

    /// Takes one observation: a read line is decoded lossily and added to
    /// the batch, and the returned action tells the reader whether to
    /// keep going, send the batch, or stop.
    pub fn on_event(&mut self, event: ReadEvent) -> (a: WorkerAction)
        ensures
            final(self).capacity() == old(self).capacity(),
            (match event {
                ReadEvent::Line(bytes) => final(self)@ == old(self)@.push(lossy_decode_of(bytes@))
                    && a == (if final(self)@.len() >= old(self).capacity() {
                    WorkerAction::Flush
                } else {
                    WorkerAction::Continue
                }),
                ReadEvent::ReadError => final(self)@ == old(self)@ && a
                    == WorkerAction::FlushThenError,
                ReadEvent::EndOfStream => final(self)@ == old(self)@ && a == (if old(
                    self,
                )@.len() > 0 {
                    WorkerAction::FlushThenStop
                } else {
                    WorkerAction::Stop
                }),
            }),
    {
        match event {
            ReadEvent::Line(bytes) => {
                let ghost before = self.batch.deep_view();
                let line = decode_lossy(bytes.as_slice());
                self.batch.push(line);
                proof {
                    assert(self.batch.deep_view() =~= before.push(lossy_decode_of(bytes@)));
                }
                if self.batch.len() >= self.cap {
                    WorkerAction::Flush
                } else {
                    WorkerAction::Continue
                }
            },
            ReadEvent::ReadError => WorkerAction::FlushThenError,
            ReadEvent::EndOfStream => {
                if self.batch.len() > 0 {
                    WorkerAction::FlushThenStop
                } else {
                    WorkerAction::Stop
                }
            },
        }
    }

    /// Hands the collected batch out for sending and leaves the batcher
    /// empty.
    pub fn take_batch(&mut self) -> (r: Vec<String>)
        ensures
            r.deep_view() == old(self)@,
            final(self)@ == Seq::<Seq<char>>::empty(),
            final(self).capacity() == old(self).capacity(),
    {
        let mut out: Vec<String> = Vec::new();
        core::mem::swap(&mut self.batch, &mut out);
        proof {
            assert(self.batch.deep_view() =~= Seq::<Seq<char>>::empty());
        }
        out
    }
}

/// Appends a received batch to the line buffer, keeping arrival order:
/// the buffer afterwards is exactly the old buffer followed by the batch.
pub fn append_batch(all_lines: &mut Vec<String>, batch: Vec<String>)
    ensures
        final(all_lines)@ == old(all_lines)@ + batch@,
{
    let mut incoming = batch;
    all_lines.append(&mut incoming);
}

} // verus!
