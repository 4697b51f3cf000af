//! Decision core of the framed I/O engine.  A read or write of an
//! exact byte count proceeds in iterations; on each one the driver
//! waits for whichever comes first of data, end of stream, the
//! deadline, or cancellation, and feeds the observed event into a state
//! machine here.  The machine decides how the operation proceeds or
//! ends, so the driver holds no framing logic of its own.

use vstd::prelude::*;

use crate::io_result::IoResult;
use vstd::slice::slice_subrange;

verus! {

/// A hard failure of a bounded I/O attempt, distinct from the soft
/// `IoResult` outcomes: the caller must unwind, not retry.
#[derive(Debug, Clone, Copy, PartialEq, Eq, Structural)]
pub enum IoAbort {
    /// The shutdown signal fired while the operation was in flight.
    Cancelled,
    /// The stream itself reported an error.
    StreamError,
}

/// Per-iteration deadline decision: the operation is bounded by one
/// wall-clock deadline, so each iteration waits at most for what is
/// left of it.
#[derive(Debug, Clone, Copy, PartialEq, Eq)]
pub enum Budget {
    /// The deadline has already elapsed.
    Expired,
    /// Wait this long, or without bound when no timeout was given.
    Wait(Option<u64>),
}

/// Recomputes the remaining time budget from the whole-operation
/// timeout and the wall-clock time elapsed so far.
pub fn remaining_budget(timeout_ms: Option<u64>, elapsed_ms: u64) -> (r: Budget)
    ensures
        match timeout_ms {
            Some(t) => if elapsed_ms >= t {
                r == Budget::Expired
            } else {
                r == Budget::Wait(Some((t - elapsed_ms) as u64))
            },
            None => r == Budget::Wait(None::<u64>),
        },
{
    match timeout_ms {
        Some(t) => {
            if elapsed_ms >= t {
                Budget::Expired
            } else {
                Budget::Wait(Some(t - elapsed_ms))
            }
        },
        None => Budget::Wait(None),
    }
}

/// What the driver observed while waiting to read.
pub enum ReadEvent {
    /// The stream delivered these bytes; never empty.
    Data(Vec<u8>),
    /// The stream delivered zero bytes: the peer closed.
    Eof,
    /// The remaining time budget ran out.
    TimerExpired,
    /// The cancellation signal fired.
    Cancelled,
    /// The stream reported an error.
    StreamError,
}

/// How a read iteration left the operation.
#[derive(Debug, Clone, Copy, PartialEq, Eq, Structural)]
pub enum ReadStep {
    /// Bytes are still missing; wait for the next event.
    Continue,
    /// The operation ended with this soft outcome.
    Finish(IoResult),
    /// The operation ended with a hard failure.
    Abort(IoAbort),
}

/// Accumulates the bytes of one exact-length read.
pub struct FrameReader {
    expected: usize,
    data: Vec<u8>,
}

impl FrameReader {
    /// How many bytes the whole read must deliver.
    pub closed spec fn spec_expected(self) -> usize {
        self.expected
    }

    /// The bytes accumulated so far, in delivery order.
    pub closed spec fn received(self) -> Seq<u8> {
        self.data@
    }

    /// The reader never holds more than it expects.
    pub open spec fn wf(self) -> bool {
        self.received().len() <= self.spec_expected()
    }

    /// True when every expected byte has arrived.
    pub open spec fn is_complete(self) -> bool {
        self.received().len() == self.spec_expected()
    }

    /// Starts a read of exactly `expected_length` bytes.
    pub fn new(expected_length: usize) -> (r: Self)
        ensures
            r.wf(),
            r.spec_expected() == expected_length,
            r.received() == Seq::<u8>::empty(),
    {
        FrameReader { expected: expected_length, data: Vec::new() }
    }

    /// How many bytes are still missing.
    pub fn remaining(&self) -> (r: usize)
        requires
            self.wf(),
        ensures
            r == self.spec_expected() - self.received().len(),
    {
        self.expected - self.data.len()
    }

    /// True when every expected byte has arrived.
    pub fn complete(&self) -> (r: bool)
        ensures
            r == self.is_complete(),
    {
        self.data.len() == self.expected
    }

    /// Feeds one observed event into the read.  Delivered bytes shrink
    /// the remaining target; zero delivered bytes end the operation as
    /// `Closed` even with partial data accumulated; an expired budget
    /// ends it as `Timeout`; cancellation and stream errors end it with
    /// a hard failure, never a soft outcome.
    pub fn step(&mut self, event: ReadEvent) -> (r: ReadStep)
        requires
            old(self).wf(),
            !old(self).is_complete(),
            (event matches ReadEvent::Data(d) ==> 1 <= d@.len() <= old(self).spec_expected() - old(self).received().len()),
        ensures
            final(self).wf(),
            final(self).spec_expected() == old(self).spec_expected(),
            match event {
                ReadEvent::Data(d) => final(self).received() == old(self).received() + d@ && (if final(self).is_complete() {
                    r == ReadStep::Finish(IoResult::Success(final(self).spec_expected()))
                } else {
                    r == ReadStep::Continue
                }),
                ReadEvent::Eof => r == ReadStep::Finish(IoResult::Closed) && *final(self) == *old(self),
                ReadEvent::TimerExpired => r == ReadStep::Finish(IoResult::Timeout) && *final(self) == *old(self),
                ReadEvent::Cancelled => r == ReadStep::Abort(IoAbort::Cancelled) && *final(self) == *old(self),
                ReadEvent::StreamError => r == ReadStep::Abort(IoAbort::StreamError) && *final(self) == *old(self),
            },
    {
        match event {
            ReadEvent::Data(d) => {
                self.data.extend_from_slice(d.as_slice());
                if self.data.len() == self.expected {
                    ReadStep::Finish(IoResult::Success(self.expected))
                } else {
                    ReadStep::Continue
                }
            },
            ReadEvent::Eof => ReadStep::Finish(IoResult::Closed),
            ReadEvent::TimerExpired => ReadStep::Finish(IoResult::Timeout),
            ReadEvent::Cancelled => ReadStep::Abort(IoAbort::Cancelled),
            ReadEvent::StreamError => ReadStep::Abort(IoAbort::StreamError),
        }
    }

    /// A copy of the bytes accumulated so far.
    pub fn data(&self) -> (r: Vec<u8>)
        ensures
            r@ == self.received(),
    {
        vstd::slice::slice_to_vec(self.data.as_slice())
    }

    /// Hands out the accumulated bytes of a completed read.
    pub fn into_data(self) -> (r: Vec<u8>)
        requires
            self.is_complete(),
        ensures
            r@ == self.received(),
    {
        self.data
    }
}

/// What the driver observed while waiting to write or flush.
pub enum WriteEvent {
    /// The stream accepted this many bytes; never zero.
    Wrote(usize),
    /// The stream accepted zero bytes: the peer closed.
    Eof,
    /// The remaining time budget ran out.
    TimerExpired,
    /// The cancellation signal fired.
    Cancelled,
    /// The stream reported an error.
    StreamError,
    /// The final flush of the stream completed.
    Flushed,
}

/// How a write iteration left the operation.
#[derive(Debug, Clone, Copy, PartialEq, Eq, Structural)]
pub enum WriteStep {
    /// Bytes are still unsent; wait for the next event.
    Continue,
    /// Every byte was handed off; the stream must now be flushed,
    /// under the same remaining deadline and cancellation.
    NeedsFlush,
    /// The operation ended with this soft outcome.
    Finish(IoResult),
    /// The operation ended with a hard failure.
    Abort(IoAbort),
}

/// Tracks the progress of one exact-length write followed by a flush.
pub struct FrameWriter {
    frame: Vec<u8>,
    written: usize,
    flushing: bool,
}

impl FrameWriter {
    /// The bytes the whole write must deliver.
    pub closed spec fn pending(self) -> Seq<u8> {
        self.frame@
    }

    /// How many of them the stream has accepted.
    pub closed spec fn spec_written(self) -> usize {
        self.written
    }

    /// True once every byte is handed off and only the flush is left.
    pub closed spec fn in_flush_phase(self) -> bool {
        self.flushing
    }

    /// The writer never counts more bytes than it holds, and flushes
    /// only after all of them.
    pub open spec fn wf(self) -> bool {
        &&& self.spec_written() <= self.pending().len()
        &&& (self.in_flush_phase() ==> self.spec_written() == self.pending().len())
    }

    /// Starts a write of exactly these bytes.  An empty write has no
    /// bytes to hand off, so it begins directly in the flush phase and
    /// completes as a zero-byte success once the flush is done.
    pub fn new(frame: Vec<u8>) -> (r: Self)
        ensures
            r.wf(),
            r.pending() == frame@,
            r.spec_written() == 0,
            r.in_flush_phase() == (frame@.len() == 0),
    {
        let flushing = frame.len() == 0;
        FrameWriter { frame, written: 0, flushing }
    }

    /// How many bytes are still unsent.
    pub fn remaining(&self) -> (r: usize)
        requires
            self.wf(),
        ensures
            r == self.pending().len() - self.spec_written(),
    {
        self.frame.len() - self.written
    }

    /// The bytes not yet accepted by the stream, in order.
    pub fn unsent(&self) -> (r: &[u8])
        requires
            self.wf(),
        ensures
            r@ == self.pending().subrange(self.spec_written() as int, self.pending().len() as int),
    {
        slice_subrange(self.frame.as_slice(), self.written, self.frame.len())
    }

    /// Feeds one observed event into the write.  Accepted bytes shrink
    /// the remaining target and lead into the flush phase once all are
    /// handed off; zero accepted bytes end the operation as `Closed`;
    /// an expired budget ends it as `Timeout`; cancellation and stream
    /// errors end it with a hard failure; a completed flush ends it as
    /// success with the full byte count.
    pub fn step(&mut self, event: WriteEvent) -> (r: WriteStep)
        requires
            old(self).wf(),
            (event matches WriteEvent::Wrote(n) ==> !old(self).in_flush_phase() && 1 <= n <= old(self).pending().len() - old(self).spec_written()),
            (event matches WriteEvent::Flushed ==> old(self).in_flush_phase()),
        ensures
            final(self).wf(),
            final(self).pending() == old(self).pending(),
            match event {
                WriteEvent::Wrote(n) => final(self).spec_written() == old(self).spec_written() + n
                    && (if final(self).spec_written() == final(self).pending().len() {
                    final(self).in_flush_phase() && r == WriteStep::NeedsFlush
                } else {
                    !final(self).in_flush_phase() && r == WriteStep::Continue
                }),
                WriteEvent::Eof => r == WriteStep::Finish(IoResult::Closed) && *final(self) == *old(self),
                WriteEvent::TimerExpired => r == WriteStep::Finish(IoResult::Timeout) && *final(self) == *old(self),
                WriteEvent::Cancelled => r == WriteStep::Abort(IoAbort::Cancelled) && *final(self) == *old(self),
                WriteEvent::StreamError => r == WriteStep::Abort(IoAbort::StreamError) && *final(self) == *old(self),
                WriteEvent::Flushed => r == WriteStep::Finish(
                    IoResult::Success(final(self).pending().len() as usize),
                ) && *final(self) == *old(self),
            },
    {
        match event {
            WriteEvent::Wrote(n) => {
                proof {
                    assert(event matches WriteEvent::Wrote(m) && m == n);
                    assert(n <= self.frame.len() - self.written);
                }
                self.written = self.written + n;
                if self.written == self.frame.len() {
                    self.flushing = true;
                    WriteStep::NeedsFlush
                } else {
                    WriteStep::Continue
                }
            },
            WriteEvent::Eof => WriteStep::Finish(IoResult::Closed),
            WriteEvent::TimerExpired => WriteStep::Finish(IoResult::Timeout),
            WriteEvent::Cancelled => WriteStep::Abort(IoAbort::Cancelled),
            WriteEvent::StreamError => WriteStep::Abort(IoAbort::StreamError),
            WriteEvent::Flushed => WriteStep::Finish(IoResult::Success(self.frame.len())),
        }
    }
}

} // verus!
