//! Message transport over the framed I/O engine: one frame is a
//! two-byte big-endian length prefix followed by that many body bytes.
//! The state machine here decides how many bytes to ask for next,
//! enforces the size ceiling before any body byte is requested, and
//! collapses the soft outcomes into the empty-frame convention that
//! callers of the transport expect.

use vstd::prelude::*;

use crate::frame_io::{FrameReader, IoAbort, ReadEvent};
use crate::header::be16;
use crate::io_result::IoResult;

verus! {

/// Hard ceiling on a frame body: a declared length above this is a
/// fatal protocol error, not a value to be read.
pub const MAX_MESSAGE_SIZE: usize = 10 * 1024 * 1024;

/// True exactly for declared lengths the transport will read at all.
pub fn frame_length_admissible(length: usize) -> (r: bool)
    ensures
        r == (length <= MAX_MESSAGE_SIZE),
{
    length <= MAX_MESSAGE_SIZE
}

/// What a message write reports to its caller: the byte count on
/// success, zero when the peer closed or the deadline elapsed.
pub fn message_write_result(outcome: &IoResult) -> (r: usize)
    ensures
        match outcome {
            IoResult::Success(n) => r == n,
            IoResult::Closed => r == 0,
            IoResult::Timeout => r == 0,
        },
{
    match outcome {
        IoResult::Success(n) => *n,
        IoResult::Closed => 0,
        IoResult::Timeout => 0,
    }
}

/// How a transport iteration left the read.
#[derive(Debug, PartialEq, Eq)]
pub enum MessageStep {
    /// This many more bytes of the current phase are needed.
    NeedBytes(usize),
    /// The peer closed or the deadline elapsed: no message; the
    /// connection is finished for this iteration.
    Empty,
    /// The declared length is above the ceiling: a fatal protocol
    /// error, observed before any body byte was requested.
    TooLarge,
    /// The complete frame, length prefix retained ahead of the body.
    Frame(Vec<u8>),
    /// A hard failure: cancellation or a stream error.
    Abort(IoAbort),
}

/// The concatenation of a sequence of chunks, in delivery order.
pub open spec fn joined(chunks: Seq<Seq<u8>>) -> Seq<u8>
    decreases chunks.len(),
{
    if chunks.len() == 0 {
        Seq::empty()
    } else {
        joined(chunks.drop_last()) + chunks.last()
    }
}

/// Reads one length-prefixed frame: first exactly two prefix bytes,
/// then exactly the declared number of body bytes.  The ghost
/// `deliveries` field records each delivered chunk, so the invariant
/// that the bytes held are their concatenation states that how the
/// stream fragments delivery never changes the frame.
pub struct MessageReader {
    pub prefix: FrameReader,
    pub body: Option<FrameReader>,
    pub deliveries: Ghost<Seq<Seq<u8>>>,
}

impl MessageReader {
    /// The length the completed prefix declares.
    pub open spec fn declared_len(self) -> int {
        be16(self.prefix.received()[0], self.prefix.received()[1])
    }

    /// Every byte consumed so far, in delivery order.
    pub open spec fn received(self) -> Seq<u8> {
        self.prefix.received() + (match self.body {
            Some(b) => b.received(),
            None => Seq::<u8>::empty(),
        })
    }

    /// The reader's phase invariant: two prefix bytes, and a body
    /// reader exactly when the prefix completed with an admissible
    /// declared length.
    pub open spec fn wf(self) -> bool {
        &&& self.prefix.wf()
        &&& self.prefix.spec_expected() == 2
        &&& self.received() == joined(self.deliveries@)
        &&& match self.body {
            Some(b) => self.prefix.is_complete() && b.wf() && self.declared_len()
                <= MAX_MESSAGE_SIZE && b.spec_expected() == self.declared_len(),
            None => !self.prefix.is_complete() || self.declared_len() > MAX_MESSAGE_SIZE,
        }
    }

    /// True once the whole frame has been consumed.
    pub open spec fn is_done(self) -> bool {
        match self.body {
            Some(b) => b.is_complete(),
            None => false,
        }
    }

    /// How many bytes of the current phase are still missing.
    pub open spec fn spec_needed(self) -> int {
        match self.body {
            Some(b) => b.spec_expected() - b.received().len(),
            None => 2 - self.prefix.received().len(),
        }
    }

    /// Starts reading one frame.
    pub fn new() -> (r: Self)
        ensures
            r.wf(),
            !r.is_done(),
            r.received() == Seq::<u8>::empty(),
            r.deliveries@ == Seq::<Seq<u8>>::empty(),
            r.spec_needed() == 2,
    {
        let r = MessageReader {
            prefix: FrameReader::new(2),
            body: None,
            deliveries: Ghost(Seq::empty()),
        };
        proof {
            assert(r.received() =~= Seq::<u8>::empty());
        }
        r
    }

    /// How many bytes of the current phase are still missing.
    pub fn needed(&self) -> (r: usize)
        requires
            self.wf(),
        ensures
            r == self.spec_needed(),
    {
        match &self.body {
            Some(b) => b.remaining(),
            None => self.prefix.remaining(),
        }
    }

    /// Feeds one observed event into the frame read.  Delivered bytes
    /// fill the prefix and then the body; once the prefix completes,
    /// its declared length is held against the ceiling before a single
    /// body byte is asked for.  End of stream and an elapsed deadline
    /// both collapse into `Empty`; cancellation and stream errors stay
    /// hard failures.
    pub fn step(&mut self, event: ReadEvent) -> (r: MessageStep)
        requires
            old(self).wf(),
            !old(self).is_done(),
            old(self).spec_needed() >= 1,
            (event matches ReadEvent::Data(d) ==> 1 <= d@.len() <= old(self).spec_needed()),
        ensures
            final(self).wf(),
            match event {
                ReadEvent::Data(d) => final(self).received() == old(self).received() + d@
                    && final(self).deliveries@ == old(self).deliveries@.push(d@) && (match r {
                    MessageStep::NeedBytes(k) => !final(self).is_done() && k == final(self).spec_needed() && k >= 1,
                    MessageStep::TooLarge => final(self).prefix.is_complete() && final(self).declared_len() > MAX_MESSAGE_SIZE && final(self).received() == final(self).prefix.received(),
                    MessageStep::Frame(v) => final(self).is_done() && v@ == final(self).received()
                        && v@ == joined(final(self).deliveries@)
                        && v@.len() == 2 + final(self).declared_len()
                        && final(self).declared_len() <= MAX_MESSAGE_SIZE,
                    _ => false,
                }),
                ReadEvent::Eof => r matches MessageStep::Empty && *final(self) == *old(self),
                ReadEvent::TimerExpired => r matches MessageStep::Empty && *final(self) == *old(self),
                ReadEvent::Cancelled => r matches MessageStep::Abort(a) && a
                    == IoAbort::Cancelled && *final(self) == *old(self),
                ReadEvent::StreamError => r matches MessageStep::Abort(a) && a
                    == IoAbort::StreamError && *final(self) == *old(self),
            },
    {
        match event {
            ReadEvent::Data(d) => self.feed(d),
            ReadEvent::Eof => MessageStep::Empty,
            ReadEvent::TimerExpired => MessageStep::Empty,
            ReadEvent::Cancelled => MessageStep::Abort(IoAbort::Cancelled),
            ReadEvent::StreamError => MessageStep::Abort(IoAbort::StreamError),
        }
    }

    /// Consumes delivered bytes for the current phase.
    fn feed(&mut self, d: Vec<u8>) -> (r: MessageStep)
        requires
            old(self).wf(),
            !old(self).is_done(),
            old(self).spec_needed() >= 1,
            1 <= d@.len() <= old(self).spec_needed(),
        ensures
            final(self).wf(),
            final(self).received() == old(self).received() + d@,
            final(self).deliveries@ == old(self).deliveries@.push(d@),
            match r {
                MessageStep::NeedBytes(k) => !final(self).is_done() && k == final(self).spec_needed() && k >= 1,
                MessageStep::TooLarge => final(self).prefix.is_complete() && final(self).declared_len() > MAX_MESSAGE_SIZE && final(self).received() == final(self).prefix.received(),
                MessageStep::Frame(v) => final(self).is_done() && v@ == final(self).received()
                    && v@.len() == 2 + final(self).declared_len() && final(self).declared_len()
                    <= MAX_MESSAGE_SIZE,
                _ => false,
            },
    {
        let ghost pre = *self;
        let ghost dd = d@;
        proof {
            self.deliveries@ = pre.deliveries@.push(dd);
            assert(pre.deliveries@.push(dd).drop_last() =~= pre.deliveries@);
            assert(joined(self.deliveries@) == joined(pre.deliveries@) + dd);
        }
        if self.body.is_none() {
            self.prefix.step(ReadEvent::Data(d));
            proof {
                assert(self.received() =~= pre.received() + dd);
            }
            if !self.prefix.complete() {
                let k = self.prefix.remaining();
                return MessageStep::NeedBytes(k);
            }
            let p = self.prefix.data();
            let length = (p[0] as usize) * 256 + (p[1] as usize);
            proof {
                assert(length == self.declared_len());
            }
            if !frame_length_admissible(length) {
                proof {
                    assert(self.received() =~= self.prefix.received());
                }
                return MessageStep::TooLarge;
            }
            if length == 0 {
                self.body = Some(FrameReader::new(0));
                let v = self.prefix.data();
                proof {
                    assert(self.received() =~= pre.received() + dd);
                    assert(v@ =~= self.received());
                }
                return MessageStep::Frame(v);
            }
            self.body = Some(FrameReader::new(length));
            proof {
                assert(self.received() =~= pre.received() + dd);
            }
            return MessageStep::NeedBytes(length);
        }
        let body_complete: bool;
        let body_left: usize;
        let body_bytes: Vec<u8>;
        match &mut self.body {
            Some(b) => {
                b.step(ReadEvent::Data(d));
                body_complete = b.complete();
                body_left = b.remaining();
                body_bytes = b.data();
            },
            None => {
                proof {
                    assert(false);
                }
                return MessageStep::Empty;
            },
        }
        proof {
            assert(self.received() =~= pre.received() + dd);
        }
        if body_complete {
            let mut v = self.prefix.data();
            v.extend_from_slice(body_bytes.as_slice());
            proof {
                assert(v@ =~= self.received());
            }
            MessageStep::Frame(v)
        } else {
            MessageStep::NeedBytes(body_left)
        }
    }
}

} // verus!
