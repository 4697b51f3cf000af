//! Tri-state outcome of a bounded I/O attempt.  Neither `Closed` nor
//! `Timeout` is an error by itself: callers decide what they mean in
//! context.

use vstd::prelude::*;

verus! {

/// Outcome of a bounded read or write attempt.
#[derive(Debug, Clone, Copy, PartialEq, Eq, Structural)]
pub enum IoResult {
    /// The full transfer completed; carries the byte count.
    Success(usize),
    /// The peer ended the stream before the transfer completed.
    Closed,
    /// The deadline elapsed before the transfer completed.
    Timeout,
}

impl IoResult {
    /// True exactly for a completed transfer.
    pub fn is_success(&self) -> (r: bool)
        ensures
            r == (self is Success),
    {
        matches!(self, IoResult::Success(_))
    }

    /// True exactly when the peer ended the stream.
    pub fn is_closed(&self) -> (r: bool)
        ensures
            r == (self is Closed),
    {
        matches!(self, IoResult::Closed)
    }

    /// True exactly when the deadline elapsed.
    pub fn is_timeout(&self) -> (r: bool)
        ensures
            r == (self is Timeout),
    {
        matches!(self, IoResult::Timeout)
    }

    /// The transferred byte count of a completed transfer.
    pub fn bytes(&self) -> (r: Option<usize>)
        ensures
            match r {
                Some(n) => self == IoResult::Success(n),
                None => !(self is Success),
            },
    {
        if let IoResult::Success(n) = self {
            Some(*n)
        } else {
            None
        }
    }

}

} // verus!
