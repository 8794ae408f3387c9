//! The values that travel through the cell and the outcomes of a poll.
use vstd::prelude::*;

verus! {

/// What the cell can hold: one value of the stream, or the end of the stream.
#[derive(Debug, PartialEq, Eq)]
pub enum Message<T> {
    Data(T),
    Done,
}

/// Outcome of a poll that did not fail.
#[derive(Debug, PartialEq, Eq)]
pub enum Async<T> {
    /// The operation has completed with this value.
    Ready(T),
    /// The operation cannot complete yet; the polling task will be signalled.
    NotReady,
}

/// Result of polling an operation: ready, not ready, or failed.
pub type Poll<T, E> = Result<Async<T>, E>;

impl<T> Async<T> {
    /// Whether the poll has completed.
    pub fn is_ready(&self) -> (b: bool)
        ensures
            b == (self is Ready),
    {
        match self {
            Async::Ready(_) => true,
            Async::NotReady => false,
        }
    }
}

} // verus!
