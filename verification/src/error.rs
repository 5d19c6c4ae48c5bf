//! The ways in which a call can be refused.

use vstd::prelude::*;

verus! {

/// Why the driver refused a call. A refused call leaves the driver as it was, unless its
/// contract says otherwise.
#[derive(Debug, PartialEq, Eq)]
pub enum MetalError {
    /// The handle holds no object.
    NullHandle,
    /// The handle names no live object: it was never created, or its last reference is gone.
    Dangling,
    /// The object is not of the kind that the call works on.
    WrongKind,
    /// The caller owns no reference that it could give up.
    OverRelease,
    /// One more reference would not fit in the count.
    CountOverflow,
    /// The driver cannot hold another object.
    Exhausted,
    /// The command buffer has been committed and takes no further encoding.
    AlreadyCommitted,
    /// The command buffer already holds its place in the queue.
    AlreadyEnqueued,
    /// An encoder of the command buffer is still open.
    EncoderOpen,
    /// The encoder has ended, or was never the open encoder of its command buffer.
    EncoderEnded,
    /// The command buffer has not been committed yet.
    NotCommitted,
    /// The native layer refused, with this message.
    Diagnostic(String),
}

} // verus!
