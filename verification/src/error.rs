//! The unified error taxonomy of the transport layer.

use vstd::prelude::*;

verus! {

/// An error of the transport layer.
///
/// Channel-level failures are collapsed into a single kind: the consumer of a
/// channel only needs to know that the channel is no longer usable, not the
/// specific transport cause.
#[derive(Clone, Copy, Debug, PartialEq, Eq, Structural)]
pub enum LiveViewError {
    /// The channel became unusable in either direction (transport closed,
    /// write failed, malformed inbound frame).  Terminal for the owning
    /// session only.
    SendingFailed,
    /// The listener could not bind or the server loop faulted.  Fatal to the
    /// serve attempt, but not to other in-process work.
    ServerStartFailed,
}

impl LiveViewError {
    /// Short operator-facing description of the error.
    pub fn message(&self) -> (r: &'static str)
        ensures
            *self is SendingFailed ==> r@ == "the channel is no longer usable"@,
            *self is ServerStartFailed ==> r@ == "failed to start the server"@,
    {
        match self {
            LiveViewError::SendingFailed => "the channel is no longer usable",
            LiveViewError::ServerStartFailed => "failed to start the server",
        }
    }
}

} // verus!
