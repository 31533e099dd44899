//! Error types of the client core.

use crate::protocol::{ProtocolError, ProtocolErrorView};
use vstd::prelude::*;

verus! {

/// The object id given is stale, destroyed or unknown.
#[derive(Clone, Copy, Debug, PartialEq, Eq, Structural)]
pub struct InvalidId;

/// The system library is missing; this backend needs none, so it never
/// reports this.
#[derive(Clone, Copy, Debug, PartialEq, Eq, Structural)]
pub struct NoWaylandLib;

/// What the transport reported of a failed socket operation.
#[derive(Clone, Copy, Debug, PartialEq, Eq, Structural)]
pub enum IoError {
    /// The operation would block: transient, never latched.
    WouldBlock,
    /// The peer has closed the connection.
    BrokenPipe,
    /// An operating-system error, by its code.
    Os(i32),
    /// Any other failure.
    Other,
}

impl IoError {
    /// Whether the error is the transient would-block condition.
    pub fn is_would_block(&self) -> (r: bool)
        ensures
            r == (*self is WouldBlock),
    {
        match self {
            IoError::WouldBlock => true,
            _ => false,
        }
    }
}

/// An error of the connection.
#[derive(Debug, PartialEq, Eq)]
pub enum WaylandError {
    /// The socket failed.
    Io(IoError),
    /// The protocol was violated.
    Protocol(ProtocolError),
}

/// An error of the connection as a plain value.
pub enum WaylandErrorView {
    Io(IoError),
    Protocol(ProtocolErrorView),
}

impl View for WaylandError {
    type V = WaylandErrorView;

    open spec fn view(&self) -> WaylandErrorView {
        match self {
            WaylandError::Io(e) => WaylandErrorView::Io(*e),
            WaylandError::Protocol(e) => WaylandErrorView::Protocol(e@),
        }
    }
}

impl Clone for WaylandError {
    fn clone(&self) -> (r: Self)
        ensures
            r == *self,
    {
        match self {
            WaylandError::Io(e) => WaylandError::Io(*e),
            WaylandError::Protocol(e) => WaylandError::Protocol(e.clone()),
        }
    }
}

} // verus!
