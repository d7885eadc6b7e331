//! Protocol violations: what shows that host and guest were not built from
//! the same tables. None of them can be made good by the one who meets it,
//! so they are kept apart from the failures that a caller can handle.

use vstd::prelude::*;
use crate::codec::DecodeError;

verus! {

/// A breach of the protocol between host and guest.
#[derive(Debug, Copy, Clone, PartialEq, Eq, Structural)]
pub enum ProtocolViolation {
    /// No handler is registered under this function id.
    UnknownFunction(u32),
    /// A buffer is not the encoding of what it should hold.
    MalformedBuffer(DecodeError),
    /// This status code stands in no table.
    UnknownStatus(u32),
}

} // verus!
