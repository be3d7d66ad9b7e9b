//! Why a message could not be decoded.

use vstd::prelude::*;

verus! {

/// A decode failure; each one is fatal to the message being decoded.
#[derive(Debug, Clone, Copy, PartialEq, Eq, Structural)]
pub enum DecodeError {
    /// The input ended inside a fixed-width field.
    UnexpectedEnd,
    /// A component code that names no known component.
    InvalidComponent(u16),
    /// A packet id that names no known packet.
    InvalidPacketId(u16),
    /// A capability type code that names no known capability.
    InvalidCapabilityType(u16),
}

impl DecodeError {
    /// Whether the failure is malformed content rather than truncation.
    pub fn is_invalid_data(&self) -> (r: bool)
        ensures
            r == !(*self is UnexpectedEnd),
    {
        !matches!(self, DecodeError::UnexpectedEnd)
    }
}

/// `r`, the result of decoding with the number of bytes consumed, is
/// `expected`, where the count is a mathematical integer.
pub open spec fn decodes_as<T>(r: Result<(T, usize), DecodeError>, expected: Result<(T, int), DecodeError>) -> bool {
    match r {
        Ok((v, n)) => expected == Ok::<(T, int), DecodeError>((v, n as int)),
        Err(e) => expected == Err::<(T, int), DecodeError>(e),
    }
}

} // verus!
