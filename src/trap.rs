//! Guest contract violations: each one aborts the guest's current call.

use vstd::prelude::*;

verus! {

/// Why the host aborted a guest call.
#[derive(Debug, Clone, Copy, PartialEq, Eq, Structural)]
pub enum Trap {
    /// A pointer and length the guest passed reach outside its memory.
    OutOfBounds,
    /// Bytes the guest passed as a string are not UTF-8.
    InvalidUtf8,
    /// The guest's allocator returned a negative offset.
    AllocationFailed,
    /// The guest's allocator returned a buffer that ends past its memory.
    InvalidPointer,
    /// The guest set its result a second time in one invocation.
    ResultAlreadySet,
    /// A buffer for the guest is larger than a 32-bit allocation request.
    BufferTooLarge,
    /// An outbound HTTP path does not begin with `/`.
    InvalidPath,
}

impl Trap {
    /// The root-cause text reported for this trap.
    pub fn message(&self) -> &'static str {
        match self {
            Trap::OutOfBounds => "Guest buffer out of bounds",
            Trap::InvalidUtf8 => "Guest string is not valid UTF-8",
            Trap::AllocationFailed => "Failed to allocate",
            Trap::InvalidPointer => "Invalid pointer",
            Trap::ResultAlreadySet => "Result was already set",
            Trap::BufferTooLarge => "Buffer too large for the guest",
            Trap::InvalidPath => "HTTP path must begin with '/'",
        }
    }
}

} // verus!
