//! Error taxonomy of the pinned-memory buffer.

use vstd::prelude::*;

verus! {

/// Everything that can go wrong around a pinned-memory buffer: local size
/// validation, failures reported by the pinned-memory driver, and
/// access-path violations.
#[derive(Clone, Copy, Debug, PartialEq, Eq, Structural)]
pub enum MemoryError {
    /// `size * size_of::<T>()` would overflow the address width; the
    /// allocator was not invoked.
    InvalidAllocationSize,
    /// The pinned-memory allocator itself failed (for example, out of
    /// memory); the error is surfaced to the caller of a constructor.
    DriverAllocationFailure,
    /// An index was at or past the buffer's capacity.
    OutOfBoundsAccess,
    /// The pinned-memory deallocator failed while a buffer was being
    /// destroyed; the allocation's state is unknown and the caller has to
    /// treat this as fatal.
    UnrecoverableDeallocationFailure,
}

} // verus!
