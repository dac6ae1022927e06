//! Fixed-size host-memory buffers in page-locked ("pinned") memory, verified
//! against an explicit model of the pinned-memory allocator.
//!
//! A [`buffer::LockedBuffer`] owns a contiguous range of locked host memory
//! for a fixed number of elements. Its size arithmetic is checked against
//! address-width overflow, degenerate buffers (zero length or zero-sized
//! elements) never touch the allocator, and the allocation is released
//! exactly once. The allocator itself is represented by
//! [`allocator::PinnedAllocator`], a model that hands out disjoint address
//! ranges and records every call, so contracts and tests can observe exactly
//! when the driver would be invoked.

pub mod allocator;
pub mod buffer;
pub mod error;
