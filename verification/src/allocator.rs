//! Model of the pinned-memory (page-locked) host allocator.
//!
//! The real allocator and deallocator live in the accelerator driver; this
//! module represents them as explicit state. The model hands out disjoint,
//! non-null address ranges, keeps the set of addresses that are currently
//! allocated, and records every call it receives, so that a buffer's
//! contracts can say precisely when the driver is invoked — and tests can
//! check it. Failures can be injected, standing in for the driver running
//! out of lockable memory or rejecting a request.

use crate::error::MemoryError;
use vstd::prelude::*;

verus! {

/// First address the allocator hands out. Everything below it is reserved,
/// so a real allocation can never be confused with `PLACEHOLDER_ADDRESS`.
pub const FIRST_HEAP_ADDRESS: usize = 4096;

/// Fixed non-null stand-in address for buffers that own no allocation
/// (zero length, or elements of zero footprint). It is never handed out by
/// the allocator and must never be passed to it.
pub const PLACEHOLDER_ADDRESS: usize = 1;

/// A call counter after one more call: counters stick at `u64::MAX` rather
/// than wrap.
pub open spec fn next_count(count: u64) -> u64 {
    if count == u64::MAX {
        count
    } else {
        (count + 1) as u64
    }
}

/// The pinned-memory allocator, modelled as explicit state.
///
/// `allocate` returns the base address of a fresh range of `bytes` bytes of
/// locked host memory, advancing `next_address`; `free` returns such an
/// address. Both count their calls, including failed ones. Setting one of
/// the `fail_next_*` flags makes the next matching call fail, the way the
/// driver itself may.
pub struct PinnedAllocator {
    /// Lowest address not yet handed out.
    pub next_address: usize,
    /// Number of allocation calls received so far, failed ones included.
    pub alloc_calls: u64,
    /// Number of deallocation calls received so far, failed ones included.
    pub free_calls: u64,
    /// When set, the next allocation call fails; the call clears it.
    pub fail_next_allocation: bool,
    /// When set, the next deallocation call fails; the call clears it.
    pub fail_next_deallocation: bool,
    /// The addresses currently allocated and not yet freed.
    pub live: Ghost<Set<usize>>,
}

impl PinnedAllocator {
    /// The addresses handed out and not yet returned.
    pub open spec fn live_addresses(&self) -> Set<usize> {
        self.live@
    }

    /// Every live address lies in the range the allocator has handed out.
    pub open spec fn wf(&self) -> bool {
        &&& FIRST_HEAP_ADDRESS <= self.next_address
        &&& forall|address: usize|
            self.live@.contains(address) ==> FIRST_HEAP_ADDRESS <= address < self.next_address
    }

    /// A fresh allocator: no allocations, no calls, no injected failures.
    pub fn new() -> (allocator: PinnedAllocator)
        ensures
            allocator.wf(),
            allocator.alloc_calls == 0,
            allocator.free_calls == 0,
            !allocator.fail_next_allocation,
            !allocator.fail_next_deallocation,
            allocator.live_addresses() == Set::<usize>::empty(),
            allocator.next_address == FIRST_HEAP_ADDRESS,
    {
        PinnedAllocator {
            next_address: FIRST_HEAP_ADDRESS,
            alloc_calls: 0,
            free_calls: 0,
            fail_next_allocation: false,
            fail_next_deallocation: false,
            live: Ghost(Set::empty()),
        }
    }

    /// One allocation request: `bytes` page-locked bytes. Requests of zero
    /// bytes are never made. Succeeds with a fresh, non-overlapping base
    /// address unless a failure was injected or the address space is
    /// exhausted.
    pub fn allocate(&mut self, bytes: usize) -> (result: Result<usize, MemoryError>)
        requires
            old(self).wf(),
            bytes > 0,
        ensures
            final(self).wf(),
            final(self).alloc_calls == next_count(old(self).alloc_calls),
            final(self).free_calls == old(self).free_calls,
            final(self).fail_next_deallocation == old(self).fail_next_deallocation,
            !final(self).fail_next_allocation,
            match result {
                Ok(address) => {
                    &&& !old(self).fail_next_allocation
                    &&& bytes <= usize::MAX - old(self).next_address
                    &&& address == old(self).next_address
                    &&& FIRST_HEAP_ADDRESS <= address
                    &&& !old(self).live_addresses().contains(address)
                    &&& final(self).live_addresses() == old(self).live_addresses().insert(
                        address,
                    )
                    &&& final(self).next_address == old(self).next_address + bytes
                },
                Err(e) => {
                    &&& e == MemoryError::DriverAllocationFailure
                    &&& (old(self).fail_next_allocation || bytes > usize::MAX - old(
                        self,
                    ).next_address)
                    &&& final(self).live_addresses() == old(self).live_addresses()
                    &&& final(self).next_address == old(self).next_address
                },
            },
    {
        if self.alloc_calls < u64::MAX {
            self.alloc_calls = self.alloc_calls + 1;
        }
        let failing = self.fail_next_allocation;
        self.fail_next_allocation = false;
        if failing {
            return Err(MemoryError::DriverAllocationFailure);
        }
        if bytes > usize::MAX - self.next_address {
            return Err(MemoryError::DriverAllocationFailure);
        }
        let address = self.next_address;
        self.next_address = self.next_address + bytes;
        self.live = Ghost(self.live@.insert(address));
        Ok(address)
    }

    /// One deallocation request: returns `address`, which must be live, to
    /// the allocator. Succeeds unless a failure was injected.
    pub fn free(&mut self, address: usize) -> (result: Result<(), MemoryError>)
        requires
            old(self).wf(),
            old(self).live_addresses().contains(address),
        ensures
            final(self).wf(),
            final(self).free_calls == next_count(old(self).free_calls),
            final(self).alloc_calls == old(self).alloc_calls,
            final(self).next_address == old(self).next_address,
            final(self).fail_next_allocation == old(self).fail_next_allocation,
            !final(self).fail_next_deallocation,
            match result {
                Ok(()) => {
                    &&& !old(self).fail_next_deallocation
                    &&& final(self).live_addresses() == old(self).live_addresses().remove(
                        address,
                    )
                },
                Err(e) => {
                    &&& e == MemoryError::UnrecoverableDeallocationFailure
                    &&& old(self).fail_next_deallocation
                    &&& final(self).live_addresses() == old(self).live_addresses()
                },
            },
    {
        if self.free_calls < u64::MAX {
            self.free_calls = self.free_calls + 1;
        }
        let failing = self.fail_next_deallocation;
        self.fail_next_deallocation = false;
        if failing {
            return Err(MemoryError::UnrecoverableDeallocationFailure);
        }
        self.live = Ghost(self.live@.remove(address));
        Ok(())
    }
}

} // verus!
