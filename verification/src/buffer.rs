//! Fixed-size host-side buffer in page-locked memory.
//!
//! A [`LockedBuffer`] exclusively owns a contiguous range of locked host
//! memory holding a fixed number of elements. It is viewed as a sequence of
//! slots, each either still uninitialized (`None`) or holding an element
//! (`Some`): reading a slot demands that it was written first, which is how
//! the component keeps uninitialized memory from ever being exposed.
//!
//! Construction computes the byte size with an explicit overflow check, and
//! buffers of zero bytes (zero length, or a zero-footprint element type)
//! never touch the allocator: they carry the fixed placeholder address
//! instead. Destruction is the explicit [`LockedBuffer::destroy`], which
//! returns the allocation to the allocator exactly once, and ownership can
//! be handed off by decomposing a buffer into its raw parts and
//! reconstructing it later without any release in between.

use crate::allocator::{next_count, PinnedAllocator, FIRST_HEAP_ADDRESS, PLACEHOLDER_ADDRESS};
use crate::error::MemoryError;
use vstd::layout::size_of;
use vstd::prelude::*;
use vstd::slice::slice_index_get;

verus! {

/// The structural invariant shared by a buffer and its raw-parts form:
/// the byte size fits the address width, and the base address is a real
/// allocator address exactly when there is something to allocate —
/// otherwise it is the placeholder.
pub open spec fn valid_parts<T>(contents: Seq<Option<T>>, address: usize) -> bool {
    &&& contents.len() * size_of::<T>() <= usize::MAX
    &&& if contents.len() > 0 && size_of::<T>() > 0 {
        FIRST_HEAP_ADDRESS <= address
    } else {
        address == PLACEHOLDER_ADDRESS
    }
}

/// A fixed-size, exclusively owned buffer of `T`s in page-locked host
/// memory: a base address into the allocator's address space, and one slot
/// per element. Capacity is fixed at construction; there is no resizing.
#[derive(Debug)]
pub struct LockedBuffer<T> {
    address: usize,
    slots: Vec<Option<T>>,
}

/// The raw form of a buffer: the same base address and slots, but stripped
/// of the buffer's role as the allocation's releasing owner. Decomposing a
/// buffer into this form consumes the buffer, so the memory cannot also be
/// released through it; whoever holds the raw form bears the responsibility
/// of rebuilding a buffer from it (or leaking the allocation).
#[derive(Debug)]
pub struct RawParts<T> {
    address: usize,
    slots: Vec<Option<T>>,
}

impl<T> View for LockedBuffer<T> {
    type V = Seq<Option<T>>;

    /// The buffer's slots: `None` where nothing was written yet.
    closed spec fn view(&self) -> Seq<Option<T>> {
        self.slots@
    }
}

impl<T> View for RawParts<T> {
    type V = Seq<Option<T>>;

    /// The slots carried along with the raw base address.
    closed spec fn view(&self) -> Seq<Option<T>> {
        self.slots@
    }
}

impl<T> RawParts<T> {
    /// The raw base address.
    pub closed spec fn spec_address(&self) -> usize {
        self.address
    }

    /// See [`valid_parts`].
    pub open spec fn wf(&self) -> bool {
        valid_parts(self@, self.spec_address())
    }
}

impl<T> LockedBuffer<T> {
    /// Base address of the buffer's memory range.
    pub closed spec fn spec_address(&self) -> usize {
        self.address
    }

    /// See [`valid_parts`].
    pub open spec fn wf(&self) -> bool {
        valid_parts(self@, self.spec_address())
    }

    /// Whether this buffer owns a real allocation: a nonzero number of
    /// elements of nonzero footprint.
    pub open spec fn owns_allocation(&self) -> bool {
        self@.len() > 0 && size_of::<T>() > 0
    }

    /// Every slot has been written.
    pub open spec fn fully_initialized(&self) -> bool {
        forall|i: int| 0 <= i < self@.len() ==> self@[i] is Some
    }

    /// The elements of a fully initialized buffer.
    pub open spec fn contents(&self) -> Seq<T> {
        Seq::new(self@.len(), |i: int| self@[i]->0)
    }

    /// Number of elements the buffer holds.
    pub fn len(&self) -> (length: usize)
        ensures
            length == self@.len(),
    {
        self.slots.len()
    }
}

/// What a successful construction does to the allocator: when the new buffer
/// owns a real allocation, exactly one allocation call was recorded and the
/// buffer's fresh address became live; otherwise the allocator was not
/// touched at all and the buffer carries the placeholder address.
pub open spec fn allocates_once<T>(
    pre: PinnedAllocator,
    post: PinnedAllocator,
    buffer: LockedBuffer<T>,
) -> bool {
    if buffer.owns_allocation() {
        &&& !pre.fail_next_allocation
        &&& post.alloc_calls == next_count(pre.alloc_calls)
        &&& post.free_calls == pre.free_calls
        &&& !pre.live_addresses().contains(buffer.spec_address())
        &&& post.live_addresses() == pre.live_addresses().insert(buffer.spec_address())
    } else {
        &&& post == pre
        &&& buffer.spec_address() == PLACEHOLDER_ADDRESS
    }
}

/// When and how a construction of `size` elements fails.
/// `InvalidAllocationSize` comes exactly when `size * size_of::<T>()`
/// overflows the address width, and then the allocator was never invoked.
/// `DriverAllocationFailure` is the allocator's own failure, propagated
/// verbatim, and comes only for requests of a nonzero number of bytes.
pub open spec fn construction_failed<T>(
    pre: PinnedAllocator,
    post: PinnedAllocator,
    error: MemoryError,
    size: usize,
) -> bool {
    match error {
        MemoryError::InvalidAllocationSize => {
            &&& size * size_of::<T>() > usize::MAX
            &&& post == pre
        },
        MemoryError::DriverAllocationFailure => {
            &&& size * size_of::<T>() <= usize::MAX
            &&& size > 0 && size_of::<T>() > 0
            &&& (pre.fail_next_allocation || size * size_of::<T>() > usize::MAX
                - pre.next_address)
            &&& post.alloc_calls == next_count(pre.alloc_calls)
            &&& post.free_calls == pre.free_calls
            &&& post.live_addresses() == pre.live_addresses()
        },
        _ => false,
    }
}

/// A product of machine-sized factors is zero exactly when a factor is.
proof fn lemma_usize_product_zero(x: usize, y: usize)
    ensures
        x * y == 0 <==> (x == 0 || y == 0),
{
    assert(x * y == 0 <==> (x == 0 || y == 0)) by (nonlinear_arith);
}

impl<T> LockedBuffer<T> {
    /// Allocates a buffer large enough to hold `size` `T`s without
    /// initializing any slot.
    ///
    /// Computes `size * size_of::<T>()` first: on overflow it fails with
    /// `InvalidAllocationSize` before any allocator call. A request of zero
    /// bytes skips the allocator entirely and uses the placeholder address.
    /// Otherwise the allocator is invoked once and its failure, if any, is
    /// propagated.
    ///
    /// Every slot starts out uninitialized; it must be written before it can
    /// be read through any accessor.
    pub fn uninitialized(allocator: &mut PinnedAllocator, size: usize) -> (result: Result<
        LockedBuffer<T>,
        MemoryError,
    >)
        requires
            old(allocator).wf(),
        ensures
            final(allocator).wf(),
            final(allocator).fail_next_deallocation == old(allocator).fail_next_deallocation,
            match result {
                Ok(buffer) => {
                    &&& buffer.wf()
                    &&& buffer@ == Seq::new(size as nat, |i: int| None::<T>)
                    &&& allocates_once(*old(allocator), *final(allocator), buffer)
                },
                Err(error) => construction_failed::<T>(
                    *old(allocator),
                    *final(allocator),
                    error,
                    size,
                ),
            },
    {
        let element_size: usize = core::mem::size_of::<T>();
        let bytes: usize = match size.checked_mul(element_size) {
            Some(bytes) => bytes,
            None => {
                return Err(MemoryError::InvalidAllocationSize);
            },
        };
        proof {
            lemma_usize_product_zero(size, element_size);
        }
        let address: usize;
        if bytes > 0 {
            match allocator.allocate(bytes) {
                Ok(fresh) => {
                    address = fresh;
                },
                Err(error) => {
                    return Err(error);
                },
            }
        } else {
            address = PLACEHOLDER_ADDRESS;
        }
        let mut slots: Vec<Option<T>> = Vec::new();
        let mut filled: usize = 0;
        while filled < size
            invariant
                filled <= size,
                slots@.len() == filled,
                forall|i: int| 0 <= i < filled ==> slots@[i] is None,
            decreases size - filled,
        {
            slots.push(None);
            filled = filled + 1;
        }
        let buffer = LockedBuffer { address, slots };
        proof {
            assert(buffer@ =~= Seq::new(size as nat, |i: int| None::<T>));
        }
        Ok(buffer)
    }

    /// Consumes the buffer without releasing its allocation and hands its
    /// raw parts — base address plus slots, and the capacity — to the
    /// caller, who becomes responsible for the memory.
    pub fn into_raw_parts(self) -> (parts: (RawParts<T>, usize))
        ensures
            parts.0@ == self@,
            parts.0.spec_address() == self.spec_address(),
            parts.1 == self@.len(),
    {
        let LockedBuffer { address, slots } = self;
        let size = slots.len();
        (RawParts { address, slots }, size)
    }

    /// Rebuilds a buffer directly from the raw parts of another one,
    /// taking over exclusive ownership of the memory range. The parts must
    /// have been produced by this component's own allocation path, with
    /// `size` the capacity they were allocated with, and no other owner may
    /// hold them.
    pub fn from_raw_parts(parts: RawParts<T>, size: usize) -> (buffer: LockedBuffer<T>)
        requires
            size == parts@.len(),
        ensures
            buffer@ == parts@,
            buffer.spec_address() == parts.spec_address(),
    {
        let RawParts { address, slots } = parts;
        LockedBuffer { address, slots }
    }

    /// Ends the buffer's lifetime, releasing its memory range back to the
    /// pinned allocator — exactly one deallocation call, and none at all
    /// for a buffer that owns no allocation. A deallocator failure is
    /// unrecoverable: the allocation's state is unknown and the caller has
    /// to treat it as fatal rather than continue.
    pub fn destroy(self, allocator: &mut PinnedAllocator) -> (result: Result<(), MemoryError>)
        requires
            old(allocator).wf(),
            self.owns_allocation() ==> old(allocator).live_addresses().contains(
                self.spec_address(),
            ),
        ensures
            final(allocator).wf(),
            final(allocator).fail_next_allocation == old(allocator).fail_next_allocation,
            if self.owns_allocation() {
                &&& final(allocator).alloc_calls == old(allocator).alloc_calls
                &&& final(allocator).free_calls == next_count(old(allocator).free_calls)
                &&& match result {
                    Ok(()) => {
                        &&& !old(allocator).fail_next_deallocation
                        &&& final(allocator).live_addresses() == old(
                            allocator,
                        ).live_addresses().remove(self.spec_address())
                    },
                    Err(error) => {
                        &&& error == MemoryError::UnrecoverableDeallocationFailure
                        &&& old(allocator).fail_next_deallocation
                        &&& final(allocator).live_addresses() == old(allocator).live_addresses()
                    },
                }
            } else {
                &&& *final(allocator) == *old(allocator)
                &&& result is Ok
            },
    {
        if self.slots.len() > 0 && core::mem::size_of::<T>() > 0 {
            allocator.free(self.address)
        } else {
            Ok(())
        }
    }
}

impl<T: Copy> LockedBuffer<T> {
    /// Reads the element at `index`, which must have been written before:
    /// uninitialized slots cannot be read through any accessor.
    pub fn read(&self, index: usize) -> (value: T)
        requires
            index < self@.len(),
            self@[index as int] is Some,
        ensures
            self@[index as int] == Some(value),
    {
        self.slots[index].unwrap()
    }

    /// Writes `value` into the slot at `index`, initializing it if it was
    /// not yet. This is a plain store: nothing is read from the slot first.
    pub fn write(&mut self, index: usize, value: T)
        requires
            index < old(self)@.len(),
        ensures
            final(self)@ == old(self)@.update(index as int, Some(value)),
            final(self).spec_address() == old(self).spec_address(),
    {
        self.slots.set(index, Some(value));
    }

    /// Bounds-checked read: an index at or past the capacity fails with
    /// `OutOfBoundsAccess` instead of touching memory. An in-range slot
    /// must have been written before, as with [`LockedBuffer::read`].
    pub fn try_read(&self, index: usize) -> (result: Result<T, MemoryError>)
        requires
            index < self@.len() ==> self@[index as int] is Some,
        ensures
            match result {
                Ok(value) => index < self@.len() && self@[index as int] == Some(value),
                Err(error) => index >= self@.len() && error == MemoryError::OutOfBoundsAccess,
            },
    {
        if index < self.slots.len() {
            Ok(self.read(index))
        } else {
            Err(MemoryError::OutOfBoundsAccess)
        }
    }

    /// Bounds-checked write: an index at or past the capacity fails with
    /// `OutOfBoundsAccess` and leaves the buffer unchanged.
    pub fn try_write(&mut self, index: usize, value: T) -> (result: Result<(), MemoryError>)
        ensures
            final(self).spec_address() == old(self).spec_address(),
            match result {
                Ok(()) => index < old(self)@.len() && final(self)@ == old(self)@.update(
                    index as int,
                    Some(value),
                ),
                Err(error) => {
                    &&& index >= old(self)@.len()
                    &&& error == MemoryError::OutOfBoundsAccess
                    &&& final(self)@ == old(self)@
                },
            },
    {
        if index < self.slots.len() {
            self.write(index, value);
            Ok(())
        } else {
            Err(MemoryError::OutOfBoundsAccess)
        }
    }

    /// The entire buffer, copied out element by element. Every slot must
    /// have been initialized.
    pub fn as_slice(&self) -> (values: Vec<T>)
        requires
            self.fully_initialized(),
        ensures
            values@ == self.contents(),
    {
        let mut values: Vec<T> = Vec::new();
        let mut copied: usize = 0;
        while copied < self.slots.len()
            invariant
                copied <= self@.len(),
                self.fully_initialized(),
                values@.len() == copied,
                forall|i: int| 0 <= i < copied ==> values@[i] == self@[i]->0,
            decreases self@.len() - copied,
        {
            values.push(self.read(copied));
            copied = copied + 1;
        }
        proof {
            assert(values@ =~= self.contents());
        }
        values
    }

    /// Allocates a buffer of `size` elements, every one initialized with an
    /// independent copy of `value`. Each copy is a plain store into a fresh
    /// slot: the destination is never read before it is written. Fails as
    /// [`LockedBuffer::uninitialized`] does.
    pub fn new(allocator: &mut PinnedAllocator, value: &T, size: usize) -> (result: Result<
        LockedBuffer<T>,
        MemoryError,
    >)
        requires
            old(allocator).wf(),
        ensures
            final(allocator).wf(),
            final(allocator).fail_next_deallocation == old(allocator).fail_next_deallocation,
            match result {
                Ok(buffer) => {
                    &&& buffer.wf()
                    &&& buffer@ == Seq::new(size as nat, |i: int| Some(*value))
                    &&& allocates_once(*old(allocator), *final(allocator), buffer)
                },
                Err(error) => construction_failed::<T>(
                    *old(allocator),
                    *final(allocator),
                    error,
                    size,
                ),
            },
    {
        let mut buffer = match Self::uninitialized(allocator, size) {
            Ok(buffer) => buffer,
            Err(error) => {
                return Err(error);
            },
        };
        let ghost fresh = buffer;
        let mut filled: usize = 0;
        while filled < size
            invariant
                filled <= size,
                buffer@.len() == size,
                buffer.spec_address() == fresh.spec_address(),
                forall|i: int| 0 <= i < filled ==> buffer@[i] == Some(*value),
            decreases size - filled,
        {
            buffer.write(filled, *value);
            filled = filled + 1;
        }
        proof {
            assert(buffer@ =~= Seq::new(size as nat, |i: int| Some(*value)));
        }
        Ok(buffer)
    }

    /// Allocates a buffer of the same size as `source`, initialized with a
    /// copy of each of its elements, in order. The result is independent
    /// storage: later writes to the buffer leave `source` untouched, and
    /// vice versa. Fails as [`LockedBuffer::uninitialized`] does.
    pub fn from_slice(allocator: &mut PinnedAllocator, source: &[T]) -> (result: Result<
        LockedBuffer<T>,
        MemoryError,
    >)
        requires
            old(allocator).wf(),
        ensures
            final(allocator).wf(),
            final(allocator).fail_next_deallocation == old(allocator).fail_next_deallocation,
            match result {
                Ok(buffer) => {
                    &&& buffer.wf()
                    &&& buffer@ == Seq::new(source@.len(), |i: int| Some(source@[i]))
                    &&& allocates_once(*old(allocator), *final(allocator), buffer)
                },
                Err(error) => construction_failed::<T>(
                    *old(allocator),
                    *final(allocator),
                    error,
                    source@.len() as usize,
                ),
            },
    {
        let size = source.len();
        let mut buffer = match Self::uninitialized(allocator, size) {
            Ok(buffer) => buffer,
            Err(error) => {
                return Err(error);
            },
        };
        let ghost fresh = buffer;
        let mut filled: usize = 0;
        while filled < size
            invariant
                filled <= size,
                size == source@.len(),
                buffer@.len() == size,
                buffer.spec_address() == fresh.spec_address(),
                forall|i: int| 0 <= i < filled ==> buffer@[i] == Some(source@[i]),
            decreases size - filled,
        {
            let element: T = *slice_index_get(source, filled);
            buffer.write(filled, element);
            filled = filled + 1;
        }
        proof {
            assert(buffer@ =~= Seq::new(source@.len(), |i: int| Some(source@[i])));
        }
        Ok(buffer)
    }
}

impl<T> LockedBuffer<T> {
    /// Ownership hand-off round trip: decomposing a buffer into its raw
    /// parts and reconstructing from exactly those parts yields a buffer
    /// with the same contents and the same base address — so destroying
    /// the reconstruction releases the original allocation, exactly once,
    /// as if the original had been destroyed itself.
    pub fn rebuild(self) -> (rebuilt: LockedBuffer<T>)
        ensures
            rebuilt@ == self@,
            rebuilt.spec_address() == self.spec_address(),
    {
        let (parts, size) = self.into_raw_parts();
        LockedBuffer::from_raw_parts(parts, size)
    }
}

/// Contents of a buffer after its first `count` slots have been overwritten
/// with the matching prefix of `values`, one [`LockedBuffer::write`] per
/// slot, in slot order.
pub open spec fn written<T>(initial: Seq<Option<T>>, values: Seq<T>, count: int) -> Seq<
    Option<T>,
>
    decreases count,
{
    if count <= 0 {
        initial
    } else {
        written(initial, values, count - 1).update(count - 1, Some(values[count - 1]))
    }
}

/// After the first `count` writes, exactly those slots hold the written
/// values and the rest still hold what they held before.
proof fn lemma_written_prefix<T>(initial: Seq<Option<T>>, values: Seq<T>, count: int)
    requires
        initial.len() == values.len(),
        0 <= count <= values.len(),
    ensures
        written(initial, values, count).len() == initial.len(),
        forall|i: int| 0 <= i < count ==> written(initial, values, count)[i] == Some(values[i]),
        forall|i: int|
            count <= i < initial.len() ==> written(initial, values, count)[i] == initial[i],
    decreases count,
{
    if count > 0 {
        lemma_written_prefix(initial, values, count - 1);
    }
}

/// Write/read round trip: start from any buffer contents `initial` — in
/// particular from the fully uninitialized buffer of any size, including
/// zero — and write value `values[j]` into slot `j` for every slot, each
/// write acting as [`LockedBuffer::write`]'s contract says. The buffer then
/// holds exactly the written values, so reading every slot, which
/// [`LockedBuffer::read`] guarantees returns the slot's contents,
/// reproduces exactly what was written.
pub proof fn lemma_write_read_round_trip<T>(initial: Seq<Option<T>>, values: Seq<T>)
    requires
        initial.len() == values.len(),
    ensures
        written(initial, values, values.len() as int) == Seq::new(
            values.len(),
            |i: int| Some(values[i]),
        ),
{
    lemma_written_prefix(initial, values, values.len() as int);
    assert(written(initial, values, values.len() as int) =~= Seq::new(
        values.len(),
        |i: int| Some(values[i]),
    ));
}

} // verus!
