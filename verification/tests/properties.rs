use locked_buffer::allocator::PinnedAllocator;
use locked_buffer::buffer::LockedBuffer;
use locked_buffer::error::MemoryError;

#[derive(Clone, Copy, Debug, PartialEq, Eq)]
struct Marker;

#[test]
fn new_fills_every_slot() {
    let mut allocator = PinnedAllocator::new();
    let buffer = LockedBuffer::new(&mut allocator, &7u32, 4).unwrap();
    assert_eq!(4, buffer.len());
    assert_eq!(vec![7u32, 7, 7, 7], buffer.as_slice());
    for i in 0..4 {
        assert_eq!(7u32, buffer.read(i));
    }
    buffer.destroy(&mut allocator).unwrap();

    let empty = LockedBuffer::new(&mut allocator, &7u32, 0).unwrap();
    assert_eq!(0, empty.len());
    assert_eq!(Vec::<u32>::new(), empty.as_slice());
    empty.destroy(&mut allocator).unwrap();
}

#[test]
fn from_slice_copies_and_is_independent() {
    let mut allocator = PinnedAllocator::new();
    let source = [1u64, 2, 3];
    let mut buffer = LockedBuffer::from_slice(&mut allocator, &source).unwrap();
    assert_eq!(3, buffer.len());
    assert_eq!(vec![1u64, 2, 3], buffer.as_slice());

    buffer.write(0, 9);
    assert_eq!([1u64, 2, 3], source);
    assert_eq!(vec![9u64, 2, 3], buffer.as_slice());
    buffer.destroy(&mut allocator).unwrap();
}

#[test]
fn uninitialized_write_read_round_trip() {
    let mut allocator = PinnedAllocator::new();
    let mut buffer = LockedBuffer::<u32>::uninitialized(&mut allocator, 3).unwrap();
    buffer.write(0, 5);
    buffer.write(1, 6);
    buffer.write(2, 7);
    assert_eq!(5, buffer.read(0));
    assert_eq!(6, buffer.read(1));
    assert_eq!(7, buffer.read(2));
    assert_eq!(vec![5u32, 6, 7], buffer.as_slice());
    buffer.destroy(&mut allocator).unwrap();

    let empty = LockedBuffer::<u32>::uninitialized(&mut allocator, 0).unwrap();
    assert_eq!(0, empty.len());
    assert_eq!(Vec::<u32>::new(), empty.as_slice());
    empty.destroy(&mut allocator).unwrap();
}

#[test]
fn overflow_makes_no_driver_call() {
    let mut allocator = PinnedAllocator::new();
    let err = LockedBuffer::new(&mut allocator, &0u64, usize::MAX - 1).unwrap_err();
    assert_eq!(MemoryError::InvalidAllocationSize, err);
    assert_eq!(0, allocator.alloc_calls);

    let err = LockedBuffer::<u64>::uninitialized(&mut allocator, usize::MAX / 2).unwrap_err();
    assert_eq!(MemoryError::InvalidAllocationSize, err);
    assert_eq!(0, allocator.alloc_calls);
}

#[test]
fn zero_byte_buffers_skip_the_allocator() {
    let mut allocator = PinnedAllocator::new();
    let buffer = LockedBuffer::new(&mut allocator, &0u64, 0).unwrap();
    buffer.destroy(&mut allocator).unwrap();
    assert_eq!(0, allocator.alloc_calls);
    assert_eq!(0, allocator.free_calls);

    let buffer = LockedBuffer::new(&mut allocator, &Marker, 10).unwrap();
    assert_eq!(10, buffer.len());
    assert_eq!(Marker, buffer.read(3));
    buffer.destroy(&mut allocator).unwrap();
    assert_eq!(0, allocator.alloc_calls);
    assert_eq!(0, allocator.free_calls);
}

#[test]
fn raw_parts_round_trip_frees_exactly_once() {
    let mut allocator = PinnedAllocator::new();
    let mut buffer = LockedBuffer::new(&mut allocator, &0u64, 5).unwrap();
    buffer.write(2, 1);
    assert_eq!(1, allocator.alloc_calls);

    let (parts, len) = buffer.into_raw_parts();
    assert_eq!(5, len);
    let rebuilt = LockedBuffer::from_raw_parts(parts, len);
    assert_eq!(vec![0u64, 0, 1, 0, 0], rebuilt.as_slice());

    rebuilt.destroy(&mut allocator).unwrap();
    assert_eq!(1, allocator.alloc_calls);
    assert_eq!(1, allocator.free_calls);
}

#[test]
fn rebuild_preserves_contents() {
    let mut allocator = PinnedAllocator::new();
    let buffer = LockedBuffer::from_slice(&mut allocator, &[4u8, 5, 6]).unwrap();
    let rebuilt = buffer.rebuild();
    assert_eq!(vec![4u8, 5, 6], rebuilt.as_slice());
    rebuilt.destroy(&mut allocator).unwrap();
    assert_eq!(1, allocator.free_calls);
}

#[test]
fn overwrite_index_two() {
    let mut allocator = PinnedAllocator::new();
    let mut buffer = LockedBuffer::new(&mut allocator, &0u64, 5).unwrap();
    buffer.write(2, 1u64);
    assert_eq!(vec![0u64, 0, 1, 0, 0], buffer.as_slice());
    buffer.destroy(&mut allocator).unwrap();
}

#[test]
fn empty_from_slice_destruction_is_a_noop() {
    let mut allocator = PinnedAllocator::new();
    let buffer = LockedBuffer::<u64>::from_slice(&mut allocator, &[]).unwrap();
    assert_eq!(0, buffer.len());
    buffer.destroy(&mut allocator).unwrap();
    assert_eq!(0, allocator.alloc_calls);
    assert_eq!(0, allocator.free_calls);
}

#[test]
fn driver_allocation_failure_is_propagated() {
    let mut allocator = PinnedAllocator::new();
    allocator.fail_next_allocation = true;
    let err = LockedBuffer::new(&mut allocator, &1u8, 4).unwrap_err();
    assert_eq!(MemoryError::DriverAllocationFailure, err);
    assert_eq!(1, allocator.alloc_calls);

    let buffer = LockedBuffer::new(&mut allocator, &1u8, 4).unwrap();
    assert_eq!(2, allocator.alloc_calls);
    buffer.destroy(&mut allocator).unwrap();
}

#[test]
fn deallocation_failure_is_unrecoverable() {
    let mut allocator = PinnedAllocator::new();
    let buffer = LockedBuffer::new(&mut allocator, &2u16, 3).unwrap();
    allocator.fail_next_deallocation = true;
    let err = buffer.destroy(&mut allocator).unwrap_err();
    assert_eq!(MemoryError::UnrecoverableDeallocationFailure, err);
    assert_eq!(1, allocator.free_calls);
}

#[test]
fn out_of_bounds_access_is_rejected() {
    let mut allocator = PinnedAllocator::new();
    let mut buffer = LockedBuffer::new(&mut allocator, &8i32, 2).unwrap();
    assert_eq!(Err(MemoryError::OutOfBoundsAccess), buffer.try_read(2));
    assert_eq!(Err(MemoryError::OutOfBoundsAccess), buffer.try_write(5, 1));
    assert_eq!(Ok(8i32), buffer.try_read(1));
    assert_eq!(Ok(()), buffer.try_write(1, 9));
    assert_eq!(Ok(9i32), buffer.try_read(1));
    buffer.destroy(&mut allocator).unwrap();
}
