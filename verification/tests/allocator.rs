use ash::vk;
use render_core::allocator::{
    find_memory_type, AllocationError, Allocator, MemoryLocation, MemoryRequirements, MemoryType, Placement,
    MEMORY_DEVICE_LOCAL, MEMORY_HOST_COHERENT, MEMORY_HOST_VISIBLE,
};

const HOST: u32 = MEMORY_HOST_VISIBLE | MEMORY_HOST_COHERENT;

fn types() -> Vec<MemoryType> {
    vec![
        MemoryType { property_flags: MEMORY_DEVICE_LOCAL, heap_index: 0 },
        MemoryType { property_flags: MEMORY_HOST_VISIBLE, heap_index: 1 },
        MemoryType { property_flags: HOST, heap_index: 1 },
        MemoryType { property_flags: HOST | MEMORY_DEVICE_LOCAL, heap_index: 0 },
    ]
}

fn request(size: u64, alignment: u64, memory_type_bits: u32) -> MemoryRequirements {
    MemoryRequirements { size, alignment, memory_type_bits }
}

#[test]
fn memory_flag_constants_are_those_of_ash() {
    assert_eq!(MEMORY_DEVICE_LOCAL, vk::MemoryPropertyFlags::DEVICE_LOCAL.as_raw());
    assert_eq!(MEMORY_HOST_VISIBLE, vk::MemoryPropertyFlags::HOST_VISIBLE.as_raw());
    assert_eq!(MEMORY_HOST_COHERENT, vk::MemoryPropertyFlags::HOST_COHERENT.as_raw());
}

#[test]
fn locations_ask_for_their_property_flags() {
    assert_eq!(MemoryLocation::GpuOnly.flags(), 0x1);
    assert_eq!(MemoryLocation::CpuToGpu.flags(), 0x6);
    assert!(!MemoryLocation::GpuOnly.is_host_visible());
    assert!(MemoryLocation::CpuToGpu.is_host_visible());
}

#[test]
fn first_matching_memory_type_wins() {
    assert_eq!(find_memory_type(&types(), 0b1111, HOST), Some(2));
    assert_eq!(find_memory_type(&types(), 0b1111, MEMORY_DEVICE_LOCAL), Some(0));
    assert_eq!(find_memory_type(&types(), 0b1111, MEMORY_HOST_VISIBLE), Some(1));
}

#[test]
fn type_filter_excludes_memory_types() {
    assert_eq!(find_memory_type(&types(), 0b1000, HOST), Some(3));
    assert_eq!(find_memory_type(&types(), 0b1010, MEMORY_DEVICE_LOCAL), Some(3));
    assert_eq!(find_memory_type(&types(), 0b0011, HOST), None);
    assert_eq!(find_memory_type(&types(), 0, MEMORY_DEVICE_LOCAL), None);
    assert_eq!(find_memory_type(&[], 0b1, MEMORY_DEVICE_LOCAL), None);
}

#[test]
fn chosen_memory_type_has_every_requested_flag() {
    let mut allocator = Allocator::new(types(), 1024);
    let a = allocator.allocate(&request(16, 4, 0b1111), MemoryLocation::CpuToGpu).unwrap();
    let chosen = allocator.memory_types()[a.memory_type() as usize];
    assert_eq!(chosen.property_flags & HOST, HOST);
    assert_eq!(a.memory_type(), 2);
    assert!(a.is_mapped());
    let b = allocator.allocate(&request(16, 4, 0b1111), MemoryLocation::GpuOnly).unwrap();
    assert_eq!(b.memory_type(), 0);
    assert!(!b.is_mapped());
}

#[test]
fn unsatisfiable_filter_is_no_suitable_memory_type() {
    let mut allocator = Allocator::new(types(), 1024);
    let r = allocator.allocate(&request(16, 4, 0b0001), MemoryLocation::CpuToGpu);
    assert_eq!(r.err(), Some(AllocationError::NoSuitableMemoryType));
    assert_eq!(allocator.used_in(0), 0);
}

#[test]
fn request_larger_than_the_arena_is_out_of_memory() {
    let mut allocator = Allocator::new(types(), 1024);
    let r = allocator.allocate(&request(1025, 1, 0b1111), MemoryLocation::GpuOnly);
    assert_eq!(r.err(), Some(AllocationError::OutOfMemory));
    assert!(allocator.allocate(&request(1024, 1, 0b1111), MemoryLocation::GpuOnly).is_ok());
    let full = allocator.allocate(&request(1, 1, 0b1111), MemoryLocation::GpuOnly);
    assert_eq!(full.err(), Some(AllocationError::OutOfMemory));
}

#[test]
fn huge_request_does_not_overflow() {
    let mut allocator = Allocator::new(types(), u64::MAX);
    let first = allocator.allocate(&request(u64::MAX - 1, 1, 0b1), MemoryLocation::GpuOnly).unwrap();
    assert_eq!(first.offset(), 0);
    let second = allocator.allocate(&request(8, 8, 0b1), MemoryLocation::GpuOnly);
    assert_eq!(second.err(), Some(AllocationError::OutOfMemory));
}

#[test]
fn empty_or_misaligned_request_is_invalid() {
    let mut allocator = Allocator::new(types(), 1024);
    assert_eq!(
        allocator.allocate(&request(0, 4, 0b1111), MemoryLocation::GpuOnly).err(),
        Some(AllocationError::InvalidRequest)
    );
    assert_eq!(
        allocator.allocate(&request(16, 0, 0b1111), MemoryLocation::GpuOnly).err(),
        Some(AllocationError::InvalidRequest)
    );
    assert_eq!(
        allocator.allocate(&request(16, 12, 0b1111), MemoryLocation::GpuOnly).err(),
        Some(AllocationError::InvalidRequest)
    );
    assert_eq!(
        allocator.allocate(&request(0, 4, 0), MemoryLocation::GpuOnly).err(),
        Some(AllocationError::InvalidRequest)
    );
}

#[test]
fn allocations_are_placed_first_fit_and_aligned() {
    let mut allocator = Allocator::new(types(), 1024);
    let a = allocator.allocate(&request(10, 1, 0b1), MemoryLocation::GpuOnly).unwrap();
    let b = allocator.allocate(&request(100, 64, 0b1), MemoryLocation::GpuOnly).unwrap();
    let c = allocator.allocate(&request(20, 16, 0b1), MemoryLocation::GpuOnly).unwrap();
    assert_eq!(
        a.placement(),
        Placement { memory_type: 0, offset: 0, size: 10, mapped: false }
    );
    assert_eq!(b.offset(), 64);
    assert_eq!(b.size(), 100);
    assert_eq!(c.offset(), 16);
    let d = allocator.allocate(&request(20, 16, 0b1), MemoryLocation::GpuOnly).unwrap();
    assert_eq!(d.offset(), 176);
    let e = allocator.allocate(&request(12, 4, 0b1), MemoryLocation::GpuOnly).unwrap();
    assert_eq!(e.offset(), 36);
    let f = allocator.allocate(&request(20, 16, 0b1), MemoryLocation::GpuOnly).unwrap();
    assert_eq!(f.offset(), 208);
    assert_eq!(allocator.used_in(0), 182);
}

#[test]
fn freed_range_is_used_again() {
    let mut allocator = Allocator::new(types(), 256);
    let a = allocator.allocate(&request(64, 64, 0b1), MemoryLocation::GpuOnly).unwrap();
    let b = allocator.allocate(&request(64, 64, 0b1), MemoryLocation::GpuOnly).unwrap();
    let c = allocator.allocate(&request(64, 64, 0b1), MemoryLocation::GpuOnly).unwrap();
    assert_eq!((a.offset(), b.offset(), c.offset()), (0, 64, 128));
    assert_eq!(allocator.free(b), Ok(()));
    assert_eq!(allocator.used_in(0), 128);
    let too_big = allocator.allocate(&request(128, 64, 0b1), MemoryLocation::GpuOnly);
    assert_eq!(too_big.err(), Some(AllocationError::OutOfMemory));
    let again = allocator.allocate(&request(32, 32, 0b1), MemoryLocation::GpuOnly).unwrap();
    assert_eq!(again.offset(), 64);
    assert_eq!(allocator.free(a), Ok(()));
    assert_eq!(allocator.free(c), Ok(()));
    assert_eq!(allocator.used_in(0), 32);
}

#[test]
fn allocate_free_allocate_returns_to_baseline() {
    let mut allocator = Allocator::new(types(), 4096);
    let keep = allocator.allocate(&request(100, 4, 0b1111), MemoryLocation::CpuToGpu).unwrap();
    let baseline = allocator.used_in(2);
    assert_eq!(baseline, 100);
    let first = allocator.allocate(&request(512, 256, 0b1111), MemoryLocation::CpuToGpu).unwrap();
    let first_offset = first.offset();
    assert_eq!(allocator.used_in(2), 612);
    assert_eq!(allocator.free(first), Ok(()));
    assert_eq!(allocator.used_in(2), baseline);
    let second = allocator.allocate(&request(512, 256, 0b1111), MemoryLocation::CpuToGpu).unwrap();
    assert_eq!(second.offset(), first_offset);
    assert_eq!(allocator.used_in(2), 612);
    assert_eq!(allocator.free(second), Ok(()));
    assert_eq!(allocator.free(keep), Ok(()));
    assert_eq!(allocator.used_in(2), 0);
}

#[test]
fn arenas_of_memory_types_are_separate() {
    let mut allocator = Allocator::new(types(), 128);
    let device = allocator.allocate(&request(128, 1, 0b1111), MemoryLocation::GpuOnly).unwrap();
    let host = allocator.allocate(&request(128, 1, 0b1111), MemoryLocation::CpuToGpu).unwrap();
    assert_eq!((device.memory_type(), device.offset()), (0, 0));
    assert_eq!((host.memory_type(), host.offset()), (2, 0));
    assert_eq!(allocator.used_in(0), 128);
    assert_eq!(allocator.used_in(1), 0);
    assert_eq!(allocator.used_in(2), 128);
    assert_eq!(allocator.used_in(9), 0);
}

#[test]
fn allocation_of_another_allocator_is_unknown() {
    let mut one = Allocator::new(types(), 1024);
    let mut other = Allocator::new(types(), 1024);
    let a = one.allocate(&request(16, 16, 0b1), MemoryLocation::GpuOnly).unwrap();
    assert_eq!(other.free(a), Err(AllocationError::UnknownAllocation));
    assert_eq!(one.used_in(0), 16);
    assert_eq!(other.used_in(0), 0);
}

#[test]
fn allocation_of_a_smaller_device_is_unknown() {
    let mut wide = Allocator::new(types(), 1024);
    let mut narrow = Allocator::new(vec![MemoryType { property_flags: MEMORY_DEVICE_LOCAL, heap_index: 0 }], 1024);
    let a = wide.allocate(&request(16, 16, 0b1000), MemoryLocation::GpuOnly).unwrap();
    assert_eq!(a.memory_type(), 3);
    assert_eq!(narrow.free(a), Err(AllocationError::UnknownAllocation));
}

#[test]
fn only_the_first_thirty_two_memory_types_can_be_named() {
    let mut many = vec![MemoryType { property_flags: 0, heap_index: 0 }; 40];
    many[35] = MemoryType { property_flags: MEMORY_DEVICE_LOCAL, heap_index: 0 };
    assert_eq!(find_memory_type(&many, u32::MAX, MEMORY_DEVICE_LOCAL), None);
    many[31] = MemoryType { property_flags: MEMORY_DEVICE_LOCAL, heap_index: 0 };
    assert_eq!(find_memory_type(&many, u32::MAX, MEMORY_DEVICE_LOCAL), Some(31));
    assert_eq!(find_memory_type(&many, 0x7fff_ffff, MEMORY_DEVICE_LOCAL), None);
}

#[test]
fn memory_type_matches_when_it_has_every_requested_flag() {
    for flags in 0u32..64 {
        for required in 0u32..64 {
            let types = [MemoryType { property_flags: flags, heap_index: 0 }];
            let expected = if flags & required == required { Some(0) } else { None };
            assert_eq!(find_memory_type(&types, 1, required), expected);
        }
    }
    let all = [MemoryType { property_flags: u32::MAX, heap_index: 0 }];
    assert_eq!(find_memory_type(&all, 1, 0x8000_0010), Some(0));
    let most = [MemoryType { property_flags: 0x7fff_ffff, heap_index: 0 }];
    assert_eq!(find_memory_type(&most, 1, 0x8000_0010), None);
}
