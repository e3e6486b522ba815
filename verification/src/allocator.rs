//! Placement of resources in device memory.
//!
//! The allocator keeps one arena per memory type of the device. A request
//! names the types the resource accepts and where the memory must live;
//! the first type that fits is taken, and the resource is placed at the
//! lowest aligned offset of that type's arena that is free.

use ash::vk;
use vstd::prelude::*;

verus! {

/// Bit of `VkMemoryPropertyFlags`: memory that lives on the device.
pub const MEMORY_DEVICE_LOCAL: u32 = 0x1;

/// Bit of `VkMemoryPropertyFlags`: memory the host can map.
pub const MEMORY_HOST_VISIBLE: u32 = 0x2;

/// Bit of `VkMemoryPropertyFlags`: host writes need no explicit flush.
pub const MEMORY_HOST_COHERENT: u32 = 0x4;

/// Number of bits in a memory type mask.
pub const MEMORY_TYPE_BITS: usize = 32;

/// One memory type of the device.
#[derive(Clone, Copy, Debug, PartialEq, Eq, Structural)]
pub struct MemoryType {
    /// Raw `VkMemoryPropertyFlags` of the type.
    pub property_flags: u32,
    pub heap_index: u32,
}

/// What a resource asks of the memory it is bound to.
#[derive(Clone, Copy, Debug, PartialEq, Eq, Structural)]
pub struct MemoryRequirements {
    pub size: u64,
    pub alignment: u64,
    /// Bit `i` is set when memory type `i` is acceptable.
    pub memory_type_bits: u32,
}

/// A buffer or image the caller has created and not yet bound to
/// memory, with what the driver says it needs.
#[derive(Clone, Copy, Debug, PartialEq, Eq, Structural)]
pub struct Unbound {
    /// Raw handle of the buffer or image.
    pub handle: u64,
    pub requirements: MemoryRequirements,
}

/// Where the memory of a resource must live.
#[derive(Clone, Copy, Debug, PartialEq, Eq, Structural)]
pub enum MemoryLocation {
    /// Device-local memory, for data the GPU alone touches.
    GpuOnly,
    /// Host-visible, host-coherent memory, for data the CPU rewrites.
    CpuToGpu,
}

/// Why a request to the allocator failed.
#[derive(Clone, Copy, Debug, PartialEq, Eq, Structural)]
pub enum AllocationError {
    /// The arena of the chosen memory type has no free range that fits.
    OutOfMemory,
    /// No memory type is both acceptable to the resource and of the
    /// requested location.
    NoSuitableMemoryType,
    /// The size is zero or the alignment is not a power of two.
    InvalidRequest,
    /// The allocation is not live in this allocator.
    UnknownAllocation,
}

/// A range of bytes of an arena that is in use.
#[derive(Clone, Copy, Debug, PartialEq, Eq, Structural)]
pub struct Region {
    pub offset: u64,
    pub size: u64,
}

/// Where an allocation lies.
#[derive(Clone, Copy, Debug, PartialEq, Eq, Structural)]
pub struct Placement {
    /// Index of the memory type whose arena holds the allocation.
    pub memory_type: u32,
    pub offset: u64,
    pub size: u64,
    /// The host can write the allocation through the arena's mapping.
    pub mapped: bool,
}

/// A live range of device memory. It is handed out by
/// [`Allocator::allocate`] and given back, once, to [`Allocator::free`];
/// it cannot be copied.
#[derive(Debug)]
pub struct Allocation {
    placement: Placement,
}

/// The ranges in use of one arena, in ascending order.
pub struct ArenaState {
    pub capacity: nat,
    pub regions: Seq<Region>,
}

/// The allocator as contracts see it.
pub struct AllocatorState {
    pub memory_types: Seq<MemoryType>,
    pub arenas: Seq<ArenaState>,
}

#[derive(Debug)]
struct Arena {
    capacity: u64,
    regions: Vec<Region>,
}

/// The device memory arena.
#[derive(Debug)]
pub struct Allocator {
    memory_types: Vec<MemoryType>,
    arenas: Vec<Arena>,
}

/// `ash::vk::MemoryPropertyFlags::contains` on raw flag words: true
/// exactly when every bit of `wanted` is set in `flags`. The contract
/// restates the method's one-line body; Verus does not check it.
#[verifier::external_body]
fn memory_flags_contain(flags: u32, wanted: u32) -> (r: bool)
    ensures
        r == (flags & wanted == wanted),
{
    vk::MemoryPropertyFlags::from_raw(flags).contains(vk::MemoryPropertyFlags::from_raw(wanted))
}

/// The least multiple of `alignment` that is not below `offset`.
pub open spec fn align_up(offset: int, alignment: int) -> int {
    if alignment <= 1 || offset % alignment == 0 {
        offset
    } else {
        offset + (alignment - offset % alignment)
    }
}

/// `align_up` rounds up, by less than one alignment, to a multiple.
pub proof fn lemma_align_up(offset: int, alignment: int)
    requires
        offset >= 0,
        alignment >= 1,
    ensures
        offset <= align_up(offset, alignment) < offset + alignment,
        align_up(offset, alignment) % alignment == 0,
{
    if alignment > 1 && offset % alignment != 0 {
        vstd::arithmetic::div_mod::lemma_fundamental_div_mod(offset, alignment);
        let q = offset / alignment;
        assert(offset + (alignment - offset % alignment) == (q + 1) * alignment) by (nonlinear_arith)
            requires
                offset == alignment * q + offset % alignment,
        ;
        vstd::arithmetic::div_mod::lemma_mod_multiples_basic(q + 1, alignment);
    }
}

/// A power of two, the only kind of alignment a device reports.
pub open spec fn is_power_of_two(a: u64) -> bool {
    a != 0 && a & ((a - 1) as u64) == 0
}

/// Bit `index` of the mask `type_bits` is set.
pub open spec fn type_allowed(type_bits: u32, index: int) -> bool {
    0 <= index < 32 && type_bits & (1u32 << (index as u32)) != 0
}

/// Memory type `index` is acceptable to the resource and has every
/// property of `required`.
pub open spec fn type_matches(types: Seq<MemoryType>, index: int, type_bits: u32, required: u32) -> bool {
    &&& 0 <= index < types.len()
    &&& type_allowed(type_bits, index)
    &&& types[index].property_flags & required == required
}

/// `index` is the first memory type that matches.
pub open spec fn is_first_match(types: Seq<MemoryType>, index: int, type_bits: u32, required: u32) -> bool {
    &&& type_matches(types, index, type_bits, required)
    &&& forall|j: int| 0 <= j < index ==> !type_matches(types, j, type_bits, required)
}

/// The first memory type that matches, if there is one.
pub open spec fn first_match(types: Seq<MemoryType>, type_bits: u32, required: u32) -> Option<int> {
    if exists|i: int| is_first_match(types, i, type_bits, required) {
        Some(choose|i: int| is_first_match(types, i, type_bits, required))
    } else {
        None
    }
}

/// Walks the memory types in index order and returns the first whose bit
/// is set in `type_bits` and whose properties include all of `required`.
pub fn find_memory_type(types: &[MemoryType], type_bits: u32, required: u32) -> (r: Option<u32>)
    ensures
        match r {
            Some(t) => first_match(types@, type_bits, required) == Some(t as int),
            None => first_match(types@, type_bits, required) is None,
        },
        r matches Some(t) ==> is_first_match(types@, t as int, type_bits, required),
        r is None ==> forall|j: int| !type_matches(types@, j, type_bits, required),
{
    let mut i: usize = 0;
    while i < types.len() && i < MEMORY_TYPE_BITS
        invariant
            0 <= i <= types.len(),
            i <= 32,
            forall|j: int| 0 <= j < i ==> !type_matches(types@, j, type_bits, required),
        decreases types.len() - i,
    {
        let bit: u32 = 1u32 << (i as u32);
        if type_bits & bit != 0 && memory_flags_contain(types[i].property_flags, required) {
            assert(is_first_match(types@, i as int, type_bits, required));
            proof {
                let c = choose|c: int| is_first_match(types@, c, type_bits, required);
                assert(c == i);
            }
            return Some(i as u32);
        }
        i += 1;
    }
    assert forall|j: int| !type_matches(types@, j, type_bits, required) by {
        if 0 <= j < types.len() && j < 32 {
            assert(j < i);
        }
    }
    None
}

impl MemoryLocation {
    /// The property bits a memory type must have for this location.
    pub open spec fn required_flags(self) -> u32 {
        match self {
            MemoryLocation::GpuOnly => MEMORY_DEVICE_LOCAL,
            MemoryLocation::CpuToGpu => MEMORY_HOST_VISIBLE | MEMORY_HOST_COHERENT,
        }
    }

    /// Allocations of this location are mapped for the host.
    pub open spec fn host_visible(self) -> bool {
        self == MemoryLocation::CpuToGpu
    }

    pub fn flags(&self) -> (r: u32)
        ensures
            r == self.required_flags(),
    {
        match self {
            MemoryLocation::GpuOnly => MEMORY_DEVICE_LOCAL,
            MemoryLocation::CpuToGpu => MEMORY_HOST_VISIBLE | MEMORY_HOST_COHERENT,
        }
    }

    pub fn is_host_visible(&self) -> (r: bool)
        ensures
            r == self.host_visible(),
    {
        match self {
            MemoryLocation::GpuOnly => false,
            MemoryLocation::CpuToGpu => true,
        }
    }
}

impl Region {
    /// One past the last byte of the region.
    pub open spec fn end(self) -> int {
        self.offset + self.size
    }

    /// The two regions share no byte.
    pub open spec fn disjoint(self, other: Region) -> bool {
        self.end() <= other.offset || other.end() <= self.offset
    }
}

impl Placement {
    /// The bytes the allocation covers.
    pub open spec fn region(self) -> Region {
        Region { offset: self.offset, size: self.size }
    }
}

/// Sum of the sizes of `regions`.
pub open spec fn total_size(regions: Seq<Region>) -> nat
    decreases regions.len(),
{
    if regions.len() == 0 {
        0
    } else {
        total_size(regions.drop_last()) + regions.last().size as nat
    }
}

/// First-fit search from region `from` on, with everything below
/// `cursor` taken: the index at which the new region enters the list, and
/// its offset.
pub open spec fn first_fit(
    regions: Seq<Region>,
    from: int,
    cursor: int,
    size: int,
    alignment: int,
    capacity: int,
) -> Option<(int, int)>
    decreases regions.len() - from,
{
    let start = align_up(cursor, alignment);
    if from >= regions.len() {
        if start + size <= capacity {
            Some((from, start))
        } else {
            None
        }
    } else if start + size <= regions[from].offset {
        Some((from, start))
    } else {
        first_fit(regions, from + 1, regions[from].end(), size, alignment, capacity)
    }
}

impl ArenaState {
    /// No region is empty or leaves the arena, and each ends before the
    /// next begins.
    pub open spec fn wf(self) -> bool {
        &&& self.capacity <= u64::MAX
        &&& forall|i: int|
            0 <= i < self.regions.len() ==> (#[trigger] self.regions[i]).size > 0 && self.regions[i].end()
                <= self.capacity
        &&& forall|i: int, j: int|
            0 <= i < j < self.regions.len() ==> (#[trigger] self.regions[i]).end() <= (
            #[trigger] self.regions[j]).offset
    }

    /// Bytes in use.
    pub open spec fn used(self) -> nat {
        total_size(self.regions)
    }

    /// Where a request is placed: list index and offset of the lowest
    /// aligned free range that fits.
    pub open spec fn placement(self, size: int, alignment: int) -> Option<(int, int)> {
        first_fit(self.regions, 0, 0, size, alignment, self.capacity as int)
    }

    /// The arena once the request has been placed; unchanged when it
    /// does not fit.
    pub open spec fn after_allocate(self, size: u64, alignment: u64) -> ArenaState {
        match self.placement(size as int, alignment as int) {
            Some((index, offset)) => ArenaState {
                capacity: self.capacity,
                regions: self.regions.insert(index, Region { offset: offset as u64, size }),
            },
            None => self,
        }
    }

    /// The region is in use.
    pub open spec fn holds(self, region: Region) -> bool {
        self.regions.contains(region)
    }

    /// The arena once the region has been released; unchanged when the
    /// region is not in use.
    pub open spec fn after_free(self, region: Region) -> ArenaState {
        if self.holds(region) {
            ArenaState { capacity: self.capacity, regions: self.regions.remove(self.regions.index_of(region)) }
        } else {
            self
        }
    }
}

/// In a well-formed arena a region in use occurs once.
pub proof fn lemma_region_unique(arena: ArenaState, i: int, j: int)
    requires
        arena.wf(),
        0 <= i < arena.regions.len(),
        0 <= j < arena.regions.len(),
        arena.regions[i].offset == arena.regions[j].offset,
    ensures
        i == j,
{
    if i < j {
        assert(arena.regions[i].end() <= arena.regions[j].offset);
    } else if j < i {
        assert(arena.regions[j].end() <= arena.regions[i].offset);
    }
}

/// The regions in use of a well-formed arena add up to no more than the
/// end of the last one.
pub proof fn lemma_used_bounded(arena: ArenaState)
    requires
        arena.wf(),
    ensures
        arena.regions.len() > 0 ==> arena.used() <= arena.regions.last().end(),
        arena.used() <= arena.capacity,
    decreases arena.regions.len(),
{
    if arena.regions.len() > 0 {
        let rest = ArenaState { capacity: arena.capacity, regions: arena.regions.drop_last() };
        assert forall|i: int| 0 <= i < rest.regions.len() implies (#[trigger] rest.regions[i]).size > 0
            && rest.regions[i].end() <= rest.capacity by {
            assert(rest.regions[i] == arena.regions[i]);
        }
        assert forall|i: int, j: int| 0 <= i < j < rest.regions.len() implies (
        #[trigger] rest.regions[i]).end() <= (#[trigger] rest.regions[j]).offset by {
            assert(rest.regions[i] == arena.regions[i]);
            assert(rest.regions[j] == arena.regions[j]);
        }
        lemma_used_bounded(rest);
        if rest.regions.len() > 0 {
            let n = arena.regions.len() - 1;
            assert(rest.regions.last() == arena.regions[n - 1]);
            assert(arena.regions[n - 1].end() <= arena.regions[n].offset);
        }
    }
}

/// What a search started at `from` finds lies at or after `from`, is
/// aligned, starts at or after `cursor`, and ends before the region it
/// is placed in front of, or before the end of the arena.
pub proof fn lemma_first_fit(
    regions: Seq<Region>,
    from: int,
    cursor: int,
    size: int,
    alignment: int,
    capacity: int,
)
    requires
        0 <= from <= regions.len(),
        cursor >= 0,
        alignment >= 1,
        forall|i: int| 0 <= i < regions.len() ==> (#[trigger] regions[i]).end() <= capacity,
        forall|i: int, j: int|
            0 <= i < j < regions.len() ==> (#[trigger] regions[i]).end() <= (#[trigger] regions[j]).offset,
        from > 0 ==> cursor == regions[from - 1].end(),
    ensures
        first_fit(regions, from, cursor, size, alignment, capacity) matches Some((index, offset)) ==> {
            &&& from <= index <= regions.len()
            &&& offset % alignment == 0
            &&& offset + size <= capacity
            &&& index > 0 ==> regions[index - 1].end() <= offset
            &&& index == 0 ==> 0 <= offset
            &&& index < regions.len() ==> offset + size <= regions[index].offset
        },
    decreases regions.len() - from,
{
    lemma_align_up(cursor, alignment);
    let start = align_up(cursor, alignment);
    if from >= regions.len() {
    } else if start + size <= regions[from].offset {
        assert(regions[from].end() <= capacity);
    } else {
        lemma_first_fit(regions, from + 1, regions[from].end(), size, alignment, capacity);
    }
}

/// Placing a request keeps the arena well formed, puts the new region
/// clear of every region that was in use, and adds its size to the bytes
/// in use.
pub proof fn lemma_allocate_sound(arena: ArenaState, size: u64, alignment: u64)
    requires
        arena.wf(),
        size > 0,
        alignment >= 1,
    ensures
        arena.after_allocate(size, alignment).wf(),
        arena.placement(size as int, alignment as int) matches Some((index, offset)) ==> {
            &&& 0 <= index <= arena.regions.len()
            &&& 0 <= offset
            &&& offset % (alignment as int) == 0
            &&& offset + size <= arena.capacity
            &&& forall|i: int|
                0 <= i < arena.regions.len() ==> (#[trigger] arena.regions[i]).disjoint(
                    Region { offset: offset as u64, size },
                )
            &&& arena.after_allocate(size, alignment).used() == arena.used() + size
            &&& arena.after_allocate(size, alignment).holds(Region { offset: offset as u64, size })
        },
{
    lemma_first_fit(arena.regions, 0, 0, size as int, alignment as int, arena.capacity as int);
    match arena.placement(size as int, alignment as int) {
        Some((index, offset)) => {
            let region = Region { offset: offset as u64, size };
            let after = arena.after_allocate(size, alignment);
            assert(after.regions == arena.regions.insert(index, region));
            assert forall|i: int| 0 <= i < arena.regions.len() implies (#[trigger] arena.regions[i]).disjoint(
                region,
            ) by {
                if i < index {
                    if i < index - 1 {
                        assert(arena.regions[i].end() <= arena.regions[index - 1].offset);
                    }
                } else {
                    if index < i {
                        assert(arena.regions[index].end() <= arena.regions[i].offset);
                    }
                }
            }
            assert forall|i: int| 0 <= i < after.regions.len() implies (#[trigger] after.regions[i]).size > 0
                && after.regions[i].end() <= after.capacity by {
                if i < index {
                    assert(after.regions[i] == arena.regions[i]);
                } else if i > index {
                    assert(after.regions[i] == arena.regions[i - 1]);
                }
            }
            assert forall|i: int, j: int| 0 <= i < j < after.regions.len() implies (
            #[trigger] after.regions[i]).end() <= (#[trigger] after.regions[j]).offset by {
                let a = if i < index {
                    i
                } else {
                    i - 1
                };
                let b = if j < index {
                    j
                } else {
                    j - 1
                };
                if i != index {
                    assert(after.regions[i] == arena.regions[a]);
                    assert(arena.regions[a].disjoint(region));
                }
                if j != index {
                    assert(after.regions[j] == arena.regions[b]);
                    assert(arena.regions[b].disjoint(region));
                }
                if i != index && j != index {
                    assert(arena.regions[a].end() <= arena.regions[b].offset);
                }
            }
            lemma_total_insert(arena.regions, index, region);
            assert(after.regions[index] == region);
        },
        None => {},
    }
}

/// Inserting a region adds its size to the total.
pub proof fn lemma_total_insert(regions: Seq<Region>, index: int, region: Region)
    requires
        0 <= index <= regions.len(),
    ensures
        total_size(regions.insert(index, region)) == total_size(regions) + region.size,
    decreases regions.len(),
{
    let after = regions.insert(index, region);
    if index == regions.len() {
        assert(after.drop_last() =~= regions);
        assert(after.last() == region);
    } else {
        assert(after.drop_last() =~= regions.drop_last().insert(index, region));
        assert(after.last() == regions.last());
        lemma_total_insert(regions.drop_last(), index, region);
    }
}

/// Removing a region takes its size off the total.
pub proof fn lemma_total_remove(regions: Seq<Region>, index: int)
    requires
        0 <= index < regions.len(),
    ensures
        total_size(regions.remove(index)) + regions[index].size == total_size(regions),
    decreases regions.len(),
{
    let after = regions.remove(index);
    if index == regions.len() - 1 {
        assert(after =~= regions.drop_last());
    } else {
        assert(after.drop_last() =~= regions.drop_last().remove(index));
        assert(after.last() == regions.last());
        lemma_total_remove(regions.drop_last(), index);
    }
}

/// Releasing a region keeps the arena well formed and takes its size off
/// the bytes in use.
pub proof fn lemma_free_sound(arena: ArenaState, region: Region)
    requires
        arena.wf(),
    ensures
        arena.after_free(region).wf(),
        arena.holds(region) ==> arena.after_free(region).used() + region.size == arena.used(),
        !arena.after_free(region).holds(region),
{
    if arena.holds(region) {
        let index = arena.regions.index_of(region);
        let after = arena.after_free(region);
        assert(after.regions == arena.regions.remove(index));
        assert forall|i: int| 0 <= i < after.regions.len() implies (#[trigger] after.regions[i]).size > 0
            && after.regions[i].end() <= after.capacity by {
            if i < index {
                assert(after.regions[i] == arena.regions[i]);
            } else {
                assert(after.regions[i] == arena.regions[i + 1]);
            }
        }
        assert forall|i: int, j: int| 0 <= i < j < after.regions.len() implies (
        #[trigger] after.regions[i]).end() <= (#[trigger] after.regions[j]).offset by {
            let a = if i < index {
                i
            } else {
                i + 1
            };
            let b = if j < index {
                j
            } else {
                j + 1
            };
            assert(after.regions[i] == arena.regions[a]);
            assert(after.regions[j] == arena.regions[b]);
            assert(arena.regions[a].end() <= arena.regions[b].offset);
        }
        lemma_total_remove(arena.regions, index);
        if after.holds(region) {
            let k = choose|k: int| 0 <= k < after.regions.len() && after.regions[k] == region;
            let orig = if k < index {
                k
            } else {
                k + 1
            };
            assert(after.regions[k] == arena.regions[orig]);
            lemma_region_unique(arena, orig, index);
        }
    }
}

/// Placing a request and releasing what was placed leaves the arena as
/// it was.
pub proof fn lemma_allocate_then_free(arena: ArenaState, size: u64, alignment: u64)
    requires
        arena.wf(),
        size > 0,
        alignment >= 1,
    ensures
        arena.placement(size as int, alignment as int) matches Some((index, offset)) ==> arena.after_allocate(
            size,
            alignment,
        ).after_free(Region { offset: offset as u64, size }) == arena,
{
    lemma_allocate_sound(arena, size, alignment);
    match arena.placement(size as int, alignment as int) {
        Some((index, offset)) => {
            let region = Region { offset: offset as u64, size };
            let after = arena.after_allocate(size, alignment);
            assert(after.regions[index] == region);
            let found = after.regions.index_of(region);
            lemma_region_unique(after, found, index);
            assert(after.regions.remove(index) =~= arena.regions);
        },
        None => {},
    }
}

impl View for Arena {
    type V = ArenaState;

    closed spec fn view(&self) -> ArenaState {
        ArenaState { capacity: self.capacity as nat, regions: self.regions@ }
    }
}

fn align_up_checked(offset: u64, alignment: u64) -> (r: Option<u64>)
    requires
        alignment >= 1,
    ensures
        match r {
            Some(v) => v == align_up(offset as int, alignment as int),
            None => align_up(offset as int, alignment as int) > u64::MAX,
        },
{
    if alignment <= 1 {
        return Some(offset);
    }
    let rem: u64 = offset % alignment;
    if rem == 0 {
        Some(offset)
    } else {
        let pad: u64 = alignment - rem;
        if offset <= u64::MAX - pad {
            Some(offset + pad)
        } else {
            None
        }
    }
}

impl Arena {
    fn new(capacity: u64) -> (r: Arena)
        ensures
            r@.wf(),
            r@.capacity == capacity,
            r@.regions == Seq::<Region>::empty(),
    {
        Arena { capacity, regions: Vec::new() }
    }

    fn allocate(&mut self, size: u64, alignment: u64) -> (r: Option<u64>)
        requires
            old(self)@.wf(),
            size > 0,
            alignment >= 1,
        ensures
            final(self)@ == old(self)@.after_allocate(size, alignment),
            final(self)@.wf(),
            match r {
                Some(offset) => old(self)@.placement(size as int, alignment as int) matches Some(p) && p.1
                    == offset,
                None => old(self)@.placement(size as int, alignment as int) is None,
            },
    {
        proof {
            lemma_allocate_sound(self@, size, alignment);
        }
        let ghost target = self@.placement(size as int, alignment as int);
        let mut i: usize = 0;
        let mut cursor: u64 = 0;
        let mut found: Option<u64> = None;
        while i < self.regions.len() && found.is_none()
            invariant
                0 <= i <= self.regions.len(),
                self@ == old(self)@,
                self@.wf(),
                size > 0,
                alignment >= 1,
                i > 0 ==> cursor == self.regions@[i - 1].end(),
                cursor <= self.capacity,
                target == self@.placement(size as int, alignment as int),
                found is None ==> target == first_fit(
                    self.regions@,
                    i as int,
                    cursor as int,
                    size as int,
                    alignment as int,
                    self.capacity as int,
                ),
                found matches Some(offset) ==> i < self.regions.len() && target == Some((i as int, offset as int)),
            decreases self.regions.len() - i + (if found is None { 1int } else { 0int }),
        {
            let region = self.regions[i];
            let start = align_up_checked(cursor, alignment);
            let fits = match start {
                Some(s) => size <= region.offset && s <= region.offset - size,
                None => false,
            };
            if fits {
                found = start;
            } else {
                cursor = region.offset + region.size;
                i += 1;
            }
        }
        if found.is_none() {
            let start = align_up_checked(cursor, alignment);
            let fits = match start {
                Some(s) => size <= self.capacity && s <= self.capacity - size,
                None => false,
            };
            if fits {
                found = start;
            }
        }
        match found {
            Some(offset) => {
                self.regions.insert(i, Region { offset, size });
                Some(offset)
            },
            None => None,
        }
    }

    fn free(&mut self, region: Region) -> (r: bool)
        requires
            old(self)@.wf(),
        ensures
            r == old(self)@.holds(region),
            final(self)@ == old(self)@.after_free(region),
            final(self)@.wf(),
    {
        proof {
            lemma_free_sound(self@, region);
        }
        let mut i: usize = 0;
        while i < self.regions.len()
            invariant
                0 <= i <= self.regions.len(),
                self@ == old(self)@,
                self@.wf(),
                forall|j: int| 0 <= j < i ==> self.regions@[j] != region,
            decreases self.regions.len() - i,
        {
            let current = self.regions[i];
            if current.offset == region.offset && current.size == region.size {
                proof {
                    assert(self.regions@[i as int] == region);
                    let found = self.regions@.index_of(region);
                    lemma_region_unique(self@, found, i as int);
                }
                self.regions.remove(i);
                return true;
            }
            i += 1;
        }
        false
    }

    fn used(&self) -> (r: u64)
        requires
            self@.wf(),
        ensures
            r == self@.used(),
    {
        let mut total: u64 = 0;
        let mut i: usize = 0;
        while i < self.regions.len()
            invariant
                0 <= i <= self.regions.len(),
                self@.wf(),
                total == total_size(self.regions@.take(i as int)),
                i > 0 ==> total <= self.regions@[i - 1].end(),
                i == 0 ==> total == 0,
            decreases self.regions.len() - i,
        {
            proof {
                assert(self.regions@.take(i + 1).drop_last() =~= self.regions@.take(i as int));
                assert(self.regions@.take(i + 1).last() == self.regions@[i as int]);
                assert(self@.regions[i as int] == self.regions@[i as int]);
                if i > 0 {
                    assert(self@.regions[i - 1] == self.regions@[i - 1]);
                    assert(self.regions@[i - 1].end() <= self.regions@[i as int].offset);
                }
                assert(self.regions@[i as int].end() <= self.capacity);
            }
            total = total + self.regions[i].size;
            i += 1;
        }
        proof {
            assert(self.regions@.take(i as int) =~= self.regions@);
        }
        total
    }
}

impl View for Allocation {
    type V = Placement;

    closed spec fn view(&self) -> Placement {
        self.placement
    }
}

impl Allocation {
    /// Where the allocation lies.
    pub fn placement(&self) -> (r: Placement)
        ensures
            r == self@,
    {
        self.placement
    }

    /// Offset of the allocation in the arena of its memory type.
    pub fn offset(&self) -> (r: u64)
        ensures
            r == self@.offset,
    {
        self.placement.offset
    }

    /// Size of the allocation in bytes.
    pub fn size(&self) -> (r: u64)
        ensures
            r == self@.size,
    {
        self.placement.size
    }

    /// Index of the memory type the allocation was taken from.
    pub fn memory_type(&self) -> (r: u32)
        ensures
            r == self@.memory_type,
    {
        self.placement.memory_type
    }

    /// Tells whether the host can write the allocation.
    pub fn is_mapped(&self) -> (r: bool)
        ensures
            r == self@.mapped,
    {
        self.placement.mapped
    }
}

impl AllocatorState {
    /// There is one well-formed arena for each memory type.
    pub open spec fn wf(self) -> bool {
        &&& self.arenas.len() == self.memory_types.len()
        &&& forall|i: int| 0 <= i < self.arenas.len() ==> (#[trigger] self.arenas[i]).wf()
    }

    /// The request is one the allocator takes: a size above zero and an
    /// alignment that is a power of two.
    pub open spec fn valid_request(requirements: MemoryRequirements) -> bool {
        requirements.size > 0 && is_power_of_two(requirements.alignment)
    }

    /// The memory type a request is served from.
    pub open spec fn chosen_type(self, requirements: MemoryRequirements, location: MemoryLocation) -> Option<
        int,
    > {
        first_match(self.memory_types, requirements.memory_type_bits, location.required_flags())
    }

    /// What a request returns.
    pub open spec fn allocation_result(
        self,
        requirements: MemoryRequirements,
        location: MemoryLocation,
    ) -> Result<Placement, AllocationError> {
        if !Self::valid_request(requirements) {
            Err(AllocationError::InvalidRequest)
        } else {
            match self.chosen_type(requirements, location) {
                None => Err(AllocationError::NoSuitableMemoryType),
                Some(t) => match self.arenas[t].placement(
                    requirements.size as int,
                    requirements.alignment as int,
                ) {
                    None => Err(AllocationError::OutOfMemory),
                    Some((index, offset)) => Ok(
                        Placement {
                            memory_type: t as u32,
                            offset: offset as u64,
                            size: requirements.size,
                            mapped: location.host_visible(),
                        },
                    ),
                },
            }
        }
    }

    /// The allocator once the request has been served; unchanged when it
    /// fails.
    pub open spec fn after_allocate(
        self,
        requirements: MemoryRequirements,
        location: MemoryLocation,
    ) -> AllocatorState {
        match self.allocation_result(requirements, location) {
            Ok(p) => AllocatorState {
                memory_types: self.memory_types,
                arenas: self.arenas.update(
                    p.memory_type as int,
                    self.arenas[p.memory_type as int].after_allocate(requirements.size, requirements.alignment),
                ),
            },
            Err(_) => self,
        }
    }

    /// The allocation is live.
    pub open spec fn holds(self, placement: Placement) -> bool {
        placement.memory_type < self.arenas.len() && self.arenas[placement.memory_type as int].holds(
            placement.region(),
        )
    }

    /// The allocator once the allocation has been released; unchanged
    /// when the allocation is not live.
    pub open spec fn after_free(self, placement: Placement) -> AllocatorState {
        if self.holds(placement) {
            AllocatorState {
                memory_types: self.memory_types,
                arenas: self.arenas.update(
                    placement.memory_type as int,
                    self.arenas[placement.memory_type as int].after_free(placement.region()),
                ),
            }
        } else {
            self
        }
    }

    /// Bytes in use in the arena of memory type `memory_type`.
    pub open spec fn used_in(self, memory_type: int) -> nat {
        if 0 <= memory_type < self.arenas.len() {
            self.arenas[memory_type].used()
        } else {
            0
        }
    }
}

/// A request that is served lies in the first memory type that the
/// resource accepts and that has every property its location asks for.
pub proof fn lemma_allocation_memory_type(
    state: AllocatorState,
    requirements: MemoryRequirements,
    location: MemoryLocation,
)
    requires
        state.wf(),
    ensures
        state.allocation_result(requirements, location) matches Ok(p) ==> {
            &&& is_first_match(
                state.memory_types,
                p.memory_type as int,
                requirements.memory_type_bits,
                location.required_flags(),
            )
            &&& state.memory_types[p.memory_type as int].property_flags & location.required_flags()
                == location.required_flags()
            &&& p.size == requirements.size
            &&& p.offset % requirements.alignment == 0
            &&& p.offset + p.size <= state.arenas[p.memory_type as int].capacity
            &&& forall|i: int|
                0 <= i < state.arenas[p.memory_type as int].regions.len() ==> (
                #[trigger] state.arenas[p.memory_type as int].regions[i]).disjoint(p.region())
        },
{
    if let Ok(p) = state.allocation_result(requirements, location) {
        let t = state.chosen_type(requirements, location).unwrap();
        assert(is_first_match(
            state.memory_types,
            t,
            requirements.memory_type_bits,
            location.required_flags(),
        ));
        lemma_allocate_sound(state.arenas[t], requirements.size, requirements.alignment);
    }
}

/// Serving a request and then releasing what it returned leaves the
/// allocator as it was: nothing leaks, and the same request is then
/// served from the same place.
pub proof fn lemma_allocate_then_free_restores(
    state: AllocatorState,
    requirements: MemoryRequirements,
    location: MemoryLocation,
)
    requires
        state.wf(),
    ensures
        state.allocation_result(requirements, location) matches Ok(p) ==> {
            &&& state.after_allocate(requirements, location).wf()
            &&& state.after_allocate(requirements, location).holds(p)
            &&& state.after_allocate(requirements, location).used_in(p.memory_type as int) == state.used_in(
                p.memory_type as int,
            ) + requirements.size
            &&& state.after_allocate(requirements, location).after_free(p) == state
            &&& state.after_allocate(requirements, location).after_free(p).allocation_result(
                requirements,
                location,
            ) == Ok::<Placement, AllocationError>(p)
        },
{
    if let Ok(p) = state.allocation_result(requirements, location) {
        let t = state.chosen_type(requirements, location).unwrap();
        assert(is_first_match(
            state.memory_types,
            t,
            requirements.memory_type_bits,
            location.required_flags(),
        ));
        let after = state.after_allocate(requirements, location);
        lemma_allocate_sound(state.arenas[t], requirements.size, requirements.alignment);
        lemma_allocate_then_free(state.arenas[t], requirements.size, requirements.alignment);
        assert(after.arenas[t] == state.arenas[t].after_allocate(requirements.size, requirements.alignment));
        assert(after.after_free(p).arenas =~= state.arenas);
    }
}

impl View for Allocator {
    type V = AllocatorState;

    closed spec fn view(&self) -> AllocatorState {
        AllocatorState {
            memory_types: self.memory_types@,
            arenas: Seq::new(self.arenas@.len(), |i: int| self.arenas@[i]@),
        }
    }
}

impl Allocator {
    /// Every allocator is well formed.
    #[verifier::type_invariant]
    pub open spec fn inv(&self) -> bool {
        self@.wf()
    }

    /// An allocator over the given memory types, each with an empty arena
    /// of `block_size` bytes.
    pub fn new(memory_types: Vec<MemoryType>, block_size: u64) -> (r: Allocator)
        ensures
            r@.wf(),
            r@.memory_types == memory_types@,
            forall|i: int|
                0 <= i < memory_types@.len() ==> (#[trigger] r@.arenas[i]) == (ArenaState {
                    capacity: block_size as nat,
                    regions: Seq::<Region>::empty(),
                }),
    {
        let mut arenas: Vec<Arena> = Vec::new();
        let mut i: usize = 0;
        while i < memory_types.len()
            invariant
                0 <= i <= memory_types.len(),
                arenas@.len() == i,
                forall|j: int|
                    0 <= j < i ==> (#[trigger] arenas@[j])@ == (ArenaState {
                        capacity: block_size as nat,
                        regions: Seq::<Region>::empty(),
                    }),
            decreases memory_types.len() - i,
        {
            arenas.push(Arena::new(block_size));
            i += 1;
        }
        Allocator { memory_types, arenas }
    }

    /// Serves a request: picks the first memory type that is acceptable to
    /// the resource and has the properties of `location`, and places the
    /// resource at the lowest aligned free offset of that type's arena.
    pub fn allocate(&mut self, requirements: &MemoryRequirements, location: MemoryLocation) -> (r: Result<
        Allocation,
        AllocationError,
    >)
        ensures
            final(self)@.wf(),
            final(self)@ == old(self)@.after_allocate(*requirements, location),
            match r {
                Ok(allocation) => old(self)@.allocation_result(*requirements, location) == Ok::<
                    Placement,
                    AllocationError,
                >(allocation@),
                Err(e) => old(self)@.allocation_result(*requirements, location) == Err::<
                    Placement,
                    AllocationError,
                >(e),
            },
    {
        proof {
            use_type_invariant(&*self);
        }
        let alignment: u64 = requirements.alignment;
        if requirements.size == 0 || alignment == 0 || alignment & (alignment - 1) != 0 {
            return Err(AllocationError::InvalidRequest);
        }
        let required: u32 = location.flags();
        let chosen = find_memory_type(self.memory_types.as_slice(), requirements.memory_type_bits, required);
        match chosen {
            None => Err(AllocationError::NoSuitableMemoryType),
            Some(t) => {
                let index: usize = t as usize;
                let ghost before = self@;
                let mut taken = Allocator { memory_types: Vec::new(), arenas: Vec::new() };
                core::mem::swap(self, &mut taken);
                let Allocator { memory_types, arenas } = taken;
                let mut arenas = arenas;
                assert(before.arenas[t as int] == arenas@[t as int]@);
                let placed = arenas[index].allocate(requirements.size, alignment);
                proof {
                    assert(Seq::new(arenas@.len(), |i: int| arenas@[i]@) =~= before.arenas.update(
                        t as int,
                        before.arenas[t as int].after_allocate(requirements.size, alignment),
                    ));
                    if placed is None {
                        assert(Seq::new(arenas@.len(), |i: int| arenas@[i]@) =~= before.arenas);
                    }
                }
                *self = Allocator { memory_types, arenas };
                match placed {
                    None => Err(AllocationError::OutOfMemory),
                    Some(offset) => Ok(
                        Allocation {
                            placement: Placement {
                                memory_type: t,
                                offset,
                                size: requirements.size,
                                mapped: location.is_host_visible(),
                            },
                        },
                    ),
                }
            },
        }
    }

    /// Gives an allocation back. It fails, and changes nothing, when the
    /// allocation is not live in this allocator.
    pub fn free(&mut self, allocation: Allocation) -> (r: Result<(), AllocationError>)
        ensures
            final(self)@.wf(),
            final(self)@ == old(self)@.after_free(allocation@),
            r is Ok <==> old(self)@.holds(allocation@),
            r matches Err(e) ==> e == AllocationError::UnknownAllocation,
    {
        proof {
            use_type_invariant(&*self);
        }
        let placement = allocation.placement;
        let index: usize = placement.memory_type as usize;
        if index >= self.arenas.len() {
            return Err(AllocationError::UnknownAllocation);
        }
        let ghost before = self@;
        let region = Region { offset: placement.offset, size: placement.size };
        let mut taken = Allocator { memory_types: Vec::new(), arenas: Vec::new() };
        core::mem::swap(self, &mut taken);
        let Allocator { memory_types, arenas } = taken;
        let mut arenas = arenas;
        assert(before.arenas[index as int] == arenas@[index as int]@);
        let released = arenas[index].free(region);
        proof {
            assert(Seq::new(arenas@.len(), |i: int| arenas@[i]@) =~= before.arenas.update(
                index as int,
                before.arenas[index as int].after_free(region),
            ));
            if !released {
                assert(Seq::new(arenas@.len(), |i: int| arenas@[i]@) =~= before.arenas);
            }
        }
        *self = Allocator { memory_types, arenas };
        if released {
            Ok(())
        } else {
            Err(AllocationError::UnknownAllocation)
        }
    }

    /// Bytes in use in the arena of one memory type; zero for an index
    /// the device does not have.
    pub fn used_in(&self, memory_type: u32) -> (r: u64)
        ensures
            r == self@.used_in(memory_type as int),
    {
        proof {
            use_type_invariant(self);
        }
        let index: usize = memory_type as usize;
        if index < self.arenas.len() {
            assert(self@.arenas[index as int] == self.arenas@[index as int]@);
            self.arenas[index].used()
        } else {
            0
        }
    }

    /// The memory types the allocator was made with.
    pub fn memory_types(&self) -> (r: &[MemoryType])
        ensures
            r@ == self@.memory_types,
    {
        self.memory_types.as_slice()
    }
}

} // verus!
