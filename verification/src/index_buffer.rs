//! Index buffers: host-visible buffers of 32-bit indices, of a fixed
//! capacity, rewritten in place.

use crate::allocator::{
    Allocation, AllocationError, Allocator, MemoryLocation, Placement, Unbound,
};
use crate::device::{Destroy, BUFFER_USAGE_INDEX_BUFFER};
use crate::vertex_buffer::{
    check_fits, fits, lemma_overwritten, overwrite, overwritten, BufferError, BufferRequest,
};
use vstd::prelude::*;

verus! {

/// Bytes of one index.
pub const INDEX_STRIDE: u32 = 4;

/// An index buffer as contracts see it.
pub struct IndexBufferView {
    pub buffer: u64,
    pub allocation: Placement,
    /// Bytes the buffer was created with.
    pub capacity: u64,
    pub indice_count: u32,
    /// The indices that updates have put in the mapped memory of the
    /// buffer, from its start. An update writes over the first of them
    /// and leaves the others as they are.
    pub contents: Seq<u32>,
}

/// An index buffer with its memory.
#[derive(Debug)]
pub struct IndexBuffer {
    buffer: u64,
    allocation: Allocation,
    capacity: u64,
    indice_count: u32,
    contents: Vec<u32>,
}

impl View for IndexBuffer {
    type V = IndexBufferView;

    closed spec fn view(&self) -> IndexBufferView {
        IndexBufferView {
            buffer: self.buffer,
            allocation: self.allocation@,
            capacity: self.capacity,
            indice_count: self.indice_count,
            contents: self.contents@,
        }
    }
}

impl IndexBufferView {
    /// The contents lie within the capacity.
    pub open spec fn wf(self) -> bool {
        self.contents.len() * 4 <= self.capacity
    }

    /// The buffer after an update with `data`: the indices are copied to
    /// the start of its mapped memory when they fit; it is unchanged
    /// when they do not.
    pub open spec fn after_update(self, data: Seq<u32>) -> IndexBufferView {
        if fits(data.len(), INDEX_STRIDE as nat, self.capacity) {
            IndexBufferView {
                indice_count: data.len() as u32,
                contents: overwritten(self.contents, data),
                ..self
            }
        } else {
            self
        }
    }
}

/// An update that fits round-trips: the mapped memory begins with the
/// indices, one for one, what lay beyond them is unchanged, and the
/// index count is the length of the data. The handle, the memory and the
/// capacity of the buffer stay as they are.
pub proof fn lemma_update_round_trip(buffer: IndexBufferView, data: Seq<u32>)
    requires
        buffer.wf(),
        fits(data.len(), INDEX_STRIDE as nat, buffer.capacity),
    ensures
        buffer.after_update(data).indice_count == data.len(),
        buffer.after_update(data).contents.take(data.len() as int) == data,
        forall|k: int|
            data.len() <= k < buffer.contents.len() ==> #[trigger] buffer.after_update(data).contents[k]
                == buffer.contents[k],
        buffer.after_update(data).buffer == buffer.buffer,
        buffer.after_update(data).allocation == buffer.allocation,
        buffer.after_update(data).capacity == buffer.capacity,
        buffer.after_update(data).wf(),
{
    lemma_overwritten(buffer.contents, data);
}

impl IndexBuffer {
    /// The contents of every index buffer lie within its capacity.
    #[verifier::type_invariant]
    pub open spec fn inv(&self) -> bool {
        self@.wf()
    }

    /// Bytes that `num_indices` indices take.
    pub fn get_size_for_num_indices(num_indices: usize) -> (r: u64)
        requires
            num_indices * INDEX_STRIDE <= u64::MAX,
        ensures
            r == num_indices * INDEX_STRIDE,
    {
        (num_indices as u64) * (INDEX_STRIDE as u64)
    }

    /// The buffer created for `size` bytes.
    pub open spec fn request_spec(size: u64) -> BufferRequest {
        BufferRequest { size, usage: BUFFER_USAGE_INDEX_BUFFER }
    }

    /// The buffer to create for `size` bytes of indices.
    pub fn request(size: u64) -> (r: BufferRequest)
        ensures
            r == Self::request_spec(size),
    {
        BufferRequest { size, usage: BUFFER_USAGE_INDEX_BUFFER }
    }

    /// Places the buffer `buffer`, created for `size` bytes, in
    /// host-visible memory. The new index buffer is empty.
    pub fn new(allocator: &mut Allocator, buffer: Unbound, size: u64) -> (r: Result<
        IndexBuffer,
        AllocationError,
    >)
        ensures
            final(allocator)@.wf(),
            final(allocator)@ == old(allocator)@.after_allocate(buffer.requirements, MemoryLocation::CpuToGpu),
            match r {
                Ok(ib) => {
                    &&& old(allocator)@.allocation_result(buffer.requirements, MemoryLocation::CpuToGpu)
                        == Ok::<Placement, AllocationError>(ib@.allocation)
                    &&& ib@.buffer == buffer.handle
                    &&& ib@.capacity == size
                    &&& ib@.indice_count == 0
                    &&& ib@.contents == Seq::<u32>::empty()
                },
                Err(e) => old(allocator)@.allocation_result(buffer.requirements, MemoryLocation::CpuToGpu)
                    == Err::<Placement, AllocationError>(e),
            },
    {
        match allocator.allocate(&buffer.requirements, MemoryLocation::CpuToGpu) {
            Ok(allocation) => Ok(
                IndexBuffer {
                    buffer: buffer.handle,
                    allocation,
                    capacity: size,
                    indice_count: 0,
                    contents: Vec::new(),
                },
            ),
            Err(e) => Err(e),
        }
    }

    /// Gives the memory of the buffer back and names the buffer to
    /// destroy. The memory is released only if it is live in
    /// `allocator`; the result tells.
    pub fn destroy(self, allocator: &mut Allocator) -> (r: (Destroy, Result<(), AllocationError>))
        ensures
            final(allocator)@.wf(),
            final(allocator)@ == old(allocator)@.after_free(self@.allocation),
            r.0 == Destroy::Buffer(self@.buffer),
            r.1 is Ok <==> old(allocator)@.holds(self@.allocation),
            r.1 matches Err(e) ==> e == AllocationError::UnknownAllocation,
    {
        let step = Destroy::Buffer(self.buffer);
        let released = allocator.free(self.allocation);
        (step, released)
    }

    /// Copies `data` to the start of the mapped memory of the buffer and
    /// sets the index count to its length. It fails, and changes
    /// nothing, when the indices do not fit the capacity the buffer was
    /// created with, or are more than a draw can count.
    pub fn update_buffer(&mut self, data: &[u32]) -> (r: Result<(), BufferError>)
        ensures
            final(self)@ == old(self)@.after_update(data@),
            final(self)@.wf(),
            r is Ok <==> fits(data@.len(), INDEX_STRIDE as nat, old(self)@.capacity),
            r matches Err(e) ==> e == BufferError::CapacityExceeded,
    {
        proof {
            use_type_invariant(&*self);
        }
        if !check_fits(data.len(), INDEX_STRIDE, self.capacity) {
            return Err(BufferError::CapacityExceeded);
        }
        let mut words: Vec<u32> = Vec::new();
        let mut i: usize = 0;
        while i < data.len()
            invariant
                0 <= i <= data.len(),
                words@ == data@.take(i as int),
            decreases data.len() - i,
        {
            words.push(data[i]);
            proof {
                assert(words@ =~= data@.take(i + 1));
            }
            i += 1;
        }
        proof {
            assert(data@.take(i as int) =~= data@);
            lemma_update_round_trip(self@, data@);
        }
        let merged = overwrite(&self.contents, words);
        self.contents = merged;
        self.indice_count = data.len() as u32;
        Ok(())
    }

    /// Raw handle of the buffer.
    pub fn get_buffer(&self) -> (r: u64)
        ensures
            r == self@.buffer,
    {
        self.buffer
    }

    /// Where the memory of the buffer lies.
    pub fn get_placement(&self) -> (r: Placement)
        ensures
            r == self@.allocation,
    {
        self.allocation.placement()
    }

    /// Index of the memory type whose arena holds the buffer.
    pub fn get_memory(&self) -> (r: u32)
        ensures
            r == self@.allocation.memory_type,
    {
        self.allocation.memory_type()
    }

    /// Bytes of memory the buffer was given.
    pub fn get_size(&self) -> (r: u64)
        ensures
            r == self@.allocation.size,
    {
        self.allocation.size()
    }

    /// Offset of the buffer in its arena.
    pub fn get_offset(&self) -> (r: u64)
        ensures
            r == self@.allocation.offset,
    {
        self.allocation.offset()
    }

    /// Number of indices last written.
    pub fn get_indice_count(&self) -> (r: u32)
        ensures
            r == self@.indice_count,
    {
        self.indice_count
    }

    /// Bytes the buffer was created with.
    pub fn get_capacity(&self) -> (r: u64)
        ensures
            r == self@.capacity,
    {
        self.capacity
    }

    /// The indices that updates have put in the mapped memory of the
    /// buffer, from its start.
    pub fn get_contents(&self) -> (r: &[u32])
        ensures
            r@ == self@.contents,
            self@.wf(),
    {
        proof {
            use_type_invariant(self);
        }
        self.contents.as_slice()
    }
}

} // verus!
