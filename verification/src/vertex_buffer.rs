//! Vertex buffers: host-visible buffers of a fixed capacity whose
//! contents are rewritten in place.

use crate::allocator::{
    Allocation, AllocationError, Allocator, MemoryLocation, Placement, Unbound,
};
use crate::device::{Destroy, BUFFER_USAGE_VERTEX_BUFFER};
use crate::textured_vertex::{TexturedVertex, TEXTURED_VERTEX_STRIDE};
use crate::vertex::{Vertex, VERTEX_STRIDE};
use vstd::prelude::*;

verus! {

/// A buffer to create.
#[derive(Clone, Copy, Debug, PartialEq, Eq, Structural)]
pub struct BufferRequest {
    pub size: u64,
    /// Raw `VkBufferUsageFlags`.
    pub usage: u32,
}

/// Why a buffer was not rewritten.
#[derive(Clone, Copy, Debug, PartialEq, Eq, Structural)]
pub enum BufferError {
    /// The data is larger than the buffer, or has more elements than a
    /// draw can count.
    CapacityExceeded,
    /// There is no buffer to write to.
    NoBuffer,
}

/// A vertex buffer as contracts see it.
pub struct VertexBufferView {
    pub buffer: u64,
    pub allocation: Placement,
    /// Bytes the buffer was created with.
    pub capacity: u64,
    pub vert_count: u32,
    /// The 32-bit words that updates have put in the mapped memory of
    /// the buffer, from its start. An update writes over the first of
    /// them and leaves the others as they are.
    pub contents: Seq<u32>,
}

/// A vertex buffer with its memory.
#[derive(Debug)]
pub struct VertexBuffer {
    buffer: u64,
    allocation: Allocation,
    capacity: u64,
    vert_count: u32,
    contents: Vec<u32>,
}

/// The words of `data` in memory order.
pub open spec fn vertex_words(data: Seq<Vertex>) -> Seq<u32>
    decreases data.len(),
{
    if data.len() == 0 {
        Seq::<u32>::empty()
    } else {
        vertex_words(data.drop_last()) + data.last().words()
    }
}

/// The words of `data` in memory order.
pub open spec fn textured_vertex_words(data: Seq<TexturedVertex>) -> Seq<u32>
    decreases data.len(),
{
    if data.len() == 0 {
        Seq::<u32>::empty()
    } else {
        textured_vertex_words(data.drop_last()) + data.last().words()
    }
}

/// `count` elements of `stride` bytes fit a buffer of `capacity` bytes,
/// and `count` fits the 32 bits in which a draw counts its elements.
pub open spec fn fits(count: nat, stride: nat, capacity: u64) -> bool {
    count * stride <= capacity && count <= u32::MAX
}

/// Vertices take eight words each.
pub proof fn lemma_vertex_words_len(data: Seq<Vertex>)
    ensures
        vertex_words(data).len() == 8 * data.len(),
    decreases data.len(),
{
    if data.len() > 0 {
        lemma_vertex_words_len(data.drop_last());
    }
}

/// Textured vertices take six words each.
pub proof fn lemma_textured_vertex_words_len(data: Seq<TexturedVertex>)
    ensures
        textured_vertex_words(data).len() == 6 * data.len(),
    decreases data.len(),
{
    if data.len() > 0 {
        lemma_textured_vertex_words_len(data.drop_last());
    }
}

/// The words of a mapped region that held `before` once `written` has
/// been copied to its start: `written`, followed by what `before` held
/// beyond it.
pub open spec fn overwritten(before: Seq<u32>, written: Seq<u32>) -> Seq<u32> {
    if written.len() >= before.len() {
        written
    } else {
        written + before.skip(written.len() as int)
    }
}

/// A copy to the start of a region puts the copied words there and
/// changes no word beyond them.
pub proof fn lemma_overwritten(before: Seq<u32>, written: Seq<u32>)
    ensures
        overwritten(before, written).len() == if written.len() >= before.len() {
            written.len()
        } else {
            before.len()
        },
        overwritten(before, written).take(written.len() as int) == written,
        forall|k: int|
            written.len() <= k < before.len() ==> #[trigger] overwritten(before, written)[k] == before[k],
{
    assert(overwritten(before, written).take(written.len() as int) =~= written);
}

/// Appends to `words` what `before` holds beyond them.
pub(crate) fn overwrite(before: &Vec<u32>, words: Vec<u32>) -> (r: Vec<u32>)
    ensures
        r@ == overwritten(before@, words@),
{
    let ghost written = words@;
    let mut merged = words;
    let mut i: usize = merged.len();
    while i < before.len()
        invariant
            written.len() <= i,
            written.len() < before.len() ==> i <= before.len(),
            merged@.len() == i,
            written.len() >= before.len() ==> merged@ == written,
            written.len() < before.len() ==> merged@ == written + before@.subrange(written.len() as int, i as int),
        decreases before.len() - i,
    {
        merged.push(before[i]);
        proof {
            assert(merged@ =~= written + before@.subrange(written.len() as int, i + 1));
        }
        i += 1;
    }
    proof {
        if written.len() < before@.len() {
            assert(before@.subrange(written.len() as int, i as int) =~= before@.skip(written.len() as int));
        }
    }
    merged
}

/// Tells whether `count` elements of `stride` bytes fit.
pub(crate) fn check_fits(count: usize, stride: u32, capacity: u64) -> (r: bool)
    requires
        stride > 0,
    ensures
        r == fits(count as nat, stride as nat, capacity),
{
    let limit: u64 = capacity / (stride as u64);
    proof {
        let c = count as int;
        let s = stride as int;
        let cap = capacity as int;
        vstd::arithmetic::div_mod::lemma_fundamental_div_mod(cap, s);
        vstd::arithmetic::div_mod::lemma_mod_bound(cap, s);
        if c <= cap / s {
            assert(c * s <= (cap / s) * s) by (nonlinear_arith)
                requires
                    c <= cap / s,
                    s > 0,
            ;
            assert((cap / s) * s == s * (cap / s)) by (nonlinear_arith);
        } else {
            assert(c * s >= (cap / s + 1) * s) by (nonlinear_arith)
                requires
                    c >= cap / s + 1,
                    s > 0,
            ;
            assert((cap / s + 1) * s == s * (cap / s) + s) by (nonlinear_arith);
        }
    }
    count as u64 <= limit && count <= 0xffff_ffff
}

impl View for VertexBuffer {
    type V = VertexBufferView;

    closed spec fn view(&self) -> VertexBufferView {
        VertexBufferView {
            buffer: self.buffer,
            allocation: self.allocation@,
            capacity: self.capacity,
            vert_count: self.vert_count,
            contents: self.contents@,
        }
    }
}

impl VertexBufferView {
    /// The contents lie within the capacity.
    pub open spec fn wf(self) -> bool {
        self.contents.len() * 4 <= self.capacity
    }

    /// The buffer once `count` vertices, whose words are `words`, have
    /// been copied to the start of its mapped memory.
    pub open spec fn written(self, words: Seq<u32>, count: nat) -> VertexBufferView {
        VertexBufferView { vert_count: count as u32, contents: overwritten(self.contents, words), ..self }
    }

    /// The buffer after an update with `data`: written when the vertices
    /// fit, unchanged when they do not.
    pub open spec fn after_update(self, data: Seq<Vertex>) -> VertexBufferView {
        if fits(data.len(), VERTEX_STRIDE as nat, self.capacity) {
            self.written(vertex_words(data), data.len())
        } else {
            self
        }
    }

    /// The buffer after an update with textured vertices: written when
    /// the vertices fit, unchanged when they do not.
    pub open spec fn after_textured_update(self, data: Seq<TexturedVertex>) -> VertexBufferView {
        if fits(data.len(), TEXTURED_VERTEX_STRIDE as nat, self.capacity) {
            self.written(textured_vertex_words(data), data.len())
        } else {
            self
        }
    }
}

/// An update that fits round-trips: the mapped memory begins with the
/// words of the data, word for word, what lay beyond them is unchanged,
/// and the vertex count is the length of the data. The handle, the
/// memory and the capacity of the buffer stay as they are.
pub proof fn lemma_update_round_trip(buffer: VertexBufferView, data: Seq<Vertex>)
    requires
        buffer.wf(),
        fits(data.len(), VERTEX_STRIDE as nat, buffer.capacity),
    ensures
        buffer.after_update(data).vert_count == data.len(),
        vertex_words(data).len() == 8 * data.len(),
        buffer.after_update(data).contents.take((8 * data.len()) as int) == vertex_words(data),
        forall|k: int|
            8 * data.len() <= k < buffer.contents.len() ==> #[trigger] buffer.after_update(data).contents[k]
                == buffer.contents[k],
        buffer.after_update(data).buffer == buffer.buffer,
        buffer.after_update(data).allocation == buffer.allocation,
        buffer.after_update(data).capacity == buffer.capacity,
        buffer.after_update(data).wf(),
{
    lemma_vertex_words_len(data);
    lemma_overwritten(buffer.contents, vertex_words(data));
    assert(VERTEX_STRIDE == 32);
    assert(vertex_words(data).len() * 4 == data.len() * 32);
}

/// An update with textured vertices that fits round-trips in the same
/// way, with six words to the vertex.
pub proof fn lemma_textured_update_round_trip(buffer: VertexBufferView, data: Seq<TexturedVertex>)
    requires
        buffer.wf(),
        fits(data.len(), TEXTURED_VERTEX_STRIDE as nat, buffer.capacity),
    ensures
        buffer.after_textured_update(data).vert_count == data.len(),
        textured_vertex_words(data).len() == 6 * data.len(),
        buffer.after_textured_update(data).contents.take((6 * data.len()) as int) == textured_vertex_words(data),
        forall|k: int|
            6 * data.len() <= k < buffer.contents.len() ==> #[trigger] buffer.after_textured_update(
                data,
            ).contents[k] == buffer.contents[k],
        buffer.after_textured_update(data).buffer == buffer.buffer,
        buffer.after_textured_update(data).allocation == buffer.allocation,
        buffer.after_textured_update(data).capacity == buffer.capacity,
        buffer.after_textured_update(data).wf(),
{
    lemma_textured_vertex_words_len(data);
    lemma_overwritten(buffer.contents, textured_vertex_words(data));
    assert(TEXTURED_VERTEX_STRIDE == 24);
    assert(textured_vertex_words(data).len() * 4 == data.len() * 24);
}

impl VertexBuffer {
    /// The contents of every vertex buffer lie within its capacity.
    #[verifier::type_invariant]
    pub open spec fn inv(&self) -> bool {
        self@.wf()
    }

    /// Bytes that `num_verts` vertices take.
    pub fn get_size_for_num_verts(num_verts: usize) -> (r: u64)
        requires
            num_verts * VERTEX_STRIDE <= u64::MAX,
        ensures
            r == num_verts * VERTEX_STRIDE,
    {
        (num_verts as u64) * (VERTEX_STRIDE as u64)
    }

    /// The buffer created for `size` bytes.
    pub open spec fn request_spec(size: u64) -> BufferRequest {
        BufferRequest { size, usage: BUFFER_USAGE_VERTEX_BUFFER }
    }

    /// The buffer to create for `size` bytes of vertices.
    pub fn request(size: u64) -> (r: BufferRequest)
        ensures
            r == Self::request_spec(size),
    {
        BufferRequest { size, usage: BUFFER_USAGE_VERTEX_BUFFER }
    }

    /// Places the buffer `buffer`, created for `size` bytes, in
    /// host-visible memory. The new vertex buffer is empty.
    pub fn new(allocator: &mut Allocator, buffer: Unbound, size: u64) -> (r: Result<
        VertexBuffer,
        AllocationError,
    >)
        ensures
            final(allocator)@.wf(),
            final(allocator)@ == old(allocator)@.after_allocate(buffer.requirements, MemoryLocation::CpuToGpu),
            match r {
                Ok(vb) => {
                    &&& old(allocator)@.allocation_result(buffer.requirements, MemoryLocation::CpuToGpu)
                        == Ok::<Placement, AllocationError>(vb@.allocation)
                    &&& vb@.buffer == buffer.handle
                    &&& vb@.capacity == size
                    &&& vb@.vert_count == 0
                    &&& vb@.contents == Seq::<u32>::empty()
                },
                Err(e) => old(allocator)@.allocation_result(buffer.requirements, MemoryLocation::CpuToGpu)
                    == Err::<Placement, AllocationError>(e),
            },
    {
        match allocator.allocate(&buffer.requirements, MemoryLocation::CpuToGpu) {
            Ok(allocation) => Ok(
                VertexBuffer {
                    buffer: buffer.handle,
                    allocation,
                    capacity: size,
                    vert_count: 0,
                    contents: Vec::new(),
                },
            ),
            Err(e) => Err(e),
        }
    }

    /// Gives the memory of the buffer back and names the buffer to
    /// destroy. The memory is released only if it is live in
    /// `allocator`; the result tells.
    pub fn destroy(self, allocator: &mut Allocator) -> (r: (Destroy, Result<(), AllocationError>))
        ensures
            final(allocator)@.wf(),
            final(allocator)@ == old(allocator)@.after_free(self@.allocation),
            r.0 == Destroy::Buffer(self@.buffer),
            r.1 is Ok <==> old(allocator)@.holds(self@.allocation),
            r.1 matches Err(e) ==> e == AllocationError::UnknownAllocation,
    {
        let step = Destroy::Buffer(self.buffer);
        let released = allocator.free(self.allocation);
        (step, released)
    }

    /// Copies `data` to the start of the mapped memory of the buffer and
    /// sets the vertex count to its length. It fails, and changes
    /// nothing, when the vertices do not fit the capacity the buffer was
    /// created with, or are more than a draw can count.
    pub fn update_buffer(&mut self, data: &[Vertex]) -> (r: Result<(), BufferError>)
        ensures
            final(self)@ == old(self)@.after_update(data@),
            final(self)@.wf(),
            r is Ok <==> fits(data@.len(), VERTEX_STRIDE as nat, old(self)@.capacity),
            r matches Err(e) ==> e == BufferError::CapacityExceeded,
    {
        proof {
            use_type_invariant(&*self);
        }
        if !check_fits(data.len(), VERTEX_STRIDE, self.capacity) {
            return Err(BufferError::CapacityExceeded);
        }
        let mut words: Vec<u32> = Vec::new();
        let mut i: usize = 0;
        while i < data.len()
            invariant
                0 <= i <= data.len(),
                words@ == vertex_words(data@.take(i as int)),
            decreases data.len() - i,
        {
            let v = &data[i];
            let ghost before = words@;
            words.push(v.pos[0]);
            words.push(v.pos[1]);
            words.push(v.pos[2]);
            words.push(v.pos[3]);
            words.push(v.color[0]);
            words.push(v.color[1]);
            words.push(v.color[2]);
            words.push(v.color[3]);
            proof {
                assert(data@.take(i + 1).drop_last() =~= data@.take(i as int));
                assert(data@.take(i + 1).last() == data@[i as int]);
                assert(words@ =~= before + data@[i as int].words());
            }
            i += 1;
        }
        proof {
            assert(data@.take(i as int) =~= data@);
            lemma_update_round_trip(self@, data@);
        }
        let merged = overwrite(&self.contents, words);
        self.contents = merged;
        self.vert_count = data.len() as u32;
        Ok(())
    }

    /// Copies textured vertices to the start of the mapped memory of the
    /// buffer, as [`VertexBuffer::update_buffer`] does with plain ones.
    pub fn update_textured_buffer(&mut self, data: &[TexturedVertex]) -> (r: Result<(), BufferError>)
        ensures
            final(self)@ == old(self)@.after_textured_update(data@),
            final(self)@.wf(),
            r is Ok <==> fits(data@.len(), TEXTURED_VERTEX_STRIDE as nat, old(self)@.capacity),
            r matches Err(e) ==> e == BufferError::CapacityExceeded,
    {
        proof {
            use_type_invariant(&*self);
        }
        if !check_fits(data.len(), TEXTURED_VERTEX_STRIDE, self.capacity) {
            return Err(BufferError::CapacityExceeded);
        }
        let mut words: Vec<u32> = Vec::new();
        let mut i: usize = 0;
        while i < data.len()
            invariant
                0 <= i <= data.len(),
                words@ == textured_vertex_words(data@.take(i as int)),
            decreases data.len() - i,
        {
            let v = &data[i];
            let ghost before = words@;
            words.push(v.pos[0]);
            words.push(v.pos[1]);
            words.push(v.pos[2]);
            words.push(v.pos[3]);
            words.push(v.tex_coord[0]);
            words.push(v.tex_coord[1]);
            proof {
                assert(data@.take(i + 1).drop_last() =~= data@.take(i as int));
                assert(data@.take(i + 1).last() == data@[i as int]);
                assert(words@ =~= before + data@[i as int].words());
            }
            i += 1;
        }
        proof {
            assert(data@.take(i as int) =~= data@);
            lemma_textured_update_round_trip(self@, data@);
        }
        let merged = overwrite(&self.contents, words);
        self.contents = merged;
        self.vert_count = data.len() as u32;
        Ok(())
    }

    /// Raw handle of the buffer.
    pub fn get_buffer(&self) -> (r: u64)
        ensures
            r == self@.buffer,
    {
        self.buffer
    }

    /// Where the memory of the buffer lies.
    pub fn get_placement(&self) -> (r: Placement)
        ensures
            r == self@.allocation,
    {
        self.allocation.placement()
    }

    /// Index of the memory type whose arena holds the buffer.
    pub fn get_memory(&self) -> (r: u32)
        ensures
            r == self@.allocation.memory_type,
    {
        self.allocation.memory_type()
    }

    /// Bytes of memory the buffer was given.
    pub fn get_size(&self) -> (r: u64)
        ensures
            r == self@.allocation.size,
    {
        self.allocation.size()
    }

    /// Offset of the buffer in its arena.
    pub fn get_offset(&self) -> (r: u64)
        ensures
            r == self@.allocation.offset,
    {
        self.allocation.offset()
    }

    /// Number of vertices last written.
    pub fn get_vert_count(&self) -> (r: u32)
        ensures
            r == self@.vert_count,
    {
        self.vert_count
    }

    /// Bytes the buffer was created with.
    pub fn get_capacity(&self) -> (r: u64)
        ensures
            r == self@.capacity,
    {
        self.capacity
    }

    /// The words that updates have put in the mapped memory of the
    /// buffer, from its start.
    pub fn get_contents(&self) -> (r: &[u32])
        ensures
            r@ == self@.contents,
            self@.wf(),
    {
        proof {
            use_type_invariant(self);
        }
        self.contents.as_slice()
    }
}

} // verus!
