//! Renderables: the drawable units of a scene. Each owns its vertex
//! buffers, an optional index buffer, and the selector of the pipeline
//! that draws it.

use crate::allocator::{
    lemma_allocate_then_free_restores, AllocationError, Allocator, AllocatorState, MemoryLocation,
    Placement, Unbound,
};
use crate::device::Destroy;
use crate::index_buffer::{IndexBuffer, INDEX_STRIDE};
use crate::pipeline::PipelineSelector;
use crate::textured_vertex::TexturedVertex;
use crate::vertex::{Vertex, VERTEX_STRIDE};
use crate::vertex_buffer::{fits, textured_vertex_words, BufferError, BufferRequest, VertexBuffer};
use vstd::prelude::*;

verus! {

/// Bit pattern of the 32-bit float `0.0`.
pub const F32_ZERO: u32 = 0x0000_0000;

/// Bit pattern of the 32-bit float `1.0`.
pub const F32_ONE: u32 = 0x3f80_0000;

/// Bit pattern of the 32-bit float `-1.0`.
pub const F32_MINUS_ONE: u32 = 0xbf80_0000;

/// Vertices of the full-screen quad.
pub const QUAD_VERTEX_COUNT: usize = 4;

/// Indices of the full-screen quad.
pub const QUAD_INDEX_COUNT: usize = 6;

/// The buffers to create for a renderable.
#[derive(Clone, Copy, Debug, PartialEq, Eq, Structural)]
pub struct RenderableRequest {
    pub vertex: BufferRequest,
    /// Present exactly when the renderable has indices.
    pub index: Option<BufferRequest>,
}

/// Why a renderable could not be created.
#[derive(Clone, Copy, Debug, PartialEq, Eq, Structural)]
pub enum RenderableError {
    /// An index buffer was given for a renderable without indices, or
    /// none for one with indices.
    IndexBufferMismatch,
    /// No memory for the vertex buffer.
    VertexMemory(AllocationError),
    /// No memory for the index buffer.
    IndexMemory(AllocationError),
}

/// A drawable unit.
#[derive(Debug)]
pub struct Renderable {
    pub vertex_buffers: Vec<VertexBuffer>,
    pub index_buffer: Option<IndexBuffer>,
    pub pipeline_selector: PipelineSelector,
}

/// The four corners of the full-screen quad: left-bottom, left-top,
/// right-bottom, right-top, each with its texture coordinate.
pub open spec fn quad_vertices() -> Seq<TexturedVertex> {
    seq![
        TexturedVertex { pos: [F32_MINUS_ONE, F32_ONE, F32_ZERO, F32_ONE], tex_coord: [F32_ZERO, F32_ONE] },
        TexturedVertex {
            pos: [F32_MINUS_ONE, F32_MINUS_ONE, F32_ZERO, F32_ONE],
            tex_coord: [F32_ZERO, F32_ZERO],
        },
        TexturedVertex { pos: [F32_ONE, F32_ONE, F32_ZERO, F32_ONE], tex_coord: [F32_ONE, F32_ONE] },
        TexturedVertex { pos: [F32_ONE, F32_MINUS_ONE, F32_ZERO, F32_ONE], tex_coord: [F32_ONE, F32_ZERO] },
    ]
}

/// The two triangles of the full-screen quad.
pub open spec fn quad_indices() -> Seq<u32> {
    seq![1u32, 0u32, 2u32, 2u32, 3u32, 1u32]
}

/// Where [`Renderable::new`] places the buffers, or why it fails.
pub open spec fn new_result(
    state: AllocatorState,
    index_count: usize,
    vertex: Unbound,
    index: Option<Unbound>,
) -> Result<(Placement, Option<Placement>), RenderableError> {
    if (index_count > 0) != index.is_some() {
        Err(RenderableError::IndexBufferMismatch)
    } else {
        match state.allocation_result(vertex.requirements, MemoryLocation::CpuToGpu) {
            Err(e) => Err(RenderableError::VertexMemory(e)),
            Ok(vertex_memory) => match index {
                None => Ok((vertex_memory, None)),
                Some(ix) => match state.after_allocate(
                    vertex.requirements,
                    MemoryLocation::CpuToGpu,
                ).allocation_result(ix.requirements, MemoryLocation::CpuToGpu) {
                    Err(e) => Err(RenderableError::IndexMemory(e)),
                    Ok(index_memory) => Ok((vertex_memory, Some(index_memory))),
                },
            },
        }
    }
}

/// The allocator after [`Renderable::new`]: every buffer placed, or none.
pub open spec fn after_new(
    state: AllocatorState,
    index_count: usize,
    vertex: Unbound,
    index: Option<Unbound>,
) -> AllocatorState {
    if new_result(state, index_count, vertex, index) is Ok {
        let with_vertex = state.after_allocate(vertex.requirements, MemoryLocation::CpuToGpu);
        match index {
            None => with_vertex,
            Some(ix) => with_vertex.after_allocate(ix.requirements, MemoryLocation::CpuToGpu),
        }
    } else {
        state
    }
}

/// The allocator once each of `placements` has been released in order.
pub open spec fn after_free_all(state: AllocatorState, placements: Seq<Placement>) -> AllocatorState
    decreases placements.len(),
{
    if placements.len() == 0 {
        state
    } else {
        after_free_all(state, placements.drop_last()).after_free(placements.last())
    }
}

/// Each of `placements` is live when its turn to be released comes.
pub open spec fn all_held(state: AllocatorState, placements: Seq<Placement>) -> bool
    decreases placements.len(),
{
    if placements.len() == 0 {
        true
    } else {
        all_held(state, placements.drop_last()) && after_free_all(state, placements.drop_last()).holds(
            placements.last(),
        )
    }
}

impl Renderable {
    /// The buffers a renderable of `vertex_count` vertices and
    /// `index_count` indices needs: a vertex buffer, and an index buffer
    /// exactly when there are indices.
    pub fn buffer_requests(vertex_count: usize, index_count: usize) -> (r: RenderableRequest)
        requires
            vertex_count * VERTEX_STRIDE <= u64::MAX,
            index_count * INDEX_STRIDE <= u64::MAX,
        ensures
            r.vertex == VertexBuffer::request_spec((vertex_count * VERTEX_STRIDE) as u64),
            index_count == 0 ==> r.index is None,
            index_count > 0 ==> r.index == Some(
                IndexBuffer::request_spec((index_count * INDEX_STRIDE) as u64),
            ),
    {
        let vertex = VertexBuffer::request(VertexBuffer::get_size_for_num_verts(vertex_count));
        let index = if index_count > 0 {
            Some(IndexBuffer::request(IndexBuffer::get_size_for_num_indices(index_count)))
        } else {
            None
        };
        RenderableRequest { vertex, index }
    }

    /// The memory of the buffers, vertex buffers first.
    pub open spec fn placements(self) -> Seq<Placement> {
        Seq::new(self.vertex_buffers@.len(), |i: int| self.vertex_buffers@[i]@.allocation) + match self.index_buffer {
            Some(ib) => seq![ib@.allocation],
            None => Seq::<Placement>::empty(),
        }
    }

    /// The buffers, vertex buffers first, as objects to destroy.
    pub open spec fn teardown(self) -> Seq<Destroy> {
        Seq::new(self.vertex_buffers@.len(), |i: int| Destroy::Buffer(self.vertex_buffers@[i]@.buffer)) + match self.index_buffer {
            Some(ib) => seq![Destroy::Buffer(ib@.buffer)],
            None => Seq::<Destroy>::empty(),
        }
    }

    /// Creates an untextured renderable with room for `vertex_count`
    /// vertices and `index_count` indices. `vertex` is the buffer made
    /// for the vertices; `index` is the buffer made for the indices and
    /// is present exactly when `index_count` is above zero. Both are
    /// placed in host-visible memory and start out empty. On any error
    /// the allocator is left as it was.
    pub fn new(
        allocator: &mut Allocator,
        vertex_count: usize,
        index_count: usize,
        vertex: Unbound,
        index: Option<Unbound>,
    ) -> (r: Result<Renderable, RenderableError>)
        requires
            vertex_count * VERTEX_STRIDE <= u64::MAX,
            index_count * INDEX_STRIDE <= u64::MAX,
        ensures
            final(allocator)@.wf(),
            final(allocator)@ == after_new(old(allocator)@, index_count, vertex, index),
            match r {
                Ok(renderable) => {
                    &&& renderable.pipeline_selector == PipelineSelector::Untextured
                    &&& renderable.vertex_buffers@.len() == 1
                    &&& renderable.vertex_buffers@[0]@.buffer == vertex.handle
                    &&& renderable.vertex_buffers@[0]@.capacity == vertex_count * VERTEX_STRIDE
                    &&& renderable.vertex_buffers@[0]@.vert_count == 0
                    &&& renderable.vertex_buffers@[0]@.contents == Seq::<u32>::empty()
                    &&& renderable.index_buffer is Some <==> index_count > 0
                    &&& renderable.index_buffer matches Some(ib) ==> {
                        &&& index matches Some(ix) && ib@.buffer == ix.handle
                        &&& ib@.capacity == index_count * INDEX_STRIDE
                        &&& ib@.indice_count == 0
                        &&& ib@.contents == Seq::<u32>::empty()
                    }
                    &&& new_result(old(allocator)@, index_count, vertex, index) == Ok::<
                        (Placement, Option<Placement>),
                        RenderableError,
                    >(
                        (
                            renderable.vertex_buffers@[0]@.allocation,
                            match renderable.index_buffer {
                                Some(ib) => Some(ib@.allocation),
                                None => None,
                            },
                        ),
                    )
                },
                Err(e) => new_result(old(allocator)@, index_count, vertex, index) == Err::<
                    (Placement, Option<Placement>),
                    RenderableError,
                >(e),
            },
    {
        proof {
            use_type_invariant(&*allocator);
        }
        if (index_count > 0) != index.is_some() {
            return Err(RenderableError::IndexBufferMismatch);
        }
        let ghost before = allocator@;
        let vertex_size = VertexBuffer::get_size_for_num_verts(vertex_count);
        let vertex_buffer = match VertexBuffer::new(allocator, vertex, vertex_size) {
            Ok(vb) => vb,
            Err(e) => {
                return Err(RenderableError::VertexMemory(e));
            },
        };
        let index_buffer = match index {
            None => None,
            Some(ix) => {
                let index_size = IndexBuffer::get_size_for_num_indices(index_count);
                match IndexBuffer::new(allocator, ix, index_size) {
                    Ok(ib) => Some(ib),
                    Err(e) => {
                        proof {
                            lemma_allocate_then_free_restores(
                                before,
                                vertex.requirements,
                                MemoryLocation::CpuToGpu,
                            );
                        }
                        let undone = vertex_buffer.destroy(allocator);
                        return Err(RenderableError::IndexMemory(e));
                    },
                }
            },
        };
        let mut vertex_buffers: Vec<VertexBuffer> = Vec::new();
        vertex_buffers.push(vertex_buffer);
        Ok(Renderable { vertex_buffers, index_buffer, pipeline_selector: PipelineSelector::Untextured })
    }

    /// Creates the textured full-screen quad: four textured vertices in
    /// a vertex buffer with room for four plain vertices, and six
    /// indices that split it into two triangles. On any error the
    /// allocator is left as it was.
    pub fn new_quad(allocator: &mut Allocator, vertex: Unbound, index: Unbound) -> (r: Result<
        Renderable,
        RenderableError,
    >)
        ensures
            final(allocator)@.wf(),
            final(allocator)@ == after_new(old(allocator)@, QUAD_INDEX_COUNT, vertex, Some(index)),
            match r {
                Ok(renderable) => {
                    &&& renderable.pipeline_selector == PipelineSelector::Textured
                    &&& renderable.vertex_buffers@.len() == 1
                    &&& renderable.vertex_buffers@[0]@.buffer == vertex.handle
                    &&& renderable.vertex_buffers@[0]@.capacity == QUAD_VERTEX_COUNT * VERTEX_STRIDE
                    &&& renderable.vertex_buffers@[0]@.vert_count == QUAD_VERTEX_COUNT
                    &&& renderable.vertex_buffers@[0]@.contents == textured_vertex_words(quad_vertices())
                    &&& renderable.index_buffer matches Some(ib) && {
                        &&& ib@.buffer == index.handle
                        &&& ib@.capacity == QUAD_INDEX_COUNT * INDEX_STRIDE
                        &&& ib@.indice_count == QUAD_INDEX_COUNT
                        &&& ib@.contents == quad_indices()
                        &&& new_result(old(allocator)@, QUAD_INDEX_COUNT, vertex, Some(index)) == Ok::<
                            (Placement, Option<Placement>),
                            RenderableError,
                        >((renderable.vertex_buffers@[0]@.allocation, Some(ib@.allocation)))
                    }
                },
                Err(e) => new_result(old(allocator)@, QUAD_INDEX_COUNT, vertex, Some(index)) == Err::<
                    (Placement, Option<Placement>),
                    RenderableError,
                >(e),
            },
    {
        let mut renderable = match Renderable::new(
            allocator,
            QUAD_VERTEX_COUNT,
            QUAD_INDEX_COUNT,
            vertex,
            Some(index),
        ) {
            Ok(r) => r,
            Err(e) => {
                return Err(e);
            },
        };
        let corners: [TexturedVertex; 4] = [
            TexturedVertex { pos: [F32_MINUS_ONE, F32_ONE, F32_ZERO, F32_ONE], tex_coord: [F32_ZERO, F32_ONE] },
            TexturedVertex {
                pos: [F32_MINUS_ONE, F32_MINUS_ONE, F32_ZERO, F32_ONE],
                tex_coord: [F32_ZERO, F32_ZERO],
            },
            TexturedVertex { pos: [F32_ONE, F32_ONE, F32_ZERO, F32_ONE], tex_coord: [F32_ONE, F32_ONE] },
            TexturedVertex { pos: [F32_ONE, F32_MINUS_ONE, F32_ZERO, F32_ONE], tex_coord: [F32_ONE, F32_ZERO] },
        ];
        let indices: [u32; 6] = [1, 0, 2, 2, 3, 1];
        assert(corners@ =~= quad_vertices());
        assert(indices@ =~= quad_indices());
        let written = renderable.vertex_buffers[0].update_textured_buffer(corners.as_slice());
        let indexed = match &mut renderable.index_buffer {
            Some(ib) => ib.update_buffer(indices.as_slice()),
            None => Ok(()),
        };
        renderable.pipeline_selector = PipelineSelector::Textured;
        Ok(renderable)
    }

    /// Updates the first vertex buffer with `data`. It fails with
    /// `NoBuffer` when the renderable has no vertex buffer, and as
    /// [`VertexBuffer::update_buffer`] does otherwise; on failure nothing
    /// changes. The other buffers are never touched.
    pub fn update_vertices_buffer(&mut self, data: &[Vertex]) -> (r: Result<(), BufferError>)
        ensures
            final(self).index_buffer == old(self).index_buffer,
            final(self).pipeline_selector == old(self).pipeline_selector,
            final(self).vertex_buffers@.len() == old(self).vertex_buffers@.len(),
            forall|j: int|
                1 <= j < old(self).vertex_buffers@.len() ==> final(self).vertex_buffers@[j] == old(
                    self,
                ).vertex_buffers@[j],
            old(self).vertex_buffers@.len() == 0 ==> r == Err::<(), BufferError>(BufferError::NoBuffer),
            old(self).vertex_buffers@.len() > 0 ==> {
                &&& final(self).vertex_buffers@[0]@ == old(self).vertex_buffers@[0]@.after_update(data@)
                &&& r is Ok <==> fits(
                    data@.len(),
                    VERTEX_STRIDE as nat,
                    old(self).vertex_buffers@[0]@.capacity,
                )
                &&& r matches Err(e) ==> e == BufferError::CapacityExceeded
            },
    {
        if self.vertex_buffers.len() == 0 {
            return Err(BufferError::NoBuffer);
        }
        self.vertex_buffers[0].update_buffer(data)
    }

    /// Updates the index buffer with `data`. It fails with `NoBuffer`
    /// when the renderable has no index buffer, and as
    /// [`IndexBuffer::update_buffer`] does otherwise; on failure nothing
    /// changes. The vertex buffers are never touched.
    pub fn update_indices_buffer(&mut self, data: &[u32]) -> (r: Result<(), BufferError>)
        ensures
            final(self).vertex_buffers == old(self).vertex_buffers,
            final(self).pipeline_selector == old(self).pipeline_selector,
            match old(self).index_buffer {
                None => r == Err::<(), BufferError>(BufferError::NoBuffer) && final(self).index_buffer
                    is None,
                Some(ib) => final(self).index_buffer matches Some(after) && {
                    &&& after@ == ib@.after_update(data@)
                    &&& r is Ok <==> fits(data@.len(), INDEX_STRIDE as nat, ib@.capacity)
                    &&& r matches Err(e) ==> e == BufferError::CapacityExceeded
                },
            },
    {
        match &mut self.index_buffer {
            Some(ib) => ib.update_buffer(data),
            None => Err(BufferError::NoBuffer),
        }
    }

    /// Gives the memory of every buffer back, vertex buffers first, and
    /// lists the buffers to destroy in the same order. The flag tells
    /// whether the memory of every buffer was live in `allocator`.
    pub fn destroy(self, allocator: &mut Allocator) -> (r: (Vec<Destroy>, bool))
        ensures
            final(allocator)@.wf(),
            final(allocator)@ == after_free_all(old(allocator)@, self.placements()),
            r.0@ == self.teardown(),
            r.1 == all_held(old(allocator)@, self.placements()),
    {
        proof {
            use_type_invariant(&*allocator);
        }
        let ghost placements = self.placements();
        let ghost teardown = self.teardown();
        let ghost start = allocator@;
        let Renderable { vertex_buffers, index_buffer, pipeline_selector } = self;
        let mut vertex_buffers = vertex_buffers;
        let ghost buffers = vertex_buffers@;
        let mut steps: Vec<Destroy> = Vec::new();
        let mut all_live: bool = true;
        let ghost mut i: int = 0;
        while vertex_buffers.len() > 0
            invariant
                0 <= i <= buffers.len(),
                vertex_buffers@ == buffers.skip(i),
                allocator@.wf(),
                allocator@ == after_free_all(start, placements.take(i)),
                all_live == all_held(start, placements.take(i)),
                steps@ == teardown.take(i),
                buffers.len() <= placements.len(),
                placements.len() == teardown.len(),
                forall|j: int| 0 <= j < buffers.len() ==> placements[j] == (#[trigger] buffers[j])@.allocation,
                forall|j: int|
                    0 <= j < buffers.len() ==> teardown[j] == Destroy::Buffer((#[trigger] buffers[j])@.buffer),
            decreases vertex_buffers.len(),
        {
            let vb = vertex_buffers.remove(0);
            proof {
                assert(vb == buffers[i]);
                assert(vertex_buffers@ =~= buffers.skip(i + 1));
                assert(placements.take(i + 1).drop_last() =~= placements.take(i));
                assert(placements.take(i + 1).last() == placements[i]);
            }
            let (step, released) = vb.destroy(allocator);
            steps.push(step);
            all_live = all_live && released.is_ok();
            proof {
                assert(steps@ =~= teardown.take(i + 1));
            }
            proof {
                i = i + 1;
            }
        }
        match index_buffer {
            Some(ib) => {
                proof {
                    assert(placements.len() == i + 1);
                    assert(placements.drop_last() =~= placements.take(i));
                    assert(placements.last() == ib@.allocation);
                }
                let (step, released) = ib.destroy(allocator);
                steps.push(step);
                all_live = all_live && released.is_ok();
                proof {
                    assert(steps@ =~= teardown);
                }
            },
            None => {
                proof {
                    assert(placements.take(i) =~= placements);
                    assert(teardown.take(i) =~= teardown);
                }
            },
        }
        (steps, all_live)
    }

    /// The vertex buffers, in order.
    pub fn get_vertex_buffers(&self) -> (r: Vec<&VertexBuffer>)
        ensures
            r@.len() == self.vertex_buffers@.len(),
            forall|j: int| 0 <= j < r@.len() ==> *r@[j] == self.vertex_buffers@[j],
    {
        let mut vbs: Vec<&VertexBuffer> = Vec::new();
        let mut i: usize = 0;
        while i < self.vertex_buffers.len()
            invariant
                0 <= i <= self.vertex_buffers.len(),
                vbs@.len() == i,
                forall|j: int| 0 <= j < i ==> *vbs@[j] == self.vertex_buffers@[j],
            decreases self.vertex_buffers.len() - i,
        {
            vbs.push(&self.vertex_buffers[i]);
            i += 1;
        }
        vbs
    }

    /// The index buffer as a list: empty or of one element.
    pub fn get_index_buffers(&self) -> (r: Vec<&IndexBuffer>)
        ensures
            match self.index_buffer {
                Some(ib) => r@.len() == 1 && *r@[0] == ib,
                None => r@.len() == 0,
            },
    {
        let mut ibs: Vec<&IndexBuffer> = Vec::new();
        match &self.index_buffer {
            Some(ib) => {
                ibs.push(ib);
            },
            None => {},
        }
        ibs
    }
}

} // verus!
