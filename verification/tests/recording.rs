use render_core::allocator::{
    AllocationError, Allocator, MemoryRequirements, MemoryType, Unbound, MEMORY_DEVICE_LOCAL,
    MEMORY_HOST_COHERENT, MEMORY_HOST_VISIBLE,
};
use render_core::command::{record_frame, record_renderable, ClearColor, Command};
use render_core::device::{Destroy, Extent2D};
use render_core::pipeline::{Pipeline, PipelineSelector, PipelineSet};
use render_core::renderable::{Renderable, RenderableError, RenderableRequest};
use render_core::vertex::Vertex;
use render_core::vertex_buffer::{BufferError, BufferRequest, VertexBuffer};

fn allocator() -> Allocator {
    Allocator::new(
        vec![
            MemoryType { property_flags: MEMORY_DEVICE_LOCAL, heap_index: 0 },
            MemoryType { property_flags: MEMORY_HOST_VISIBLE | MEMORY_HOST_COHERENT, heap_index: 1 },
        ],
        1024,
    )
}

fn unbound(handle: u64, size: u64) -> Unbound {
    Unbound { handle, requirements: MemoryRequirements { size, alignment: 16, memory_type_bits: 0b10 } }
}

fn pipelines() -> PipelineSet {
    PipelineSet {
        untextured: Pipeline { pipeline: 500, layout: 501, descriptor_set_layouts: vec![] },
        textured: Pipeline { pipeline: 600, layout: 601, descriptor_set_layouts: vec![602] },
    }
}

fn vertices(n: usize) -> Vec<Vertex> {
    (0..n).map(|i| Vertex { pos: [i as u32, 0, 0, 1], color: [1, 1, 1, 1] }).collect()
}

fn bind_vertex(buffer: u64) -> Command {
    bind_vertex_at(0, buffer)
}

fn bind_vertex_at(binding: u32, buffer: u64) -> Command {
    Command::BindVertexBuffer { binding, buffer, offset: 0 }
}

fn draws(commands: &[Command]) -> (usize, usize) {
    let indexed = commands.iter().filter(|c| matches!(c, Command::DrawIndexed { .. })).count();
    let plain = commands.iter().filter(|c| matches!(c, Command::Draw { .. })).count();
    (indexed, plain)
}

fn draw_indexed(index_count: u32) -> Command {
    Command::DrawIndexed { index_count, instance_count: 1, first_index: 0, vertex_offset: 0, first_instance: 0 }
}

fn draw(vertex_count: u32) -> Command {
    Command::Draw { vertex_count, instance_count: 1, first_vertex: 0, first_instance: 0 }
}

#[test]
fn renderable_asks_for_an_index_buffer_only_with_indices() {
    assert_eq!(
        Renderable::buffer_requests(4, 6),
        RenderableRequest {
            vertex: BufferRequest { size: 128, usage: 0x80 },
            index: Some(BufferRequest { size: 24, usage: 0x40 }),
        }
    );
    assert_eq!(
        Renderable::buffer_requests(3, 0),
        RenderableRequest { vertex: BufferRequest { size: 96, usage: 0x80 }, index: None }
    );
}

#[test]
fn indexed_renderable_is_drawn_with_its_index_count() {
    let mut a = allocator();
    let mut r = Renderable::new(&mut a, 4, 6, unbound(1, 128), Some(unbound(2, 24))).unwrap();
    assert_eq!(r.update_vertices_buffer(&vertices(4)), Ok(()));
    assert_eq!(r.update_indices_buffer(&[0, 1, 2, 2, 3, 0]), Ok(()));
    let mut commands = vec![];
    record_renderable(&mut commands, &r, &pipelines());
    assert_eq!(
        commands,
        vec![
            Command::BindPipeline { pipeline: 500 },
            Command::BindIndexBuffer { buffer: 2, offset: 0 },
            bind_vertex(1),
            draw_indexed(6),
        ]
    );
}

#[test]
fn renderable_without_indices_is_drawn_by_vertex_count() {
    let mut a = allocator();
    let mut r = Renderable::new(&mut a, 3, 0, unbound(1, 96), None).unwrap();
    assert!(r.index_buffer.is_none());
    assert!(r.get_index_buffers().is_empty());
    assert_eq!(r.update_vertices_buffer(&vertices(3)), Ok(()));
    let mut commands = vec![Command::Begin];
    record_renderable(&mut commands, &r, &pipelines());
    assert_eq!(commands, vec![Command::Begin, Command::BindPipeline { pipeline: 500 }, bind_vertex(1), draw(3)]);
    assert!(!commands.iter().any(|c| matches!(c, Command::DrawIndexed { .. } | Command::BindIndexBuffer { .. })));
}

#[test]
fn draw_counts_follow_the_last_update() {
    let mut a = allocator();
    let mut r = Renderable::new(&mut a, 4, 6, unbound(1, 128), Some(unbound(2, 24))).unwrap();
    let mut commands = vec![];
    record_renderable(&mut commands, &r, &pipelines());
    assert_eq!(commands[3], draw_indexed(0));
    r.update_indices_buffer(&[0, 1, 2]).unwrap();
    let mut commands = vec![];
    record_renderable(&mut commands, &r, &pipelines());
    assert_eq!(commands[3], draw_indexed(3));
    let mut plain = Renderable::new(&mut a, 4, 0, unbound(3, 128), None).unwrap();
    plain.update_vertices_buffer(&vertices(2)).unwrap();
    let mut commands = vec![];
    record_renderable(&mut commands, &plain, &pipelines());
    assert_eq!(commands[2], draw(2));
}

#[test]
fn every_vertex_buffer_is_bound_at_its_own_binding_and_the_renderable_drawn_once() {
    let mut a = allocator();
    let mut r = Renderable::new(&mut a, 2, 0, unbound(1, 64), None).unwrap();
    let mut second = VertexBuffer::new(&mut a, unbound(7, 96), 96).unwrap();
    second.update_buffer(&vertices(3)).unwrap();
    r.vertex_buffers.push(second);
    r.update_vertices_buffer(&vertices(1)).unwrap();
    let mut commands = vec![];
    record_renderable(&mut commands, &r, &pipelines());
    assert_eq!(
        commands,
        vec![Command::BindPipeline { pipeline: 500 }, bind_vertex_at(0, 1), bind_vertex_at(1, 7), draw(1)]
    );
    assert_eq!(draws(&commands), (0, 1));
    let handles: Vec<u64> = r.get_vertex_buffers().iter().map(|vb| vb.get_buffer()).collect();
    assert_eq!(handles, vec![1, 7]);
}

#[test]
fn indexed_renderable_with_two_vertex_buffers_is_drawn_once() {
    let mut a = allocator();
    let mut r = Renderable::new(&mut a, 2, 3, unbound(1, 64), Some(unbound(2, 12))).unwrap();
    r.vertex_buffers.push(VertexBuffer::new(&mut a, unbound(7, 96), 96).unwrap());
    r.update_indices_buffer(&[0, 1, 1]).unwrap();
    let mut commands = vec![];
    record_renderable(&mut commands, &r, &pipelines());
    assert_eq!(
        commands,
        vec![
            Command::BindPipeline { pipeline: 500 },
            Command::BindIndexBuffer { buffer: 2, offset: 0 },
            bind_vertex_at(0, 1),
            bind_vertex_at(1, 7),
            draw_indexed(3),
        ]
    );
    assert_eq!(draws(&commands), (1, 0));
}

#[test]
fn renderable_without_vertex_buffers_is_drawn_once_with_no_vertices() {
    let bare =
        Renderable { vertex_buffers: vec![], index_buffer: None, pipeline_selector: PipelineSelector::Textured };
    let mut commands = vec![];
    record_renderable(&mut commands, &bare, &pipelines());
    assert_eq!(commands, vec![Command::BindPipeline { pipeline: 600 }, draw(0)]);
}

#[test]
fn frame_holds_one_draw_for_each_renderable() {
    let mut a = allocator();
    let mut scene = vec![];
    for i in 0..5u64 {
        let index = if i % 2 == 0 { Some(unbound(100 + i, 12)) } else { None };
        let mut r = Renderable::new(&mut a, 2, if i % 2 == 0 { 3 } else { 0 }, unbound(10 + i, 64), index).unwrap();
        if i == 3 {
            r.vertex_buffers.push(VertexBuffer::new(&mut a, unbound(50, 32), 32).unwrap());
        }
        r.update_vertices_buffer(&vertices(2)).unwrap();
        scene.push(r);
    }
    let commands = record_frame(55, 31, Extent2D { width: 4, height: 4 }, &scene, &pipelines());
    assert_eq!(draws(&commands), (3, 2));
    assert_eq!(draws(&record_frame(55, 31, Extent2D { width: 4, height: 4 }, &[], &pipelines())), (0, 0));
    assert!(commands.iter().all(|c| match c {
        Command::Draw { vertex_count, instance_count, .. } => *vertex_count == 2 && *instance_count == 1,
        Command::DrawIndexed { index_count, instance_count, .. } => *index_count == 0 && *instance_count == 1,
        _ => true,
    }));
}

#[test]
fn frame_wraps_the_scene_in_the_render_pass() {
    let mut a = allocator();
    let mut first = Renderable::new(&mut a, 4, 6, unbound(1, 128), Some(unbound(2, 24))).unwrap();
    first.update_indices_buffer(&[0, 1, 2, 2, 3, 0]).unwrap();
    let mut second = Renderable::new(&mut a, 3, 0, unbound(3, 96), None).unwrap();
    second.update_vertices_buffer(&vertices(3)).unwrap();
    let quad = Renderable::new_quad(&mut a, unbound(4, 128), unbound(5, 24)).unwrap();
    let scene = vec![first, second, quad];
    let extent = Extent2D { width: 640, height: 480 };
    let commands = record_frame(55, 31, extent, &scene, &pipelines());
    let clear = ClearColor { r: 0f32.to_bits(), g: 0f32.to_bits(), b: 0.08f32.to_bits(), a: 1f32.to_bits() };
    assert_eq!(
        commands,
        vec![
            Command::Begin,
            Command::BeginRenderPass { render_pass: 55, framebuffer: 31, extent, clear },
            Command::BindPipeline { pipeline: 500 },
            Command::BindIndexBuffer { buffer: 2, offset: 0 },
            bind_vertex(1),
            draw_indexed(6),
            Command::BindPipeline { pipeline: 500 },
            bind_vertex(3),
            draw(3),
            Command::BindPipeline { pipeline: 600 },
            Command::BindIndexBuffer { buffer: 5, offset: 0 },
            bind_vertex(4),
            draw_indexed(6),
            Command::EndRenderPass,
            Command::End,
        ]
    );
}

#[test]
fn empty_scene_still_clears_the_image() {
    let extent = Extent2D { width: 1, height: 1 };
    let commands = record_frame(55, 31, extent, &[], &pipelines());
    assert_eq!(commands.len(), 4);
    assert_eq!(commands[0], Command::Begin);
    assert!(matches!(commands[1], Command::BeginRenderPass { render_pass: 55, framebuffer: 31, .. }));
    assert_eq!(&commands[2..], &[Command::EndRenderPass, Command::End]);
}

#[test]
fn new_renderable_has_empty_buffers_of_the_asked_capacity() {
    let mut a = allocator();
    let r = Renderable::new(&mut a, 4, 6, unbound(1, 128), Some(unbound(2, 24))).unwrap();
    assert_eq!(r.pipeline_selector, PipelineSelector::Untextured);
    assert_eq!(r.vertex_buffers.len(), 1);
    assert_eq!(r.vertex_buffers[0].get_capacity(), 128);
    assert_eq!(r.vertex_buffers[0].get_vert_count(), 0);
    let ib = r.index_buffer.as_ref().unwrap();
    assert_eq!(ib.get_capacity(), 24);
    assert_eq!(ib.get_indice_count(), 0);
    assert_eq!(ib.get_buffer(), 2);
    assert_eq!(r.get_index_buffers().len(), 1);
    assert_eq!(a.used_in(1), 152);
    assert_eq!((r.vertex_buffers[0].get_offset(), ib.get_offset()), (0, 128));
}

#[test]
fn index_buffer_must_match_the_index_count() {
    let mut a = allocator();
    let r = Renderable::new(&mut a, 4, 6, unbound(1, 128), None);
    assert_eq!(r.err(), Some(RenderableError::IndexBufferMismatch));
    let r = Renderable::new(&mut a, 4, 0, unbound(1, 128), Some(unbound(2, 24)));
    assert_eq!(r.err(), Some(RenderableError::IndexBufferMismatch));
    assert_eq!(a.used_in(1), 0);
}

#[test]
fn failed_renderable_leaves_no_memory_behind() {
    let mut a = allocator();
    let r = Renderable::new(&mut a, 4, 6, unbound(1, 2048), Some(unbound(2, 24)));
    assert_eq!(r.err(), Some(RenderableError::VertexMemory(AllocationError::OutOfMemory)));
    assert_eq!(a.used_in(1), 0);
    let r = Renderable::new(&mut a, 4, 6, unbound(1, 1000), Some(unbound(2, 100)));
    assert_eq!(r.err(), Some(RenderableError::IndexMemory(AllocationError::OutOfMemory)));
    assert_eq!(a.used_in(1), 0);
    let bad = Unbound { handle: 2, requirements: MemoryRequirements { size: 24, alignment: 16, memory_type_bits: 0b01 } };
    let r = Renderable::new(&mut a, 4, 6, unbound(1, 128), Some(bad));
    assert_eq!(r.err(), Some(RenderableError::IndexMemory(AllocationError::NoSuitableMemoryType)));
    assert_eq!(a.used_in(1), 0);
}

#[test]
fn quad_is_four_textured_corners_and_two_triangles() {
    let mut a = allocator();
    let quad = Renderable::new_quad(&mut a, unbound(4, 128), unbound(5, 24)).unwrap();
    assert_eq!(quad.pipeline_selector, PipelineSelector::Textured);
    let vb = &quad.vertex_buffers[0];
    assert_eq!(vb.get_vert_count(), 4);
    assert_eq!(vb.get_capacity(), 128);
    let floats: Vec<f32> = vb.get_contents().iter().map(|w| f32::from_bits(*w)).collect();
    let expected: Vec<f32> = vec![
        -1.0, 1.0, 0.0, 1.0, 0.0, 1.0, //
        -1.0, -1.0, 0.0, 1.0, 0.0, 0.0, //
        1.0, 1.0, 0.0, 1.0, 1.0, 1.0, //
        1.0, -1.0, 0.0, 1.0, 1.0, 0.0,
    ];
    assert_eq!(floats, expected);
    let ib = quad.index_buffer.as_ref().unwrap();
    assert_eq!(ib.get_contents(), &[1, 0, 2, 2, 3, 1]);
    assert_eq!(ib.get_indice_count(), 6);
}

#[test]
fn quad_without_memory_is_not_created() {
    let mut a = allocator();
    let r = Renderable::new_quad(&mut a, unbound(4, 128), unbound(5, 4096));
    assert_eq!(r.err(), Some(RenderableError::IndexMemory(AllocationError::OutOfMemory)));
    assert_eq!(a.used_in(1), 0);
}

#[test]
fn updates_report_missing_buffers_and_overflow() {
    let mut a = allocator();
    let mut r = Renderable::new(&mut a, 2, 0, unbound(1, 64), None).unwrap();
    assert_eq!(r.update_indices_buffer(&[0, 1, 2]), Err(BufferError::NoBuffer));
    assert_eq!(r.update_vertices_buffer(&vertices(3)), Err(BufferError::CapacityExceeded));
    assert_eq!(r.vertex_buffers[0].get_vert_count(), 0);
    let mut bare = Renderable { vertex_buffers: vec![], index_buffer: None, pipeline_selector: PipelineSelector::Untextured };
    assert_eq!(bare.update_vertices_buffer(&vertices(1)), Err(BufferError::NoBuffer));
    let mut indexed = Renderable::new(&mut a, 2, 3, unbound(2, 64), Some(unbound(3, 12))).unwrap();
    assert_eq!(indexed.update_indices_buffer(&[0, 1, 2, 3]), Err(BufferError::CapacityExceeded));
    assert_eq!(indexed.update_indices_buffer(&[0, 1, 2]), Ok(()));
    assert_eq!(indexed.vertex_buffers[0].get_vert_count(), 0);
}

#[test]
fn destroying_a_renderable_releases_every_buffer() {
    let mut a = allocator();
    let keep = Renderable::new(&mut a, 1, 0, unbound(9, 32), None).unwrap();
    let r = Renderable::new(&mut a, 4, 6, unbound(1, 128), Some(unbound(2, 24))).unwrap();
    assert_eq!(a.used_in(1), 184);
    assert_eq!(r.destroy(&mut a), (vec![Destroy::Buffer(1), Destroy::Buffer(2)], true));
    assert_eq!(a.used_in(1), 32);
    let mut other = allocator();
    assert_eq!(keep.destroy(&mut other), (vec![Destroy::Buffer(9)], false));
    assert_eq!(a.used_in(1), 32);
}
