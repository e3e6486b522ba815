use ash::vk;
use render_core::allocator::{
    AllocationError, Allocator, MemoryRequirements, MemoryType, Unbound, MEMORY_DEVICE_LOCAL,
    MEMORY_HOST_COHERENT, MEMORY_HOST_VISIBLE,
};
use render_core::device::{Destroy, BUFFER_USAGE_INDEX_BUFFER, BUFFER_USAGE_VERTEX_BUFFER};
use render_core::index_buffer::{IndexBuffer, INDEX_STRIDE};
use render_core::textured_vertex::{TexturedVertex, TEXTURED_VERTEX_STRIDE};
use render_core::vertex::{Vertex, VERTEX_STRIDE};
use render_core::vertex_buffer::{BufferError, BufferRequest, VertexBuffer};

fn allocator() -> Allocator {
    Allocator::new(
        vec![
            MemoryType { property_flags: MEMORY_DEVICE_LOCAL, heap_index: 0 },
            MemoryType { property_flags: MEMORY_HOST_VISIBLE | MEMORY_HOST_COHERENT, heap_index: 1 },
        ],
        4096,
    )
}

fn unbound(handle: u64, size: u64) -> Unbound {
    Unbound { handle, requirements: MemoryRequirements { size, alignment: 16, memory_type_bits: 0b11 } }
}

fn vertex(seed: f32) -> Vertex {
    Vertex {
        pos: [seed.to_bits(), (seed + 0.5).to_bits(), 0f32.to_bits(), 1f32.to_bits()],
        color: [1f32.to_bits(), 0f32.to_bits(), (seed * 2.0).to_bits(), 0.4f32.to_bits()],
    }
}

#[test]
fn strides_are_the_sizes_of_the_vertices() {
    assert_eq!(VERTEX_STRIDE as usize, std::mem::size_of::<[f32; 8]>());
    assert_eq!(TEXTURED_VERTEX_STRIDE as usize, std::mem::size_of::<[f32; 6]>());
    assert_eq!(INDEX_STRIDE as usize, std::mem::size_of::<u32>());
    assert_eq!(VERTEX_STRIDE as usize, std::mem::size_of::<Vertex>());
    assert_eq!(TEXTURED_VERTEX_STRIDE as usize, std::mem::size_of::<TexturedVertex>());
}

#[test]
fn buffer_sizes_are_count_times_stride() {
    assert_eq!(VertexBuffer::get_size_for_num_verts(0), 0);
    assert_eq!(VertexBuffer::get_size_for_num_verts(4), 128);
    assert_eq!(IndexBuffer::get_size_for_num_indices(6), 24);
    assert_eq!(VertexBuffer::request(128), BufferRequest { size: 128, usage: BUFFER_USAGE_VERTEX_BUFFER });
    assert_eq!(IndexBuffer::request(24), BufferRequest { size: 24, usage: BUFFER_USAGE_INDEX_BUFFER });
    assert_eq!(BUFFER_USAGE_VERTEX_BUFFER, vk::BufferUsageFlags::VERTEX_BUFFER.as_raw());
    assert_eq!(BUFFER_USAGE_INDEX_BUFFER, vk::BufferUsageFlags::INDEX_BUFFER.as_raw());
}

#[test]
fn new_vertex_buffer_is_empty_and_host_visible() {
    let mut a = allocator();
    let vb = VertexBuffer::new(&mut a, unbound(5, 128), 128).unwrap();
    assert_eq!(vb.get_buffer(), 5);
    assert_eq!(vb.get_vert_count(), 0);
    assert_eq!(vb.get_capacity(), 128);
    assert_eq!(vb.get_memory(), 1);
    assert_eq!(vb.get_offset(), 0);
    assert_eq!(vb.get_size(), 128);
    assert!(vb.get_contents().is_empty());
    assert_eq!(a.used_in(1), 128);
}

#[test]
fn vertex_update_round_trips() {
    let mut a = allocator();
    let mut vb = VertexBuffer::new(&mut a, unbound(5, 128), 128).unwrap();
    let data = [vertex(-0.5), vertex(0.25), vertex(3.0)];
    assert_eq!(vb.update_buffer(&data), Ok(()));
    assert_eq!(vb.get_vert_count(), 3);
    let mut expected: Vec<u32> = vec![];
    for v in &data {
        expected.extend_from_slice(&v.pos);
        expected.extend_from_slice(&v.color);
    }
    assert_eq!(vb.get_contents(), &expected[..]);
    let floats: Vec<f32> = vb.get_contents().iter().map(|w| f32::from_bits(*w)).collect();
    assert_eq!(&floats[..8], &[-0.5, 0.0, 0.0, 1.0, 1.0, 0.0, -1.0, 0.4]);
    let bytes: Vec<u8> = vb.get_contents().iter().flat_map(|w| w.to_ne_bytes()).collect();
    let direct: Vec<u8> = floats.iter().flat_map(|f| f.to_ne_bytes()).collect();
    assert_eq!(bytes, direct);
    assert_eq!(bytes.len(), 3 * VERTEX_STRIDE as usize);
}

#[test]
fn vertex_update_writes_the_start_and_leaves_the_rest() {
    let mut a = allocator();
    let mut vb = VertexBuffer::new(&mut a, unbound(5, 128), 128).unwrap();
    vb.update_buffer(&[vertex(1.0), vertex(2.0), vertex(3.0), vertex(4.0)]).unwrap();
    assert_eq!(vb.get_vert_count(), 4);
    let before: Vec<u32> = vb.get_contents().to_vec();
    assert_eq!(before.len(), 32);
    vb.update_buffer(&[vertex(9.0)]).unwrap();
    assert_eq!(vb.get_vert_count(), 1);
    assert_eq!(vb.get_contents().len(), 32);
    assert_eq!(vb.get_contents()[0], 9f32.to_bits());
    assert_eq!(&vb.get_contents()[..8], &[vertex(9.0).pos, vertex(9.0).color].concat()[..]);
    assert_eq!(&vb.get_contents()[8..], &before[8..]);
    vb.update_buffer(&[]).unwrap();
    assert_eq!(vb.get_vert_count(), 0);
    assert_eq!(&vb.get_contents()[8..], &before[8..]);
    assert_eq!(vb.get_contents()[0], 9f32.to_bits());
    assert_eq!((vb.get_buffer(), vb.get_capacity(), vb.get_offset(), vb.get_size()), (5, 128, 0, 128));
}

#[test]
fn index_update_writes_the_start_and_leaves_the_rest() {
    let mut a = allocator();
    let mut ib = IndexBuffer::new(&mut a, unbound(8, 24), 24).unwrap();
    ib.update_buffer(&[0, 1, 2, 2, 3, 0]).unwrap();
    ib.update_buffer(&[7, 8]).unwrap();
    assert_eq!(ib.get_indice_count(), 2);
    assert_eq!(ib.get_contents(), &[7, 8, 2, 2, 3, 0]);
    ib.update_buffer(&[5, 5, 5, 5, 5, 5]).unwrap();
    assert_eq!(ib.get_indice_count(), 6);
    assert_eq!(ib.get_contents(), &[5, 5, 5, 5, 5, 5]);
}

#[test]
fn textured_update_over_plain_vertices_leaves_the_rest() {
    let mut a = allocator();
    let mut vb = VertexBuffer::new(&mut a, unbound(5, 128), 64).unwrap();
    vb.update_buffer(&[vertex(1.0), vertex(2.0)]).unwrap();
    let before: Vec<u32> = vb.get_contents().to_vec();
    vb.update_textured_buffer(&[TexturedVertex { pos: [1, 2, 3, 4], tex_coord: [5, 6] }]).unwrap();
    assert_eq!(vb.get_vert_count(), 1);
    assert_eq!(&vb.get_contents()[..6], &[1, 2, 3, 4, 5, 6]);
    assert_eq!(&vb.get_contents()[6..], &before[6..]);
}

#[test]
fn vertex_update_beyond_capacity_is_refused() {
    let mut a = allocator();
    let mut vb = VertexBuffer::new(&mut a, unbound(5, 96), 96).unwrap();
    vb.update_buffer(&[vertex(1.0), vertex(2.0), vertex(3.0)]).unwrap();
    let before: Vec<u32> = vb.get_contents().to_vec();
    let four = [vertex(5.0), vertex(6.0), vertex(7.0), vertex(8.0)];
    assert_eq!(vb.update_buffer(&four), Err(BufferError::CapacityExceeded));
    assert_eq!(vb.get_vert_count(), 3);
    assert_eq!(vb.get_contents(), &before[..]);
}

#[test]
fn capacity_is_what_the_buffer_was_created_for() {
    let mut a = allocator();
    let mut vb = VertexBuffer::new(&mut a, unbound(5, 256), 40).unwrap();
    assert_eq!(vb.update_buffer(&[vertex(1.0)]), Ok(()));
    assert_eq!(vb.update_buffer(&[vertex(1.0), vertex(2.0)]), Err(BufferError::CapacityExceeded));
    let mut empty = VertexBuffer::new(&mut a, unbound(6, 16), 0).unwrap();
    assert_eq!(empty.update_buffer(&[]), Ok(()));
    assert_eq!(empty.update_buffer(&[vertex(1.0)]), Err(BufferError::CapacityExceeded));
}

#[test]
fn textured_update_round_trips() {
    let mut a = allocator();
    let mut vb = VertexBuffer::new(&mut a, unbound(5, 128), 48).unwrap();
    let data = [
        TexturedVertex { pos: [1, 2, 3, 4], tex_coord: [5, 6] },
        TexturedVertex { pos: [7, 8, 9, 10], tex_coord: [11, 12] },
    ];
    assert_eq!(vb.update_textured_buffer(&data), Ok(()));
    assert_eq!(vb.get_vert_count(), 2);
    assert_eq!(vb.get_contents(), &[1, 2, 3, 4, 5, 6, 7, 8, 9, 10, 11, 12]);
    let three = [data[0], data[1], data[0]];
    assert_eq!(vb.update_textured_buffer(&three), Err(BufferError::CapacityExceeded));
    assert_eq!(vb.get_vert_count(), 2);
}

#[test]
fn index_update_round_trips() {
    let mut a = allocator();
    let mut ib = IndexBuffer::new(&mut a, unbound(8, 24), 24).unwrap();
    assert_eq!(ib.get_indice_count(), 0);
    assert_eq!(ib.update_buffer(&[0, 1, 2, 2, 3, 0]), Ok(()));
    assert_eq!(ib.get_indice_count(), 6);
    assert_eq!(ib.get_contents(), &[0, 1, 2, 2, 3, 0]);
    assert_eq!(ib.get_buffer(), 8);
    assert_eq!(ib.get_capacity(), 24);
    assert_eq!(ib.get_memory(), 1);
    assert_eq!(ib.get_size(), 24);
    assert_eq!(ib.get_offset(), 0);
}

#[test]
fn index_update_beyond_capacity_is_refused() {
    let mut a = allocator();
    let mut ib = IndexBuffer::new(&mut a, unbound(8, 24), 24).unwrap();
    ib.update_buffer(&[7, 8, 9]).unwrap();
    assert_eq!(ib.update_buffer(&[0, 1, 2, 3, 4, 5, 6]), Err(BufferError::CapacityExceeded));
    assert_eq!(ib.get_indice_count(), 3);
    assert_eq!(ib.get_contents(), &[7, 8, 9]);
}

#[test]
fn buffer_without_memory_is_not_created() {
    let mut a = allocator();
    let r = VertexBuffer::new(&mut a, unbound(5, 8192), 8192);
    assert_eq!(r.err(), Some(AllocationError::OutOfMemory));
    let none = Unbound { handle: 5, requirements: MemoryRequirements { size: 64, alignment: 16, memory_type_bits: 0b01 } };
    let r = IndexBuffer::new(&mut a, none, 64);
    assert_eq!(r.err(), Some(AllocationError::NoSuitableMemoryType));
    assert_eq!(a.used_in(1), 0);
}

#[test]
fn destroying_a_buffer_returns_its_memory() {
    let mut a = allocator();
    let vb = VertexBuffer::new(&mut a, unbound(5, 128), 128).unwrap();
    let ib = IndexBuffer::new(&mut a, unbound(6, 24), 24).unwrap();
    assert_eq!(a.used_in(1), 152);
    assert_eq!(vb.destroy(&mut a), (Destroy::Buffer(5), Ok(())));
    assert_eq!(a.used_in(1), 24);
    assert_eq!(ib.destroy(&mut a), (Destroy::Buffer(6), Ok(())));
    assert_eq!(a.used_in(1), 0);
}

#[test]
fn destroying_a_buffer_on_another_allocator_is_reported() {
    let mut a = allocator();
    let mut b = allocator();
    let vb = VertexBuffer::new(&mut a, unbound(5, 128), 128).unwrap();
    assert_eq!(vb.destroy(&mut b), (Destroy::Buffer(5), Err(AllocationError::UnknownAllocation)));
    assert_eq!(a.used_in(1), 128);
}
