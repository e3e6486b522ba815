//! The vertex of untextured geometry and how a pipeline reads it.

use crate::device::FORMAT_R32G32B32A32_SFLOAT;
use vstd::prelude::*;

verus! {

/// Bytes of one 32-bit word of vertex or index data.
pub const WORD_BYTES: u64 = 4;

/// Bytes of one [`Vertex`] in a vertex buffer.
pub const VERTEX_STRIDE: u32 = 32;

/// How often a pipeline steps to the next element of a binding.
#[derive(Clone, Copy, Debug, PartialEq, Eq, Structural)]
pub enum InputRate {
    Vertex,
    Instance,
}

/// One vertex buffer binding of a pipeline.
#[derive(Clone, Copy, Debug, PartialEq, Eq, Structural)]
pub struct BindingDescription {
    pub binding: u32,
    pub stride: u32,
    pub input_rate: InputRate,
}

/// One vertex attribute of a pipeline.
#[derive(Clone, Copy, Debug, PartialEq, Eq, Structural)]
pub struct AttributeDescription {
    pub binding: u32,
    pub location: u32,
    /// Raw `VkFormat` of the attribute.
    pub format: i32,
    /// Byte offset of the attribute in the vertex.
    pub offset: u32,
}

/// A position and a colour, each four 32-bit floats held as their bit
/// patterns, laid out one after the other.
#[derive(Clone, Copy, Debug)]
pub struct Vertex {
    pub pos: [u32; 4],
    pub color: [u32; 4],
}

impl Vertex {
    /// The words of the vertex in memory order.
    pub open spec fn words(self) -> Seq<u32> {
        self.pos@ + self.color@
    }

    /// The vertex fills its stride exactly.
    pub proof fn lemma_words_fill_stride(self)
        ensures
            self.words().len() * WORD_BYTES == VERTEX_STRIDE,
    {
    }

    /// The binding vertices are read from: binding 0, one vertex per
    /// stride.
    pub open spec fn binding_spec() -> BindingDescription {
        BindingDescription { binding: 0, stride: VERTEX_STRIDE, input_rate: InputRate::Vertex }
    }

    /// The attributes of a vertex: location 0 at byte 0 and location 1 at
    /// byte 16, both declared as four 32-bit floats.
    pub open spec fn attributes_spec() -> Seq<AttributeDescription> {
        seq![
            AttributeDescription { binding: 0, location: 0, format: FORMAT_R32G32B32A32_SFLOAT, offset: 0 },
            AttributeDescription { binding: 0, location: 1, format: FORMAT_R32G32B32A32_SFLOAT, offset: 16 },
        ]
    }

    /// The one binding vertices are read from: binding 0, one vertex per
    /// stride.
    pub fn get_binding_description() -> (r: [BindingDescription; 1])
        ensures
            r[0] == Self::binding_spec(),
    {
        [BindingDescription { binding: 0, stride: VERTEX_STRIDE, input_rate: InputRate::Vertex }]
    }

    /// The two attributes of a vertex: the position at location 0 and
    /// byte 0, the colour at location 1 and byte 16.
    pub fn get_attribute_descriptions() -> (r: [AttributeDescription; 2])
        ensures
            r@ == Self::attributes_spec(),
    {
        [
            AttributeDescription { binding: 0, location: 0, format: FORMAT_R32G32B32A32_SFLOAT, offset: 0 },
            AttributeDescription { binding: 0, location: 1, format: FORMAT_R32G32B32A32_SFLOAT, offset: 16 },
        ]
    }
}

} // verus!
