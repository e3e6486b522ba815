//! The vertex of textured geometry and how a pipeline reads it.

use crate::device::FORMAT_R32G32B32A32_SFLOAT;
use crate::vertex::{AttributeDescription, BindingDescription, InputRate, WORD_BYTES};
use vstd::prelude::*;

verus! {

/// Bytes of one [`TexturedVertex`] in a vertex buffer.
pub const TEXTURED_VERTEX_STRIDE: u32 = 24;

/// A position of four 32-bit floats and a texture coordinate of two,
/// held as their bit patterns, laid out one after the other.
#[derive(Clone, Copy, Debug)]
pub struct TexturedVertex {
    pub pos: [u32; 4],
    pub tex_coord: [u32; 2],
}

impl TexturedVertex {
    /// The words of the vertex in memory order.
    pub open spec fn words(self) -> Seq<u32> {
        self.pos@ + self.tex_coord@
    }

    /// The vertex fills its stride exactly.
    pub proof fn lemma_words_fill_stride(self)
        ensures
            self.words().len() * WORD_BYTES == TEXTURED_VERTEX_STRIDE,
    {
    }

    /// The binding vertices are read from: binding 0, one vertex per
    /// stride.
    pub open spec fn binding_spec() -> BindingDescription {
        BindingDescription { binding: 0, stride: TEXTURED_VERTEX_STRIDE, input_rate: InputRate::Vertex }
    }

    /// The attributes of a vertex: location 0 at byte 0 and location 1 at
    /// byte 16, both declared as four 32-bit floats.
    pub open spec fn attributes_spec() -> Seq<AttributeDescription> {
        seq![
            AttributeDescription { binding: 0, location: 0, format: FORMAT_R32G32B32A32_SFLOAT, offset: 0 },
            AttributeDescription { binding: 0, location: 1, format: FORMAT_R32G32B32A32_SFLOAT, offset: 16 },
        ]
    }

    /// The one binding vertices are read from: binding 0, one vertex per
    /// stride.
    pub fn get_binding_description() -> (r: [BindingDescription; 1])
        ensures
            r[0] == Self::binding_spec(),
    {
        [BindingDescription { binding: 0, stride: TEXTURED_VERTEX_STRIDE, input_rate: InputRate::Vertex }]
    }

    /// The two attributes of a vertex: the position at location 0 and
    /// byte 0, the texture coordinate at location 1 and byte 16. Both
    /// are declared as four-float attributes.
    pub fn get_attribute_descriptions() -> (r: [AttributeDescription; 2])
        ensures
            r@ == Self::attributes_spec(),
    {
        [
            AttributeDescription { binding: 0, location: 0, format: FORMAT_R32G32B32A32_SFLOAT, offset: 0 },
            AttributeDescription { binding: 0, location: 1, format: FORMAT_R32G32B32A32_SFLOAT, offset: 16 },
        ]
    }
}

} // verus!
