//! Graphics pipelines: one for untextured geometry, one for textured
//! geometry, and the table that maps a renderable's selector to its
//! pipeline.

use crate::device::{Destroy, Extent2D, SHADER_STAGE_FRAGMENT};
use crate::textured_vertex::TexturedVertex;
use crate::vertex::{AttributeDescription, BindingDescription, Vertex};
use vstd::prelude::*;

verus! {

/// `VK_COLOR_COMPONENT_R_BIT | G | B | A`.
pub const COLOR_WRITE_ALL: u32 = 0xf;

/// `VK_CULL_MODE_NONE`.
pub const CULL_MODE_NONE: u32 = 0;

/// Which pipeline draws a renderable.
#[derive(Clone, Copy, Debug, PartialEq, Eq, Structural)]
pub enum PipelineSelector {
    Untextured,
    Textured,
}

/// A programmable stage of a pipeline.
#[derive(Clone, Copy, Debug, PartialEq, Eq, Structural)]
pub enum ShaderStage {
    Vertex,
    Fragment,
}

/// Names a precompiled shader: the variant it belongs to and its stage.
#[derive(Clone, Copy, Debug, PartialEq, Eq, Structural)]
pub struct ShaderKey {
    pub selector: PipelineSelector,
    pub stage: ShaderStage,
}

/// How vertices are assembled into primitives.
#[derive(Clone, Copy, Debug, PartialEq, Eq, Structural)]
pub enum Topology {
    PointList,
    TriangleList,
}

/// How polygons are rasterized.
#[derive(Clone, Copy, Debug, PartialEq, Eq, Structural)]
pub enum PolygonMode {
    Fill,
    Line,
}

/// Which winding is the front of a polygon.
#[derive(Clone, Copy, Debug, PartialEq, Eq, Structural)]
pub enum FrontFace {
    CounterClockwise,
    Clockwise,
}

/// A factor of the blend equation.
#[derive(Clone, Copy, Debug, PartialEq, Eq, Structural)]
pub enum BlendFactor {
    SrcAlpha,
    OneMinusSrcAlpha,
}

/// An operator of the blend equation.
#[derive(Clone, Copy, Debug, PartialEq, Eq, Structural)]
pub enum BlendOp {
    Add,
}

/// How a fragment is blended into the colour attachment.
#[derive(Clone, Copy, Debug, PartialEq, Eq, Structural)]
pub struct BlendDescription {
    pub enable: bool,
    pub src_color: BlendFactor,
    pub dst_color: BlendFactor,
    pub color_op: BlendOp,
    pub src_alpha: BlendFactor,
    pub dst_alpha: BlendFactor,
    pub alpha_op: BlendOp,
    /// Raw `VkColorComponentFlags`.
    pub write_mask: u32,
}

/// The kind of resource a descriptor names.
#[derive(Clone, Copy, Debug, PartialEq, Eq, Structural)]
pub enum DescriptorKind {
    CombinedImageSampler,
}

/// One binding of a descriptor set layout.
#[derive(Clone, Copy, Debug, PartialEq, Eq, Structural)]
pub struct DescriptorBinding {
    pub binding: u32,
    pub kind: DescriptorKind,
    pub count: u32,
    /// Raw `VkShaderStageFlags`.
    pub stage_flags: u32,
}

/// Everything the driver needs to create one pipeline.
#[derive(Clone, Copy, Debug)]
pub struct PipelineDescription {
    pub selector: PipelineSelector,
    pub vertex_shader: ShaderKey,
    pub fragment_shader: ShaderKey,
    pub binding: BindingDescription,
    pub attributes: [AttributeDescription; 2],
    pub topology: Topology,
    /// The viewport covers this extent from the origin, depth 0 to 1.
    pub viewport: Extent2D,
    /// The scissor covers this extent from the origin.
    pub scissor: Extent2D,
    pub polygon_mode: PolygonMode,
    /// Raw `VkCullModeFlags`.
    pub cull_mode: u32,
    pub front_face: FrontFace,
    pub samples: u32,
    pub blend: BlendDescription,
    /// The one binding of the pipeline's one descriptor set layout, if it
    /// has a layout.
    pub descriptor_binding: Option<DescriptorBinding>,
    pub render_pass: u64,
    pub subpass: u32,
}

/// A pipeline with its layout and the descriptor set layouts it owns.
#[derive(Clone, Debug)]
pub struct Pipeline {
    pub pipeline: u64,
    pub layout: u64,
    pub descriptor_set_layouts: Vec<u64>,
}

/// The pipelines of the renderer, one for each selector.
#[derive(Clone, Debug)]
pub struct PipelineSet {
    pub untextured: Pipeline,
    pub textured: Pipeline,
}

/// Alpha blending: source times its alpha plus destination times one
/// minus that alpha, all components written.
pub open spec fn alpha_blend() -> BlendDescription {
    BlendDescription {
        enable: true,
        src_color: BlendFactor::SrcAlpha,
        dst_color: BlendFactor::OneMinusSrcAlpha,
        color_op: BlendOp::Add,
        src_alpha: BlendFactor::SrcAlpha,
        dst_alpha: BlendFactor::OneMinusSrcAlpha,
        alpha_op: BlendOp::Add,
        write_mask: COLOR_WRITE_ALL,
    }
}

/// The sampler binding of the textured pipeline: binding 0, one combined
/// image sampler, read by the fragment stage.
pub open spec fn texture_binding() -> DescriptorBinding {
    DescriptorBinding {
        binding: 0,
        kind: DescriptorKind::CombinedImageSampler,
        count: 1,
        stage_flags: SHADER_STAGE_FRAGMENT,
    }
}

impl PipelineDescription {
    /// What the two pipelines share: filled, unculled triangle lists with
    /// counter-clockwise fronts, one sample per pixel, alpha blending,
    /// viewport and scissor over the whole extent, subpass 0.
    pub open spec fn common(self, selector: PipelineSelector, extent: Extent2D, render_pass: u64) -> bool {
        &&& self.selector == selector
        &&& self.vertex_shader == (ShaderKey { selector, stage: ShaderStage::Vertex })
        &&& self.fragment_shader == (ShaderKey { selector, stage: ShaderStage::Fragment })
        &&& self.topology == Topology::TriangleList
        &&& self.viewport == extent
        &&& self.scissor == extent
        &&& self.polygon_mode == PolygonMode::Fill
        &&& self.cull_mode == CULL_MODE_NONE
        &&& self.front_face == FrontFace::CounterClockwise
        &&& self.samples == 1
        &&& self.blend == alpha_blend()
        &&& self.render_pass == render_pass
        &&& self.subpass == 0
    }
}

fn blend_state() -> (r: BlendDescription)
    ensures
        r == alpha_blend(),
{
    BlendDescription {
        enable: true,
        src_color: BlendFactor::SrcAlpha,
        dst_color: BlendFactor::OneMinusSrcAlpha,
        color_op: BlendOp::Add,
        src_alpha: BlendFactor::SrcAlpha,
        dst_alpha: BlendFactor::OneMinusSrcAlpha,
        alpha_op: BlendOp::Add,
        write_mask: COLOR_WRITE_ALL,
    }
}

impl Pipeline {
    /// The sequence a cleanup destroys: each descriptor set layout in
    /// order, then the pipeline, then its layout.
    pub open spec fn teardown(self) -> Seq<Destroy> {
        Seq::new(
            self.descriptor_set_layouts@.len(),
            |i: int| Destroy::DescriptorSetLayout(self.descriptor_set_layouts@[i]),
        ) + seq![Destroy::Pipeline(self.pipeline), Destroy::PipelineLayout(self.layout)]
    }

    /// What to destroy to release the pipeline, in order.
    pub fn cleanup(&self) -> (r: Vec<Destroy>)
        ensures
            r@ == self.teardown(),
    {
        let mut steps: Vec<Destroy> = Vec::new();
        let mut i: usize = 0;
        while i < self.descriptor_set_layouts.len()
            invariant
                0 <= i <= self.descriptor_set_layouts.len(),
                steps@.len() == i,
                forall|j: int|
                    0 <= j < i ==> steps@[j] == Destroy::DescriptorSetLayout(self.descriptor_set_layouts@[j]),
            decreases self.descriptor_set_layouts.len() - i,
        {
            steps.push(Destroy::DescriptorSetLayout(self.descriptor_set_layouts[i]));
            i += 1;
        }
        steps.push(Destroy::Pipeline(self.pipeline));
        steps.push(Destroy::PipelineLayout(self.layout));
        assert(steps@ =~= self.teardown());
        steps
    }

    /// Describes the pipeline for untextured geometry over a chain of
    /// the given extent: it reads [`Vertex`] and has no descriptor set
    /// layout.
    pub fn init(extent: Extent2D, render_pass: u64) -> (r: PipelineDescription)
        ensures
            r.common(PipelineSelector::Untextured, extent, render_pass),
            r.binding == Vertex::binding_spec(),
            r.attributes@ == Vertex::attributes_spec(),
            r.descriptor_binding is None,
    {
        let bindings = Vertex::get_binding_description();
        PipelineDescription {
            selector: PipelineSelector::Untextured,
            vertex_shader: ShaderKey { selector: PipelineSelector::Untextured, stage: ShaderStage::Vertex },
            fragment_shader: ShaderKey { selector: PipelineSelector::Untextured, stage: ShaderStage::Fragment },
            binding: bindings[0],
            attributes: Vertex::get_attribute_descriptions(),
            topology: Topology::TriangleList,
            viewport: extent,
            scissor: extent,
            polygon_mode: PolygonMode::Fill,
            cull_mode: CULL_MODE_NONE,
            front_face: FrontFace::CounterClockwise,
            samples: 1,
            blend: blend_state(),
            descriptor_binding: None,
            render_pass,
            subpass: 0,
        }
    }

    /// Describes the pipeline for textured geometry over a chain of the
    /// given extent: it reads [`TexturedVertex`] and has one descriptor
    /// set layout, with the sampler binding.
    pub fn init_textured(extent: Extent2D, render_pass: u64) -> (r: PipelineDescription)
        ensures
            r.common(PipelineSelector::Textured, extent, render_pass),
            r.binding == TexturedVertex::binding_spec(),
            r.attributes@ == TexturedVertex::attributes_spec(),
            r.descriptor_binding == Some(texture_binding()),
    {
        let bindings = TexturedVertex::get_binding_description();
        PipelineDescription {
            selector: PipelineSelector::Textured,
            vertex_shader: ShaderKey { selector: PipelineSelector::Textured, stage: ShaderStage::Vertex },
            fragment_shader: ShaderKey { selector: PipelineSelector::Textured, stage: ShaderStage::Fragment },
            binding: bindings[0],
            attributes: TexturedVertex::get_attribute_descriptions(),
            topology: Topology::TriangleList,
            viewport: extent,
            scissor: extent,
            polygon_mode: PolygonMode::Fill,
            cull_mode: CULL_MODE_NONE,
            front_face: FrontFace::CounterClockwise,
            samples: 1,
            blend: blend_state(),
            descriptor_binding: Some(
                DescriptorBinding {
                    binding: 0,
                    kind: DescriptorKind::CombinedImageSampler,
                    count: 1,
                    stage_flags: SHADER_STAGE_FRAGMENT,
                },
            ),
            render_pass,
            subpass: 0,
        }
    }
}

impl PipelineSet {
    /// The pipeline a selector stands for.
    pub open spec fn lookup(self, selector: PipelineSelector) -> Pipeline {
        match selector {
            PipelineSelector::Untextured => self.untextured,
            PipelineSelector::Textured => self.textured,
        }
    }

    /// Looks a pipeline up by its selector.
    pub fn get(&self, selector: PipelineSelector) -> (r: &Pipeline)
        ensures
            *r == self.lookup(selector),
    {
        match selector {
            PipelineSelector::Untextured => &self.untextured,
            PipelineSelector::Textured => &self.textured,
        }
    }

    /// What to destroy to release both pipelines: the untextured one
    /// first.
    pub fn cleanup(&self) -> (r: Vec<Destroy>)
        ensures
            r@ == self.untextured.teardown() + self.textured.teardown(),
    {
        let mut steps = self.untextured.cleanup();
        let mut rest = self.textured.cleanup();
        steps.append(&mut rest);
        steps
    }
}

} // verus!
