//! The single render pass of the renderer: one colour attachment, one
//! subpass.

use crate::device::{
    Destroy, ImageLayout, ACCESS_COLOR_ATTACHMENT_READ, ACCESS_COLOR_ATTACHMENT_WRITE,
    STAGE_COLOR_ATTACHMENT_OUTPUT,
};
use vstd::prelude::*;

verus! {

/// `VK_SUBPASS_EXTERNAL`: what happens outside the render pass.
pub const SUBPASS_EXTERNAL: u32 = 0xffff_ffff;

/// What happens to an attachment when the pass begins.
#[derive(Clone, Copy, Debug, PartialEq, Eq, Structural)]
pub enum LoadOp {
    Load,
    Clear,
    DontCare,
}

/// What happens to an attachment when the pass ends.
#[derive(Clone, Copy, Debug, PartialEq, Eq, Structural)]
pub enum StoreOp {
    Store,
    DontCare,
}

/// The colour attachment of the pass.
#[derive(Clone, Copy, Debug, PartialEq, Eq, Structural)]
pub struct AttachmentDescription {
    /// Raw `VkFormat`; it is the format of the chain's images.
    pub format: i32,
    pub samples: u32,
    pub load_op: LoadOp,
    pub store_op: StoreOp,
    pub stencil_load_op: LoadOp,
    pub stencil_store_op: StoreOp,
    pub initial_layout: ImageLayout,
    pub final_layout: ImageLayout,
}

/// The use a subpass makes of an attachment.
#[derive(Clone, Copy, Debug, PartialEq, Eq, Structural)]
pub struct AttachmentReference {
    pub attachment: u32,
    pub layout: ImageLayout,
}

/// An ordering between two subpasses.
#[derive(Clone, Copy, Debug, PartialEq, Eq, Structural)]
pub struct SubpassDependency {
    pub src_subpass: u32,
    pub dst_subpass: u32,
    /// Raw `VkPipelineStageFlags`.
    pub src_stage_mask: u32,
    /// Raw `VkPipelineStageFlags`.
    pub dst_stage_mask: u32,
    /// Raw `VkAccessFlags`.
    pub dst_access_mask: u32,
}

/// Everything the driver needs to create the render pass.
#[derive(Clone, Copy, Debug, PartialEq, Eq, Structural)]
pub struct RenderPassDescription {
    pub attachment: AttachmentDescription,
    pub color_reference: AttachmentReference,
    pub dependency: SubpassDependency,
}

/// Namespace of the render pass.
pub struct RenderPass {}

impl RenderPass {
    /// The render pass for images of `format`.
    pub open spec fn description(format: i32) -> RenderPassDescription {
        RenderPassDescription {
            attachment: AttachmentDescription {
                format,
                samples: 1,
                load_op: LoadOp::Clear,
                store_op: StoreOp::Store,
                stencil_load_op: LoadOp::DontCare,
                stencil_store_op: StoreOp::DontCare,
                initial_layout: ImageLayout::Undefined,
                final_layout: ImageLayout::PresentSrc,
            },
            color_reference: AttachmentReference { attachment: 0, layout: ImageLayout::ColorAttachmentOptimal },
            dependency: SubpassDependency {
                src_subpass: SUBPASS_EXTERNAL,
                dst_subpass: 0,
                src_stage_mask: STAGE_COLOR_ATTACHMENT_OUTPUT,
                dst_stage_mask: STAGE_COLOR_ATTACHMENT_OUTPUT,
                dst_access_mask: ACCESS_COLOR_ATTACHMENT_READ | ACCESS_COLOR_ATTACHMENT_WRITE,
            },
        }
    }

    /// Describes the render pass: the attachment is cleared on load,
    /// stored at the end and left ready for presentation; the one
    /// subpass draws to it as attachment 0 and waits, at the colour
    /// output stage, for what came before the pass.
    pub fn init_renderpass(format: i32) -> (r: RenderPassDescription)
        ensures
            r == Self::description(format),
    {
        RenderPassDescription {
            attachment: AttachmentDescription {
                format,
                samples: 1,
                load_op: LoadOp::Clear,
                store_op: StoreOp::Store,
                stencil_load_op: LoadOp::DontCare,
                stencil_store_op: StoreOp::DontCare,
                initial_layout: ImageLayout::Undefined,
                final_layout: ImageLayout::PresentSrc,
            },
            color_reference: AttachmentReference { attachment: 0, layout: ImageLayout::ColorAttachmentOptimal },
            dependency: SubpassDependency {
                src_subpass: SUBPASS_EXTERNAL,
                dst_subpass: 0,
                src_stage_mask: STAGE_COLOR_ATTACHMENT_OUTPUT,
                dst_stage_mask: STAGE_COLOR_ATTACHMENT_OUTPUT,
                dst_access_mask: ACCESS_COLOR_ATTACHMENT_READ | ACCESS_COLOR_ATTACHMENT_WRITE,
            },
        }
    }

    /// What to destroy to release the render pass.
    pub fn cleanup_renderpass(renderpass: u64) -> (r: Destroy)
        ensures
            r == Destroy::RenderPass(renderpass),
    {
        Destroy::RenderPass(renderpass)
    }
}

} // verus!
