//! Vocabulary shared by the descriptions the renderer hands to the
//! driver: raw Vulkan codes, extents, image layouts and the objects a
//! teardown destroys.

use vstd::prelude::*;

verus! {

/// `VK_FORMAT_R8G8B8A8_SRGB`.
pub const FORMAT_R8G8B8A8_SRGB: i32 = 43;

/// `VK_FORMAT_B8G8R8A8_UNORM`.
pub const FORMAT_B8G8R8A8_UNORM: i32 = 44;

/// `VK_FORMAT_R32G32B32A32_SFLOAT`.
pub const FORMAT_R32G32B32A32_SFLOAT: i32 = 109;

/// `VK_IMAGE_USAGE_TRANSFER_DST_BIT`.
pub const IMAGE_USAGE_TRANSFER_DST: u32 = 0x2;

/// `VK_IMAGE_USAGE_SAMPLED_BIT`.
pub const IMAGE_USAGE_SAMPLED: u32 = 0x4;

/// `VK_IMAGE_USAGE_COLOR_ATTACHMENT_BIT`.
pub const IMAGE_USAGE_COLOR_ATTACHMENT: u32 = 0x10;

/// `VK_BUFFER_USAGE_TRANSFER_SRC_BIT`.
pub const BUFFER_USAGE_TRANSFER_SRC: u32 = 0x1;

/// `VK_BUFFER_USAGE_INDEX_BUFFER_BIT`.
pub const BUFFER_USAGE_INDEX_BUFFER: u32 = 0x40;

/// `VK_BUFFER_USAGE_VERTEX_BUFFER_BIT`.
pub const BUFFER_USAGE_VERTEX_BUFFER: u32 = 0x80;

/// `VK_ACCESS_SHADER_READ_BIT`.
pub const ACCESS_SHADER_READ: u32 = 0x20;

/// `VK_ACCESS_COLOR_ATTACHMENT_READ_BIT`.
pub const ACCESS_COLOR_ATTACHMENT_READ: u32 = 0x80;

/// `VK_ACCESS_COLOR_ATTACHMENT_WRITE_BIT`.
pub const ACCESS_COLOR_ATTACHMENT_WRITE: u32 = 0x100;

/// `VK_ACCESS_TRANSFER_WRITE_BIT`.
pub const ACCESS_TRANSFER_WRITE: u32 = 0x1000;

/// `VK_PIPELINE_STAGE_TOP_OF_PIPE_BIT`.
pub const STAGE_TOP_OF_PIPE: u32 = 0x1;

/// `VK_PIPELINE_STAGE_FRAGMENT_SHADER_BIT`.
pub const STAGE_FRAGMENT_SHADER: u32 = 0x80;

/// `VK_PIPELINE_STAGE_COLOR_ATTACHMENT_OUTPUT_BIT`.
pub const STAGE_COLOR_ATTACHMENT_OUTPUT: u32 = 0x400;

/// `VK_PIPELINE_STAGE_TRANSFER_BIT`.
pub const STAGE_TRANSFER: u32 = 0x1000;

/// `VK_SHADER_STAGE_VERTEX_BIT`.
pub const SHADER_STAGE_VERTEX: u32 = 0x1;

/// `VK_SHADER_STAGE_FRAGMENT_BIT`.
pub const SHADER_STAGE_FRAGMENT: u32 = 0x10;

/// `VK_COMMAND_POOL_CREATE_RESET_COMMAND_BUFFER_BIT`.
pub const COMMAND_POOL_RESET_COMMAND_BUFFER: u32 = 0x2;

/// A timeout that never expires.
pub const NO_TIMEOUT: u64 = 0xffff_ffff_ffff_ffff;

/// Width and height of a surface or an image, in pixels.
#[derive(Clone, Copy, Debug, PartialEq, Eq, Structural)]
pub struct Extent2D {
    pub width: u32,
    pub height: u32,
}

/// The layouts an image of the renderer passes through.
#[derive(Clone, Copy, Debug, PartialEq, Eq, Structural)]
pub enum ImageLayout {
    Undefined,
    ColorAttachmentOptimal,
    ShaderReadOnlyOptimal,
    TransferDstOptimal,
    PresentSrc,
}

/// A device object to destroy, by its raw handle.
#[derive(Clone, Copy, Debug, PartialEq, Eq, Structural)]
pub enum Destroy {
    Fence(u64),
    Semaphore(u64),
    Framebuffer(u64),
    ImageView(u64),
    Image(u64),
    Sampler(u64),
    Buffer(u64),
    Swapchain(u64),
    DescriptorSetLayout(u64),
    Pipeline(u64),
    PipelineLayout(u64),
    RenderPass(u64),
    CommandPool(u64),
}

impl ImageLayout {
    /// The `VkImageLayout` code of the layout.
    pub open spec fn code(self) -> i32 {
        match self {
            ImageLayout::Undefined => 0,
            ImageLayout::ColorAttachmentOptimal => 2,
            ImageLayout::ShaderReadOnlyOptimal => 5,
            ImageLayout::TransferDstOptimal => 7,
            ImageLayout::PresentSrc => 1_000_001_002,
        }
    }

    pub fn raw(&self) -> (r: i32)
        ensures
            r == self.code(),
    {
        match self {
            ImageLayout::Undefined => 0,
            ImageLayout::ColorAttachmentOptimal => 2,
            ImageLayout::ShaderReadOnlyOptimal => 5,
            ImageLayout::TransferDstOptimal => 7,
            ImageLayout::PresentSrc => 1_000_001_002,
        }
    }
}

} // verus!
