//! Textures: device-local images filled once from decoded pixels through
//! a staging buffer.

use crate::allocator::{
    lemma_allocate_then_free_restores, Allocation, AllocationError, Allocator, AllocatorState, MemoryLocation,
    Placement, Unbound,
};
use crate::device::{
    Destroy, ImageLayout, ACCESS_SHADER_READ, ACCESS_TRANSFER_WRITE, BUFFER_USAGE_TRANSFER_SRC,
    FORMAT_R8G8B8A8_SRGB, IMAGE_USAGE_SAMPLED, IMAGE_USAGE_TRANSFER_DST, STAGE_FRAGMENT_SHADER,
    STAGE_TOP_OF_PIPE, STAGE_TRANSFER,
};
use crate::command_pool::Pools;
use crate::pipeline::DescriptorKind;
use crate::queue::Queues;
use crate::swapchain::{ImageViewRequest, IMAGE_ASPECT_COLOR};
use vstd::prelude::*;

verus! {

/// Bytes of one RGBA8 pixel.
pub const BYTES_PER_PIXEL: u64 = 4;

/// The image a texture is stored in.
#[derive(Clone, Copy, Debug, PartialEq, Eq, Structural)]
pub struct ImageRequest {
    pub width: u32,
    pub height: u32,
    pub depth: u32,
    pub mip_levels: u32,
    pub array_layers: u32,
    /// Raw `VkFormat`.
    pub format: i32,
    /// Raw `VkImageUsageFlags`.
    pub usage: u32,
}

/// The buffer the pixels are staged in.
#[derive(Clone, Copy, Debug, PartialEq, Eq, Structural)]
pub struct StagingRequest {
    pub size: u64,
    /// Raw `VkBufferUsageFlags`.
    pub usage: u32,
}

/// How a sampler reads between texels.
#[derive(Clone, Copy, Debug, PartialEq, Eq, Structural)]
pub enum Filter {
    Nearest,
    Linear,
}

/// The sampler a texture is read through.
#[derive(Clone, Copy, Debug, PartialEq, Eq, Structural)]
pub struct SamplerRequest {
    pub mag_filter: Filter,
    pub min_filter: Filter,
}

/// How the upload is submitted: one command buffer from `pool`, used
/// once, on `queue`, with a fence of its own that is waited for.
#[derive(Clone, Copy, Debug, PartialEq, Eq, Structural)]
pub struct UploadSubmission {
    pub pool: u64,
    pub queue: u64,
    pub one_time: bool,
}

/// What to write into a descriptor set so that the textured pipeline
/// reads a texture.
#[derive(Clone, Copy, Debug, PartialEq, Eq, Structural)]
pub struct DescriptorWrite {
    pub binding: u32,
    pub array_element: u32,
    pub kind: DescriptorKind,
    pub count: u32,
    /// The layout the image is in when it is read.
    pub image_layout: ImageLayout,
    pub imageview: u64,
    pub sampler: u64,
}

/// A pipeline barrier that moves an image from one layout to another.
#[derive(Clone, Copy, Debug, PartialEq, Eq, Structural)]
pub struct LayoutTransition {
    pub image: u64,
    pub old_layout: ImageLayout,
    pub new_layout: ImageLayout,
    /// Raw `VkAccessFlags` that must be complete before the barrier.
    pub src_access: u32,
    /// Raw `VkAccessFlags` that wait for the barrier.
    pub dst_access: u32,
    /// Raw `VkPipelineStageFlags` before the barrier.
    pub src_stage: u32,
    /// Raw `VkPipelineStageFlags` after the barrier.
    pub dst_stage: u32,
}

/// One command of the one-time upload.
#[derive(Clone, Copy, Debug, PartialEq, Eq, Structural)]
pub enum TransferCommand {
    Barrier(LayoutTransition),
    /// Copies the whole staging buffer into the whole image, which must
    /// be in `layout`.
    CopyBufferToImage { buffer: u64, image: u64, layout: ImageLayout, width: u32, height: u32 },
}

/// Why a texture could not be created.
#[derive(Clone, Copy, Debug, PartialEq, Eq, Structural)]
pub enum TextureError {
    /// The pixel buffer is not `width * height` tightly packed RGBA8
    /// pixels.
    PixelSizeMismatch,
    /// No memory for the image.
    ImageMemory(AllocationError),
    /// No memory for the staging buffer.
    StagingMemory(AllocationError),
}

/// An upload in flight: the image and the staging buffer have memory, the
/// commands are to be recorded and submitted, and the staging memory is
/// still to be released.
#[derive(Debug)]
pub struct TextureUpload {
    pub width: u32,
    pub height: u32,
    pub vk_image: u64,
    pub allocation: Allocation,
    pub staging_buffer: u64,
    pub staging_allocation: Allocation,
    pub commands: Vec<TransferCommand>,
}

/// A sampled image: the image, its view, its memory and its sampler.
#[derive(Debug)]
pub struct Texture {
    pub width: u32,
    pub height: u32,
    pub vk_image: u64,
    pub imageview: u64,
    pub allocation: Allocation,
    pub sampler: u64,
}

/// Bytes of a tightly packed RGBA8 image.
pub open spec fn pixel_bytes(width: u32, height: u32) -> nat {
    (4 * width * height) as nat
}

/// The layout an image is left in by `commands` when it starts out in
/// `start`; `None` when a barrier names an old layout the image is not
/// in, or a copy names a layout the image is not in or that cannot be
/// written by a transfer.
pub open spec fn layout_after(commands: Seq<TransferCommand>, start: ImageLayout) -> Option<ImageLayout>
    decreases commands.len(),
{
    if commands.len() == 0 {
        Some(start)
    } else {
        match layout_after(commands.drop_last(), start) {
            None => None,
            Some(current) => match commands.last() {
                TransferCommand::Barrier(t) => if t.old_layout == current {
                    Some(t.new_layout)
                } else {
                    None
                },
                TransferCommand::CopyBufferToImage { layout, .. } => if layout == current && layout
                    == ImageLayout::TransferDstOptimal {
                    Some(current)
                } else {
                    None
                },
            },
        }
    }
}

/// The barrier that makes a fresh image writable by a transfer.
pub open spec fn to_transfer_dst(image: u64) -> LayoutTransition {
    LayoutTransition {
        image,
        old_layout: ImageLayout::Undefined,
        new_layout: ImageLayout::TransferDstOptimal,
        src_access: 0,
        dst_access: ACCESS_TRANSFER_WRITE,
        src_stage: STAGE_TOP_OF_PIPE,
        dst_stage: STAGE_TRANSFER,
    }
}

/// The barrier that makes a written image readable by fragment shaders.
pub open spec fn to_shader_read(image: u64) -> LayoutTransition {
    LayoutTransition {
        image,
        old_layout: ImageLayout::TransferDstOptimal,
        new_layout: ImageLayout::ShaderReadOnlyOptimal,
        src_access: ACCESS_TRANSFER_WRITE,
        dst_access: ACCESS_SHADER_READ,
        src_stage: STAGE_TRANSFER,
        dst_stage: STAGE_FRAGMENT_SHADER,
    }
}

/// The upload: make the image writable, copy, make it readable.
pub open spec fn upload_sequence(image: u64, staging: u64, width: u32, height: u32) -> Seq<TransferCommand> {
    seq![
        TransferCommand::Barrier(to_transfer_dst(image)),
        TransferCommand::CopyBufferToImage {
            buffer: staging,
            image,
            layout: ImageLayout::TransferDstOptimal,
            width,
            height,
        },
        TransferCommand::Barrier(to_shader_read(image)),
    ]
}

/// The upload takes the image from `Undefined` to `ShaderReadOnlyOptimal`
/// with every command finding the image in the layout it names, and the
/// image becomes readable only with the last command.
pub proof fn lemma_upload_layouts(image: u64, staging: u64, width: u32, height: u32)
    ensures
        layout_after(upload_sequence(image, staging, width, height), ImageLayout::Undefined) == Some(
            ImageLayout::ShaderReadOnlyOptimal,
        ),
        forall|n: int|
            0 <= n < 3 ==> layout_after(
                #[trigger] upload_sequence(image, staging, width, height).take(n),
                ImageLayout::Undefined,
            ) != Some(ImageLayout::ShaderReadOnlyOptimal),
{
    let s = upload_sequence(image, staging, width, height);
    let s0 = s.take(0);
    let s1 = s.take(1);
    let s2 = s.take(2);
    assert(s1.drop_last() =~= s0);
    assert(s2.drop_last() =~= s1);
    assert(s.drop_last() =~= s2);
    assert(layout_after(s0, ImageLayout::Undefined) == Some(ImageLayout::Undefined));
    assert(s1.last() == s[0]);
    assert(layout_after(s1, ImageLayout::Undefined) == Some(ImageLayout::TransferDstOptimal));
    assert(s2.last() == s[1]);
    assert(layout_after(s2, ImageLayout::Undefined) == Some(ImageLayout::TransferDstOptimal));
    assert(s.last() == s[2]);
    assert forall|n: int| 0 <= n < 3 implies layout_after(#[trigger] s.take(n), ImageLayout::Undefined)
        != Some(ImageLayout::ShaderReadOnlyOptimal) by {
        if n == 0 {
            assert(s.take(n) == s0);
        } else if n == 1 {
            assert(s.take(n) == s1);
        } else {
            assert(s.take(n) == s2);
        }
    }
}

impl Texture {
    /// The device-local image for a texture of the given size: one 2D
    /// sRGB image, one mip level, one layer, written by a transfer and
    /// read through a sampler.
    pub fn image_request(width: u32, height: u32) -> (r: ImageRequest)
        ensures
            r == (ImageRequest {
                width,
                height,
                depth: 1,
                mip_levels: 1,
                array_layers: 1,
                format: FORMAT_R8G8B8A8_SRGB,
                usage: IMAGE_USAGE_TRANSFER_DST | IMAGE_USAGE_SAMPLED,
            }),
    {
        ImageRequest {
            width,
            height,
            depth: 1,
            mip_levels: 1,
            array_layers: 1,
            format: FORMAT_R8G8B8A8_SRGB,
            usage: IMAGE_USAGE_TRANSFER_DST | IMAGE_USAGE_SAMPLED,
        }
    }

    /// The staging buffer for `pixel_len` bytes of pixels, or an error
    /// when that is not the size of a `width` by `height` RGBA8 image.
    pub fn staging_request(width: u32, height: u32, pixel_len: usize) -> (r: Result<
        StagingRequest,
        TextureError,
    >)
        ensures
            pixel_len == pixel_bytes(width, height) ==> r == Ok::<StagingRequest, TextureError>(
                StagingRequest { size: pixel_len as u64, usage: BUFFER_USAGE_TRANSFER_SRC },
            ),
            pixel_len != pixel_bytes(width, height) ==> r == Err::<StagingRequest, TextureError>(
                TextureError::PixelSizeMismatch,
            ),
    {
        assert(width * height <= 0xffff_ffff * 0xffff_ffff) by (nonlinear_arith)
            requires
                width <= 0xffff_ffff,
                height <= 0xffff_ffff,
        ;
        let area: u64 = (width as u64) * (height as u64);
        let expected: u128 = 4u128 * (area as u128);
        assert(expected == 4 * width * height) by (nonlinear_arith)
            requires
                expected == 4 * area,
                area == width * height,
        ;
        if pixel_len as u128 == expected {
            Ok(StagingRequest { size: pixel_len as u64, usage: BUFFER_USAGE_TRANSFER_SRC })
        } else {
            Err(TextureError::PixelSizeMismatch)
        }
    }

    /// The view on the image of a texture: a 2D colour view of its one
    /// mip level and layer, in the format of the image.
    pub fn view_request(image: u64) -> (r: ImageViewRequest)
        ensures
            r == (ImageViewRequest {
                image,
                format: FORMAT_R8G8B8A8_SRGB,
                aspect_mask: IMAGE_ASPECT_COLOR,
                base_mip_level: 0,
                level_count: 1,
                base_array_layer: 0,
                layer_count: 1,
            }),
    {
        ImageViewRequest {
            image,
            format: FORMAT_R8G8B8A8_SRGB,
            aspect_mask: IMAGE_ASPECT_COLOR,
            base_mip_level: 0,
            level_count: 1,
            base_array_layer: 0,
            layer_count: 1,
        }
    }

    /// The sampler of a texture: linear interpolation both ways.
    pub fn sampler_request() -> (r: SamplerRequest)
        ensures
            r == (SamplerRequest { mag_filter: Filter::Linear, min_filter: Filter::Linear }),
    {
        SamplerRequest { mag_filter: Filter::Linear, min_filter: Filter::Linear }
    }

    /// How the upload is submitted: on the graphics queue, from the
    /// graphics pool, once.
    pub fn upload_submission(queues: &Queues, pools: &Pools) -> (r: UploadSubmission)
        ensures
            r == (UploadSubmission {
                pool: pools.graphics_command_pool,
                queue: queues.graphics_queue,
                one_time: true,
            }),
    {
        UploadSubmission { pool: pools.graphics_command_pool, queue: queues.graphics_queue, one_time: true }
    }

    /// The commands of the one-time upload, in order.
    pub fn upload_commands(image: u64, staging: u64, width: u32, height: u32) -> (r: Vec<TransferCommand>)
        ensures
            r@ == upload_sequence(image, staging, width, height),
            layout_after(r@, ImageLayout::Undefined) == Some(ImageLayout::ShaderReadOnlyOptimal),
    {
        proof {
            lemma_upload_layouts(image, staging, width, height);
        }
        let mut commands: Vec<TransferCommand> = Vec::new();
        commands.push(
            TransferCommand::Barrier(
                LayoutTransition {
                    image,
                    old_layout: ImageLayout::Undefined,
                    new_layout: ImageLayout::TransferDstOptimal,
                    src_access: 0,
                    dst_access: ACCESS_TRANSFER_WRITE,
                    src_stage: STAGE_TOP_OF_PIPE,
                    dst_stage: STAGE_TRANSFER,
                },
            ),
        );
        commands.push(
            TransferCommand::CopyBufferToImage {
                buffer: staging,
                image,
                layout: ImageLayout::TransferDstOptimal,
                width,
                height,
            },
        );
        commands.push(
            TransferCommand::Barrier(
                LayoutTransition {
                    image,
                    old_layout: ImageLayout::TransferDstOptimal,
                    new_layout: ImageLayout::ShaderReadOnlyOptimal,
                    src_access: ACCESS_TRANSFER_WRITE,
                    dst_access: ACCESS_SHADER_READ,
                    src_stage: STAGE_TRANSFER,
                    dst_stage: STAGE_FRAGMENT_SHADER,
                },
            ),
        );
        assert(commands@ =~= upload_sequence(image, staging, width, height));
        commands
    }
}

/// What [`Texture::begin_upload`] returns.
pub open spec fn upload_result(
    state: AllocatorState,
    width: u32,
    height: u32,
    pixel_len: usize,
    image: Unbound,
    staging: Unbound,
) -> Result<(Placement, Placement), TextureError> {
    if pixel_len != pixel_bytes(width, height) {
        Err(TextureError::PixelSizeMismatch)
    } else {
        match state.allocation_result(image.requirements, MemoryLocation::GpuOnly) {
            Err(e) => Err(TextureError::ImageMemory(e)),
            Ok(image_memory) => match state.after_allocate(
                image.requirements,
                MemoryLocation::GpuOnly,
            ).allocation_result(staging.requirements, MemoryLocation::CpuToGpu) {
                Err(e) => Err(TextureError::StagingMemory(e)),
                Ok(staging_memory) => Ok((image_memory, staging_memory)),
            },
        }
    }
}

/// The allocator after [`Texture::begin_upload`]: both allocations made,
/// or none.
pub open spec fn after_upload_begin(
    state: AllocatorState,
    width: u32,
    height: u32,
    pixel_len: usize,
    image: Unbound,
    staging: Unbound,
) -> AllocatorState {
    if upload_result(state, width, height, pixel_len, image, staging) is Ok {
        state.after_allocate(image.requirements, MemoryLocation::GpuOnly).after_allocate(
            staging.requirements,
            MemoryLocation::CpuToGpu,
        )
    } else {
        state
    }
}

impl Texture {
    /// Starts the upload of `pixel_len` bytes of decoded pixels into the
    /// image `image`, through the staging buffer `staging`. It checks the
    /// size of the pixel buffer, places the image in device-local memory
    /// and the staging buffer in host-visible memory, and lists the
    /// commands to record. On any error the allocator is left as it was.
    pub fn begin_upload(
        allocator: &mut Allocator,
        width: u32,
        height: u32,
        pixel_len: usize,
        image: Unbound,
        staging: Unbound,
    ) -> (r: Result<TextureUpload, TextureError>)
        ensures
            final(allocator)@.wf(),
            final(allocator)@ == after_upload_begin(old(allocator)@, width, height, pixel_len, image, staging),
            match r {
                Ok(upload) => {
                    &&& upload_result(old(allocator)@, width, height, pixel_len, image, staging) == Ok::<
                        (Placement, Placement),
                        TextureError,
                    >((upload.allocation@, upload.staging_allocation@))
                    &&& upload.width == width
                    &&& upload.height == height
                    &&& upload.vk_image == image.handle
                    &&& upload.staging_buffer == staging.handle
                    &&& upload.commands@ == upload_sequence(image.handle, staging.handle, width, height)
                },
                Err(e) => upload_result(old(allocator)@, width, height, pixel_len, image, staging) == Err::<
                    (Placement, Placement),
                    TextureError,
                >(e),
            },
    {
        proof {
            use_type_invariant(&*allocator);
        }
        if Texture::staging_request(width, height, pixel_len).is_err() {
            return Err(TextureError::PixelSizeMismatch);
        }
        let ghost before = allocator@;
        let allocation = match allocator.allocate(&image.requirements, MemoryLocation::GpuOnly) {
            Ok(a) => a,
            Err(e) => {
                return Err(TextureError::ImageMemory(e));
            },
        };
        match allocator.allocate(&staging.requirements, MemoryLocation::CpuToGpu) {
            Ok(staging_allocation) => Ok(
                TextureUpload {
                    width,
                    height,
                    vk_image: image.handle,
                    allocation,
                    staging_buffer: staging.handle,
                    staging_allocation,
                    commands: Texture::upload_commands(image.handle, staging.handle, width, height),
                },
            ),
            Err(e) => {
                proof {
                    lemma_allocate_then_free_restores(before, image.requirements, MemoryLocation::GpuOnly);
                }
                let released = allocator.free(allocation);
                Err(TextureError::StagingMemory(e))
            },
        }
    }

    /// Releases the memory of the texture and lists the device objects
    /// to destroy, in order: the view, the image, the sampler. The memory
    /// is released only if it is live in `allocator`; the result tells.
    pub fn destroy(self, allocator: &mut Allocator) -> (r: (Vec<Destroy>, Result<(), AllocationError>))
        ensures
            final(allocator)@.wf(),
            final(allocator)@ == old(allocator)@.after_free(self.allocation@),
            r.0@ == seq![
                Destroy::ImageView(self.imageview),
                Destroy::Image(self.vk_image),
                Destroy::Sampler(self.sampler),
            ],
            r.1 is Ok <==> old(allocator)@.holds(self.allocation@),
            r.1 matches Err(e) ==> e == AllocationError::UnknownAllocation,
    {
        let mut steps: Vec<Destroy> = Vec::new();
        steps.push(Destroy::ImageView(self.imageview));
        steps.push(Destroy::Image(self.vk_image));
        steps.push(Destroy::Sampler(self.sampler));
        let released = allocator.free(self.allocation);
        (steps, released)
    }
}

impl Texture {
    /// The write that makes the texture the one combined image sampler
    /// at binding 0 of a descriptor set, read in the layout the upload
    /// leaves the image in.
    pub fn descriptor_write(&self) -> (r: DescriptorWrite)
        ensures
            r == (DescriptorWrite {
                binding: 0,
                array_element: 0,
                kind: DescriptorKind::CombinedImageSampler,
                count: 1,
                image_layout: ImageLayout::ShaderReadOnlyOptimal,
                imageview: self.imageview,
                sampler: self.sampler,
            }),
    {
        DescriptorWrite {
            binding: 0,
            array_element: 0,
            kind: DescriptorKind::CombinedImageSampler,
            count: 1,
            image_layout: ImageLayout::ShaderReadOnlyOptimal,
            imageview: self.imageview,
            sampler: self.sampler,
        }
    }
}

impl TextureUpload {
    /// Ends the upload once the commands have run: releases the staging
    /// memory and yields the texture with its view and sampler. The
    /// second component lists what to destroy: the staging buffer.
    pub fn finish(self, allocator: &mut Allocator, imageview: u64, sampler: u64) -> (r: (
        Texture,
        Vec<Destroy>,
        Result<(), AllocationError>,
    ))
        ensures
            final(allocator)@.wf(),
            final(allocator)@ == old(allocator)@.after_free(self.staging_allocation@),
            r.0.width == self.width,
            r.0.height == self.height,
            r.0.vk_image == self.vk_image,
            r.0.imageview == imageview,
            r.0.sampler == sampler,
            r.0.allocation@ == self.allocation@,
            r.1@ == seq![Destroy::Buffer(self.staging_buffer)],
            r.2 is Ok <==> old(allocator)@.holds(self.staging_allocation@),
            r.2 matches Err(e) ==> e == AllocationError::UnknownAllocation,
    {
        let mut steps: Vec<Destroy> = Vec::new();
        steps.push(Destroy::Buffer(self.staging_buffer));
        let released = allocator.free(self.staging_allocation);
        let texture = Texture {
            width: self.width,
            height: self.height,
            vk_image: self.vk_image,
            imageview,
            allocation: self.allocation,
            sampler,
        };
        (texture, steps, released)
    }
}

} // verus!
