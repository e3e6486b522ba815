//! The presentable chain: the images the driver lends for presentation,
//! what is built on each of them, and the rotating slot that owns the
//! synchronization objects of the frame in flight.

use crate::device::{Destroy, Extent2D, FORMAT_B8G8R8A8_UNORM, IMAGE_USAGE_COLOR_ATTACHMENT};
use crate::queue::QueueFamilies;
use crate::surface::{PresentMode, SurfaceCapabilities, SurfaceFormat};
use vstd::prelude::*;

verus! {

/// Number of images the renderer would like: triple buffering.
pub const PREFERRED_IMAGE_COUNT: u32 = 3;

/// `VK_COMPOSITE_ALPHA_OPAQUE_BIT_KHR`.
pub const COMPOSITE_ALPHA_OPAQUE: u32 = 0x1;

/// `VK_IMAGE_ASPECT_COLOR_BIT`.
pub const IMAGE_ASPECT_COLOR: u32 = 0x1;

/// Why a chain could not be described or built.
#[derive(Clone, Copy, Debug, PartialEq, Eq, Structural)]
pub enum ChainError {
    /// The surface supports no format.
    NoSurfaceFormat,
    /// The queue topology has no graphics family.
    NoGraphicsQueue,
    /// The driver returned no image.
    NoImages,
    /// The views, the synchronization objects or the framebuffers are
    /// not one per image, or the framebuffers exist already.
    SlotCountMismatch,
}

/// Everything the driver needs to create the chain.
#[derive(Clone, Copy, Debug, PartialEq, Eq, Structural)]
pub struct SwapchainRequest {
    pub surface: u64,
    pub min_image_count: u32,
    pub surface_format: SurfaceFormat,
    pub extent: Extent2D,
    pub array_layers: u32,
    /// Raw `VkImageUsageFlags`.
    pub usage: u32,
    /// The images are used by one queue family at a time.
    pub exclusive: bool,
    pub queue_family_index: u32,
    /// Raw `VkSurfaceTransformFlagBitsKHR`.
    pub pre_transform: u32,
    /// Raw `VkCompositeAlphaFlagBitsKHR`.
    pub composite_alpha: u32,
    pub present_mode: PresentMode,
}

/// A view to create on one image of the chain.
#[derive(Clone, Copy, Debug, PartialEq, Eq, Structural)]
pub struct ImageViewRequest {
    pub image: u64,
    /// Raw `VkFormat`.
    pub format: i32,
    /// Raw `VkImageAspectFlags`.
    pub aspect_mask: u32,
    pub base_mip_level: u32,
    pub level_count: u32,
    pub base_array_layer: u32,
    pub layer_count: u32,
}

/// A framebuffer to create on one view of the chain.
#[derive(Clone, Copy, Debug, PartialEq, Eq, Structural)]
pub struct FramebufferRequest {
    pub render_pass: u64,
    pub attachment: u64,
    pub width: u32,
    pub height: u32,
    pub layers: u32,
}

/// The synchronization objects to create: two semaphores and one fence
/// for each slot.
#[derive(Clone, Copy, Debug, PartialEq, Eq, Structural)]
pub struct SyncRequest {
    pub slots: usize,
    /// The fences start out signaled, so that the first frame of each
    /// slot does not wait.
    pub fences_signaled: bool,
}

/// The synchronization objects of one slot.
#[derive(Clone, Copy, Debug, PartialEq, Eq, Structural)]
pub struct SlotSync {
    /// Semaphore the driver signals when the acquired image is ready.
    pub image_available: u64,
    /// Semaphore the GPU signals when the frame has been rendered.
    pub rendering_finished: u64,
    /// Fence the GPU signals when the slot's submission has retired.
    pub may_begin_drawing: u64,
}

/// The chain as contracts see it.
pub struct SwapchainView {
    pub swapchain: u64,
    pub images: Seq<u64>,
    pub imageviews: Seq<u64>,
    pub framebuffers: Seq<u64>,
    pub surface_format: SurfaceFormat,
    pub extent: Extent2D,
    pub sync: Seq<SlotSync>,
    pub amount_of_images: usize,
    pub current_image: usize,
}

/// The presentable chain.
#[derive(Debug)]
pub struct VulkanSwapchain {
    swapchain: u64,
    images: Vec<u64>,
    imageviews: Vec<u64>,
    framebuffers: Vec<u64>,
    surface_format: SurfaceFormat,
    extent: Extent2D,
    sync: Vec<SlotSync>,
    amount_of_images: usize,
    current_image: usize,
}

/// The number of images to ask for: three, raised to the least the
/// surface supports and then lowered to the most it supports. The upper
/// limit is applied last, so where a surface reports a maximum below its
/// minimum the maximum wins; a maximum of zero gives zero.
pub open spec fn chosen_image_count(min_supported: u32, max_supported: u32) -> u32 {
    let wanted = if PREFERRED_IMAGE_COUNT < min_supported {
        min_supported
    } else {
        PREFERRED_IMAGE_COUNT
    };
    if wanted > max_supported {
        max_supported
    } else {
        wanted
    }
}

/// Where the surface's limits are in order, the chosen count is three
/// clamped to them.
pub proof fn lemma_image_count_clamped(min_supported: u32, max_supported: u32)
    requires
        min_supported <= max_supported,
    ensures
        min_supported <= chosen_image_count(min_supported, max_supported) <= max_supported,
        min_supported <= PREFERRED_IMAGE_COUNT <= max_supported ==> chosen_image_count(
            min_supported,
            max_supported,
        ) == PREFERRED_IMAGE_COUNT,
        PREFERRED_IMAGE_COUNT < min_supported ==> chosen_image_count(min_supported, max_supported)
            == min_supported,
        max_supported < PREFERRED_IMAGE_COUNT ==> chosen_image_count(min_supported, max_supported)
            == max_supported,
{
}

/// The slot after `current` in a chain of `slots` slots.
pub open spec fn next_slot(current: usize, slots: usize) -> usize
    recommends
        slots > 0,
{
    ((current + 1) % (slots as int)) as usize
}

impl SwapchainView {
    /// There is at least one image; views and synchronization objects
    /// are one per image; framebuffers are one per image once they
    /// exist; the current slot is a slot.
    pub open spec fn wf(self) -> bool {
        &&& self.amount_of_images > 0
        &&& self.amount_of_images == self.images.len()
        &&& self.imageviews.len() == self.images.len()
        &&& self.sync.len() == self.images.len()
        &&& (self.framebuffers.len() == 0 || self.framebuffers.len() == self.images.len())
        &&& self.current_image < self.amount_of_images
    }

    /// The synchronization objects of the current slot.
    pub open spec fn current_sync(self) -> SlotSync {
        self.sync[self.current_image as int]
    }

    /// The sequence a cleanup destroys: the fences, the image-available
    /// semaphores, the rendering-finished semaphores, the framebuffers,
    /// the views, and last the chain itself.
    pub open spec fn teardown(self) -> Seq<Destroy> {
        Seq::new(self.sync.len(), |i: int| Destroy::Fence(self.sync[i].may_begin_drawing)) + Seq::new(
            self.sync.len(),
            |i: int| Destroy::Semaphore(self.sync[i].image_available),
        ) + Seq::new(self.sync.len(), |i: int| Destroy::Semaphore(self.sync[i].rendering_finished))
            + Seq::new(self.framebuffers.len(), |i: int| Destroy::Framebuffer(self.framebuffers[i]))
            + Seq::new(self.imageviews.len(), |i: int| Destroy::ImageView(self.imageviews[i]))
            + seq![Destroy::Swapchain(self.swapchain)]
    }
}

impl View for VulkanSwapchain {
    type V = SwapchainView;

    closed spec fn view(&self) -> SwapchainView {
        SwapchainView {
            swapchain: self.swapchain,
            images: self.images@,
            imageviews: self.imageviews@,
            framebuffers: self.framebuffers@,
            surface_format: self.surface_format,
            extent: self.extent,
            sync: self.sync@,
            amount_of_images: self.amount_of_images,
            current_image: self.current_image,
        }
    }
}

impl VulkanSwapchain {
    /// Every chain is well formed.
    #[verifier::type_invariant]
    pub open spec fn inv(&self) -> bool {
        self@.wf()
    }

    /// The number of images to ask the driver for.
    pub fn image_count(capabilities: &SurfaceCapabilities) -> (r: u32)
        ensures
            r == chosen_image_count(capabilities.min_image_count, capabilities.max_image_count),
    {
        let wanted: u32 = if PREFERRED_IMAGE_COUNT < capabilities.min_image_count {
            capabilities.min_image_count
        } else {
            PREFERRED_IMAGE_COUNT
        };
        if wanted > capabilities.max_image_count {
            capabilities.max_image_count
        } else {
            wanted
        }
    }

    /// The chain described by [`VulkanSwapchain::request`] on success.
    pub open spec fn request_spec(
        surface: u64,
        capabilities: SurfaceCapabilities,
        format: SurfaceFormat,
        graphics: u32,
    ) -> SwapchainRequest {
        SwapchainRequest {
            surface,
            min_image_count: chosen_image_count(capabilities.min_image_count, capabilities.max_image_count),
            surface_format: format,
            extent: capabilities.current_extent,
            array_layers: 1,
            usage: IMAGE_USAGE_COLOR_ATTACHMENT,
            exclusive: true,
            queue_family_index: graphics,
            pre_transform: capabilities.current_transform,
            composite_alpha: COMPOSITE_ALPHA_OPAQUE,
            present_mode: PresentMode::Fifo,
        }
    }

    /// Describes the chain for a surface: the first format the surface
    /// supports, the surface's current extent and transform, the chosen
    /// number of images, colour attachments owned by the graphics family,
    /// opaque, presented in FIFO order. It fails when the surface
    /// supports no format, or else when there is no graphics family.
    pub fn request(
        surface: u64,
        capabilities: &SurfaceCapabilities,
        formats: &[SurfaceFormat],
        queue_families: &QueueFamilies,
    ) -> (r: Result<SwapchainRequest, ChainError>)
        ensures
            formats@.len() == 0 ==> r == Err::<SwapchainRequest, ChainError>(ChainError::NoSurfaceFormat),
            formats@.len() > 0 ==> match queue_families.graphics {
                None => r == Err::<SwapchainRequest, ChainError>(ChainError::NoGraphicsQueue),
                Some(g) => r == Ok::<SwapchainRequest, ChainError>(
                    Self::request_spec(surface, *capabilities, formats@[0], g),
                ),
            },
    {
        if formats.len() == 0 {
            return Err(ChainError::NoSurfaceFormat);
        }
        match queue_families.graphics {
            None => Err(ChainError::NoGraphicsQueue),
            Some(g) => Ok(
                SwapchainRequest {
                    surface,
                    min_image_count: Self::image_count(capabilities),
                    surface_format: formats[0],
                    extent: capabilities.current_extent,
                    array_layers: 1,
                    usage: IMAGE_USAGE_COLOR_ATTACHMENT,
                    exclusive: true,
                    queue_family_index: g,
                    pre_transform: capabilities.current_transform,
                    composite_alpha: COMPOSITE_ALPHA_OPAQUE,
                    present_mode: PresentMode::Fifo,
                },
            ),
        }
    }

    /// The view on `image`: a 2D colour view of the first mip level and
    /// layer. Its format is always `B8G8R8A8_UNORM`, whatever the format
    /// of the chain.
    pub open spec fn view_of(image: u64) -> ImageViewRequest {
        ImageViewRequest {
            image,
            format: FORMAT_B8G8R8A8_UNORM,
            aspect_mask: IMAGE_ASPECT_COLOR,
            base_mip_level: 0,
            level_count: 1,
            base_array_layer: 0,
            layer_count: 1,
        }
    }

    /// The views to create, one on each image, in the order of the
    /// images.
    pub fn image_view_requests(images: &[u64]) -> (r: Vec<ImageViewRequest>)
        ensures
            r@.len() == images@.len(),
            forall|i: int| 0 <= i < images@.len() ==> r@[i] == Self::view_of(images@[i]),
    {
        let mut requests: Vec<ImageViewRequest> = Vec::new();
        let mut i: usize = 0;
        while i < images.len()
            invariant
                0 <= i <= images.len(),
                requests@.len() == i,
                forall|j: int| 0 <= j < i ==> requests@[j] == Self::view_of(images@[j]),
            decreases images.len() - i,
        {
            requests.push(
                ImageViewRequest {
                    image: images[i],
                    format: FORMAT_B8G8R8A8_UNORM,
                    aspect_mask: IMAGE_ASPECT_COLOR,
                    base_mip_level: 0,
                    level_count: 1,
                    base_array_layer: 0,
                    layer_count: 1,
                },
            );
            i += 1;
        }
        requests
    }

    /// The synchronization objects to create for a chain of
    /// `image_count` images: one slot per image, fences signaled.
    pub fn sync_request(image_count: usize) -> (r: SyncRequest)
        ensures
            r == (SyncRequest { slots: image_count, fences_signaled: true }),
    {
        SyncRequest { slots: image_count, fences_signaled: true }
    }

    /// Builds the chain from what the driver created: the chain, its
    /// images, one view per image and one set of synchronization objects
    /// per image. The chain starts at slot 0 and without framebuffers.
    /// It fails when there is no image, or else when views or
    /// synchronization objects are not one per image.
    pub fn init(
        request: &SwapchainRequest,
        swapchain: u64,
        images: Vec<u64>,
        imageviews: Vec<u64>,
        sync: Vec<SlotSync>,
    ) -> (r: Result<VulkanSwapchain, ChainError>)
        ensures
            images@.len() == 0 ==> r == Err::<VulkanSwapchain, ChainError>(ChainError::NoImages),
            images@.len() > 0 && (imageviews@.len() != images@.len() || sync@.len() != images@.len()) ==> r
                == Err::<VulkanSwapchain, ChainError>(ChainError::SlotCountMismatch),
            images@.len() > 0 && imageviews@.len() == images@.len() && sync@.len() == images@.len() ==> (r
                matches Ok(chain) && chain@ == (SwapchainView {
                swapchain,
                images: images@,
                imageviews: imageviews@,
                framebuffers: Seq::<u64>::empty(),
                surface_format: request.surface_format,
                extent: request.extent,
                sync: sync@,
                amount_of_images: images@.len() as usize,
                current_image: 0,
            }) && chain@.wf()),
    {
        if images.len() == 0 {
            return Err(ChainError::NoImages);
        }
        if imageviews.len() != images.len() || sync.len() != images.len() {
            return Err(ChainError::SlotCountMismatch);
        }
        let amount_of_images: usize = images.len();
        Ok(
            VulkanSwapchain {
                swapchain,
                images,
                imageviews,
                framebuffers: Vec::new(),
                surface_format: request.surface_format,
                extent: request.extent,
                sync,
                amount_of_images,
                current_image: 0,
            },
        )
    }

    /// The framebuffer on `view` for a chain of the given extent.
    pub open spec fn framebuffer_of(render_pass: u64, view: u64, extent: Extent2D) -> FramebufferRequest {
        FramebufferRequest { render_pass, attachment: view, width: extent.width, height: extent.height, layers: 1 }
    }

    /// The framebuffers to create for a render pass, one on each view,
    /// in the order of the views.
    pub fn framebuffer_requests(&self, render_pass: u64) -> (r: Vec<FramebufferRequest>)
        ensures
            r@.len() == self@.imageviews.len(),
            forall|i: int|
                0 <= i < self@.imageviews.len() ==> r@[i] == Self::framebuffer_of(
                    render_pass,
                    self@.imageviews[i],
                    self@.extent,
                ),
    {
        let mut requests: Vec<FramebufferRequest> = Vec::new();
        let mut i: usize = 0;
        while i < self.imageviews.len()
            invariant
                0 <= i <= self.imageviews.len(),
                requests@.len() == i,
                forall|j: int|
                    0 <= j < i ==> requests@[j] == Self::framebuffer_of(
                        render_pass,
                        self.imageviews@[j],
                        self.extent,
                    ),
            decreases self.imageviews.len() - i,
        {
            requests.push(
                FramebufferRequest {
                    render_pass,
                    attachment: self.imageviews[i],
                    width: self.extent.width,
                    height: self.extent.height,
                    layers: 1,
                },
            );
            i += 1;
        }
        requests
    }

    /// Takes the framebuffers the driver created. It fails, and changes
    /// nothing, when the chain has framebuffers already or when they are
    /// not one per image.
    pub fn create_framebuffers(&mut self, framebuffers: Vec<u64>) -> (r: Result<(), ChainError>)
        ensures
            final(self)@.wf(),
            old(self)@.framebuffers.len() == 0 && framebuffers@.len() == old(self)@.images.len() ==> {
                &&& r is Ok
                &&& final(self)@ == (SwapchainView { framebuffers: framebuffers@, ..old(self)@ })
            },
            !(old(self)@.framebuffers.len() == 0 && framebuffers@.len() == old(self)@.images.len()) ==> {
                &&& r == Err::<(), ChainError>(ChainError::SlotCountMismatch)
                &&& final(self)@ == old(self)@
            },
    {
        proof {
            use_type_invariant(&*self);
        }
        if self.framebuffers.len() != 0 || framebuffers.len() != self.images.len() {
            return Err(ChainError::SlotCountMismatch);
        }
        self.framebuffers = framebuffers;
        Ok(())
    }

    /// Moves on to the next slot, wrapping after the last, and returns
    /// it.
    pub fn advance(&mut self) -> (r: usize)
        ensures
            final(self)@.wf(),
            r == next_slot(old(self)@.current_image, old(self)@.amount_of_images),
            r < old(self)@.amount_of_images,
            final(self)@ == (SwapchainView { current_image: r, ..old(self)@ }),
        no_unwind
    {
        proof {
            use_type_invariant(&*self);
        }
        let next: usize = if self.current_image + 1 >= self.amount_of_images {
            0
        } else {
            self.current_image + 1
        };
        assert(next == next_slot(self.current_image, self.amount_of_images)) by {
            let c = self.current_image as int;
            let n = self.amount_of_images as int;
            if c + 1 >= n {
                assert(c + 1 == n);
                assert(n % n == 0) by (nonlinear_arith)
                    requires
                        n > 0,
                ;
            } else {
                assert((c + 1) % n == c + 1) by (nonlinear_arith)
                    requires
                        0 <= c + 1 < n,
                ;
            }
        }
        self.current_image = next;
        next
    }

    /// What to destroy to release the chain, in order.
    pub fn cleanup(&self) -> (r: Vec<Destroy>)
        ensures
            r@ == self@.teardown(),
    {
        let mut steps: Vec<Destroy> = Vec::new();
        let mut i: usize = 0;
        while i < self.sync.len()
            invariant
                0 <= i <= self.sync.len(),
                steps@ == Seq::new(i as nat, |k: int| Destroy::Fence(self.sync@[k].may_begin_drawing)),
            decreases self.sync.len() - i,
        {
            steps.push(Destroy::Fence(self.sync[i].may_begin_drawing));
            assert(steps@ =~= Seq::new((i + 1) as nat, |k: int| Destroy::Fence(self.sync@[k].may_begin_drawing)));
            i += 1;
        }
        let ghost fences = steps@;
        i = 0;
        while i < self.sync.len()
            invariant
                0 <= i <= self.sync.len(),
                steps@ == fences + Seq::new(i as nat, |k: int| Destroy::Semaphore(self.sync@[k].image_available)),
            decreases self.sync.len() - i,
        {
            steps.push(Destroy::Semaphore(self.sync[i].image_available));
            assert(steps@ =~= fences + Seq::new(
                (i + 1) as nat,
                |k: int| Destroy::Semaphore(self.sync@[k].image_available),
            ));
            i += 1;
        }
        let ghost available = steps@;
        i = 0;
        while i < self.sync.len()
            invariant
                0 <= i <= self.sync.len(),
                steps@ == available + Seq::new(
                    i as nat,
                    |k: int| Destroy::Semaphore(self.sync@[k].rendering_finished),
                ),
            decreases self.sync.len() - i,
        {
            steps.push(Destroy::Semaphore(self.sync[i].rendering_finished));
            assert(steps@ =~= available + Seq::new(
                (i + 1) as nat,
                |k: int| Destroy::Semaphore(self.sync@[k].rendering_finished),
            ));
            i += 1;
        }
        let ghost finished = steps@;
        i = 0;
        while i < self.framebuffers.len()
            invariant
                0 <= i <= self.framebuffers.len(),
                steps@ == finished + Seq::new(i as nat, |k: int| Destroy::Framebuffer(self.framebuffers@[k])),
            decreases self.framebuffers.len() - i,
        {
            steps.push(Destroy::Framebuffer(self.framebuffers[i]));
            assert(steps@ =~= finished + Seq::new(
                (i + 1) as nat,
                |k: int| Destroy::Framebuffer(self.framebuffers@[k]),
            ));
            i += 1;
        }
        let ghost framebuffers = steps@;
        i = 0;
        while i < self.imageviews.len()
            invariant
                0 <= i <= self.imageviews.len(),
                steps@ == framebuffers + Seq::new(i as nat, |k: int| Destroy::ImageView(self.imageviews@[k])),
            decreases self.imageviews.len() - i,
        {
            steps.push(Destroy::ImageView(self.imageviews[i]));
            assert(steps@ =~= framebuffers + Seq::new(
                (i + 1) as nat,
                |k: int| Destroy::ImageView(self.imageviews@[k]),
            ));
            i += 1;
        }
        steps.push(Destroy::Swapchain(self.swapchain));
        assert(steps@ =~= self@.teardown());
        steps
    }

    /// Raw handle of the chain.
    pub fn handle(&self) -> (r: u64)
        ensures
            r == self@.swapchain,
    {
        self.swapchain
    }

    /// The images of the chain.
    pub fn images(&self) -> (r: &[u64])
        ensures
            r@ == self@.images,
            r@.len() == self@.amount_of_images,
    {
        proof {
            use_type_invariant(self);
        }
        self.images.as_slice()
    }

    /// The views, one per image.
    pub fn imageviews(&self) -> (r: &[u64])
        ensures
            r@ == self@.imageviews,
            r@.len() == self@.amount_of_images,
    {
        proof {
            use_type_invariant(self);
        }
        self.imageviews.as_slice()
    }

    /// The framebuffers: none, or one per image.
    pub fn framebuffers(&self) -> (r: &[u64])
        ensures
            r@ == self@.framebuffers,
            r@.len() == 0 || r@.len() == self@.amount_of_images,
    {
        proof {
            use_type_invariant(self);
        }
        self.framebuffers.as_slice()
    }

    /// The format of the images.
    pub fn surface_format(&self) -> (r: SurfaceFormat)
        ensures
            r == self@.surface_format,
    {
        self.surface_format
    }

    /// The extent of the images.
    pub fn extent(&self) -> (r: Extent2D)
        ensures
            r == self@.extent,
    {
        self.extent
    }

    /// The number of slots, which is the number of images.
    pub fn amount_of_images(&self) -> (r: usize)
        ensures
            r == self@.amount_of_images,
            r == self@.images.len(),
            r > 0,
    {
        proof {
            use_type_invariant(self);
        }
        self.amount_of_images
    }

    /// The current slot.
    pub fn current_image(&self) -> (r: usize)
        ensures
            r == self@.current_image,
            r < self@.amount_of_images,
    {
        proof {
            use_type_invariant(self);
        }
        self.current_image
    }

    /// The synchronization objects of the current slot.
    pub fn current_sync(&self) -> (r: SlotSync)
        ensures
            r == self@.current_sync(),
    {
        proof {
            use_type_invariant(self);
        }
        self.sync[self.current_image]
    }

    /// The synchronization objects of every slot.
    pub fn sync(&self) -> (r: &[SlotSync])
        ensures
            r@ == self@.sync,
            r@.len() == self@.amount_of_images,
    {
        proof {
            use_type_invariant(self);
        }
        self.sync.as_slice()
    }
}

} // verus!
