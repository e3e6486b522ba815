use ash::vk;
use render_core::device::{Destroy, Extent2D, FORMAT_B8G8R8A8_UNORM, IMAGE_USAGE_COLOR_ATTACHMENT};
use render_core::queue::QueueFamilies;
use render_core::surface::{PresentMode, SurfaceCapabilities, SurfaceFormat, VulkanSurface};
use render_core::swapchain::{
    ChainError, FramebufferRequest, ImageViewRequest, SlotSync, SwapchainRequest, SyncRequest, VulkanSwapchain,
    COMPOSITE_ALPHA_OPAQUE, IMAGE_ASPECT_COLOR,
};

fn capabilities(min: u32, max: u32) -> SurfaceCapabilities {
    SurfaceCapabilities {
        min_image_count: min,
        max_image_count: max,
        current_extent: Extent2D { width: 800, height: 600 },
        current_transform: 1,
    }
}

fn formats() -> Vec<SurfaceFormat> {
    vec![SurfaceFormat { format: 44, color_space: 0 }, SurfaceFormat { format: 50, color_space: 0 }]
}

fn families() -> QueueFamilies {
    QueueFamilies { graphics: Some(2), transfer: Some(1) }
}

fn sync(n: u64) -> Vec<SlotSync> {
    (0..n)
        .map(|i| SlotSync { image_available: 100 + i, rendering_finished: 200 + i, may_begin_drawing: 300 + i })
        .collect()
}

fn chain(n: u64) -> VulkanSwapchain {
    let request = VulkanSwapchain::request(9, &capabilities(2, 4), &formats(), &families()).unwrap();
    let images: Vec<u64> = (0..n).map(|i| 10 + i).collect();
    let views: Vec<u64> = (0..n).map(|i| 20 + i).collect();
    VulkanSwapchain::init(&request, 77, images, views, sync(n)).unwrap()
}

#[test]
fn chain_constants_are_those_of_ash() {
    assert_eq!(FORMAT_B8G8R8A8_UNORM, vk::Format::B8G8R8A8_UNORM.as_raw());
    assert_eq!(IMAGE_USAGE_COLOR_ATTACHMENT, vk::ImageUsageFlags::COLOR_ATTACHMENT.as_raw());
    assert_eq!(COMPOSITE_ALPHA_OPAQUE, vk::CompositeAlphaFlagsKHR::OPAQUE.as_raw());
    assert_eq!(IMAGE_ASPECT_COLOR, vk::ImageAspectFlags::COLOR.as_raw());
}

#[test]
fn surface_with_two_to_four_images_gets_three() {
    let request = VulkanSwapchain::request(9, &capabilities(2, 4), &formats(), &families()).unwrap();
    assert_eq!(request.min_image_count, 3);
    let c = chain(3);
    assert_eq!(c.amount_of_images(), 3);
    assert_eq!(c.images().len(), 3);
    assert_eq!(c.imageviews().len(), 3);
    assert_eq!(c.sync().len(), 3);
    assert_eq!(c.current_image(), 0);
}

#[test]
fn image_count_is_three_clamped_to_the_surface() {
    assert_eq!(VulkanSwapchain::image_count(&capabilities(2, 4)), 3);
    assert_eq!(VulkanSwapchain::image_count(&capabilities(3, 3)), 3);
    assert_eq!(VulkanSwapchain::image_count(&capabilities(4, 8)), 4);
    assert_eq!(VulkanSwapchain::image_count(&capabilities(1, 2)), 2);
    assert_eq!(VulkanSwapchain::image_count(&capabilities(1, 1)), 1);
    assert_eq!(VulkanSwapchain::image_count(&capabilities(0, u32::MAX)), 3);
    assert_eq!(VulkanSwapchain::image_count(&capabilities(5, 2)), 2);
    assert_eq!(VulkanSwapchain::image_count(&capabilities(2, 0)), 0);
}

#[test]
fn request_takes_first_format_and_fifo() {
    let request = VulkanSwapchain::request(9, &capabilities(2, 4), &formats(), &families());
    assert_eq!(
        request,
        Ok(SwapchainRequest {
            surface: 9,
            min_image_count: 3,
            surface_format: SurfaceFormat { format: 44, color_space: 0 },
            extent: Extent2D { width: 800, height: 600 },
            array_layers: 1,
            usage: IMAGE_USAGE_COLOR_ATTACHMENT,
            exclusive: true,
            queue_family_index: 2,
            pre_transform: 1,
            composite_alpha: COMPOSITE_ALPHA_OPAQUE,
            present_mode: PresentMode::Fifo,
        })
    );
}

#[test]
fn request_needs_a_format_and_a_graphics_family() {
    assert_eq!(
        VulkanSwapchain::request(9, &capabilities(2, 4), &[], &families()),
        Err(ChainError::NoSurfaceFormat)
    );
    let no_graphics = QueueFamilies { graphics: None, transfer: Some(1) };
    assert_eq!(
        VulkanSwapchain::request(9, &capabilities(2, 4), &formats(), &no_graphics),
        Err(ChainError::NoGraphicsQueue)
    );
    assert_eq!(
        VulkanSwapchain::request(9, &capabilities(2, 4), &[], &no_graphics),
        Err(ChainError::NoSurfaceFormat)
    );
}

#[test]
fn one_view_is_asked_for_each_image() {
    let views = VulkanSwapchain::image_view_requests(&[5, 6]);
    let view = |image| ImageViewRequest {
        image,
        format: FORMAT_B8G8R8A8_UNORM,
        aspect_mask: IMAGE_ASPECT_COLOR,
        base_mip_level: 0,
        level_count: 1,
        base_array_layer: 0,
        layer_count: 1,
    };
    assert_eq!(views, vec![view(5), view(6)]);
    assert_eq!(VulkanSwapchain::image_view_requests(&[]), vec![]);
}

#[test]
fn sync_objects_are_one_set_per_image_with_signaled_fences() {
    assert_eq!(VulkanSwapchain::sync_request(3), SyncRequest { slots: 3, fences_signaled: true });
}

#[test]
fn chain_keeps_what_it_was_built_from() {
    let c = chain(2);
    assert_eq!(c.handle(), 77);
    assert_eq!(c.images(), &[10, 11]);
    assert_eq!(c.imageviews(), &[20, 21]);
    assert!(c.framebuffers().is_empty());
    assert_eq!(c.surface_format(), SurfaceFormat { format: 44, color_space: 0 });
    assert_eq!(c.extent(), Extent2D { width: 800, height: 600 });
    assert_eq!(
        c.current_sync(),
        SlotSync { image_available: 100, rendering_finished: 200, may_begin_drawing: 300 }
    );
}

#[test]
fn chain_without_images_is_refused() {
    let request = VulkanSwapchain::request(9, &capabilities(2, 4), &formats(), &families()).unwrap();
    let r = VulkanSwapchain::init(&request, 77, vec![], vec![], vec![]);
    assert_eq!(r.err(), Some(ChainError::NoImages));
    let r = VulkanSwapchain::init(&request, 77, vec![], vec![1], sync(1));
    assert_eq!(r.err(), Some(ChainError::NoImages));
}

#[test]
fn chain_with_uneven_slots_is_refused() {
    let request = VulkanSwapchain::request(9, &capabilities(2, 4), &formats(), &families()).unwrap();
    let r = VulkanSwapchain::init(&request, 77, vec![1, 2, 3], vec![4, 5], sync(3));
    assert_eq!(r.err(), Some(ChainError::SlotCountMismatch));
    let r = VulkanSwapchain::init(&request, 77, vec![1, 2, 3], vec![4, 5, 6], sync(4));
    assert_eq!(r.err(), Some(ChainError::SlotCountMismatch));
}

#[test]
fn slot_cycles_through_all_slots() {
    let mut c = chain(3);
    let mut seen = vec![];
    for _ in 0..7 {
        let slot = c.advance();
        assert_eq!(slot, c.current_image());
        assert!(slot < c.amount_of_images());
        seen.push(slot);
    }
    assert_eq!(seen, vec![1, 2, 0, 1, 2, 0, 1]);
    assert_eq!(c.current_sync().may_begin_drawing, 301);
}

#[test]
fn single_slot_chain_stays_on_its_slot() {
    let mut c = chain(1);
    assert_eq!(c.advance(), 0);
    assert_eq!(c.advance(), 0);
}

#[test]
fn framebuffers_are_asked_for_each_view() {
    let c = chain(2);
    let fb = |attachment| FramebufferRequest { render_pass: 55, attachment, width: 800, height: 600, layers: 1 };
    assert_eq!(c.framebuffer_requests(55), vec![fb(20), fb(21)]);
}

#[test]
fn framebuffers_are_taken_once_and_one_per_image() {
    let mut c = chain(2);
    assert_eq!(c.create_framebuffers(vec![30]), Err(ChainError::SlotCountMismatch));
    assert!(c.framebuffers().is_empty());
    assert_eq!(c.create_framebuffers(vec![30, 31]), Ok(()));
    assert_eq!(c.framebuffers(), &[30, 31]);
    assert_eq!(c.create_framebuffers(vec![40, 41]), Err(ChainError::SlotCountMismatch));
    assert_eq!(c.framebuffers(), &[30, 31]);
    assert_eq!(c.amount_of_images(), c.framebuffers().len());
}

#[test]
fn cleanup_destroys_sync_objects_then_framebuffers_views_and_chain() {
    let mut c = chain(2);
    c.create_framebuffers(vec![30, 31]).unwrap();
    assert_eq!(
        c.cleanup(),
        vec![
            Destroy::Fence(300),
            Destroy::Fence(301),
            Destroy::Semaphore(100),
            Destroy::Semaphore(101),
            Destroy::Semaphore(200),
            Destroy::Semaphore(201),
            Destroy::Framebuffer(30),
            Destroy::Framebuffer(31),
            Destroy::ImageView(20),
            Destroy::ImageView(21),
            Destroy::Swapchain(77),
        ]
    );
}

#[test]
fn cleanup_of_a_chain_without_framebuffers_skips_them() {
    let c = chain(1);
    assert_eq!(
        c.cleanup(),
        vec![
            Destroy::Fence(300),
            Destroy::Semaphore(100),
            Destroy::Semaphore(200),
            Destroy::ImageView(20),
            Destroy::Swapchain(77),
        ]
    );
}

#[test]
fn surface_reports_what_was_queried() {
    let surface = VulkanSurface {
        surface: 4,
        capabilities: capabilities(2, 4),
        present_modes: vec![PresentMode::Fifo, PresentMode::Mailbox],
        formats: formats(),
        present_support: vec![false, true],
    };
    assert_eq!(surface.get_capabilities(), capabilities(2, 4));
    assert_eq!(surface.get_present_modes(), &[PresentMode::Fifo, PresentMode::Mailbox]);
    assert_eq!(surface.get_formats(), &formats()[..]);
    assert_eq!(surface.get_physical_device_surface_support(0), Some(false));
    assert_eq!(surface.get_physical_device_surface_support(1), Some(true));
    assert_eq!(surface.get_physical_device_surface_support(2), None);
}
