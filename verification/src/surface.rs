//! What a surface reports to the renderer.

use crate::device::Extent2D;
use vstd::prelude::*;

verus! {

/// The limits and the current state of a surface.
#[derive(Clone, Copy, Debug, PartialEq, Eq, Structural)]
pub struct SurfaceCapabilities {
    pub min_image_count: u32,
    pub max_image_count: u32,
    pub current_extent: Extent2D,
    /// Raw `VkSurfaceTransformFlagBitsKHR`.
    pub current_transform: u32,
}

/// A format and colour space a surface supports.
#[derive(Clone, Copy, Debug, PartialEq, Eq, Structural)]
pub struct SurfaceFormat {
    /// Raw `VkFormat`.
    pub format: i32,
    /// Raw `VkColorSpaceKHR`.
    pub color_space: i32,
}

/// How finished images reach the screen.
#[derive(Clone, Copy, Debug, PartialEq, Eq, Structural)]
pub enum PresentMode {
    Immediate,
    Mailbox,
    Fifo,
    FifoRelaxed,
}

/// A surface for one physical device: its handle and what the driver
/// reported of it.
#[derive(Clone, Debug)]
pub struct VulkanSurface {
    pub surface: u64,
    pub capabilities: SurfaceCapabilities,
    pub present_modes: Vec<PresentMode>,
    pub formats: Vec<SurfaceFormat>,
    /// Entry `i` tells whether queue family `i` can present to the
    /// surface.
    pub present_support: Vec<bool>,
}

impl VulkanSurface {
    /// The limits and the current state of the surface.
    pub fn get_capabilities(&self) -> (r: SurfaceCapabilities)
        ensures
            r == self.capabilities,
    {
        self.capabilities
    }

    /// The presentation modes of the surface, in the driver's order.
    pub fn get_present_modes(&self) -> (r: &[PresentMode])
        ensures
            r@ == self.present_modes@,
    {
        self.present_modes.as_slice()
    }

    /// The formats of the surface, in the driver's order.
    pub fn get_formats(&self) -> (r: &[SurfaceFormat])
        ensures
            r@ == self.formats@,
    {
        self.formats.as_slice()
    }

    /// Tells whether a queue family can present to the surface; `None`
    /// for a family the device does not have.
    pub fn get_physical_device_surface_support(&self, queue_family_index: usize) -> (r: Option<bool>)
        ensures
            queue_family_index < self.present_support@.len() ==> r == Some(
                self.present_support@[queue_family_index as int],
            ),
            queue_family_index >= self.present_support@.len() ==> r is None,
    {
        if queue_family_index < self.present_support.len() {
            Some(self.present_support[queue_family_index])
        } else {
            None
        }
    }
}

} // verus!
