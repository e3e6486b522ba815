//! The logical device: which queues and extensions it is opened with.

use crate::queue::{QueueError, QueueFamilies};
use vstd::prelude::*;

verus! {

/// A queue to open with the device.
#[derive(Clone, Copy, Debug, PartialEq, Eq, Structural)]
pub struct QueueRequest {
    pub queue_family_index: u32,
    /// Index of the queue in its family.
    pub queue_index: u32,
    pub queue_count: u32,
}

/// A device extension the renderer enables.
#[derive(Clone, Copy, Debug, PartialEq, Eq, Structural)]
pub enum DeviceExtension {
    /// `VK_KHR_swapchain`.
    Swapchain,
}

/// Everything the driver needs to open the device.
#[derive(Clone, Copy, Debug, PartialEq, Eq, Structural)]
pub struct DeviceRequest {
    pub graphics: QueueRequest,
    pub transfer: QueueRequest,
    pub extension: DeviceExtension,
}

/// Namespace of the logical device.
pub struct LogicalDevice {}

impl LogicalDevice {
    /// One queue, the first, of family `family`.
    pub open spec fn first_queue(family: u32) -> QueueRequest {
        QueueRequest { queue_family_index: family, queue_index: 0, queue_count: 1 }
    }

    /// Describes the device: the first queue of the graphics family, the
    /// first queue of the transfer family, and the swapchain extension.
    /// Both queues are asked for even where one family serves as both.
    /// It fails when a family is missing, the graphics family first.
    pub fn init_device_and_queues(queue_families: &QueueFamilies) -> (r: Result<DeviceRequest, QueueError>)
        ensures
            match (queue_families.graphics, queue_families.transfer) {
                (Some(g), Some(t)) => r == Ok::<DeviceRequest, QueueError>(
                    DeviceRequest {
                        graphics: Self::first_queue(g),
                        transfer: Self::first_queue(t),
                        extension: DeviceExtension::Swapchain,
                    },
                ),
                (None, _) => r == Err::<DeviceRequest, QueueError>(QueueError::NoGraphicsQueue),
                (Some(_), None) => r == Err::<DeviceRequest, QueueError>(QueueError::NoTransferQueue),
            },
    {
        match queue_families.graphics {
            None => Err(QueueError::NoGraphicsQueue),
            Some(g) => match queue_families.transfer {
                None => Err(QueueError::NoTransferQueue),
                Some(t) => Ok(
                    DeviceRequest {
                        graphics: QueueRequest { queue_family_index: g, queue_index: 0, queue_count: 1 },
                        transfer: QueueRequest { queue_family_index: t, queue_index: 0, queue_count: 1 },
                        extension: DeviceExtension::Swapchain,
                    },
                ),
            },
        }
    }
}

} // verus!
