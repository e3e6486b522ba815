//! The debug messenger: which validation messages the renderer asks
//! for.

use vstd::prelude::*;

verus! {

/// `VK_DEBUG_UTILS_MESSAGE_SEVERITY_INFO_BIT_EXT`.
pub const SEVERITY_INFO: u32 = 0x10;

/// `VK_DEBUG_UTILS_MESSAGE_SEVERITY_WARNING_BIT_EXT`.
pub const SEVERITY_WARNING: u32 = 0x100;

/// `VK_DEBUG_UTILS_MESSAGE_SEVERITY_ERROR_BIT_EXT`.
pub const SEVERITY_ERROR: u32 = 0x1000;

/// `VK_DEBUG_UTILS_MESSAGE_TYPE_GENERAL_BIT_EXT`.
pub const MESSAGE_GENERAL: u32 = 0x1;

/// `VK_DEBUG_UTILS_MESSAGE_TYPE_VALIDATION_BIT_EXT`.
pub const MESSAGE_VALIDATION: u32 = 0x2;

/// `VK_DEBUG_UTILS_MESSAGE_TYPE_PERFORMANCE_BIT_EXT`.
pub const MESSAGE_PERFORMANCE: u32 = 0x4;

/// The messages a messenger is created for.
#[derive(Clone, Copy, Debug, PartialEq, Eq, Structural)]
pub struct MessengerRequest {
    /// Raw `VkDebugUtilsMessageSeverityFlagsEXT`.
    pub message_severity: u32,
    /// Raw `VkDebugUtilsMessageTypeFlagsEXT`.
    pub message_type: u32,
}

/// The debug messenger of the renderer.
#[derive(Clone, Copy, Debug, PartialEq, Eq, Structural)]
pub struct VulkanDebugInfo {
    pub messenger: u64,
}

impl VulkanDebugInfo {
    /// Describes the messenger of the running renderer: informational
    /// messages, warnings and errors, of every type.
    pub fn init() -> (r: MessengerRequest)
        ensures
            r.message_severity == SEVERITY_WARNING | SEVERITY_INFO | SEVERITY_ERROR,
            r.message_type == MESSAGE_GENERAL | MESSAGE_PERFORMANCE | MESSAGE_VALIDATION,
    {
        MessengerRequest {
            message_severity: SEVERITY_WARNING | SEVERITY_INFO | SEVERITY_ERROR,
            message_type: MESSAGE_GENERAL | MESSAGE_PERFORMANCE | MESSAGE_VALIDATION,
        }
    }

    /// Describes the messenger that watches the creation of the
    /// instance: warnings and errors, of every type.
    pub fn for_instance() -> (r: MessengerRequest)
        ensures
            r.message_severity == SEVERITY_WARNING | SEVERITY_ERROR,
            r.message_type == MESSAGE_GENERAL | MESSAGE_PERFORMANCE | MESSAGE_VALIDATION,
    {
        MessengerRequest {
            message_severity: SEVERITY_WARNING | SEVERITY_ERROR,
            message_type: MESSAGE_GENERAL | MESSAGE_PERFORMANCE | MESSAGE_VALIDATION,
        }
    }
}

} // verus!
