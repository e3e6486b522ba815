//! The decision-making core of a Vulkan frame renderer.
//!
//! Every policy of the renderer lives here as verified code over plain
//! values: which physical device and queue families to use, how the
//! presentable chain is sized and cycled, where a resource is placed in
//! device memory, what a frame records and in which order the CPU and the
//! GPU hand work to each other. Driver handles are carried as the raw
//! `u64` values Vulkan gives them; the caller performs the driver calls
//! that the functions here describe.

pub mod allocator;
pub mod app;
pub mod command;
pub mod command_pool;
pub mod debug_utils;
pub mod device;
pub mod frame;
pub mod index_buffer;
pub mod logical_device;
pub mod physical_device;
pub mod pipeline;
pub mod queue;
pub mod render_pass;
pub mod renderable;
pub mod surface;
pub mod swapchain;
pub mod texture;
pub mod textured_vertex;
pub mod vertex;
pub mod vertex_buffer;
