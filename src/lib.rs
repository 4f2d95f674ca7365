//! Verified core of a small Vulkan renderer: the decisions that drive device
//! selection, swapchain negotiation, the swapchain rebuild protocol, the
//! frame-in-flight synchronisation scheme and command recording. The calls into
//! the graphics API itself live in the application around this library.

pub mod memory;
pub mod swapchain;
pub mod queue_family;
pub mod device;
pub mod image;
pub mod frame_sync;
pub mod lifecycle;
pub mod recording;
pub mod staging;
pub mod timing;
pub mod input;
pub mod mesh;
