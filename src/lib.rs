//! Frame renderer logic for a single animated triangle: resource sizing,
//! memory type selection, surface format choice, viewport tracking and the
//! per-frame submission protocol, with the GPU calls themselves left to the
//! caller.

pub mod hal;
pub mod buffer;
pub mod memory;
pub mod descriptor_set;
pub mod pipeline;
pub mod swapchain;
pub mod renderer;
pub mod teardown;
