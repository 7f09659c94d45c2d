//! Host-side logic of a Vulkan renderer: the per-frame scheduling state
//! machine, swapchain configuration, device selection rules and mesh
//! preparation, all over plain values.
pub mod controls;
pub mod layout;
pub mod memory;
pub mod physical_device;
pub mod resources;
pub mod scheduler;
pub mod swapchain;
pub mod vertices;
