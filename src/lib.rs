//! Frame-lifecycle and synchronization core of a Vulkan-class renderer.
//!
//! The library decides; the caller performs. Every value that the graphics
//! driver hands out (buffers, images, fences, semaphores, command buffers) is
//! carried here as its raw 64-bit handle, and every decision that the frame
//! loop makes is a verified function over those handles.

pub mod flags;
pub mod swapchain;
pub mod physical_device;
pub mod device;
pub mod buffer;
pub mod commands;
pub mod bindless_descriptor_set;
pub mod pipeline;
pub mod renderer;
pub mod instance;
