//! Verified core of a Vulkan game engine: the decisions it makes while bootstrapping
//! Vulkan, laying out vertex data and GPU buffers, and driving its main loop.
pub mod dependency;
pub mod builder;
pub mod bootstrap;
pub mod vulkan;
pub mod render_pass;
pub mod swapchain;
pub mod device;
pub mod image;
pub mod vertex;
pub mod buffer;
pub mod frame_info;
pub mod app_loop;
pub mod model;
pub mod requirements;
pub mod descriptors;
pub mod formats;
pub mod material;
pub mod render;
