//! The backend for Vulkan.

pub mod vulkan_buffer;
pub mod vulkan_command_allocator;
pub mod vulkan_command_list;
pub mod vulkan_descriptor_pool;
pub mod vulkan_device;
pub mod vulkan_graphics_api;
pub mod vulkan_memory;
pub mod vulkan_native;
pub mod vulkan_physical_device;
pub mod vulkan_queue;
