//! The backend for Direct3D 12.

pub mod dx12_buffer;
pub mod dx12_command_allocator;
pub mod dx12_command_list;
pub mod dx12_descriptor_pool;
pub mod dx12_memory;
pub mod dx12_queue;
pub mod dx12_device;
pub mod dx12_graphics_api;
pub mod dx12_physical_device;
