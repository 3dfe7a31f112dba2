//! The options that the renderer is configured with.

use vstd::prelude::*;

verus! {

#[derive(Clone, Copy, Debug, PartialEq, Eq, Structural)]
pub struct Semver {
    pub major: u32,
    pub minor: u32,
    pub patch: u32,
}

/// The rendering API to use
#[derive(Clone, Copy, Debug, PartialEq, Eq, Structural)]
pub enum GraphicsAPI {
    Vulkan,
    Dx12,
}

/// All options of the renderer
#[derive(Clone, Debug)]
pub struct NovaSettings {
    /// All options to turn on debugging functionality
    pub debug: DebugOptions,
    /// Settings that the renderer can change, but which are still stored in a config
    pub cache: CacheOptions,
    /// Options about the window that the renderer will live in
    pub window: WindowOptions,
    /// Options that are specific to the Vulkan rendering backend
    pub vulkan: VulkanOptions,
    /// Options that are specific to the DirectX 12 backend
    pub dx12: Dx12Options,
    /// The rendering API to use
    ///
    /// DirectX 12 is only supported on Windows 10. On other platforms Vulkan will be used,
    /// regardless of what you've chosen
    pub api: GraphicsAPI,
    /// Information about the system we're running on
    pub system_info: SystemInfo,
    pub max_in_flight_frames: u32,
    /// Settings for how vertex memory is allocated
    pub vertex_memory_settings: BlockAllocatorSettings,
    /// Settings for how index memory is allocated
    pub index_memory_settings: BlockAllocatorSettings,
}

/// Options for configuring the way mesh memory is allocated
///
/// Meshes go into a handful of giant buffers, to facilitate indirect rendering. These options
/// are how you configure that
#[derive(Clone, Copy, Debug, PartialEq, Eq, Structural)]
pub struct BlockAllocatorSettings {
    /// The total amount of memory that can be used
    ///
    /// This must be a whole-number multiple of `new_buffer_size`
    pub max_total_allocation: u32,
    /// The size of one buffer
    ///
    /// Only a single buffer of `new_buffer_size` size is allocated initially; new buffers
    /// are allocated as needed
    ///
    /// This number must be a whole-number multiple of `buffer_part_size`
    pub new_buffer_size: u32,
    /// The size of one allocation from a buffer
    ///
    /// Meshes get one or more allocations from a given buffer.
    pub buffer_part_size: u32,
}

#[derive(Clone, Debug)]
pub struct RenderDocOptions {
    /// If true, the renderer will look for RenderDoc on your computer and will try to load it,
    /// letting you debug your shaderpack without leaving the application
    pub enabled: bool,
    /// The path to `renderdoc.dll` on your filesystem
    pub renderdoc_dll_path: String,
    /// The base path for RenderDoc captures
    pub capture_path: String,
}

#[derive(Clone, Debug)]
pub struct DebugOptions {
    /// If false, all debugging behavior is disabled, even if individual options are turned on
    pub enabled: bool,
    /// Controls if the API-specific validation layers are enabled
    pub enable_validation_layers: bool,
    pub renderdoc: RenderDocOptions,
}

#[derive(Clone, Debug)]
pub struct CacheOptions {
    /// The shaderpack that was most recently loaded
    pub loaded_shaderpack: String,
}

#[derive(Clone, Debug)]
pub struct WindowOptions {
    /// The title of the Window
    pub title: String,
    /// The width of the window
    pub width: u32,
    /// The height of the window
    pub height: u32,
}

#[derive(Clone, Debug)]
pub struct VulkanOptions {
    /// The application name to pass to Vulkan
    pub application_name: String,
    /// The application version to pass to Vulkan
    pub application_version: Semver,
}

#[derive(Clone, Copy, Debug)]
pub struct Dx12Options {

}

#[derive(Clone, Copy, Debug)]
pub struct SystemInfo {
    /// Whether we're on a Unified Memory Architecture
    pub is_uma: bool,
}

} // verus!
