//! What the Vulkan bindings call things: result codes, flag bits, extension names.
//!
//! Everything in this file is taken from the bindings at run time and
//! believed, not proved: each function says in its contract what the
//! bindings' source shows.

use crate::rhi::rhi_enums::{NativeStatus, PhysicalDeviceType};
use ash::extensions::ext::DebugReport;
use ash::extensions::khr::{Swapchain, Win32Surface, XlibSurface};
use ash::vk;
use vstd::prelude::*;

verus! {

/// What a raw Vulkan result code stands for.
pub open spec fn status_of(code: i32) -> NativeStatus {
    if code == 0 {
        NativeStatus::Success
    } else if code == -1 {
        NativeStatus::OutOfHostMemory
    } else if code == -2 {
        NativeStatus::OutOfDeviceMemory
    } else if code == -5 {
        NativeStatus::MemoryMapFailed
    } else if code == -10 {
        NativeStatus::TooManyObjects
    } else if code == -12 {
        NativeStatus::FragmentedPool
    } else if code == -1000161000 {
        NativeStatus::Fragmentation
    } else if code == -1000012000 {
        NativeStatus::InvalidShader
    } else if code == -1000072003 {
        NativeStatus::InvalidExternalHandle
    } else {
        NativeStatus::Other
    }
}

/// Reads a raw result code by the constants of `ash::vk::Result`.
///
/// Believed: `SUCCESS` is 0, `ERROR_OUT_OF_HOST_MEMORY` -1, `ERROR_OUT_OF_DEVICE_MEMORY` -2,
/// `ERROR_MEMORY_MAP_FAILED` -5, `ERROR_TOO_MANY_OBJECTS` -10, `ERROR_FRAGMENTED_POOL` -12,
/// `ERROR_FRAGMENTATION_EXT` -1000161000, `ERROR_INVALID_SHADER_NV` -1000012000 and
/// `ERROR_INVALID_EXTERNAL_HANDLE` -1000072003.
#[verifier::external_body]
pub(crate) fn status_from_code(code: i32) -> (status: NativeStatus)
    ensures
        status == status_of(code),
{
    match vk::Result::from_raw(code) {
        vk::Result::SUCCESS => NativeStatus::Success,
        vk::Result::ERROR_OUT_OF_HOST_MEMORY => NativeStatus::OutOfHostMemory,
        vk::Result::ERROR_OUT_OF_DEVICE_MEMORY => NativeStatus::OutOfDeviceMemory,
        vk::Result::ERROR_MEMORY_MAP_FAILED => NativeStatus::MemoryMapFailed,
        vk::Result::ERROR_TOO_MANY_OBJECTS => NativeStatus::TooManyObjects,
        vk::Result::ERROR_FRAGMENTED_POOL => NativeStatus::FragmentedPool,
        vk::Result::ERROR_FRAGMENTATION_EXT => NativeStatus::Fragmentation,
        vk::Result::ERROR_INVALID_SHADER_NV => NativeStatus::InvalidShader,
        vk::Result::ERROR_INVALID_EXTERNAL_HANDLE => NativeStatus::InvalidExternalHandle,
        _ => NativeStatus::Other,
    }
}

/// What a raw Vulkan physical device type stands for.
pub open spec fn device_type_of(raw: i32) -> PhysicalDeviceType {
    if raw == 1 {
        PhysicalDeviceType::Integrated
    } else if raw == 2 {
        PhysicalDeviceType::Discreet
    } else if raw == 3 {
        PhysicalDeviceType::Virtual
    } else if raw == 4 {
        PhysicalDeviceType::CPU
    } else {
        PhysicalDeviceType::Other
    }
}

/// Reads a raw device type by the constants of `ash::vk::PhysicalDeviceType`.
///
/// Believed: `INTEGRATED_GPU` is 1, `DISCRETE_GPU` 2, `VIRTUAL_GPU` 3 and `CPU` 4.
#[verifier::external_body]
pub(crate) fn device_type_from_raw(raw: i32) -> (device_type: PhysicalDeviceType)
    ensures
        device_type == device_type_of(raw),
{
    match vk::PhysicalDeviceType::from_raw(raw) {
        vk::PhysicalDeviceType::INTEGRATED_GPU => PhysicalDeviceType::Integrated,
        vk::PhysicalDeviceType::DISCRETE_GPU => PhysicalDeviceType::Discreet,
        vk::PhysicalDeviceType::VIRTUAL_GPU => PhysicalDeviceType::Virtual,
        vk::PhysicalDeviceType::CPU => PhysicalDeviceType::CPU,
        _ => PhysicalDeviceType::Other,
    }
}

pub const MEMORY_DEVICE_LOCAL: u32 = 0x1;

pub const MEMORY_HOST_VISIBLE: u32 = 0x2;

pub const MEMORY_HOST_CACHED: u32 = 0x8;

pub const QUEUE_GRAPHICS: u32 = 0x1;

pub const QUEUE_COMPUTE: u32 = 0x2;

pub const QUEUE_TRANSFER: u32 = 0x4;

pub const HEAP_DEVICE_LOCAL: u32 = 0x1;

/// The bit of `ash::vk::MemoryPropertyFlags::DEVICE_LOCAL`. Believed: it is `0b1`.
#[verifier::external_body]
pub(crate) fn memory_device_local() -> (bit: u32)
    ensures
        bit == MEMORY_DEVICE_LOCAL,
{
    vk::MemoryPropertyFlags::DEVICE_LOCAL.as_raw()
}

/// The bit of `ash::vk::MemoryPropertyFlags::HOST_VISIBLE`. Believed: it is `0b10`.
#[verifier::external_body]
pub(crate) fn memory_host_visible() -> (bit: u32)
    ensures
        bit == MEMORY_HOST_VISIBLE,
{
    vk::MemoryPropertyFlags::HOST_VISIBLE.as_raw()
}

/// The bit of `ash::vk::MemoryPropertyFlags::HOST_CACHED`. Believed: it is `0b1000`.
#[verifier::external_body]
pub(crate) fn memory_host_cached() -> (bit: u32)
    ensures
        bit == MEMORY_HOST_CACHED,
{
    vk::MemoryPropertyFlags::HOST_CACHED.as_raw()
}

/// The bit of `ash::vk::QueueFlags::GRAPHICS`. Believed: it is `0b1`.
#[verifier::external_body]
pub(crate) fn queue_graphics() -> (bit: u32)
    ensures
        bit == QUEUE_GRAPHICS,
{
    vk::QueueFlags::GRAPHICS.as_raw()
}

/// The bit of `ash::vk::QueueFlags::COMPUTE`. Believed: it is `0b10`.
#[verifier::external_body]
pub(crate) fn queue_compute() -> (bit: u32)
    ensures
        bit == QUEUE_COMPUTE,
{
    vk::QueueFlags::COMPUTE.as_raw()
}

/// The bit of `ash::vk::QueueFlags::TRANSFER`. Believed: it is `0b100`.
#[verifier::external_body]
pub(crate) fn queue_transfer() -> (bit: u32)
    ensures
        bit == QUEUE_TRANSFER,
{
    vk::QueueFlags::TRANSFER.as_raw()
}

/// The bit of `ash::vk::MemoryHeapFlags::DEVICE_LOCAL`. Believed: it is `0b1`.
#[verifier::external_body]
pub(crate) fn heap_device_local() -> (bit: u32)
    ensures
        bit == HEAP_DEVICE_LOCAL,
{
    vk::MemoryHeapFlags::DEVICE_LOCAL.as_raw()
}

/// The name that `ash::extensions::khr::Swapchain::name` gives. Believed: `VK_KHR_swapchain`.
#[verifier::external_body]
pub(crate) fn swapchain_extension_name() -> (name: String)
    ensures
        name@ == "VK_KHR_swapchain"@,
{
    Swapchain::name().to_string_lossy().into_owned()
}

/// The name that `ash::extensions::khr::XlibSurface::name` gives. Believed: `VK_KHR_xlib_surface`.
#[verifier::external_body]
pub(crate) fn xlib_surface_extension_name() -> (name: String)
    ensures
        name@ == "VK_KHR_xlib_surface"@,
{
    XlibSurface::name().to_string_lossy().into_owned()
}

/// The name that `ash::extensions::khr::Win32Surface::name` gives. Believed: `VK_KHR_win32_surface`.
#[verifier::external_body]
pub(crate) fn win32_surface_extension_name() -> (name: String)
    ensures
        name@ == "VK_KHR_win32_surface"@,
{
    Win32Surface::name().to_string_lossy().into_owned()
}

/// The name that `ash::extensions::ext::DebugReport::name` gives. Believed: `VK_EXT_debug_report`.
#[verifier::external_body]
pub(crate) fn debug_report_extension_name() -> (name: String)
    ensures
        name@ == "VK_EXT_debug_report"@,
{
    DebugReport::name().to_string_lossy().into_owned()
}

} // verus!
