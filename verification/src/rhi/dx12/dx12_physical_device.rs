//! Direct3D 12 adapters: what one reports about itself, and whether it can be used.

use crate::rhi::dx12::dx12_device::{is_success_code, succeeded, Dx12Device, Dx12Hardware};
use crate::rhi::rhi_enums::{
    manufacturer_of, DeviceCreationError, NativeStatus, PhysicalDeviceManufacturer,
    PhysicalDeviceType,
};
use crate::rhi::rhi_structs::{PhysicalDeviceProperties, PropertiesView};
use crate::rhi::rhi_traits::{Device, PhysicalDevice};
use vstd::prelude::*;

verus! {

/// Everything that the native API reports about one adapter, read once at enumeration.
#[derive(Debug)]
pub struct Dx12AdapterInfo {
    /// The native handle of the adapter. Nothing here reads it; it is there for whoever
    /// makes the native calls.
    pub native_handle: u64,
    pub vendor_id: u32,
    pub device_id: u32,
    pub description: String,
    /// Whether the adapter is a software rasterizer
    pub software: bool,
    /// The bytes of video memory that the adapter shares with nobody
    pub dedicated_video_memory: u64,
    pub max_color_attachments: u32,
    /// Whether the adapter offers the adapter interface that the renderer needs
    pub has_adapter2: bool,
    /// The result code of creating a native device on the adapter at feature level 11.0
    pub device_creation: i32,
    /// Whether that device gives queues for graphics work
    pub graphics_queue: bool,
    /// Whether that device gives queues for compute work
    pub compute_queue: bool,
    /// Whether that device gives queues for copies
    pub copy_queue: bool,
    /// Increment size of an RTV descriptor on that device
    pub rtv_descriptor_size: u32,
    /// Increment size of a CBV, UAV, or SRV descriptor on that device
    pub shader_resource_descriptor_size: u32,
}

/// The mathematical content of a [`Dx12AdapterInfo`].
pub struct Dx12AdapterView {
    pub native_handle: u64,
    pub vendor_id: u32,
    pub device_id: u32,
    pub description: Seq<char>,
    pub software: bool,
    pub dedicated_video_memory: u64,
    pub max_color_attachments: u32,
    pub has_adapter2: bool,
    pub device_creation: i32,
    pub graphics_queue: bool,
    pub compute_queue: bool,
    pub copy_queue: bool,
    pub rtv_descriptor_size: u32,
    pub shader_resource_descriptor_size: u32,
}

impl View for Dx12AdapterInfo {
    type V = Dx12AdapterView;

    open spec fn view(&self) -> Dx12AdapterView {
        Dx12AdapterView {
            native_handle: self.native_handle,
            vendor_id: self.vendor_id,
            device_id: self.device_id,
            description: self.description@,
            software: self.software,
            dedicated_video_memory: self.dedicated_video_memory,
            max_color_attachments: self.max_color_attachments,
            has_adapter2: self.has_adapter2,
            device_creation: self.device_creation,
            graphics_queue: self.graphics_queue,
            compute_queue: self.compute_queue,
            copy_queue: self.copy_queue,
            rtv_descriptor_size: self.rtv_descriptor_size,
            shader_resource_descriptor_size: self.shader_resource_descriptor_size,
        }
    }
}

impl Dx12AdapterInfo {
    /// A copy of this report with the same content.
    pub fn duplicate(&self) -> (copy: Dx12AdapterInfo)
        ensures
            copy@ == self@,
    {
        Dx12AdapterInfo {
            native_handle: self.native_handle,
            vendor_id: self.vendor_id,
            device_id: self.device_id,
            description: self.description.clone(),
            software: self.software,
            dedicated_video_memory: self.dedicated_video_memory,
            max_color_attachments: self.max_color_attachments,
            has_adapter2: self.has_adapter2,
            device_creation: self.device_creation,
            graphics_queue: self.graphics_queue,
            compute_queue: self.compute_queue,
            copy_queue: self.copy_queue,
            rtv_descriptor_size: self.rtv_descriptor_size,
            shader_resource_descriptor_size: self.shader_resource_descriptor_size,
        }
    }
}

impl Dx12AdapterView {
    /// What kind of device the adapter is: a software rasterizer runs on the CPU, an
    /// adapter with video memory of its own is a discrete card, and any other shares the
    /// memory of the host.
    pub open spec fn device_type(self) -> PhysicalDeviceType {
        if self.software {
            PhysicalDeviceType::CPU
        } else if self.dedicated_video_memory > 0 {
            PhysicalDeviceType::Discreet
        } else {
            PhysicalDeviceType::Integrated
        }
    }

    /// What a device on the adapter reads from the native device.
    pub open spec fn hardware(self) -> Dx12Hardware {
        Dx12Hardware {
            rtv_descriptor_size: self.rtv_descriptor_size,
            shader_resource_descriptor_size: self.shader_resource_descriptor_size,
            graphics_queue: self.graphics_queue,
            compute_queue: self.compute_queue,
            copy_queue: self.copy_queue,
        }
    }

    /// Whether a device on the adapter has the queues that a renderer cannot do without:
    /// one for graphics and one for copies. A queue for compute work is welcome and not
    /// needed.
    pub open spec fn has_needed_queues(self) -> bool {
        self.graphics_queue && self.copy_queue
    }
}

/// A physical device which supports DX12
pub struct Dx12PhysicalDevice {
    info: Dx12AdapterInfo,
}

impl Dx12PhysicalDevice {
    /// What the adapter reported about itself.
    pub closed spec fn info(&self) -> Dx12AdapterView {
        self.info@
    }

    /// The adapter that reported `info`.
    pub fn new(info: Dx12AdapterInfo) -> (device: Dx12PhysicalDevice)
        ensures
            device.info() == info@,
    {
        Dx12PhysicalDevice { info }
    }

    /// What kind of device the adapter is.
    pub fn device_type(&self) -> (device_type: PhysicalDeviceType)
        ensures
            device_type == self.info().device_type(),
    {
        if self.info.software {
            PhysicalDeviceType::CPU
        } else if self.info.dedicated_video_memory > 0 {
            PhysicalDeviceType::Discreet
        } else {
            PhysicalDeviceType::Integrated
        }
    }

    /// The native handle of the adapter.
    pub fn native_handle(&self) -> (handle: u64)
        ensures
            handle == self.info().native_handle,
    {
        self.info.native_handle
    }
}

impl PhysicalDevice for Dx12PhysicalDevice {
    type Device = Dx12Device;

    type Report = Dx12AdapterView;

    open spec fn report(&self) -> Dx12AdapterView {
        self.info()
    }

    /// The adapter can be used where a native device could be made on it, and that device
    /// gives the queues that are needed.
    open spec fn is_usable(&self) -> bool {
        is_success_code(self.info().device_creation) && self.info().has_needed_queues()
    }

    open spec fn can_make_device(&self) -> bool {
        self.info().has_needed_queues()
    }

    open spec fn properties(&self) -> PropertiesView {
        PropertiesView {
            manufacturer: manufacturer_of(self.info().vendor_id),
            device_id: self.info().device_id,
            device_name: self.info().description,
            device_type: self.info().device_type(),
            max_color_attachments: self.info().max_color_attachments,
        }
    }

    fn get_properties(&self) -> (properties: PhysicalDeviceProperties) {
        PhysicalDeviceProperties {
            manufacturer: PhysicalDeviceManufacturer::from_vendor_id(self.info.vendor_id),
            device_id: self.info.device_id,
            device_name: self.info.description.clone(),
            device_type: self.device_type(),
            max_color_attachments: self.info.max_color_attachments,
        }
    }

    fn can_be_used_by_nova(&self) -> (usable: bool) {
        succeeded(self.info.device_creation) && self.info.graphics_queue && self.info.copy_queue
    }

    /// The device reads its descriptor sizes and its queues from the adapter's report.
    fn create_logical_device(&self, status: NativeStatus) -> (device: Result<
        Dx12Device,
        DeviceCreationError,
    >)
        ensures
            device is Ok ==> device->Ok_0.hardware() == self.info().hardware(),
    {
        if status.is_success() && self.info.graphics_queue && self.info.copy_queue {
            Ok(
                Dx12Device::new(
                    Dx12Hardware {
                        rtv_descriptor_size: self.info.rtv_descriptor_size,
                        shader_resource_descriptor_size: self.info.shader_resource_descriptor_size,
                        graphics_queue: self.info.graphics_queue,
                        compute_queue: self.info.compute_queue,
                        copy_queue: self.info.copy_queue,
                    },
                ),
            )
        } else {
            Err(DeviceCreationError::Failed)
        }
    }
}

} // verus!
