//! The records that the interface takes and hands out, and the tokens that stand for its objects.

use crate::rhi::rhi_enums::{
    BufferUsage, DescriptorType, ImageAspectFlags, PhysicalDeviceManufacturer, PhysicalDeviceType,
    QueueType, ResourceAccessFlags, ResourceState, ShaderStageFlags,
};
use crate::rhi::rhi_traits::{
    DescriptorSet, Fence, Framebuffer, Image, Pipeline, Renderpass, Resource, Sampler, Semaphore,
    Token,
};
use crate::shaderpack::shaderpack_data::{PixelFormat, TextureDimensionType};
use vstd::prelude::*;

verus! {

/// Describes what kind of command allocator you want to create
#[derive(Clone, Copy, Debug)]
pub struct CommandAllocatorCreateInfo {
    /// The type of command lists which will be allocated by this command allocator
    pub command_list_type: QueueType,
    /// A bitmask of the GPU that the new command allocator will allocate commands for. Only one GPU may be used
    pub node_mask: u32,
}

/// Information about a physical device!
///
/// This information can come from multiple API calls, but it is merged together here
///
/// This structure has things like the capabilities of the device, its hardware limits, its manufacturer and model
/// number, etc
#[derive(Debug)]
pub struct PhysicalDeviceProperties {
    pub manufacturer: PhysicalDeviceManufacturer,
    pub device_id: u32,
    pub device_name: String,
    pub device_type: PhysicalDeviceType,
    pub max_color_attachments: u32,
}

/// The mathematical content of [`PhysicalDeviceProperties`].
pub struct PropertiesView {
    pub manufacturer: PhysicalDeviceManufacturer,
    pub device_id: u32,
    pub device_name: Seq<char>,
    pub device_type: PhysicalDeviceType,
    pub max_color_attachments: u32,
}

impl View for PhysicalDeviceProperties {
    type V = PropertiesView;

    open spec fn view(&self) -> PropertiesView {
        PropertiesView {
            manufacturer: self.manufacturer,
            device_id: self.device_id,
            device_name: self.device_name@,
            device_type: self.device_type,
            max_color_attachments: self.max_color_attachments,
        }
    }
}

/// A token for a buffer: the allocation it was made from, and its place among that allocation's buffers.
#[derive(Clone, Copy, Debug, PartialEq, Eq, Structural)]
pub struct BufferId {
    pub memory: usize,
    pub index: usize,
}

/// A token for a command list: the allocator it came from, and its place among that
/// allocator's lists.
#[derive(Clone, Copy, Debug, PartialEq, Eq, Structural)]
pub struct CommandListId {
    pub allocator: usize,
    pub index: usize,
}

/// A token for an image.
#[derive(Clone, Copy, Debug, PartialEq, Eq, Structural)]
pub struct ImageHandle {
    pub id: usize,
}

/// A token for a sampler.
#[derive(Clone, Copy, Debug, PartialEq, Eq, Structural)]
pub struct SamplerHandle {
    pub id: usize,
}

/// A token for a descriptor set: the pool it came from, the pipeline interface it was made
/// for, and the number of its binding group in that interface.
#[derive(Clone, Copy, Debug, PartialEq, Eq, Structural)]
pub struct DescriptorSetHandle {
    pub pool: usize,
    pub pipeline_interface: usize,
    pub set: u32,
}

/// A token for a renderpass, with the number of color attachments that it writes to and
/// whether it writes to a depth texture.
#[derive(Clone, Copy, Debug, PartialEq, Eq, Structural)]
pub struct RenderpassHandle {
    pub id: usize,
    pub color_attachments: usize,
    pub has_depth: bool,
}

/// A token for a framebuffer, with the renderpass that gave it its layout and the number
/// of images attached to it.
#[derive(Clone, Copy, Debug, PartialEq, Eq, Structural)]
pub struct FramebufferHandle {
    pub id: usize,
    pub renderpass: usize,
    pub attachments: usize,
}

/// A token for a pipeline interface.
#[derive(Clone, Copy, Debug, PartialEq, Eq, Structural)]
pub struct PipelineInterfaceHandle {
    pub id: usize,
}

/// A token for a pipeline, with the pipeline interface that it was built against.
#[derive(Clone, Copy, Debug, PartialEq, Eq, Structural)]
pub struct PipelineHandle {
    pub id: usize,
    pub pipeline_interface: usize,
}

/// A token for a semaphore.
#[derive(Clone, Copy, Debug, PartialEq, Eq, Structural)]
pub struct SemaphoreHandle {
    pub id: usize,
}

/// A token for a fence.
#[derive(Clone, Copy, Debug, PartialEq, Eq, Structural)]
pub struct FenceHandle {
    pub id: usize,
}

/// What a barrier names: a buffer or an image.
#[derive(Clone, Copy, Debug, PartialEq, Eq, Structural)]
pub enum ResourceId {
    Buffer(BufferId),
    Image(ImageHandle),
}

#[derive(Clone, Copy, Debug)]
pub enum ResourceSpecificData {
    Image { aspect: ImageAspectFlags },
    Buffer { offset: u64, size: u64 },
}

/// A transition of one resource from one state to another, with the accesses on either side
/// of it and the queues that hand the resource over.
///
/// The initial state has to be the state that the same stream of commands last left the
/// resource in; where it is not, what the GPU does is undefined.
#[derive(Clone, Copy, Debug)]
pub struct ResourceBarrier {
    pub resource: ResourceId,
    pub initial_state: ResourceState,
    pub final_state: ResourceState,
    pub access_before_barrier: ResourceAccessFlags,
    pub access_after_barrier: ResourceAccessFlags,
    pub source_queue: QueueType,
    pub destination_queue: QueueType,
    pub resource_info: ResourceSpecificData,
}

#[derive(Clone, Copy, Debug)]
pub enum DescriptorUpdateInfo {
    Image {
        image: ImageHandle,
        pixel_format: PixelFormat,
        dimension_type: TextureDimensionType,
        sampler: SamplerHandle,
    },
}

/// One write to a descriptor set: what `binding` of `set` is to hold.
///
/// The binding has to be one that the set's pipeline interface declares.
#[derive(Clone, Copy, Debug)]
pub struct DescriptorSetWrite {
    pub set: DescriptorSetHandle,
    pub binding: u32,
    pub update_info: DescriptorUpdateInfo,
}

#[derive(Clone, Copy, Debug)]
pub struct ResourceBindingDescription {
    /// Descriptor set that this binding belongs to
    pub set: u32,
    /// Binding of this resource binding
    pub binding: u32,
    /// Number of bindings. Useful if you have an array of descriptors
    pub count: u32,
    /// The type of object that will be bound
    pub descriptor_type: DescriptorType,
    /// The shader stages that need access to this binding
    pub stages: ShaderStageFlags,
}

#[derive(Clone, Copy, Debug)]
pub struct BufferCreateInfo {
    pub size: usize,
    pub buffer_usage: BufferUsage,
    pub allocation: DeviceMemoryAllocation,
}

#[derive(Clone, Copy, Debug)]
pub struct DeviceMemoryAllocation;

impl Token for ImageHandle {
    type Handle = ImageHandle;

    open spec fn handle(&self) -> ImageHandle {
        *self
    }

    fn to_handle(&self) -> ImageHandle {
        *self
    }
}

impl Image for ImageHandle {

}

impl Token for SamplerHandle {
    type Handle = SamplerHandle;

    open spec fn handle(&self) -> SamplerHandle {
        *self
    }

    fn to_handle(&self) -> SamplerHandle {
        *self
    }
}

impl Sampler for SamplerHandle {

}

impl Token for DescriptorSetHandle {
    type Handle = DescriptorSetHandle;

    open spec fn handle(&self) -> DescriptorSetHandle {
        *self
    }

    fn to_handle(&self) -> DescriptorSetHandle {
        *self
    }
}

impl DescriptorSet for DescriptorSetHandle {

}

impl Token for RenderpassHandle {
    type Handle = RenderpassHandle;

    open spec fn handle(&self) -> RenderpassHandle {
        *self
    }

    fn to_handle(&self) -> RenderpassHandle {
        *self
    }
}

impl Renderpass for RenderpassHandle {

}

impl Token for FramebufferHandle {
    type Handle = FramebufferHandle;

    open spec fn handle(&self) -> FramebufferHandle {
        *self
    }

    fn to_handle(&self) -> FramebufferHandle {
        *self
    }
}

impl Framebuffer for FramebufferHandle {

}

impl Token for PipelineHandle {
    type Handle = PipelineHandle;

    open spec fn handle(&self) -> PipelineHandle {
        *self
    }

    fn to_handle(&self) -> PipelineHandle {
        *self
    }
}

impl Pipeline for PipelineHandle {

}

impl Token for SemaphoreHandle {
    type Handle = SemaphoreHandle;

    open spec fn handle(&self) -> SemaphoreHandle {
        *self
    }

    fn to_handle(&self) -> SemaphoreHandle {
        *self
    }
}

impl Semaphore for SemaphoreHandle {

}

impl Token for FenceHandle {
    type Handle = FenceHandle;

    open spec fn handle(&self) -> FenceHandle {
        *self
    }

    fn to_handle(&self) -> FenceHandle {
        *self
    }
}

impl Fence for FenceHandle {

}

impl Resource for ImageHandle {
    open spec fn resource_id(&self) -> ResourceId {
        ResourceId::Image(*self)
    }

    fn to_resource_id(&self) -> ResourceId {
        ResourceId::Image(*self)
    }
}

impl Resource for BufferId {
    open spec fn resource_id(&self) -> ResourceId {
        ResourceId::Buffer(*self)
    }

    fn to_resource_id(&self) -> ResourceId {
        ResourceId::Buffer(*self)
    }
}

} // verus!
