//! The logical device of the Direct3D 12 backend.

use crate::rhi::dx12::dx12_command_allocator::Dx12CommandAllocator;
use crate::rhi::dx12::dx12_descriptor_pool::Dx12DescriptorPool;
use crate::rhi::dx12::dx12_memory::{
    heap_flags_for, heap_properties_for, Dx12CpuPageProperty, Dx12HeapFlags, Dx12HeapProperties,
    Dx12HeapType, Dx12Memory, Dx12MemoryPool,
};
use crate::rhi::dx12::dx12_queue::{command_list_type_of, Dx12Queue};
use crate::rhi::rhi_commands::AllocatorRecord;
use crate::rhi::rhi_descriptors::{DescriptorPoolRecord, PipelineInterfaceRecord};
use crate::rhi::rhi_device::{DeviceCore, DeviceState};
use crate::rhi::rhi_enums::{
    AllocationError, DescriptorPoolCreationError, MemoryError, MemoryUsage, NativeStatus,
    ObjectType, PipelineCreationError, QueueGettingError, QueueType,
};
use crate::rhi::rhi_memory::MemoryBlock;
use crate::rhi::rhi_structs::{
    CommandAllocatorCreateInfo, DescriptorSetHandle, DescriptorSetWrite, DescriptorUpdateInfo,
    FenceHandle, FramebufferHandle, ImageHandle, PipelineHandle, PipelineInterfaceHandle,
    RenderpassHandle, ResourceBindingDescription, SemaphoreHandle,
};
use crate::rhi::rhi_sync::SyncPool;
use crate::rhi::rhi_traits::{handles, Device};
use crate::shaderpack::shaderpack_data::{RenderPassCreationInfo, TextureAttachmentInfo};
use vstd::prelude::*;

verus! {

/// What a device reads from the native device when it is made.
#[derive(Clone, Copy, Debug, PartialEq, Eq, Structural)]
pub struct Dx12Hardware {
    /// Increment size of an RTV descriptor
    pub rtv_descriptor_size: u32,
    /// Increment size of a CBV, UAV, or SRV descriptor
    pub shader_resource_descriptor_size: u32,
    /// Whether the native device gives queues for graphics work
    pub graphics_queue: bool,
    /// Whether the native device gives queues for compute work
    pub compute_queue: bool,
    /// Whether the native device gives queues for copies
    pub copy_queue: bool,
}

impl Dx12Hardware {
    /// Whether the device gives queues for work of type `queue_type`.
    pub open spec fn offers(self, queue_type: QueueType) -> bool {
        match queue_type {
            QueueType::Graphics => self.graphics_queue,
            QueueType::Compute => self.compute_queue,
            QueueType::Copy => self.copy_queue,
        }
    }

    /// Whether the device gives queues for work of type `queue_type`.
    pub fn gives_queue(self, queue_type: QueueType) -> (offered: bool)
        ensures
            offered == self.offers(queue_type),
    {
        match queue_type {
            QueueType::Graphics => self.graphics_queue,
            QueueType::Compute => self.compute_queue,
            QueueType::Copy => self.copy_queue,
        }
    }
}

/// The result code with which the native API says that it has run out of memory.
pub const E_OUTOFMEMORY: i32 = -2147024882;

/// Whether a native result code reports success: whether it is not negative.
pub open spec fn is_success_code(hr: i32) -> bool {
    hr >= 0
}

/// Whether the native result code `hr` reports success.
pub fn succeeded(hr: i32) -> (ok: bool)
    ensures
        ok == is_success_code(hr),
{
    hr >= 0
}

/// What a native result code stands for: success, the host being out of memory, or a
/// failure that has no name here.
pub open spec fn status_of(hr: i32) -> NativeStatus {
    if is_success_code(hr) {
        NativeStatus::Success
    } else if hr == E_OUTOFMEMORY {
        NativeStatus::OutOfHostMemory
    } else {
        NativeStatus::Other
    }
}

/// What the native result code `hr` stands for.
pub fn status_from_code(hr: i32) -> (status: NativeStatus)
    ensures
        status == status_of(hr),
{
    if succeeded(hr) {
        NativeStatus::Success
    } else if hr == E_OUTOFMEMORY {
        NativeStatus::OutOfHostMemory
    } else {
        NativeStatus::Other
    }
}

/// The logical device that the renderer draws with.
pub struct Dx12Device {
    hardware: Dx12Hardware,
    core: DeviceCore,
}

impl Dx12Device {
    /// A device that has created nothing, with what was read from the native device.
    pub fn new(hardware: Dx12Hardware) -> (device: Dx12Device)
        ensures
            device.hardware() == hardware,
            device.state() == (DeviceState {
                fences: Seq::empty(),
                semaphores: Seq::empty(),
                created: 0,
                descriptor_writes: Seq::empty(),
            }),
    {
        Dx12Device { hardware, core: DeviceCore::new() }
    }

    /// What was read from the native device.
    pub fn get_hardware(&self) -> (hardware: Dx12Hardware)
        ensures
            hardware == self.hardware(),
    {
        self.hardware
    }

    /// The heap that memory of usage `memory_usage` comes from.
    pub fn heap_properties(memory_usage: MemoryUsage) -> (properties: Dx12HeapProperties)
        ensures
            properties == heap_properties_for(memory_usage),
    {
        match memory_usage {
            MemoryUsage::DeviceOnly => Dx12HeapProperties {
                heap_type: Dx12HeapType::Default,
                cpu_page_property: Dx12CpuPageProperty::NotAvailable,
                memory_pool_preference: Dx12MemoryPool::L1,
                creation_node_mask: 0,
                visible_node_mask: 0,
            },
            MemoryUsage::LowFrequencyUpload => Dx12HeapProperties {
                heap_type: Dx12HeapType::Upload,
                cpu_page_property: Dx12CpuPageProperty::WriteCombine,
                memory_pool_preference: Dx12MemoryPool::L1,
                creation_node_mask: 0,
                visible_node_mask: 0,
            },
            MemoryUsage::StagingBuffer => Dx12HeapProperties {
                heap_type: Dx12HeapType::Upload,
                cpu_page_property: Dx12CpuPageProperty::WriteCombine,
                memory_pool_preference: Dx12MemoryPool::L0,
                creation_node_mask: 0,
                visible_node_mask: 0,
            },
        }
    }

    /// The kinds of object that a heap for `allowed_objects` takes.
    pub fn heap_flags(allowed_objects: ObjectType) -> (flags: Dx12HeapFlags)
        ensures
            flags == heap_flags_for(allowed_objects),
    {
        match allowed_objects {
            ObjectType::Buffer => Dx12HeapFlags::AllowOnlyBuffers,
            ObjectType::Texture => Dx12HeapFlags::AllowOnlyNonRtDsTextures,
            ObjectType::Attachment => Dx12HeapFlags::AllowOnlyRtDsTextures,
            ObjectType::SwapchainSurface => Dx12HeapFlags::AllowOnlyRtDsTexturesAndDisplay,
            ObjectType::Any => Dx12HeapFlags::AllowAllBuffersAndTextures,
        }
    }
}

impl Device for Dx12Device {
    type Queue = Dx12Queue;

    type Memory = Dx12Memory;

    type CommandAllocator = Dx12CommandAllocator;

    type Image = ImageHandle;

    type Renderpass = RenderpassHandle;

    type Framebuffer = FramebufferHandle;

    type PipelineInterface = PipelineInterfaceRecord;

    type DescriptorPool = Dx12DescriptorPool;

    type Pipeline = PipelineHandle;

    type Semaphore = SemaphoreHandle;

    type Fence = FenceHandle;

    type Hardware = Dx12Hardware;

    closed spec fn state(&self) -> DeviceState {
        self.core@
    }

    closed spec fn hardware(&self) -> Dx12Hardware {
        self.hardware
    }

    /// The device has a queue where it gives queues for the type of work. A queue is made
    /// new for every call, so every index will do.
    open spec fn supports_queue(hardware: Dx12Hardware, queue_type: QueueType, queue_index: u32)
        -> bool {
        hardware.offers(queue_type)
    }

    /// Every usage has its heap: the native API knows no device without a heap of each type.
    open spec fn has_heap_for(hardware: Dx12Hardware, memory_usage: MemoryUsage) -> bool {
        true
    }

    /// The memory lies in the heap of its usage, which takes the objects it is allowed to hold.
    open spec fn heap_matches(hardware: Dx12Hardware, memory: Dx12Memory) -> bool {
        &&& memory.heap_properties == heap_properties_for(memory.block.usage)
        &&& memory.heap_flags == heap_flags_for(memory.block.allowed_objects)
    }

    /// The queue takes command lists of the native type that stands for `queue_type`.
    fn get_queue(&self, queue_type: QueueType, queue_index: u32, status: NativeStatus) -> (queue:
        Result<Dx12Queue, QueueGettingError>)
        ensures
            queue is Ok ==> queue->Ok_0.list_type == command_list_type_of(queue_type),
    {
        if !self.hardware.gives_queue(queue_type) {
            return Err(QueueGettingError::NotSupported);
        }
        if status.is_success() {
            Ok(Dx12Queue::new(queue_type))
        } else {
            Err(QueueGettingError::OutOfMemory)
        }
    }

    fn allocate_memory(
        &mut self,
        size: u64,
        memory_usage: MemoryUsage,
        allowed_objects: ObjectType,
        allocated: NativeStatus,
        mapped: NativeStatus,
    ) -> (memory: Result<Dx12Memory, AllocationError>) {
        let heap_properties = Self::heap_properties(memory_usage);
        let heap_flags = Self::heap_flags(allowed_objects);
        if let Some(error) = allocated.to_allocation_error() {
            return Err(error);
        }
        if memory_usage.host_mapped() {
            if let Some(error) = mapped.to_mapping_error() {
                return Err(error);
            }
        }
        match self.core.create_object(NativeStatus::Success) {
            Ok(id) => Ok(
                Dx12Memory {
                    block: MemoryBlock::new(id, size, memory_usage, allowed_objects),
                    heap_properties,
                    heap_flags,
                },
            ),
            Err(_) => Err(AllocationError::OutOfHostMemory),
        }
    }

    fn create_command_allocator(
        &mut self,
        create_info: CommandAllocatorCreateInfo,
        status: NativeStatus,
    ) -> (allocator: Result<Dx12CommandAllocator, MemoryError>) {
        match self.core.create_object(status) {
            Ok(id) => Ok(Dx12CommandAllocator { record: AllocatorRecord::new(id, create_info) }),
            Err(error) => Err(error),
        }
    }

    fn create_renderpass(&mut self, data: &RenderPassCreationInfo, status: NativeStatus) -> (
        renderpass: Result<RenderpassHandle, MemoryError>) {
        match self.core.create_object(status) {
            Ok(id) => Ok(
                RenderpassHandle {
                    id,
                    color_attachments: data.texture_outputs.len(),
                    has_depth: data.depth_texture.is_some(),
                },
            ),
            Err(error) => Err(error),
        }
    }

    fn create_framebuffer(
        &mut self,
        renderpass: &RenderpassHandle,
        attachments: &Vec<ImageHandle>,
        status: NativeStatus,
    ) -> (framebuffer: Result<FramebufferHandle, MemoryError>) {
        match self.core.create_object(status) {
            Ok(id) => Ok(
                FramebufferHandle { id, renderpass: renderpass.id, attachments: attachments.len() },
            ),
            Err(error) => Err(error),
        }
    }

    fn create_pipeline_interface(
        &mut self,
        bindings: Vec<(String, ResourceBindingDescription)>,
        color_attachments: Vec<TextureAttachmentInfo>,
        depth_texture: Option<TextureAttachmentInfo>,
        status: NativeStatus,
    ) -> (pipeline_interface: Result<PipelineInterfaceRecord, MemoryError>) {
        match self.core.create_object(status) {
            Ok(id) => Ok(
                PipelineInterfaceRecord {
                    handle: PipelineInterfaceHandle { id },
                    bindings,
                    color_attachments,
                    depth_texture,
                },
            ),
            Err(error) => Err(error),
        }
    }

    fn create_descriptor_pool(
        &mut self,
        num_sampled_images: u32,
        num_samplers: u32,
        num_uniform_buffers: u32,
        status: NativeStatus,
    ) -> (pools: Result<Vec<Dx12DescriptorPool>, DescriptorPoolCreationError>) {
        match self.core.create_descriptor_pool_object(status) {
            Ok(id) => {
                let mut pools: Vec<Dx12DescriptorPool> = Vec::new();
                pools.push(
                    Dx12DescriptorPool {
                        record: DescriptorPoolRecord {
                            id,
                            num_sampled_images,
                            num_samplers,
                            num_uniform_buffers,
                        },
                    },
                );
                Ok(pools)
            },
            Err(error) => Err(error),
        }
    }

    fn create_pipeline(&mut self, pipeline_interface: &PipelineInterfaceRecord, status: NativeStatus)
        -> (pipeline: Result<PipelineHandle, PipelineCreationError>) {
        match self.core.create_pipeline_object(status) {
            Ok(id) => Ok(PipelineHandle { id, pipeline_interface: pipeline_interface.handle.id }),
            Err(error) => Err(error),
        }
    }

    fn create_image(&mut self, status: NativeStatus) -> (image: Result<ImageHandle, MemoryError>) {
        match self.core.create_object(status) {
            Ok(id) => Ok(ImageHandle { id }),
            Err(error) => Err(error),
        }
    }

    fn create_semaphore(&mut self, status: NativeStatus) -> (semaphore: Result<
        SemaphoreHandle,
        MemoryError,
    >) {
        self.core.create_semaphore(status)
    }

    fn create_semaphores(&mut self, count: u32, status: NativeStatus) -> (semaphores: Result<
        Vec<SemaphoreHandle>,
        MemoryError,
    >) {
        let semaphores = self.core.create_semaphores(count, status);
        proof {
            if semaphores is Ok {
                assert(handles(semaphores->Ok_0@) =~= semaphores->Ok_0@);
            }
        }
        semaphores
    }

    fn create_fence(&mut self, status: NativeStatus) -> (fence: Result<FenceHandle, MemoryError>) {
        self.core.create_fence(status)
    }

    fn create_fences(&mut self, count: u32, status: NativeStatus) -> (fences: Result<
        Vec<FenceHandle>,
        MemoryError,
    >) {
        let fences = self.core.create_fences(count, status);
        proof {
            if fences is Ok {
                assert(handles(fences->Ok_0@) =~= fences->Ok_0@);
            }
        }
        fences
    }

    fn wait_for_fences(&self, fences: &Vec<FenceHandle>) -> (signaled: bool) {
        proof {
            assert(handles(fences@) =~= fences@);
        }
        self.core.wait_for_fences(fences)
    }

    fn reset_fences(&mut self, fences: &Vec<FenceHandle>) {
        proof {
            assert(handles(fences@) =~= fences@);
        }
        self.core.reset_fences(fences);
    }

    fn update_descriptor_sets(&mut self, updates: Vec<DescriptorSetWrite>) {
        self.core.update_descriptor_sets(updates);
    }

    fn descriptor(&self, set: DescriptorSetHandle, binding: u32) -> (held: Option<
        DescriptorUpdateInfo,
    >) {
        self.core.descriptor(set, binding)
    }

    fn sync(&self) -> (sync: &SyncPool) {
        self.core.sync()
    }

    fn sync_mut(&mut self) -> (sync: &mut SyncPool) {
        self.core.sync_mut()
    }
}

} // verus!
