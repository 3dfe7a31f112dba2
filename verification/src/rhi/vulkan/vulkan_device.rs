//! The logical device of the Vulkan backend.

use crate::rhi::rhi_commands::AllocatorRecord;
use crate::rhi::rhi_descriptors::{DescriptorPoolRecord, PipelineInterfaceRecord};
use crate::rhi::rhi_device::{DeviceCore, DeviceState};
use crate::rhi::rhi_enums::{
    AllocationError, DescriptorPoolCreationError, MemoryError, MemoryUsage, NativeStatus,
    ObjectType, PipelineCreationError, QueueGettingError, QueueType,
};
use crate::rhi::rhi_memory::MemoryBlock;
use crate::rhi::rhi_structs::{
    CommandAllocatorCreateInfo, DescriptorSetHandle, DescriptorSetWrite, DescriptorUpdateInfo,
    FenceHandle, FramebufferHandle, ImageHandle, PipelineHandle, PipelineInterfaceHandle,
    RenderpassHandle, ResourceBindingDescription, SemaphoreHandle,
};
use crate::rhi::rhi_sync::SyncPool;
use crate::rhi::rhi_traits::{handles, Device};
use crate::rhi::vulkan::vulkan_command_allocator::VulkanCommandAllocator;
use crate::rhi::vulkan::vulkan_descriptor_pool::VulkanDescriptorPool;
use crate::rhi::vulkan::vulkan_memory::VulkanMemory;
use crate::rhi::vulkan::vulkan_native::{
    memory_device_local, memory_host_cached, memory_host_visible, status_from_code, status_of,
    MEMORY_DEVICE_LOCAL, MEMORY_HOST_CACHED, MEMORY_HOST_VISIBLE,
};
use crate::rhi::vulkan::vulkan_physical_device::MemoryType;
use crate::rhi::vulkan::vulkan_queue::VulkanQueue;
use crate::shaderpack::shaderpack_data::{RenderPassCreationInfo, TextureAttachmentInfo};
use vstd::prelude::*;

verus! {

/// What a device took from its adapter: the queue families that its queues come from, and
/// the memory types that its memory comes from.
pub struct VulkanHardware {
    pub graphics_queue_family_index: usize,
    pub transfer_queue_family_index: usize,
    pub compute_queue_family_index: Option<usize>,
    pub memory_types: Seq<MemoryType>,
}

impl VulkanHardware {
    /// The queue family that work of type `queue_type` goes to, if the device has one.
    pub open spec fn queue_family(self, queue_type: QueueType) -> Option<usize> {
        match queue_type {
            QueueType::Graphics => Some(self.graphics_queue_family_index),
            QueueType::Copy => Some(self.transfer_queue_family_index),
            QueueType::Compute => self.compute_queue_family_index,
        }
    }
}

/// Whether a memory type has the wanted properties: exactly those and no others, or at
/// least those.
pub open spec fn type_matches(memory_type: MemoryType, wanted: u32, exact: bool) -> bool {
    if exact {
        memory_type.property_flags == wanted
    } else {
        memory_type.property_flags & wanted == wanted
    }
}

/// The index of the first memory type, in index order, that has the wanted properties.
pub open spec fn first_matching_type(types: Seq<MemoryType>, wanted: u32, exact: bool) -> Option<
    usize,
>
    decreases types.len(),
{
    if types.len() == 0 {
        None
    } else {
        let earlier = first_matching_type(types.drop_last(), wanted, exact);
        if earlier is Some {
            earlier
        } else if type_matches(types.last(), wanted, exact) {
            Some((types.len() - 1) as usize)
        } else {
            None
        }
    }
}

/// The heap that the memory type at index `found` allocates from.
pub open spec fn heap_of(types: Seq<MemoryType>, found: Option<usize>) -> Option<u32> {
    match found {
        Some(index) => Some(types[index as int].heap_index),
        None => None,
    }
}

/// The heap of the first memory type, in index order, that has the wanted properties.
pub open spec fn first_matching_heap(types: Seq<MemoryType>, wanted: u32, exact: bool) -> Option<
    u32,
> {
    heap_of(types, first_matching_type(types, wanted, exact))
}

/// `first`, or `second` where there is no `first`.
pub open spec fn or_else(first: Option<usize>, second: Option<usize>) -> Option<usize> {
    if first is Some {
        first
    } else {
        second
    }
}

/// The index of the memory type that memory of usage `memory_usage` is allocated with.
///
/// Memory that only the device uses is of a type that is device-local and nothing else, or
/// else of one that is at least device-local. Memory that the host uploads to now and then
/// is of a type that is device-local and host-visible, or else of one that is host-cached.
/// A staging buffer is of a type that is host-visible and host-cached. Where several types
/// will do, the first one is taken.
pub open spec fn type_for(types: Seq<MemoryType>, memory_usage: MemoryUsage) -> Option<usize> {
    match memory_usage {
        MemoryUsage::DeviceOnly => or_else(
            first_matching_type(types, MEMORY_DEVICE_LOCAL, true),
            first_matching_type(types, MEMORY_DEVICE_LOCAL, false),
        ),
        MemoryUsage::LowFrequencyUpload => or_else(
            first_matching_type(types, MEMORY_DEVICE_LOCAL | MEMORY_HOST_VISIBLE, false),
            first_matching_type(types, MEMORY_HOST_CACHED, false),
        ),
        MemoryUsage::StagingBuffer => first_matching_type(
            types,
            MEMORY_HOST_VISIBLE | MEMORY_HOST_CACHED,
            false,
        ),
    }
}

/// The heap that memory of usage `memory_usage` comes from: the heap of its memory type.
pub open spec fn heap_for(types: Seq<MemoryType>, memory_usage: MemoryUsage) -> Option<u32> {
    heap_of(types, type_for(types, memory_usage))
}

/// Whether memory with the properties `flags` is as visible as `memory_usage` asks.
pub open spec fn is_visible_enough(flags: u32, memory_usage: MemoryUsage) -> bool {
    match memory_usage {
        MemoryUsage::DeviceOnly => flags & MEMORY_DEVICE_LOCAL == MEMORY_DEVICE_LOCAL,
        MemoryUsage::LowFrequencyUpload => flags & (MEMORY_DEVICE_LOCAL | MEMORY_HOST_VISIBLE) == (
        MEMORY_DEVICE_LOCAL | MEMORY_HOST_VISIBLE) || flags & MEMORY_HOST_CACHED
            == MEMORY_HOST_CACHED,
        MemoryUsage::StagingBuffer => flags & (MEMORY_HOST_VISIBLE | MEMORY_HOST_CACHED) == (
        MEMORY_HOST_VISIBLE | MEMORY_HOST_CACHED),
    }
}

/// Whether `heap` is the heap of a memory type in `types` that is as visible as
/// `memory_usage` asks.
pub open spec fn heap_serves(types: Seq<MemoryType>, heap: u32, memory_usage: MemoryUsage) -> bool {
    exists|i: int|
        0 <= i < types.len() && (#[trigger] types[i]).heap_index == heap && is_visible_enough(
            types[i].property_flags,
            memory_usage,
        )
}

/// The memory type that is found has the wanted properties, and none before it has them.
pub proof fn lemma_first_matching_type(types: Seq<MemoryType>, wanted: u32, exact: bool)
    requires
        types.len() <= usize::MAX,
        first_matching_type(types, wanted, exact) is Some,
    ensures
        first_matching_type(types, wanted, exact)->Some_0 < types.len(),
        type_matches(
            types[first_matching_type(types, wanted, exact)->Some_0 as int],
            wanted,
            exact,
        ),
        forall|j: int|
            0 <= j < first_matching_type(types, wanted, exact)->Some_0 ==> !type_matches(
                #[trigger] types[j],
                wanted,
                exact,
            ),
    decreases types.len(),
{
    let earlier = first_matching_type(types.drop_last(), wanted, exact);
    if earlier is Some {
        lemma_first_matching_type(types.drop_last(), wanted, exact);
        assert(types.drop_last()[earlier->Some_0 as int] == types[earlier->Some_0 as int]);
        assert forall|j: int| 0 <= j < earlier->Some_0 implies !type_matches(
            #[trigger] types[j],
            wanted,
            exact,
        ) by {
            assert(types.drop_last()[j] == types[j]);
        }
    } else {
        lemma_no_matching_type(types.drop_last(), wanted, exact);
        assert forall|j: int| 0 <= j < types.len() - 1 implies !type_matches(
            #[trigger] types[j],
            wanted,
            exact,
        ) by {
            assert(types.drop_last()[j] == types[j]);
        }
    }
}

/// Where no memory type is found, none has the wanted properties.
pub proof fn lemma_no_matching_type(types: Seq<MemoryType>, wanted: u32, exact: bool)
    requires
        first_matching_type(types, wanted, exact) is None,
    ensures
        forall|j: int| 0 <= j < types.len() ==> !type_matches(#[trigger] types[j], wanted, exact),
    decreases types.len(),
{
    if types.len() > 0 {
        lemma_no_matching_type(types.drop_last(), wanted, exact);
        assert forall|j: int| 0 <= j < types.len() implies !type_matches(
            #[trigger] types[j],
            wanted,
            exact,
        ) by {
            if j < types.len() - 1 {
                assert(types.drop_last()[j] == types[j]);
            }
        }
    }
}

/// What is found among the first `n` memory types is what is found among all of them.
proof fn lemma_found_in_prefix(types: Seq<MemoryType>, n: int, wanted: u32, exact: bool)
    requires
        0 <= n <= types.len(),
        first_matching_type(types.take(n), wanted, exact) is Some,
    ensures
        first_matching_type(types, wanted, exact) == first_matching_type(
            types.take(n),
            wanted,
            exact,
        ),
    decreases types.len() - n,
{
    if n < types.len() {
        assert(types.take(n + 1).drop_last() == types.take(n));
        lemma_found_in_prefix(types, n + 1, wanted, exact);
    } else {
        assert(types.take(n) == types);
    }
}

/// Whatever the usage, the memory type that is picked for it is as visible as the usage
/// asks, and so is its heap: memory never comes from a heap that has nothing to do with
/// what was asked for.
pub proof fn lemma_heap_is_visible_enough(types: Seq<MemoryType>, memory_usage: MemoryUsage)
    requires
        types.len() <= usize::MAX,
        type_for(types, memory_usage) is Some,
    ensures
        type_for(types, memory_usage)->Some_0 < types.len(),
        is_visible_enough(
            types[type_for(types, memory_usage)->Some_0 as int].property_flags,
            memory_usage,
        ),
        heap_serves(types, heap_for(types, memory_usage)->Some_0, memory_usage),
{
    let device_local = MEMORY_DEVICE_LOCAL;
    let upload = MEMORY_DEVICE_LOCAL | MEMORY_HOST_VISIBLE;
    let cached = MEMORY_HOST_CACHED;
    let staging = MEMORY_HOST_VISIBLE | MEMORY_HOST_CACHED;
    match memory_usage {
        MemoryUsage::DeviceOnly => {
            if first_matching_type(types, device_local, true) is Some {
                lemma_first_matching_type(types, device_local, true);
                let i = first_matching_type(types, device_local, true)->Some_0 as int;
                let flags = types[i].property_flags;
                assert(flags & 0x1u32 == 0x1u32) by (bit_vector)
                    requires
                        flags == 0x1u32,
                ;
            } else {
                lemma_first_matching_type(types, device_local, false);
            }
        },
        MemoryUsage::LowFrequencyUpload => {
            if first_matching_type(types, upload, false) is Some {
                lemma_first_matching_type(types, upload, false);
            } else {
                lemma_first_matching_type(types, cached, false);
            }
        },
        MemoryUsage::StagingBuffer => {
            lemma_first_matching_type(types, staging, false);
        },
    }
    let i = type_for(types, memory_usage)->Some_0 as int;
    assert(is_visible_enough(types[i].property_flags, memory_usage));
    assert(types[i].heap_index == heap_for(types, memory_usage)->Some_0);
}

/// The logical device that the renderer draws with.
pub struct VulkanDevice {
    graphics_queue_family_index: usize,
    transfer_queue_family_index: usize,
    compute_queue_family_index: Option<usize>,
    memory_types: Vec<MemoryType>,
    core: DeviceCore,
}

impl VulkanDevice {
    /// A device that has created nothing, with the queue families and memory types of its
    /// adapter.
    pub fn new(
        graphics_queue_family_index: usize,
        transfer_queue_family_index: usize,
        compute_queue_family_index: Option<usize>,
        memory_types: Vec<MemoryType>,
    ) -> (device: VulkanDevice)
        ensures
            device.hardware() == (VulkanHardware {
                graphics_queue_family_index,
                transfer_queue_family_index,
                compute_queue_family_index,
                memory_types: memory_types@,
            }),
            device.state() == (DeviceState {
                fences: Seq::empty(),
                semaphores: Seq::empty(),
                created: 0,
                descriptor_writes: Seq::empty(),
            }),
    {
        VulkanDevice {
            graphics_queue_family_index,
            transfer_queue_family_index,
            compute_queue_family_index,
            memory_types,
            core: DeviceCore::new(),
        }
    }

    /// The index of the first memory type that has the properties `memory_flags`: exactly
    /// those where `exact` is set, at least those where it is not.
    pub fn find_memory_type_by_flags(&self, memory_flags: u32, exact: bool) -> (found: Option<
        usize,
    >)
        ensures
            found == first_matching_type(self.hardware().memory_types, memory_flags, exact),
            found is Some ==> found->Some_0 < self.hardware().memory_types.len(),
    {
        let ghost types = self.memory_types@;
        let mut i: usize = 0;
        while i < self.memory_types.len()
            invariant
                i <= self.memory_types.len(),
                types == self.memory_types@,
                first_matching_type(types.take(i as int), memory_flags, exact) is None,
            decreases self.memory_types.len() - i,
        {
            let memory_type = self.memory_types[i];
            assert(types.take(i + 1).drop_last() == types.take(i as int));
            assert(types.take(i + 1).last() == memory_type);
            let matches = if exact {
                memory_type.property_flags == memory_flags
            } else {
                memory_type.property_flags & memory_flags == memory_flags
            };
            if matches {
                proof {
                    lemma_found_in_prefix(types, i + 1, memory_flags, exact);
                }
                return Some(i);
            }
            i += 1;
        }
        assert(types.take(i as int) == types);
        None
    }

    /// The heap of the first memory type that has the properties `memory_flags`: exactly
    /// those where `exact` is set, at least those where it is not.
    pub fn find_memory_by_flags(&self, memory_flags: u32, exact: bool) -> (heap: Option<u32>)
        ensures
            heap == first_matching_heap(self.hardware().memory_types, memory_flags, exact),
    {
        match self.find_memory_type_by_flags(memory_flags, exact) {
            Some(index) => Some(self.memory_types[index].heap_index),
            None => None,
        }
    }

    /// The index of the memory type that memory of usage `memory_usage` is allocated with,
    /// if the device has one for it.
    pub fn select_memory_type(&self, memory_usage: MemoryUsage) -> (found: Option<usize>)
        ensures
            found == type_for(self.hardware().memory_types, memory_usage),
            found is Some ==> found->Some_0 < self.hardware().memory_types.len(),
    {
        match memory_usage {
            MemoryUsage::DeviceOnly => {
                let i = self.find_memory_type_by_flags(memory_device_local(), true);
                if i.is_none() {
                    self.find_memory_type_by_flags(memory_device_local(), false)
                } else {
                    i
                }
            },
            MemoryUsage::LowFrequencyUpload => {
                let i = self.find_memory_type_by_flags(
                    memory_device_local() | memory_host_visible(),
                    false,
                );
                if i.is_none() {
                    self.find_memory_type_by_flags(memory_host_cached(), false)
                } else {
                    i
                }
            },
            MemoryUsage::StagingBuffer => self.find_memory_type_by_flags(
                memory_host_visible() | memory_host_cached(),
                false,
            ),
        }
    }

    /// The heap that memory of usage `memory_usage` comes from, if the device has one for it.
    pub fn select_heap(&self, memory_usage: MemoryUsage) -> (heap: Option<u32>)
        ensures
            heap == heap_for(self.hardware().memory_types, memory_usage),
    {
        match self.select_memory_type(memory_usage) {
            Some(index) => Some(self.memory_types[index].heap_index),
            None => None,
        }
    }

    /// What a result code of the native API stands for.
    pub fn native_status(code: i32) -> (status: NativeStatus)
        ensures
            status == status_of(code),
    {
        status_from_code(code)
    }

    /// The queue family that work of type `queue_type` goes to, if the device has one.
    pub fn queue_family(&self, queue_type: QueueType) -> (family: Option<usize>)
        ensures
            family == self.hardware().queue_family(queue_type),
    {
        match queue_type {
            QueueType::Graphics => Some(self.graphics_queue_family_index),
            QueueType::Copy => Some(self.transfer_queue_family_index),
            QueueType::Compute => self.compute_queue_family_index,
        }
    }
}

impl Device for VulkanDevice {
    type Queue = VulkanQueue;

    type Memory = VulkanMemory;

    type CommandAllocator = VulkanCommandAllocator;

    type Image = ImageHandle;

    type Renderpass = RenderpassHandle;

    type Framebuffer = FramebufferHandle;

    type PipelineInterface = PipelineInterfaceRecord;

    type DescriptorPool = VulkanDescriptorPool;

    type Pipeline = PipelineHandle;

    type Semaphore = SemaphoreHandle;

    type Fence = FenceHandle;

    type Hardware = VulkanHardware;

    closed spec fn state(&self) -> DeviceState {
        self.core@
    }

    closed spec fn hardware(&self) -> VulkanHardware {
        VulkanHardware {
            graphics_queue_family_index: self.graphics_queue_family_index,
            transfer_queue_family_index: self.transfer_queue_family_index,
            compute_queue_family_index: self.compute_queue_family_index,
            memory_types: self.memory_types@,
        }
    }

    /// The device has the first queue of each family that was found on its adapter.
    open spec fn supports_queue(hardware: VulkanHardware, queue_type: QueueType, queue_index: u32)
        -> bool {
        queue_index == 0 && hardware.queue_family(queue_type) is Some
    }

    open spec fn has_heap_for(hardware: VulkanHardware, memory_usage: MemoryUsage) -> bool {
        type_for(hardware.memory_types, memory_usage) is Some
    }

    /// The memory is of the memory type that is picked for its usage and lies in that type's
    /// heap, and the type is as visible as the usage asks.
    open spec fn heap_matches(hardware: VulkanHardware, memory: VulkanMemory) -> bool {
        &&& type_for(hardware.memory_types, memory.block.usage) == Some(memory.memory_type_index)
        &&& memory.memory_type_index < hardware.memory_types.len()
        &&& memory.heap_index == hardware.memory_types[memory.memory_type_index as int].heap_index
        &&& is_visible_enough(
            hardware.memory_types[memory.memory_type_index as int].property_flags,
            memory.block.usage,
        )
    }

    fn get_queue(&self, queue_type: QueueType, queue_index: u32, status: NativeStatus) -> (queue:
        Result<VulkanQueue, QueueGettingError>)
        ensures
            queue is Ok ==> Some(queue->Ok_0.family_index) == self.hardware().queue_family(
                queue_type,
            ) && queue->Ok_0.queue_index == queue_index,
    {
        let queue_family_index = match self.queue_family(queue_type) {
            Some(index) => index,
            None => {
                return Err(QueueGettingError::NotSupported);
            },
        };
        if queue_index != 0 {
            return Err(QueueGettingError::NotSupported);
        }
        if !status.is_success() {
            return Err(QueueGettingError::OutOfMemory);
        }
        Ok(VulkanQueue::new(queue_type, queue_family_index, queue_index))
    }

    fn allocate_memory(
        &mut self,
        size: u64,
        memory_usage: MemoryUsage,
        allowed_objects: ObjectType,
        allocated: NativeStatus,
        mapped: NativeStatus,
    ) -> (memory: Result<VulkanMemory, AllocationError>) {
        let memory_type_index = match self.select_memory_type(memory_usage) {
            Some(index) => index,
            None => {
                return Err(AllocationError::OutOfDeviceMemory);
            },
        };
        let heap_index = self.memory_types[memory_type_index].heap_index;
        proof {
            assert(self.memory_types@.len() == self.memory_types.len());
            lemma_heap_is_visible_enough(self.memory_types@, memory_usage);
        }
        if let Some(error) = allocated.to_allocation_error() {
            return Err(error);
        }
        if memory_usage.host_mapped() {
            if let Some(error) = mapped.to_mapping_error() {
                return Err(error);
            }
        }
        match self.core.create_object(NativeStatus::Success) {
            Ok(id) => Ok(
                VulkanMemory {
                    block: MemoryBlock::new(id, size, memory_usage, allowed_objects),
                    memory_type_index,
                    heap_index,
                },
            ),
            Err(_) => Err(AllocationError::OutOfHostMemory),
        }
    }

    fn create_command_allocator(
        &mut self,
        create_info: CommandAllocatorCreateInfo,
        status: NativeStatus,
    ) -> (allocator: Result<VulkanCommandAllocator, MemoryError>) {
        match self.core.create_object(status) {
            Ok(id) => Ok(VulkanCommandAllocator { record: AllocatorRecord::new(id, create_info) }),
            Err(error) => Err(error),
        }
    }

    fn create_renderpass(&mut self, data: &RenderPassCreationInfo, status: NativeStatus) -> (
        renderpass: Result<RenderpassHandle, MemoryError>) {
        match self.core.create_object(status) {
            Ok(id) => Ok(
                RenderpassHandle {
                    id,
                    color_attachments: data.texture_outputs.len(),
                    has_depth: data.depth_texture.is_some(),
                },
            ),
            Err(error) => Err(error),
        }
    }

    fn create_framebuffer(
        &mut self,
        renderpass: &RenderpassHandle,
        attachments: &Vec<ImageHandle>,
        status: NativeStatus,
    ) -> (framebuffer: Result<FramebufferHandle, MemoryError>) {
        match self.core.create_object(status) {
            Ok(id) => Ok(
                FramebufferHandle { id, renderpass: renderpass.id, attachments: attachments.len() },
            ),
            Err(error) => Err(error),
        }
    }

    fn create_pipeline_interface(
        &mut self,
        bindings: Vec<(String, ResourceBindingDescription)>,
        color_attachments: Vec<TextureAttachmentInfo>,
        depth_texture: Option<TextureAttachmentInfo>,
        status: NativeStatus,
    ) -> (pipeline_interface: Result<PipelineInterfaceRecord, MemoryError>) {
        match self.core.create_object(status) {
            Ok(id) => Ok(
                PipelineInterfaceRecord {
                    handle: PipelineInterfaceHandle { id },
                    bindings,
                    color_attachments,
                    depth_texture,
                },
            ),
            Err(error) => Err(error),
        }
    }

    fn create_descriptor_pool(
        &mut self,
        num_sampled_images: u32,
        num_samplers: u32,
        num_uniform_buffers: u32,
        status: NativeStatus,
    ) -> (pools: Result<Vec<VulkanDescriptorPool>, DescriptorPoolCreationError>) {
        match self.core.create_descriptor_pool_object(status) {
            Ok(id) => {
                let mut pools: Vec<VulkanDescriptorPool> = Vec::new();
                pools.push(
                    VulkanDescriptorPool {
                        record: DescriptorPoolRecord {
                            id,
                            num_sampled_images,
                            num_samplers,
                            num_uniform_buffers,
                        },
                    },
                );
                Ok(pools)
            },
            Err(error) => Err(error),
        }
    }

    fn create_pipeline(&mut self, pipeline_interface: &PipelineInterfaceRecord, status: NativeStatus)
        -> (pipeline: Result<PipelineHandle, PipelineCreationError>) {
        match self.core.create_pipeline_object(status) {
            Ok(id) => Ok(PipelineHandle { id, pipeline_interface: pipeline_interface.handle.id }),
            Err(error) => Err(error),
        }
    }

    fn create_image(&mut self, status: NativeStatus) -> (image: Result<ImageHandle, MemoryError>) {
        match self.core.create_object(status) {
            Ok(id) => Ok(ImageHandle { id }),
            Err(error) => Err(error),
        }
    }

    fn create_semaphore(&mut self, status: NativeStatus) -> (semaphore: Result<
        SemaphoreHandle,
        MemoryError,
    >) {
        self.core.create_semaphore(status)
    }

    fn create_semaphores(&mut self, count: u32, status: NativeStatus) -> (semaphores: Result<
        Vec<SemaphoreHandle>,
        MemoryError,
    >) {
        let semaphores = self.core.create_semaphores(count, status);
        proof {
            if semaphores is Ok {
                assert(handles(semaphores->Ok_0@) =~= semaphores->Ok_0@);
            }
        }
        semaphores
    }

    fn create_fence(&mut self, status: NativeStatus) -> (fence: Result<FenceHandle, MemoryError>) {
        self.core.create_fence(status)
    }

    fn create_fences(&mut self, count: u32, status: NativeStatus) -> (fences: Result<
        Vec<FenceHandle>,
        MemoryError,
    >) {
        let fences = self.core.create_fences(count, status);
        proof {
            if fences is Ok {
                assert(handles(fences->Ok_0@) =~= fences->Ok_0@);
            }
        }
        fences
    }

    fn wait_for_fences(&self, fences: &Vec<FenceHandle>) -> (signaled: bool) {
        proof {
            assert(handles(fences@) =~= fences@);
        }
        self.core.wait_for_fences(fences)
    }

    fn reset_fences(&mut self, fences: &Vec<FenceHandle>) {
        proof {
            assert(handles(fences@) =~= fences@);
        }
        self.core.reset_fences(fences);
    }

    fn update_descriptor_sets(&mut self, updates: Vec<DescriptorSetWrite>) {
        self.core.update_descriptor_sets(updates);
    }

    fn descriptor(&self, set: DescriptorSetHandle, binding: u32) -> (held: Option<
        DescriptorUpdateInfo,
    >) {
        self.core.descriptor(set, binding)
    }

    fn sync(&self) -> (sync: &SyncPool) {
        self.core.sync()
    }

    fn sync_mut(&mut self) -> (sync: &mut SyncPool) {
        self.core.sync_mut()
    }
}

} // verus!
