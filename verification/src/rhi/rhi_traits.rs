//! The render hardware interface
//!
//! This is an interface to the GPU which has been designed for a renderer. It abstracts away
//! parts of the underlying APIs which the renderer doesn't use, providing an interface that's
//! more productive and more fun. The interface is split into two sections: the synchronous
//! part, where a call takes effect at once, and the asynchronous part, where calls get
//! recorded into command lists, which are later executed on the GPU
//!
//! The native API does its part outside: where a call stands for native work that can fail,
//! it takes what the native API reported as a [`NativeStatus`].

use crate::rhi::rhi_commands::{
    inside_renderpass, outside_renderpass, vertex_bindings, AllocatorRecord, Command,
    CommandRecorder, ListState, RecordingError,
};
use crate::rhi::rhi_descriptors::{
    binding_groups, distinct_names, sets_for, DescriptorPoolRecord,
};
use crate::rhi::rhi_device::{fence_run, semaphore_run, DeviceState};
use crate::rhi::rhi_enums::{
    AllocationError, DescriptorPoolCreationError, DeviceCreationError, MemoryError, MemoryUsage,
    NativeStatus, ObjectType, PipelineCreationError, PipelineStageFlags, QueueGettingError,
    QueueType,
};
use crate::rhi::rhi_memory::{BufferRecord, MemoryBlock};
use crate::rhi::rhi_queue::QueueState;
use crate::rhi::rhi_structs::{
    BufferCreateInfo, BufferId, CommandAllocatorCreateInfo, CommandListId, DescriptorSetHandle,
    DescriptorSetWrite, DescriptorUpdateInfo, FenceHandle, FramebufferHandle, ImageHandle,
    PhysicalDeviceProperties, PipelineHandle, PipelineInterfaceHandle, PropertiesView,
    RenderpassHandle, ResourceBarrier, ResourceBindingDescription, ResourceId, SamplerHandle,
    SemaphoreHandle,
};
use crate::rhi::rhi_sync::{all_up, fence_ids, lowered, SyncPool};
use crate::shaderpack::shaderpack_data::{RenderPassCreationInfo, TextureAttachmentInfo};
use vstd::prelude::*;

verus! {

/// Something that stands for an object of the interface and can say which.
pub trait Token {
    /// The token that tells objects of this kind apart
    type Handle;

    spec fn handle(&self) -> Self::Handle;

    fn to_handle(&self) -> (handle: Self::Handle)
        ensures
            handle == self.handle(),
    ;
}

/// The handles of `tokens`, in order.
pub open spec fn handles<T: Token>(tokens: Seq<T>) -> Seq<T::Handle> {
    Seq::new(tokens.len(), |i: int| tokens[i].handle())
}

/// The handles of `tokens`, in order.
pub fn handles_of<T: Token>(tokens: &Vec<T>) -> (found: Vec<T::Handle>)
    ensures
        found@ == handles(tokens@),
{
    let mut found: Vec<T::Handle> = Vec::new();
    let mut i: usize = 0;
    while i < tokens.len()
        invariant
            i <= tokens.len(),
            found@ == handles(tokens@).take(i as int),
        decreases tokens.len() - i,
    {
        found.push(tokens[i].to_handle());
        assert(found@ =~= handles(tokens@).take(i + 1));
        i += 1;
    }
    assert(handles(tokens@).take(i as int) == handles(tokens@));
    found
}

/// What `allocate_memory` answers, before the memory itself is looked at.
///
/// Where the device has no heap for the usage, the device is out of memory. Else the
/// native allocation decides, and after it, for memory that the host writes to, the native
/// mapping: a mapping that failed gives an error as a failed allocation does, whatever it
/// failed with. Where both went well and no token is left, the host is out of memory.
pub open spec fn allocation_outcome(
    state: DeviceState,
    has_heap: bool,
    memory_usage: MemoryUsage,
    allocated: NativeStatus,
    mapped: NativeStatus,
) -> Result<usize, AllocationError> {
    if !has_heap {
        Err(AllocationError::OutOfDeviceMemory)
    } else if allocated.allocation_error() is Some {
        Err(allocated.allocation_error()->Some_0)
    } else if memory_usage.is_host_mapped() && mapped.mapping_error() is Some {
        Err(mapped.mapping_error()->Some_0)
    } else if !state.has_room() {
        Err(AllocationError::OutOfHostMemory)
    } else {
        Ok(state.created as usize)
    }
}

/// What `get_queue` answers, before the queue itself is looked at.
pub open spec fn queue_outcome(supported: bool, status: NativeStatus) -> Result<
    (),
    QueueGettingError,
> {
    if !supported {
        Err(QueueGettingError::NotSupported)
    } else if status != NativeStatus::Success {
        Err(QueueGettingError::OutOfMemory)
    } else {
        Ok(())
    }
}

/// Whether `left` and `right` are both errors and the same one, or both values.
pub open spec fn same_outcome<A, B, E>(left: Result<A, E>, right: Result<B, E>) -> bool {
    match (left, right) {
        (Ok(_), Ok(_)) => true,
        (Err(e), Err(f)) => e == f,
        _ => false,
    }
}

/// What each of `devices` reported about itself, in order.
pub open spec fn reports<P: PhysicalDevice>(devices: Seq<P>) -> Seq<P::Report> {
    Seq::new(devices.len(), |i: int| devices[i].report())
}

/// Top-level trait for functions that don't belong to any specific device object
pub trait GraphicsApi {
    type PhysicalDevice: PhysicalDevice;

    /// What every adapter that the native API showed reported about itself, in the order in
    /// which the native API showed them.
    spec fn visible(&self) -> Seq<<Self::PhysicalDevice as PhysicalDevice>::Report>;

    /// Whether the renderer can use an adapter that reports `report`.
    spec fn accepts(&self, report: <Self::PhysicalDevice as PhysicalDevice>::Report) -> bool;

    /// Gets a list of all available graphics adapters that the renderer can use
    ///
    /// They are the visible adapters that the renderer can use, each of them, in the order
    /// in which the native API showed them. None is ranked above another. Where there is
    /// none, the list is empty.
    fn get_adapters(&self) -> (adapters: Vec<Self::PhysicalDevice>)
        ensures
            reports(adapters@) == self.visible().filter(
                |report: <Self::PhysicalDevice as PhysicalDevice>::Report| self.accepts(report),
            ),
            forall|i: int| 0 <= i < adapters@.len() ==> (#[trigger] adapters@[i]).is_usable(),
    ;
}

/// An implementation of the rendering API. This will probably be a GPU card, but a software
/// implementation of either Vulkan or Direct3D 12 is possible
pub trait PhysicalDevice {
    type Device: Device;

    /// What an adapter reports about itself when it is found
    type Report;

    /// What this adapter reported about itself.
    spec fn report(&self) -> Self::Report;

    /// Whether the renderer can use this adapter.
    spec fn is_usable(&self) -> bool;

    /// Whether the adapter has what a logical device is made of.
    spec fn can_make_device(&self) -> bool;

    /// What the adapter is, as it was read when the adapter was found.
    spec fn properties(&self) -> PropertiesView;

    fn get_properties(&self) -> (properties: PhysicalDeviceProperties)
        ensures
            properties@ == self.properties(),
    ;

    /// Checks if this physical device is suitable for the renderer
    ///
    /// The supported APIs have very different ways to check what features and capabilities a
    /// physical device has, so this method encapsulates all that
    fn can_be_used_by_nova(&self) -> (usable: bool)
        ensures
            usable == self.is_usable(),
    ;

    /// Creates a new logical Device
    ///
    /// The renderer has very specific requirements for a logical device, and how you express
    /// those requirements varies significantly by API. Thus, this method doesn't take a create
    /// info struct of any sort
    ///
    /// `status` is what the native API reported for the creation. Whatever went wrong, the
    /// error is the same.
    fn create_logical_device(&self, status: NativeStatus) -> (device: Result<
        Self::Device,
        DeviceCreationError,
    >)
        ensures
            device is Ok <==> status == NativeStatus::Success && self.can_make_device(),
            device is Ok ==> device->Ok_0.state() == (DeviceState {
                fences: Seq::empty(),
                semaphores: Seq::empty(),
                created: 0,
                descriptor_writes: Seq::empty(),
            }),
    ;
}

/// The logical device that we're rendering with
///
/// There may be multiple Devices in existence at once.
pub trait Device {
    type Queue: Queue;

    type Memory: Memory;

    type CommandAllocator: CommandAllocator;

    type Image: Image;

    type Renderpass: Renderpass;

    type Framebuffer: Framebuffer;

    type PipelineInterface: PipelineInterface;

    type DescriptorPool: DescriptorPool;

    type Pipeline: Pipeline;

    type Semaphore: Semaphore;

    type Fence: Fence;

    /// What the device took from its adapter when it was made. It never changes.
    type Hardware;

    /// What the device keeps track of: its fences and semaphores, the tokens it has handed
    /// out and the descriptor writes it has applied.
    spec fn state(&self) -> DeviceState;

    spec fn hardware(&self) -> Self::Hardware;

    /// Whether the device has a queue of type `queue_type` at `queue_index`.
    spec fn supports_queue(hardware: Self::Hardware, queue_type: QueueType, queue_index: u32)
        -> bool;

    /// Whether the device has a heap that memory of usage `memory_usage` can come from.
    spec fn has_heap_for(hardware: Self::Hardware, memory_usage: MemoryUsage) -> bool;

    /// Whether `memory` lies in a heap that is as visible to the device and to the host as
    /// its usage asks, and that takes the objects it is allowed to hold.
    spec fn heap_matches(hardware: Self::Hardware, memory: Self::Memory) -> bool;

    /// Retrieves the Queue of the wanted type and index
    ///
    /// # Parameters
    ///
    /// * `queue_type` - The type of queue to get
    /// * `queue_index` - The index of the queue to get among the queues of its type
    /// * `status` - What the native API reported for getting the queue
    fn get_queue(&self, queue_type: QueueType, queue_index: u32, status: NativeStatus) -> (queue:
        Result<Self::Queue, QueueGettingError>)
        ensures
            same_outcome(
                queue,
                queue_outcome(
                    Self::supports_queue(self.hardware(), queue_type, queue_index),
                    status,
                ),
            ),
            queue is Ok ==> queue->Ok_0.state() == (QueueState {
                queue_type,
                submissions: Seq::empty(),
                started: 0,
                finished: 0,
            }),
    ;

    /// Allocates memory from the graphics API
    ///
    /// This memory may be on the device or on the host, depending on its usage and allowed
    /// objects. Memory that the host writes to is mapped into host address space from its
    /// allocation on.
    ///
    /// # Parameters
    ///
    /// * `size` - The size, in bytes, of the memory you want to allocate
    /// * `memory_usage` - The usage you want the memory to be usable for
    /// * `allowed_objects` - The types of objects you want to allow from this memory. Enforcing
    /// this is up to the caller
    /// * `allocated` - What the native API reported for the allocation
    /// * `mapped` - What the native API reported for the mapping, where the memory is mapped
    fn allocate_memory(
        &mut self,
        size: u64,
        memory_usage: MemoryUsage,
        allowed_objects: ObjectType,
        allocated: NativeStatus,
        mapped: NativeStatus,
    ) -> (memory: Result<Self::Memory, AllocationError>)
        requires
            allocated.is_allocation_outcome(),
        ensures
            same_outcome(
                memory,
                allocation_outcome(
                    old(self).state(),
                    Self::has_heap_for(old(self).hardware(), memory_usage),
                    memory_usage,
                    allocated,
                    mapped,
                ),
            ),
            memory is Ok ==> memory->Ok_0.block() == (MemoryBlock {
                id: old(self).state().created as usize,
                size,
                usage: memory_usage,
                allowed_objects,
                buffers_created: 0,
            }),
            memory is Ok ==> Self::heap_matches(old(self).hardware(), memory->Ok_0),
            final(self).state() == old(self).state().after_creation(memory is Ok),
            final(self).hardware() == old(self).hardware(),
    ;

    /// Creates a new CommandAllocator
    ///
    /// # Parameters
    ///
    /// * `create_info` - Information about how you want the CommandAllocator created
    /// * `status` - What the native API reported for the creation
    fn create_command_allocator(
        &mut self,
        create_info: CommandAllocatorCreateInfo,
        status: NativeStatus,
    ) -> (allocator: Result<Self::CommandAllocator, MemoryError>)
        requires
            status.is_memory_outcome(),
        ensures
            same_outcome(allocator, old(self).state().object_outcome(status)),
            allocator is Ok ==> allocator->Ok_0.record() == (AllocatorRecord {
                id: old(self).state().created as usize,
                command_list_type: create_info.command_list_type,
                node_mask: create_info.node_mask,
                lists_created: 0,
            }),
            final(self).state() == old(self).state().after_creation(allocator is Ok),
            final(self).hardware() == old(self).hardware(),
    ;

    /// Creates a new renderpass from the provided shaderpack data
    ///
    /// # Parameters
    ///
    /// * `data` - The shaderpack data to create the renderpass from
    /// * `status` - What the native API reported for the creation
    fn create_renderpass(&mut self, data: &RenderPassCreationInfo, status: NativeStatus) -> (
        renderpass: Result<Self::Renderpass, MemoryError>)
        requires
            status.is_memory_outcome(),
        ensures
            same_outcome(renderpass, old(self).state().object_outcome(status)),
            renderpass is Ok ==> renderpass->Ok_0.handle() == (RenderpassHandle {
                id: old(self).state().created as usize,
                color_attachments: data.texture_outputs@.len() as usize,
                has_depth: data.depth_texture is Some,
            }),
            final(self).state() == old(self).state().after_creation(renderpass is Ok),
            final(self).hardware() == old(self).hardware(),
    ;

    /// Creates a new Framebuffer
    ///
    /// Framebuffers get their attachment layout from a renderpass.
    ///
    /// # Parameters
    ///
    /// * `renderpass` - The Renderpass to get the framebuffer layout from
    /// * `attachments` - The images to attach to the framebuffer, in attachment order
    /// * `status` - What the native API reported for the creation
    fn create_framebuffer(
        &mut self,
        renderpass: &Self::Renderpass,
        attachments: &Vec<Self::Image>,
        status: NativeStatus,
    ) -> (framebuffer: Result<Self::Framebuffer, MemoryError>)
        requires
            status.is_memory_outcome(),
        ensures
            same_outcome(framebuffer, old(self).state().object_outcome(status)),
            framebuffer is Ok ==> framebuffer->Ok_0.handle() == (FramebufferHandle {
                id: old(self).state().created as usize,
                renderpass: renderpass.handle().id,
                attachments: attachments@.len() as usize,
            }),
            final(self).state() == old(self).state().after_creation(framebuffer is Ok),
            final(self).hardware() == old(self).hardware(),
    ;

    /// Creates a PipelineInterface from the provided information
    ///
    /// The interface is the bindings and the attachments, as they are given.
    ///
    /// # Parameters
    ///
    /// * `bindings` - The bindings that the pipeline exposes, each with its name. A name
    /// stands for one binding: no name may occur twice
    /// * `color_attachments` - All the color attachments that the pipeline writes to
    /// * `depth_texture` - The depth texture that this pipeline writes to, if it writes to one
    /// * `status` - What the native API reported for the creation
    fn create_pipeline_interface(
        &mut self,
        bindings: Vec<(String, ResourceBindingDescription)>,
        color_attachments: Vec<TextureAttachmentInfo>,
        depth_texture: Option<TextureAttachmentInfo>,
        status: NativeStatus,
    ) -> (pipeline_interface: Result<Self::PipelineInterface, MemoryError>)
        requires
            status.is_memory_outcome(),
            distinct_names(bindings@),
        ensures
            same_outcome(pipeline_interface, old(self).state().object_outcome(status)),
            pipeline_interface is Ok ==> {
                &&& pipeline_interface->Ok_0.handle() == (PipelineInterfaceHandle {
                    id: old(self).state().created as usize,
                })
                &&& pipeline_interface->Ok_0.bindings() == bindings@
                &&& pipeline_interface->Ok_0.color_attachments() == color_attachments@
                &&& pipeline_interface->Ok_0.depth_texture() == depth_texture
            },
            final(self).state() == old(self).state().after_creation(pipeline_interface is Ok),
            final(self).hardware() == old(self).hardware(),
    ;

    /// Creates a DescriptorPool with the desired descriptors
    ///
    /// # Parameters
    ///
    /// * `num_sampled_images` - The number of sampled image descriptors you'll make from the new pool
    /// * `num_samplers` - The number of sampler descriptors you'll make from the pool
    /// * `num_uniform_buffers` - The number of UBO/CBV or SSBO/UAV descriptors you'll make from the pool
    /// * `status` - What the native API reported for the creation
    fn create_descriptor_pool(
        &mut self,
        num_sampled_images: u32,
        num_samplers: u32,
        num_uniform_buffers: u32,
        status: NativeStatus,
    ) -> (pools: Result<Vec<Self::DescriptorPool>, DescriptorPoolCreationError>)
        requires
            status.is_descriptor_outcome(),
        ensures
            same_outcome(pools, old(self).state().pool_outcome(status)),
            pools is Ok ==> {
                &&& pools->Ok_0@.len() == 1
                &&& pools->Ok_0@[0].record() == (DescriptorPoolRecord {
                    id: old(self).state().created as usize,
                    num_sampled_images,
                    num_samplers,
                    num_uniform_buffers,
                })
            },
            final(self).state() == old(self).state().after_creation(pools is Ok),
            final(self).hardware() == old(self).hardware(),
    ;

    /// Creates a Pipeline with the provided PipelineInterface
    ///
    /// # Parameters
    ///
    /// * `pipeline_interface` - The interface you want the new pipeline to have
    /// * `status` - What the native API reported for the creation. Where a shader failed to
    /// compile or link, the details went to the debug channel
    fn create_pipeline(&mut self, pipeline_interface: &Self::PipelineInterface, status: NativeStatus)
        -> (pipeline: Result<Self::Pipeline, PipelineCreationError>)
        requires
            status.is_pipeline_outcome(),
        ensures
            same_outcome(pipeline, old(self).state().pipeline_outcome(status)),
            pipeline is Ok ==> pipeline->Ok_0.handle() == (PipelineHandle {
                id: old(self).state().created as usize,
                pipeline_interface: pipeline_interface.handle().id,
            }),
            final(self).state() == old(self).state().after_creation(pipeline is Ok),
            final(self).hardware() == old(self).hardware(),
    ;

    /// Creates an Image
    ///
    /// # Parameters
    ///
    /// * `status` - What the native API reported for the creation
    fn create_image(&mut self, status: NativeStatus) -> (image: Result<Self::Image, MemoryError>)
        requires
            status.is_memory_outcome(),
        ensures
            same_outcome(image, old(self).state().object_outcome(status)),
            image is Ok ==> image->Ok_0.handle() == (ImageHandle {
                id: old(self).state().created as usize,
            }),
            final(self).state() == old(self).state().after_creation(image is Ok),
            final(self).hardware() == old(self).hardware(),
    ;

    /// Creates a new Semaphore, unsignaled
    fn create_semaphore(&mut self, status: NativeStatus) -> (semaphore: Result<
        Self::Semaphore,
        MemoryError,
    >)
        requires
            status.is_memory_outcome(),
        ensures
            semaphore is Ok <==> status == NativeStatus::Success,
            semaphore is Ok ==> semaphore->Ok_0.handle().id == old(self).state().semaphores.len()
                && final(self).state() == old(self).state().with_semaphores(1),
            semaphore is Err ==> status.memory_error() == Some(semaphore->Err_0) && final(self).state() == old(self).state(),
            final(self).hardware() == old(self).hardware(),
    ;

    /// Creates the specified number of Semaphores, all unsignaled
    ///
    /// # Parameters
    ///
    /// * `count` - The number of semaphores to create
    fn create_semaphores(&mut self, count: u32, status: NativeStatus) -> (semaphores: Result<
        Vec<Self::Semaphore>,
        MemoryError,
    >)
        requires
            status.is_memory_outcome(),
        ensures
            semaphores is Ok <==> status == NativeStatus::Success,
            semaphores is Ok ==> handles(semaphores->Ok_0@) == semaphore_run(
                old(self).state().semaphores.len(),
                count as nat,
            ) && final(self).state() == old(self).state().with_semaphores(count as nat),
            semaphores is Err ==> status.memory_error() == Some(semaphores->Err_0) && final(self).state() == old(self).state(),
            final(self).hardware() == old(self).hardware(),
    ;

    /// Creates a new Fence, unsignaled
    fn create_fence(&mut self, status: NativeStatus) -> (fence: Result<Self::Fence, MemoryError>)
        requires
            status.is_memory_outcome(),
        ensures
            fence is Ok <==> status == NativeStatus::Success,
            fence is Ok ==> fence->Ok_0.handle().id == old(self).state().fences.len() && final(self).state() == old(self).state().with_fences(1),
            fence is Err ==> status.memory_error() == Some(fence->Err_0) && final(self).state()
                == old(self).state(),
            final(self).hardware() == old(self).hardware(),
    ;

    /// Creates the specified number of Fences, all unsignaled
    ///
    /// # Parameters
    ///
    /// * `count` - The number of fences to create
    fn create_fences(&mut self, count: u32, status: NativeStatus) -> (fences: Result<
        Vec<Self::Fence>,
        MemoryError,
    >)
        requires
            status.is_memory_outcome(),
        ensures
            fences is Ok <==> status == NativeStatus::Success,
            fences is Ok ==> handles(fences->Ok_0@) == fence_run(
                old(self).state().fences.len(),
                count as nat,
            ) && final(self).state() == old(self).state().with_fences(count as nat),
            fences is Err ==> status.memory_error() == Some(fences->Err_0) && final(self).state()
                == old(self).state(),
            final(self).hardware() == old(self).hardware(),
    ;

    /// Waits for all the provided fences to be signalled
    ///
    /// The wait itself is the caller's: this answers whether it is over, which it is once
    /// every one of the fences is signaled, and not before.
    ///
    /// # Parameters
    ///
    /// * `fences` - All the fences to wait for
    fn wait_for_fences(&self, fences: &Vec<Self::Fence>) -> (signaled: bool)
        ensures
            signaled == all_up(self.state().fences, fence_ids(handles(fences@))),
    ;

    /// Resets all the provided fences to an unsignalled state
    ///
    /// # Parameters
    ///
    /// * `fences` - The fences to reset
    fn reset_fences(&mut self, fences: &Vec<Self::Fence>)
        ensures
            final(self).state() == (DeviceState {
                fences: lowered(old(self).state().fences, fence_ids(handles(fences@))),
                ..old(self).state()
            }),
            final(self).hardware() == old(self).hardware(),
    ;

    /// Executes the provided DescriptorSetWrites on this device
    ///
    /// Every write is applied. No barrier comes with them: the caller orders the writes
    /// before the command lists that read them.
    ///
    /// # Parameters
    ///
    /// * `updates` - The DescriptorSetWrites to execute
    fn update_descriptor_sets(&mut self, updates: Vec<DescriptorSetWrite>)
        ensures
            final(self).state() == (DeviceState {
                descriptor_writes: old(self).state().descriptor_writes + updates@,
                ..old(self).state()
            }),
            final(self).hardware() == old(self).hardware(),
    ;

    /// What `binding` of `set` holds: what the last write that was applied to it put there.
    fn descriptor(&self, set: DescriptorSetHandle, binding: u32) -> (held: Option<
        DescriptorUpdateInfo,
    >)
        ensures
            held == self.state().descriptor(set, binding),
    ;

    /// The fences and semaphores of the device, for its queues to read.
    fn sync(&self) -> (sync: &SyncPool)
        ensures
            sync.fences() == self.state().fences,
            sync.semaphores() == self.state().semaphores,
    ;

    /// The fences and semaphores of the device, for its queues to signal.
    fn sync_mut(&mut self) -> (sync: &mut SyncPool)
        ensures
            sync.fences() == old(self).state().fences,
            sync.semaphores() == old(self).state().semaphores,
            final(self).state() == (DeviceState {
                fences: final(sync).fences(),
                semaphores: final(sync).semaphores(),
                ..old(self).state()
            }),
            final(self).hardware() == old(self).hardware(),
    ;
}

pub trait Queue {
    type CommandList: CommandList;

    type Fence: Fence;

    type Semaphore: Semaphore;

    /// What the queue has been given, and how far it has come.
    spec fn state(&self) -> QueueState;

    /// Submits a command list to this queue
    ///
    /// The list must have no renderpass open and must be of the queue's type. Nothing is
    /// read of the fence or of the semaphores. A list that waits for no semaphore, on a
    /// queue whose earlier submissions have all started, can start at once, whatever state
    /// the semaphores are in.
    ///
    /// # Parameters
    ///
    /// * `commands` - The CommandList to submit to this queue
    /// * `fence_to_signal` - The Fence to signal after the CommandList has finished executing
    /// * `wait_semaphores` The semaphores to wait for before executing the CommandList
    /// * `signal_semaphores` - The semaphores to signal when the CommandList has finished executing
    fn submit_commands(
        &mut self,
        commands: Self::CommandList,
        fence_to_signal: Self::Fence,
        wait_semaphores: Vec<Self::Semaphore>,
        signal_semaphores: Vec<Self::Semaphore>,
    )
        requires
            !commands.state().in_renderpass(),
            commands.state().list_type == old(self).state().queue_type,
        ensures
            final(self).state().queue_type == old(self).state().queue_type,
            final(self).state().started == old(self).state().started,
            final(self).state().finished == old(self).state().finished,
            final(self).state().submissions.len() == old(self).state().submissions.len() + 1,
            final(self).state().submissions.drop_last() == old(self).state().submissions,
            ({
                let submitted = final(self).state().submissions.last();
                &&& submitted.commands@ == commands.state()
                &&& submitted.fence_to_signal == fence_to_signal.handle()
                &&& submitted.wait_semaphores@ == handles(wait_semaphores@)
                &&& submitted.signal_semaphores@ == handles(signal_semaphores@)
            }),
            wait_semaphores@.len() == 0 && old(self).state().is_free() ==> forall|
                semaphores: Seq<bool>,
            | #[trigger] final(self).state().next_can_start(semaphores),
    ;

    /// Starts the oldest submission that has not started, if it can start: if every
    /// semaphore that it waits for is signaled. One that waits for none starts as soon as
    /// the submissions before it have started.
    fn start_next(&mut self, sync: &SyncPool) -> (started: bool)
        ensures
            started == old(self).state().next_can_start(sync.semaphores()),
            final(self).state() == old(self).state().after_start(sync.semaphores()),
    ;

    /// Finishes the oldest submission that has started and not finished, if there is one:
    /// the semaphores that it signals are signaled, then its fence.
    fn finish_next(&mut self, sync: &mut SyncPool) -> (finished: bool)
        ensures
            finished == old(self).state().next_can_finish(),
            final(self).state() == old(self).state().after_finish(),
            final(sync).semaphores() == old(self).state().semaphores_after_finish(
                old(sync).semaphores(),
            ),
            final(sync).fences() == old(self).state().fences_after_finish(old(sync).fences()),
    ;
}

/// A block of memory and an allocation strategy
pub trait Memory {
    type Buffer: Buffer;

    /// What the allocation is and how many buffers were made from it.
    spec fn block(&self) -> MemoryBlock;

    /// Creates a buffer from this memory
    ///
    /// It's the caller's responsibility to make sure that this memory is allowed to create buffers
    ///
    /// # Parameters
    ///
    /// * `data` - The BufferCreateInfo to create the new buffer from
    /// * `status` - What the native API reported for the creation
    fn create_buffer(&mut self, data: BufferCreateInfo, status: NativeStatus) -> (buffer: Result<
        Self::Buffer,
        MemoryError,
    >)
        requires
            status.is_memory_outcome(),
        ensures
            buffer is Ok <==> status == NativeStatus::Success && old(self).block().buffers_created
                < usize::MAX,
            buffer is Ok ==> buffer->Ok_0.record() == old(self).block().next_buffer(data)
                && final(self).block() == (MemoryBlock {
                buffers_created: (old(self).block().buffers_created + 1) as usize,
                ..old(self).block()
            }),
            buffer is Err ==> final(self).block() == old(self).block(),
            buffer is Err && status != NativeStatus::Success ==> status.memory_error() == Some(
                buffer->Err_0,
            ),
            buffer is Err && status == NativeStatus::Success ==> buffer->Err_0
                == MemoryError::OutOfHostMemory,
    ;
}

/// Something that a barrier can name.
pub trait Resource {
    spec fn resource_id(&self) -> ResourceId;

    fn to_resource_id(&self) -> (id: ResourceId)
        ensures
            id == self.resource_id(),
    ;
}

pub trait Buffer: Token<Handle = BufferId> {
    /// What the buffer is.
    spec fn record(&self) -> BufferRecord;

    /// Finds the region of this buffer that a write of `num_bytes` bytes at `offset` goes to.
    /// There is one where the host can address the buffer and the bytes lie inside it.
    ///
    /// Note: buffers you call this method on must _not_ be device local, because they must be
    /// CPU-addressable
    ///
    /// # Parameters
    ///
    /// * `num_bytes` - The number of bytes of the data to write
    /// * `offset` - The offset in the buffer to where you want the data to be
    fn write_data(&self, num_bytes: u64, offset: u64) -> (region: Option<(u64, u64)>)
        ensures
            region == self.record().writable_region(num_bytes, offset),
    ;
}

pub trait Image: Token<Handle = ImageHandle> {

}

pub trait Sampler: Token<Handle = SamplerHandle> {

}

/// A pool of descriptors
pub trait DescriptorPool {
    type PipelineInterface: PipelineInterface;

    type DescriptorSet: DescriptorSet;

    /// What the pool is.
    spec fn record(&self) -> DescriptorPoolRecord;

    /// Creates DescriptorSets from the provided PipelineInterface: one for each binding group
    /// of the interface, or none where the pool cannot give them
    ///
    /// # Parameters
    ///
    /// * `pipeline_interface` - The PipelineInterface to create the descriptors from
    /// * `status` - What the native API reported for the creation
    fn create_descriptor_sets(
        &self,
        pipeline_interface: &Self::PipelineInterface,
        status: NativeStatus,
    ) -> (sets: Result<Vec<Self::DescriptorSet>, DescriptorPoolCreationError>)
        requires
            status.is_descriptor_outcome(),
        ensures
            sets is Ok <==> status == NativeStatus::Success,
            sets is Ok ==> handles(sets->Ok_0@) == sets_for(
                self.record().id,
                pipeline_interface.handle(),
                binding_groups(pipeline_interface.bindings()),
            ),
            sets is Err ==> status.descriptor_error() == Some(sets->Err_0),
    ;
}

pub trait DescriptorSet: Token<Handle = DescriptorSetHandle> {

}

pub trait Renderpass: Token<Handle = RenderpassHandle> {

}

pub trait Framebuffer: Token<Handle = FramebufferHandle> {

}

pub trait PipelineInterface: Token<Handle = PipelineInterfaceHandle> {
    /// The bindings that the interface declares, each with its name. No name occurs twice.
    spec fn bindings(&self) -> Seq<(String, ResourceBindingDescription)>;

    /// The color attachments that a pipeline with this interface writes to.
    spec fn color_attachments(&self) -> Seq<TextureAttachmentInfo>;

    /// The depth texture that a pipeline with this interface writes to, if it writes to one.
    spec fn depth_texture(&self) -> Option<TextureAttachmentInfo>;
}

pub trait Pipeline: Token<Handle = PipelineHandle> {

}

pub trait Semaphore: Token<Handle = SemaphoreHandle> {

}

pub trait Fence: Token<Handle = FenceHandle> {

}

pub trait CommandAllocator {
    type CommandList: CommandList;

    /// What the allocator is and how many lists were made from it.
    spec fn record(&self) -> AllocatorRecord;

    /// Makes a command list with nothing recorded, for queues of the allocator's type.
    ///
    /// # Parameters
    ///
    /// * `status` - What the native API reported for the allocation
    fn create_command_list(&mut self, status: NativeStatus) -> (list: Result<
        Self::CommandList,
        MemoryError,
    >)
        requires
            status.is_memory_outcome(),
        ensures
            list is Ok <==> status == NativeStatus::Success && old(self).record().lists_created
                < usize::MAX,
            list is Ok ==> list->Ok_0.state() == (ListState {
                id: old(self).record().next_list(),
                list_type: old(self).record().command_list_type,
                commands: Seq::empty(),
            }) && final(self).record() == (AllocatorRecord {
                lists_created: (old(self).record().lists_created + 1) as usize,
                ..old(self).record()
            }),
            list is Err ==> final(self).record() == old(self).record(),
            list is Err && status != NativeStatus::Success ==> status.memory_error() == Some(
                list->Err_0,
            ),
            list is Err && status == NativeStatus::Success ==> list->Err_0
                == MemoryError::OutOfHostMemory,
    ;
}

/// A CommandList is a sequence of commands which can be submitted to the GPU
///
/// Recording touches nothing but the list. Renderpasses nest properly: at most one is open
/// at a time, and a draw outside one is refused.
pub trait CommandList: Token<Handle = CommandListId> {
    type Buffer: Buffer;

    type Renderpass: Renderpass;

    type Framebuffer: Framebuffer;

    type Pipeline: Pipeline;

    type DescriptorSet: DescriptorSet;

    type PipelineInterface: PipelineInterface;

    /// What has been recorded.
    spec fn state(&self) -> ListState;

    /// Hands the recorded commands over, for a queue to take.
    fn into_recorder(self) -> (recorder: CommandRecorder) where Self: Sized
        ensures
            recorder@ == self.state(),
    ;

    /// Records resource barriers which happen after all the stages in the `stages_before_barrier`
    /// bitmask, and before all the stages in the `stages_after_barrier` bitmask
    ///
    ///# Parameters
    ///
    /// * `stages_before_barrier` - The pipeline barrier will take place after all the stages in this bitmask
    /// * `stages_after_barrier` - The pipeline barrier will take place before all the stages in this bitmask
    /// * `barriers` - The resource barriers to record
    fn resource_barriers(
        &mut self,
        stages_before_barrier: PipelineStageFlags,
        stages_after_barrier: PipelineStageFlags,
        barriers: Vec<ResourceBarrier>,
    )
        ensures
            final(self).state() == old(self).state().with(
                Command::ResourceBarriers { stages_before_barrier, stages_after_barrier, barriers },
            ),
    ;

    /// Records a command to copy data from one buffer to another
    ///
    /// # Parameters
    ///
    /// * `destination_buffer` - The buffer to write data to
    /// * `destination_offset` - The number of bytes from the start of `destination_buffer` to write to
    /// * `source_buffer` - The buffer to read data from
    /// * `source_offset` - The number of bytes from the start of `source_buffer` to read data from
    /// * `num_bytes` - The number of bytes to copy
    fn copy_buffer(
        &mut self,
        destination_buffer: &Self::Buffer,
        destination_offset: u64,
        source_buffer: &Self::Buffer,
        source_offset: u64,
        num_bytes: u64,
    )
        ensures
            final(self).state() == old(self).state().with(
                Command::CopyBuffer {
                    destination_buffer: destination_buffer.handle(),
                    destination_offset,
                    source_buffer: source_buffer.handle(),
                    source_offset,
                    num_bytes,
                },
            ),
    ;

    /// Records a command to execute the provided command lists
    ///
    /// # Parameters
    ///
    /// * `lists` - The command lists to execute
    fn execute_command_lists(&mut self, lists: Vec<Self>) where Self: Sized
        ensures
            final(self).state().id == old(self).state().id,
            final(self).state().list_type == old(self).state().list_type,
            final(self).state().commands.drop_last() == old(self).state().commands,
            final(self).state().commands.len() == old(self).state().commands.len() + 1,
            final(self).state().commands.last() matches Command::ExecuteCommandLists { lists: ids }
                && ids@ == handles(lists@),
    ;

    /// Records a command to begin a renderpass with a framebuffer
    ///
    /// Where a renderpass is open already, the command is refused and nothing is recorded.
    ///
    /// # Parameters
    ///
    /// * `renderpass` - The renderpass to begin
    /// * `framebuffer` - The framebuffer to begin the renderpass with
    fn begin_renderpass(&mut self, renderpass: &Self::Renderpass, framebuffer: &Self::Framebuffer)
        -> (result: Result<(), RecordingError>)
        ensures
            result == outside_renderpass(old(self).state()),
            final(self).state() == old(self).state().with_outside_renderpass(
                Command::BeginRenderpass {
                    renderpass: renderpass.handle(),
                    framebuffer: framebuffer.handle(),
                },
            ),
    ;

    /// Records a command to end the current renderpass
    ///
    /// Where no renderpass is open, the command is refused and nothing is recorded.
    fn end_renderpass(&mut self) -> (result: Result<(), RecordingError>)
        ensures
            result == inside_renderpass(old(self).state()),
            final(self).state() == old(self).state().with_inside_renderpass(Command::EndRenderpass),
    ;

    /// Binds a pipeline to the command list
    ///
    /// # Parameters
    ///
    /// * `pipeline` - The pipeline to bind
    fn bind_pipeline(&mut self, pipeline: &Self::Pipeline)
        ensures
            final(self).state() == old(self).state().with(
                Command::BindPipeline { pipeline: pipeline.handle() },
            ),
    ;

    /// Records a command to bind DescriptorSet to a PipelineInterface
    ///
    /// # Parameters
    ///
    /// * `descriptor_sets` - The DescriptorSets to bind
    /// * `pipeline_interface` - The PipelineInterface to bind the descriptor sets to
    fn bind_descriptor_sets(
        &mut self,
        descriptor_sets: &Vec<Self::DescriptorSet>,
        pipeline_interface: &Self::PipelineInterface,
    )
        ensures
            final(self).state().id == old(self).state().id,
            final(self).state().list_type == old(self).state().list_type,
            final(self).state().commands.drop_last() == old(self).state().commands,
            final(self).state().commands.len() == old(self).state().commands.len() + 1,
            final(self).state().commands.last() matches Command::BindDescriptorSets {
                descriptor_sets: sets,
                pipeline_interface: interface,
            } && sets@ == handles(descriptor_sets@) && interface == pipeline_interface.handle(),
    ;

    /// Records a command to bind vertex buffers
    ///
    /// Vertex buffers are always bound sequentially starting at binding 0
    ///
    /// # Parameters
    ///
    /// * `buffers` - The buffers to bind
    fn bind_vertex_buffers(&mut self, buffers: &Vec<Self::Buffer>)
        ensures
            final(self).state() == old(self).state().with_all(vertex_bindings(handles(buffers@))),
    ;

    /// Binds an index buffer
    ///
    /// # Parameters
    ///
    /// * `buffer` - The buffer to bind as an index buffer
    fn bind_index_buffer(&mut self, buffer: &Self::Buffer)
        ensures
            final(self).state() == old(self).state().with(
                Command::BindIndexBuffer { buffer: buffer.handle() },
            ),
    ;

    /// Records a drawcall to grab `num_indices` indices from the currently bound index buffer and
    /// draw them `num_instances` times
    ///
    /// A draw outside a renderpass is refused and nothing is recorded.
    ///
    /// # Parameters
    ///
    /// * `num_indices` - The number of indices to draw from the currently bound index buffer
    /// * `num_instances` - How many times to draw the mesh
    fn draw_indexed_mesh(&mut self, num_indices: u32, num_instances: u32) -> (result: Result<
        (),
        RecordingError,
    >)
        ensures
            result == inside_renderpass(old(self).state()),
            final(self).state() == old(self).state().with_inside_renderpass(
                Command::DrawIndexedMesh { num_indices, num_instances },
            ),
    ;
}

} // verus!
