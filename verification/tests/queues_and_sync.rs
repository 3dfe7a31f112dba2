use nova_rs::rhi::dx12::dx12_device::{Dx12Device, Dx12Hardware};
use nova_rs::rhi::rhi_commands::{CommandListState, CommandRecorder};
use nova_rs::rhi::rhi_device::DeviceCore;
use nova_rs::rhi::rhi_enums::{MemoryError, NativeStatus, QueueType};
use nova_rs::rhi::rhi_queue::SubmissionQueue;
use nova_rs::rhi::rhi_structs::{
    CommandAllocatorCreateInfo, CommandListId, FenceHandle, FramebufferHandle, RenderpassHandle,
    SemaphoreHandle,
};
use nova_rs::rhi::rhi_sync::{ids_of_fences, ids_of_semaphores, SyncPool};
use nova_rs::rhi::rhi_traits::{handles_of, CommandAllocator, CommandList, Device, Queue};
use nova_rs::rhi::vulkan::vulkan_device::VulkanDevice;

fn list(index: usize, queue_type: QueueType) -> CommandRecorder {
    CommandRecorder::new(CommandListId { allocator: 0, index }, queue_type)
}

fn dx12_device() -> Dx12Device {
    Dx12Device::new(Dx12Hardware {
        rtv_descriptor_size: 32,
        shader_resource_descriptor_size: 64,
        graphics_queue: true,
        compute_queue: false,
        copy_queue: true,
    })
}

fn vulkan_device() -> VulkanDevice {
    VulkanDevice::new(0, 1, Some(2), Vec::new())
}

#[test]
fn fences_and_semaphores_are_created_unsignaled() {
    let mut pool = SyncPool::new();
    let fence = pool.create_fence();
    let semaphore = pool.create_semaphore();
    let second = pool.create_fence();
    assert_eq!(fence, FenceHandle { id: 0 });
    assert_eq!(second, FenceHandle { id: 1 });
    assert_eq!(semaphore, SemaphoreHandle { id: 0 });
    assert!(!pool.is_fence_signaled(fence));
    assert!(!pool.is_fence_signaled(second));
    assert!(!pool.is_semaphore_signaled(semaphore));
}

#[test]
fn fence_that_was_never_created_is_not_signaled() {
    let mut pool = SyncPool::new();
    let stranger = FenceHandle { id: 3 };
    assert!(!pool.is_fence_signaled(stranger));
    pool.signal_fence(stranger);
    assert!(!pool.is_fence_signaled(stranger));
    pool.reset_fences(&vec![stranger]);
    assert!(!pool.all_fences_signaled(&vec![stranger]));
    assert!(!pool.is_semaphore_signaled(SemaphoreHandle { id: 0 }));
}

#[test]
fn wait_is_over_only_when_every_fence_is_signaled() {
    let mut pool = SyncPool::new();
    let fences = vec![pool.create_fence(), pool.create_fence(), pool.create_fence()];
    assert!(!pool.all_fences_signaled(&fences));
    pool.signal_fence(fences[0]);
    assert!(!pool.all_fences_signaled(&fences));
    pool.signal_fence(fences[2]);
    assert!(!pool.all_fences_signaled(&fences));
    assert!(pool.all_fences_signaled(&vec![fences[0], fences[2]]));
    assert!(pool.all_fences_signaled(&vec![fences[2], fences[2]]));
    pool.signal_fence(fences[1]);
    assert!(pool.all_fences_signaled(&fences));
}

#[test]
fn wait_for_no_fences_is_over_at_once() {
    let mut pool = SyncPool::new();
    assert!(pool.all_fences_signaled(&Vec::new()));
    pool.create_fence();
    assert!(pool.all_fences_signaled(&Vec::new()));
    assert!(pool.all_semaphores_signaled(&Vec::new()));
}

#[test]
fn reset_leaves_its_fences_unsignaled_and_the_others_alone() {
    let mut pool = SyncPool::new();
    let fences = vec![pool.create_fence(), pool.create_fence(), pool.create_fence()];
    let semaphore = pool.create_semaphore();
    for fence in &fences {
        pool.signal_fence(*fence);
    }
    pool.signal_semaphores(&vec![semaphore]);
    pool.reset_fences(&vec![fences[0], fences[2]]);
    assert!(!pool.is_fence_signaled(fences[0]));
    assert!(pool.is_fence_signaled(fences[1]));
    assert!(!pool.is_fence_signaled(fences[2]));
    assert!(pool.is_semaphore_signaled(semaphore));
}

#[test]
fn reset_twice_is_reset_once() {
    let mut pool = SyncPool::new();
    let fences = vec![pool.create_fence(), pool.create_fence(), pool.create_fence()];
    pool.signal_fence(fences[0]);
    pool.signal_fence(fences[1]);
    let reset = vec![fences[1], fences[2], fences[1]];
    pool.reset_fences(&reset);
    let once: Vec<bool> = fences.iter().map(|fence| pool.is_fence_signaled(*fence)).collect();
    pool.reset_fences(&reset);
    let twice: Vec<bool> = fences.iter().map(|fence| pool.is_fence_signaled(*fence)).collect();
    assert_eq!(once, vec![true, false, false]);
    assert_eq!(twice, once);
}

#[test]
fn signaling_raises_only_what_is_named() {
    let mut pool = SyncPool::new();
    let semaphores =
        vec![pool.create_semaphore(), pool.create_semaphore(), pool.create_semaphore()];
    let fence = pool.create_fence();
    pool.signal_semaphores(&vec![semaphores[2], semaphores[0]]);
    assert!(pool.is_semaphore_signaled(semaphores[0]));
    assert!(!pool.is_semaphore_signaled(semaphores[1]));
    assert!(pool.is_semaphore_signaled(semaphores[2]));
    assert!(!pool.is_fence_signaled(fence));
    assert!(pool.all_semaphores_signaled(&vec![semaphores[0], semaphores[2]]));
    assert!(!pool.all_semaphores_signaled(&semaphores));
}

#[test]
fn ids_are_read_off_in_order() {
    let fences = vec![FenceHandle { id: 4 }, FenceHandle { id: 0 }, FenceHandle { id: 4 }];
    assert_eq!(ids_of_fences(&fences), vec![4, 0, 4]);
    assert_eq!(handles_of(&fences), fences);
    let semaphores = vec![SemaphoreHandle { id: 2 }, SemaphoreHandle { id: 9 }];
    assert_eq!(ids_of_semaphores(&semaphores), vec![2, 9]);
    assert!(ids_of_fences(&Vec::new()).is_empty());
}

#[test]
fn device_creates_fences_in_runs() {
    let mut device = vulkan_device();
    let ok = NativeStatus::Success;
    let first = device.create_fence(ok).ok().unwrap();
    let run = device.create_fences(3, ok).ok().unwrap();
    let none = device.create_fences(0, ok).ok().unwrap();
    let last = device.create_fence(ok).ok().unwrap();
    assert_eq!(first, FenceHandle { id: 0 });
    assert_eq!(run, vec![FenceHandle { id: 1 }, FenceHandle { id: 2 }, FenceHandle { id: 3 }]);
    assert!(none.is_empty());
    assert_eq!(last, FenceHandle { id: 4 });
    assert!(!device.wait_for_fences(&run));
    assert!(device.wait_for_fences(&Vec::new()));
}

#[test]
fn device_creates_semaphores_in_runs() {
    let mut device = dx12_device();
    let ok = NativeStatus::Success;
    let run = device.create_semaphores(2, ok).ok().unwrap();
    let single = device.create_semaphore(ok).ok().unwrap();
    assert_eq!(run, vec![SemaphoreHandle { id: 0 }, SemaphoreHandle { id: 1 }]);
    assert_eq!(single, SemaphoreHandle { id: 2 });
    // Fences are counted apart from semaphores, and both apart from other objects.
    assert_eq!(device.create_fence(ok).ok(), Some(FenceHandle { id: 0 }));
    assert_eq!(device.create_image(ok).ok().map(|image| image.id), Some(0));
}

#[test]
fn failed_creation_of_sync_objects_creates_none() {
    let mut device = vulkan_device();
    let host = NativeStatus::OutOfHostMemory;
    let gpu = NativeStatus::OutOfDeviceMemory;
    assert_eq!(device.create_fence(host).err(), Some(MemoryError::OutOfHostMemory));
    assert_eq!(device.create_fences(5, gpu).err(), Some(MemoryError::OutOfDeviceMemory));
    assert_eq!(device.create_semaphore(gpu).err(), Some(MemoryError::OutOfDeviceMemory));
    assert_eq!(device.create_semaphores(5, host).err(), Some(MemoryError::OutOfHostMemory));
    assert_eq!(device.create_fence(NativeStatus::Success).ok(), Some(FenceHandle { id: 0 }));
    assert_eq!(
        device.create_semaphore(NativeStatus::Success).ok(),
        Some(SemaphoreHandle { id: 0 })
    );
}

#[test]
fn device_wait_and_reset_follow_the_fences() {
    let mut device = vulkan_device();
    let fences = device.create_fences(2, NativeStatus::Success).ok().unwrap();
    assert!(!device.wait_for_fences(&fences));
    device.sync_mut().signal_fence(fences[0]);
    assert!(!device.wait_for_fences(&fences));
    device.sync_mut().signal_fence(fences[1]);
    assert!(device.wait_for_fences(&fences));
    assert!(device.sync().is_fence_signaled(fences[0]));
    device.reset_fences(&fences);
    assert!(!device.wait_for_fences(&fences));
    assert!(!device.sync().is_fence_signaled(fences[0]));
    assert!(!device.sync().is_fence_signaled(fences[1]));
    device.reset_fences(&fences);
    assert!(!device.sync().is_fence_signaled(fences[0]));
    assert!(!device.sync().is_fence_signaled(fences[1]));
}

#[test]
fn submission_without_wait_semaphores_starts_as_soon_as_the_queue_is_free() {
    let mut pool = SyncPool::new();
    let fence = pool.create_fence();
    // Semaphores that nobody signals do not hold it back.
    pool.create_semaphore();
    let mut queue = SubmissionQueue::new(QueueType::Graphics);
    queue.submit_commands(list(0, QueueType::Graphics), fence, Vec::new(), Vec::new());
    assert_eq!(queue.submission_state(0), Some(CommandListState::Submitted));
    assert!(queue.start_next(&pool));
    assert_eq!(queue.submission_state(0), Some(CommandListState::Pending));
    assert_eq!(queue.progress(), (1, 0));
}

#[test]
fn submission_without_wait_semaphores_starts_at_once_on_either_backend() {
    let ok = NativeStatus::Success;
    let info = CommandAllocatorCreateInfo { command_list_type: QueueType::Graphics, node_mask: 0 };
    let mut vulkan = vulkan_device();
    let fence = vulkan.create_fence(ok).ok().unwrap();
    let unsignaled = vulkan.create_semaphore(ok).ok().unwrap();
    let mut queue = vulkan.get_queue(QueueType::Graphics, 0, ok).ok().unwrap();
    let mut allocator = vulkan.create_command_allocator(info, ok).ok().unwrap();
    let first = allocator.create_command_list(ok).ok().unwrap();
    let second = allocator.create_command_list(ok).ok().unwrap();
    queue.submit_commands(first, fence, Vec::new(), vec![unsignaled]);
    assert!(!vulkan.sync().is_fence_signaled(fence));
    assert!(queue.start_next(vulkan.sync()));
    // The queue is free again as soon as the first has started.
    queue.submit_commands(second, fence, Vec::new(), Vec::new());
    assert!(queue.start_next(vulkan.sync()));
    assert_eq!(queue.queue.progress(), (2, 0));
    assert!(!vulkan.sync().is_fence_signaled(fence));
    assert!(!vulkan.sync().is_semaphore_signaled(unsignaled));

    let mut dx12 = dx12_device();
    let fence = dx12.create_fence(ok).ok().unwrap();
    dx12.create_semaphore(ok).ok().unwrap();
    let mut queue = dx12.get_queue(QueueType::Graphics, 0, ok).ok().unwrap();
    let mut allocator = dx12.create_command_allocator(info, ok).ok().unwrap();
    let commands = allocator.create_command_list(ok).ok().unwrap();
    queue.submit_commands(commands, fence, Vec::new(), Vec::new());
    assert!(queue.start_next(dx12.sync()));
    assert_eq!(queue.queue.progress(), (1, 0));
    assert!(!dx12.sync().is_fence_signaled(fence));
}

#[test]
fn submission_waits_for_all_its_semaphores() {
    let mut pool = SyncPool::new();
    let fence = pool.create_fence();
    let first = pool.create_semaphore();
    let second = pool.create_semaphore();
    let mut queue = SubmissionQueue::new(QueueType::Compute);
    queue.submit_commands(list(0, QueueType::Compute), fence, vec![first, second], Vec::new());
    assert!(!queue.start_next(&pool));
    pool.signal_semaphores(&vec![second]);
    assert!(!queue.start_next(&pool));
    assert_eq!(queue.submission_state(0), Some(CommandListState::Submitted));
    pool.signal_semaphores(&vec![first]);
    assert!(queue.start_next(&pool));
    assert_eq!(queue.submission_state(0), Some(CommandListState::Pending));
    assert!(!queue.start_next(&pool));
}

#[test]
fn submissions_start_in_the_order_they_were_submitted() {
    let mut pool = SyncPool::new();
    let fence = pool.create_fence();
    let semaphore = pool.create_semaphore();
    let mut queue = SubmissionQueue::new(QueueType::Graphics);
    queue.submit_commands(list(0, QueueType::Graphics), fence, vec![semaphore], Vec::new());
    queue.submit_commands(list(1, QueueType::Graphics), fence, Vec::new(), Vec::new());
    // The second waits for nothing but queues behind the first.
    assert!(!queue.start_next(&pool));
    assert_eq!(queue.submission_state(1), Some(CommandListState::Submitted));
    pool.signal_semaphores(&vec![semaphore]);
    assert!(queue.start_next(&pool));
    assert_eq!(queue.submission_state(0), Some(CommandListState::Pending));
    assert_eq!(queue.submission_state(1), Some(CommandListState::Submitted));
    assert!(queue.start_next(&pool));
    assert_eq!(queue.submission_state(1), Some(CommandListState::Pending));
    assert_eq!(queue.progress(), (2, 0));
    assert_eq!(queue.len(), 2);
}

#[test]
fn finished_submission_signals_its_semaphores_and_its_fence() {
    let mut pool = SyncPool::new();
    let fence = pool.create_fence();
    let other_fence = pool.create_fence();
    let signaled = pool.create_semaphore();
    let untouched = pool.create_semaphore();
    let mut queue = SubmissionQueue::new(QueueType::Copy);
    queue.submit_commands(list(0, QueueType::Copy), fence, Vec::new(), vec![signaled]);
    // Nothing finishes before it has started.
    assert!(!queue.finish_next(&mut pool));
    assert!(!pool.is_fence_signaled(fence));
    assert!(queue.start_next(&pool));
    assert!(!pool.is_fence_signaled(fence));
    assert!(!pool.is_semaphore_signaled(signaled));
    assert!(queue.finish_next(&mut pool));
    assert_eq!(queue.submission_state(0), Some(CommandListState::Completed));
    assert!(pool.is_fence_signaled(fence));
    assert!(pool.is_semaphore_signaled(signaled));
    assert!(!pool.is_fence_signaled(other_fence));
    assert!(!pool.is_semaphore_signaled(untouched));
    assert!(!queue.finish_next(&mut pool));
    assert_eq!(queue.progress(), (1, 1));
}

#[test]
fn semaphore_orders_one_queue_after_another() {
    let mut device = vulkan_device();
    let ok = NativeStatus::Success;
    let fences = device.create_fences(2, ok).ok().unwrap();
    let uploaded = device.create_semaphore(ok).ok().unwrap();
    let mut copy = device.get_queue(QueueType::Copy, 0, ok).ok().unwrap();
    let mut graphics = device.get_queue(QueueType::Graphics, 0, ok).ok().unwrap();
    let copy_info = CommandAllocatorCreateInfo { command_list_type: QueueType::Copy, node_mask: 0 };
    let graphics_info =
        CommandAllocatorCreateInfo { command_list_type: QueueType::Graphics, node_mask: 0 };
    let mut copy_allocator = device.create_command_allocator(copy_info, ok).ok().unwrap();
    let mut graphics_allocator = device.create_command_allocator(graphics_info, ok).ok().unwrap();
    let upload = copy_allocator.create_command_list(ok).ok().unwrap();
    let mut draw = graphics_allocator.create_command_list(ok).ok().unwrap();
    let renderpass = RenderpassHandle { id: 90, color_attachments: 1, has_depth: false };
    let framebuffer = FramebufferHandle { id: 91, renderpass: 90, attachments: 1 };
    draw.begin_renderpass(&renderpass, &framebuffer).unwrap();
    draw.draw_indexed_mesh(3, 1).unwrap();
    draw.end_renderpass().unwrap();
    graphics.submit_commands(draw, fences[1], vec![uploaded], Vec::new());
    copy.submit_commands(upload, fences[0], Vec::new(), vec![uploaded]);
    // The draw was submitted first and still waits for the upload.
    assert!(!graphics.start_next(device.sync()));
    assert!(copy.start_next(device.sync()));
    assert!(!graphics.start_next(device.sync()));
    assert!(copy.finish_next(device.sync_mut()));
    assert!(device.wait_for_fences(&vec![fences[0]]));
    assert!(!device.wait_for_fences(&fences));
    assert!(graphics.start_next(device.sync()));
    assert!(graphics.finish_next(device.sync_mut()));
    assert!(device.wait_for_fences(&fences));
    assert_eq!(copy.queue.submission_state(0), Some(CommandListState::Completed));
    assert_eq!(graphics.queue.submission_state(0), Some(CommandListState::Completed));
}

#[test]
fn dx12_queue_runs_its_submissions() {
    let mut device = dx12_device();
    let ok = NativeStatus::Success;
    let fence = device.create_fence(ok).ok().unwrap();
    let mut queue = device.get_queue(QueueType::Graphics, 0, ok).ok().unwrap();
    let info = CommandAllocatorCreateInfo { command_list_type: QueueType::Graphics, node_mask: 0 };
    let mut allocator = device.create_command_allocator(info, ok).ok().unwrap();
    let commands = allocator.create_command_list(ok).ok().unwrap();
    queue.submit_commands(commands, fence, Vec::new(), Vec::new());
    assert_eq!(queue.queue.submission_state(0), Some(CommandListState::Submitted));
    assert!(queue.start_next(device.sync()));
    assert!(!device.wait_for_fences(&vec![fence]));
    assert!(queue.finish_next(device.sync_mut()));
    assert!(device.wait_for_fences(&vec![fence]));
    assert_eq!(queue.queue.submission_state(0), Some(CommandListState::Completed));
    assert_eq!(queue.queue.submission_state(1), None);
}

#[test]
fn there_is_no_state_for_a_submission_that_was_never_made() {
    let queue = SubmissionQueue::new(QueueType::Graphics);
    assert_eq!(queue.submission_state(0), None);
    assert_eq!(queue.progress(), (0, 0));
    assert_eq!(queue.len(), 0);
    assert_eq!(queue.get_queue_type(), QueueType::Graphics);
}

#[test]
fn device_core_starts_empty() {
    let mut core = DeviceCore::new();
    assert_eq!(core.create_object(NativeStatus::Success), Ok(0));
    assert_eq!(core.create_object(NativeStatus::OutOfHostMemory), Err(MemoryError::OutOfHostMemory));
    assert_eq!(core.create_pipeline_object(NativeStatus::Success), Ok(1));
    assert_eq!(core.create_descriptor_pool_object(NativeStatus::Success), Ok(2));
    assert_eq!(core.create_object(NativeStatus::Success), Ok(3));
    assert!(core.wait_for_fences(&Vec::new()));
    assert!(!core.wait_for_fences(&vec![FenceHandle { id: 0 }]));
}

#[test]
fn queue_takes_finished_lists_of_its_own_type() {
    let queue = SubmissionQueue::new(QueueType::Graphics);
    let mut commands = list(0, QueueType::Graphics);
    assert!(queue.accepts(&commands));
    let renderpass = RenderpassHandle { id: 1, color_attachments: 1, has_depth: false };
    let framebuffer = FramebufferHandle { id: 2, renderpass: 1, attachments: 1 };
    commands.begin_renderpass(renderpass, framebuffer).unwrap();
    assert!(!queue.accepts(&commands));
    commands.end_renderpass().unwrap();
    assert!(queue.accepts(&commands));
    assert!(!queue.accepts(&list(1, QueueType::Compute)));
    assert!(!queue.accepts(&list(1, QueueType::Copy)));
    assert!(SubmissionQueue::new(QueueType::Copy).accepts(&list(1, QueueType::Copy)));
    assert!(SubmissionQueue::new(QueueType::Compute).accepts(&list(1, QueueType::Compute)));
}
