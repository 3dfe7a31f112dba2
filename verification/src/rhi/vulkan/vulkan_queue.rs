//! Queues of the Vulkan backend.

use crate::rhi::rhi_enums::QueueType;
use crate::rhi::rhi_queue::{QueueState, SubmissionQueue};
use crate::rhi::rhi_structs::{FenceHandle, SemaphoreHandle};
use crate::rhi::rhi_sync::SyncPool;
use crate::rhi::rhi_traits::{handles, CommandList, Queue};
use crate::rhi::vulkan::vulkan_command_list::VulkanCommandList;
use vstd::prelude::*;

verus! {

/// A queue: what it has been given to run, and where the native queue is found.
pub struct VulkanQueue {
    pub queue: SubmissionQueue,
    /// The queue family that the native queue belongs to
    pub family_index: usize,
    /// The index of the native queue in its family
    pub queue_index: u32,
}

impl VulkanQueue {
    /// A queue for work of type `queue_type`, with nothing submitted.
    pub fn new(queue_type: QueueType, family_index: usize, queue_index: u32) -> (queue: VulkanQueue)
        ensures
            queue.queue@ == (QueueState {
                queue_type,
                submissions: Seq::empty(),
                started: 0,
                finished: 0,
            }),
            queue.family_index == family_index,
            queue.queue_index == queue_index,
    {
        VulkanQueue { queue: SubmissionQueue::new(queue_type), family_index, queue_index }
    }
}

impl Queue for VulkanQueue {
    type CommandList = VulkanCommandList;

    type Fence = FenceHandle;

    type Semaphore = SemaphoreHandle;

    open spec fn state(&self) -> QueueState {
        self.queue@
    }

    fn submit_commands(
        &mut self,
        commands: VulkanCommandList,
        fence_to_signal: FenceHandle,
        wait_semaphores: Vec<SemaphoreHandle>,
        signal_semaphores: Vec<SemaphoreHandle>,
    ) {
        proof {
            assert(handles(wait_semaphores@) =~= wait_semaphores@);
            assert(handles(signal_semaphores@) =~= signal_semaphores@);
        }
        let ghost before = self.queue@.submissions;
        let recorder = commands.into_recorder();
        self.queue.submit_commands(recorder, fence_to_signal, wait_semaphores, signal_semaphores);
        assert(self.queue@.submissions.drop_last() == before);
    }

    fn start_next(&mut self, sync: &SyncPool) -> (started: bool) {
        self.queue.start_next(sync)
    }

    fn finish_next(&mut self, sync: &mut SyncPool) -> (finished: bool) {
        self.queue.finish_next(sync)
    }
}

} // verus!
