//! Queues of the Direct3D 12 backend.

use crate::rhi::dx12::dx12_command_list::Dx12CommandList;
use crate::rhi::rhi_enums::QueueType;
use crate::rhi::rhi_queue::{QueueState, SubmissionQueue};
use crate::rhi::rhi_structs::{FenceHandle, SemaphoreHandle};
use crate::rhi::rhi_sync::SyncPool;
use crate::rhi::rhi_traits::{handles, CommandList, Queue};
use vstd::prelude::*;

verus! {

/// The type of command list that a native queue takes.
#[derive(Clone, Copy, Debug, PartialEq, Eq, Structural)]
pub enum Dx12CommandListType {
    Direct,
    Compute,
    Copy,
}

/// The type of native queue that work of type `queue_type` goes to.
pub open spec fn command_list_type_of(queue_type: QueueType) -> Dx12CommandListType {
    match queue_type {
        QueueType::Graphics => Dx12CommandListType::Direct,
        QueueType::Compute => Dx12CommandListType::Compute,
        QueueType::Copy => Dx12CommandListType::Copy,
    }
}

/// A queue: what it has been given to run, and the type of native queue behind it.
pub struct Dx12Queue {
    pub queue: SubmissionQueue,
    pub list_type: Dx12CommandListType,
}

impl Dx12Queue {
    /// A queue for work of type `queue_type`, with nothing submitted.
    pub fn new(queue_type: QueueType) -> (queue: Dx12Queue)
        ensures
            queue.queue@ == (QueueState {
                queue_type,
                submissions: Seq::empty(),
                started: 0,
                finished: 0,
            }),
            queue.list_type == command_list_type_of(queue_type),
    {
        let list_type = match queue_type {
            QueueType::Graphics => Dx12CommandListType::Direct,
            QueueType::Compute => Dx12CommandListType::Compute,
            QueueType::Copy => Dx12CommandListType::Copy,
        };
        Dx12Queue { queue: SubmissionQueue::new(queue_type), list_type }
    }
}

impl Queue for Dx12Queue {
    type CommandList = Dx12CommandList;

    type Fence = FenceHandle;

    type Semaphore = SemaphoreHandle;

    open spec fn state(&self) -> QueueState {
        self.queue@
    }

    fn submit_commands(
        &mut self,
        commands: Dx12CommandList,
        fence_to_signal: FenceHandle,
        wait_semaphores: Vec<SemaphoreHandle>,
        signal_semaphores: Vec<SemaphoreHandle>,
    ) {
        proof {
            assert(handles(wait_semaphores@) =~= wait_semaphores@);
            assert(handles(signal_semaphores@) =~= signal_semaphores@);
        }
        let ghost before = self.queue@.submissions;
        let recorder = commands.into_recorder();
        self.queue.submit_commands(recorder, fence_to_signal, wait_semaphores, signal_semaphores);
        assert(self.queue@.submissions.drop_last() == before);
    }

    fn start_next(&mut self, sync: &SyncPool) -> (started: bool) {
        self.queue.start_next(sync)
    }

    fn finish_next(&mut self, sync: &mut SyncPool) -> (finished: bool) {
        self.queue.finish_next(sync)
    }
}

} // verus!
