//! Command allocators of the Vulkan backend.

use crate::rhi::vulkan::vulkan_command_list::VulkanCommandList;
use crate::rhi::rhi_commands::AllocatorRecord;
use crate::rhi::rhi_enums::{MemoryError, NativeStatus};
use crate::rhi::rhi_traits::CommandAllocator;
use vstd::prelude::*;

verus! {

/// A pool that command lists are made from.
///
/// An allocator and its lists belong to one thread: nothing here keeps two threads from
/// recording into lists of the same allocator.
#[derive(Clone, Copy, Debug)]
pub struct VulkanCommandAllocator {
    pub record: AllocatorRecord,
}

impl CommandAllocator for VulkanCommandAllocator {
    type CommandList = VulkanCommandList;

    open spec fn record(&self) -> AllocatorRecord {
        self.record
    }

    fn create_command_list(&mut self, status: NativeStatus) -> (list: Result<
        VulkanCommandList,
        MemoryError,
    >) {
        match self.record.create_command_list(status) {
            Ok(recorder) => Ok(VulkanCommandList { recorder }),
            Err(error) => Err(error),
        }
    }
}

} // verus!
