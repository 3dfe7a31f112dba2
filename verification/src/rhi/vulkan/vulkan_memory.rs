//! Memory of the Vulkan backend.

use crate::rhi::rhi_enums::{MemoryError, NativeStatus};
use crate::rhi::rhi_memory::MemoryBlock;
use crate::rhi::rhi_structs::BufferCreateInfo;
use crate::rhi::rhi_traits::Memory;
use crate::rhi::vulkan::vulkan_buffer::VulkanBuffer;
use vstd::prelude::*;

verus! {

/// One allocation, with the memory type that it was allocated with and the heap that it
/// was taken from.
#[derive(Clone, Copy, Debug)]
pub struct VulkanMemory {
    pub block: MemoryBlock,
    /// The index of the memory type, which is what the native allocation is told
    pub memory_type_index: usize,
    /// The heap of that memory type
    pub heap_index: u32,
}

impl Memory for VulkanMemory {
    type Buffer = VulkanBuffer;

    open spec fn block(&self) -> MemoryBlock {
        self.block
    }

    fn create_buffer(&mut self, data: BufferCreateInfo, status: NativeStatus) -> (buffer: Result<
        VulkanBuffer,
        MemoryError,
    >) {
        match self.block.create_buffer(data, status) {
            Ok(record) => Ok(VulkanBuffer { record }),
            Err(error) => Err(error),
        }
    }
}

} // verus!
