//! Allocations and the buffers made from them, as every backend keeps them.

use crate::rhi::rhi_enums::{BufferUsage, MemoryError, MemoryUsage, NativeStatus, ObjectType};
use crate::rhi::rhi_structs::{BufferCreateInfo, BufferId};
use vstd::prelude::*;

verus! {

/// One allocation of device memory.
#[derive(Clone, Copy, Debug)]
pub struct MemoryBlock {
    /// The token of the allocation
    pub id: usize,
    /// The size of the allocation in bytes
    pub size: u64,
    /// What the memory is used for; this decided where it was allocated
    pub usage: MemoryUsage,
    /// The kind of object that may be made from the memory
    pub allowed_objects: ObjectType,
    /// How many buffers have been made from the memory
    pub buffers_created: usize,
}

/// One buffer: a view into an allocation.
#[derive(Clone, Copy, Debug)]
pub struct BufferRecord {
    pub id: BufferId,
    /// The size of the buffer in bytes
    pub size: usize,
    pub usage: BufferUsage,
    /// Whether the memory behind the buffer is mapped into host address space
    pub host_mapped: bool,
}

impl MemoryBlock {
    /// Whether the memory is mapped into host address space, as it is from its allocation on
    /// for every usage that the host writes to.
    pub open spec fn host_mapped(&self) -> bool {
        self.usage.is_host_mapped()
    }

    /// The buffer that the next call of [`MemoryBlock::create_buffer`] makes from `data`.
    pub open spec fn next_buffer(&self, data: BufferCreateInfo) -> BufferRecord {
        BufferRecord {
            id: BufferId { memory: self.id, index: self.buffers_created },
            size: data.size,
            usage: data.buffer_usage,
            host_mapped: self.host_mapped(),
        }
    }

    /// A fresh allocation.
    pub fn new(id: usize, size: u64, usage: MemoryUsage, allowed_objects: ObjectType) -> (block:
        MemoryBlock)
        ensures
            block == (MemoryBlock { id, size, usage, allowed_objects, buffers_created: 0 }),
    {
        MemoryBlock { id, size, usage, allowed_objects, buffers_created: 0 }
    }

    /// Creates a buffer from this memory
    ///
    /// It's the caller's responsibility to make sure that this memory is allowed to create
    /// buffers: nothing here looks at what the memory was allocated for.
    pub fn create_buffer(&mut self, data: BufferCreateInfo, status: NativeStatus) -> (result:
        Result<BufferRecord, MemoryError>)
        requires
            status.is_memory_outcome(),
        ensures
            result is Ok <==> status == NativeStatus::Success && old(self).buffers_created
                < usize::MAX,
            result is Ok ==> result->Ok_0 == old(self).next_buffer(data) && *final(self) == (
            MemoryBlock { buffers_created: (old(self).buffers_created + 1) as usize, ..*old(self) }),
            result is Err ==> *final(self) == *old(self),
            result is Err && status != NativeStatus::Success ==> status.memory_error() == Some(
                result->Err_0,
            ),
            result is Err && status == NativeStatus::Success ==> result->Err_0
                == MemoryError::OutOfHostMemory,
    {
        if let Some(error) = status.to_memory_error() {
            return Err(error);
        }
        if self.buffers_created == usize::MAX {
            return Err(MemoryError::OutOfHostMemory);
        }
        let buffer = BufferRecord {
            id: BufferId { memory: self.id, index: self.buffers_created },
            size: data.size,
            usage: data.buffer_usage,
            host_mapped: self.usage.host_mapped(),
        };
        self.buffers_created = self.buffers_created + 1;
        Ok(buffer)
    }
}

impl BufferRecord {
    /// The bytes `offset .. offset + num_bytes` of the buffer, where the host can write them:
    /// where the buffer's memory is mapped and the bytes lie inside the buffer.
    pub open spec fn writable_region(&self, num_bytes: u64, offset: u64) -> Option<(u64, u64)> {
        if self.host_mapped && offset + num_bytes <= self.size {
            Some((offset, (offset + num_bytes) as u64))
        } else {
            None
        }
    }

    /// Finds the region of the buffer that a write of `num_bytes` bytes at `offset` goes to.
    ///
    /// Note: buffers you call this method on must _not_ be device local, because they must be
    /// CPU-addressable
    pub fn write_data(&self, num_bytes: u64, offset: u64) -> (region: Option<(u64, u64)>)
        ensures
            region == self.writable_region(num_bytes, offset),
    {
        if !self.host_mapped {
            return None;
        }
        match offset.checked_add(num_bytes) {
            Some(end) => {
                if end as u128 <= self.size as u128 {
                    Some((offset, end))
                } else {
                    None
                }
            },
            None => None,
        }
    }
}

} // verus!
