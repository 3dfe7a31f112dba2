//! Command allocators of the Direct3D 12 backend.

use crate::rhi::dx12::dx12_command_list::Dx12CommandList;
use crate::rhi::rhi_commands::AllocatorRecord;
use crate::rhi::rhi_enums::{MemoryError, NativeStatus};
use crate::rhi::rhi_traits::CommandAllocator;
use vstd::prelude::*;

verus! {

/// A pool that command lists are made from.
///
/// An allocator and its lists belong to one thread: nothing here keeps two threads from
/// recording into lists of the same allocator.
#[derive(Clone, Copy, Debug)]
pub struct Dx12CommandAllocator {
    pub record: AllocatorRecord,
}

impl CommandAllocator for Dx12CommandAllocator {
    type CommandList = Dx12CommandList;

    open spec fn record(&self) -> AllocatorRecord {
        self.record
    }

    fn create_command_list(&mut self, status: NativeStatus) -> (list: Result<
        Dx12CommandList,
        MemoryError,
    >) {
        match self.record.create_command_list(status) {
            Ok(recorder) => Ok(Dx12CommandList { recorder }),
            Err(error) => Err(error),
        }
    }
}

} // verus!
