//! Buffers of the Direct3D 12 backend.

use crate::rhi::rhi_memory::BufferRecord;
use crate::rhi::rhi_structs::{BufferId, ResourceId};
use crate::rhi::rhi_traits::{Buffer, Resource, Token};
use vstd::prelude::*;

verus! {

/// A buffer: a view into memory that was allocated before.
#[derive(Clone, Copy, Debug)]
pub struct Dx12Buffer {
    pub record: BufferRecord,
}

impl Token for Dx12Buffer {
    type Handle = BufferId;

    open spec fn handle(&self) -> BufferId {
        self.record.id
    }

    fn to_handle(&self) -> BufferId {
        self.record.id
    }
}

impl Resource for Dx12Buffer {
    open spec fn resource_id(&self) -> ResourceId {
        ResourceId::Buffer(self.record.id)
    }

    fn to_resource_id(&self) -> ResourceId {
        ResourceId::Buffer(self.record.id)
    }
}

impl Buffer for Dx12Buffer {
    open spec fn record(&self) -> BufferRecord {
        self.record
    }

    fn write_data(&self, num_bytes: u64, offset: u64) -> (region: Option<(u64, u64)>) {
        self.record.write_data(num_bytes, offset)
    }
}

} // verus!
