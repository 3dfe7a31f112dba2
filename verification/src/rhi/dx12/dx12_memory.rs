//! Memory of the Direct3D 12 backend: heaps, and what kind of heap a usage asks for.

use crate::rhi::dx12::dx12_buffer::Dx12Buffer;
use crate::rhi::rhi_enums::{MemoryError, MemoryUsage, NativeStatus, ObjectType};
use crate::rhi::rhi_memory::MemoryBlock;
use crate::rhi::rhi_structs::BufferCreateInfo;
use crate::rhi::rhi_traits::Memory;
use vstd::prelude::*;

verus! {

/// The type of a heap: where it lies and who can reach it.
#[derive(Clone, Copy, Debug, PartialEq, Eq, Structural)]
pub enum Dx12HeapType {
    /// Memory of the GPU, which the host cannot address
    Default,
    /// Memory that the host writes and the GPU reads
    Upload,
}

/// How the host sees the pages of a heap.
#[derive(Clone, Copy, Debug, PartialEq, Eq, Structural)]
pub enum Dx12CpuPageProperty {
    NotAvailable,
    WriteCombine,
}

/// The memory pool that a heap is taken from.
#[derive(Clone, Copy, Debug, PartialEq, Eq, Structural)]
pub enum Dx12MemoryPool {
    /// System memory
    L0,
    /// Video memory
    L1,
}

/// What a heap is created with.
#[derive(Clone, Copy, Debug, PartialEq, Eq, Structural)]
pub struct Dx12HeapProperties {
    pub heap_type: Dx12HeapType,
    pub cpu_page_property: Dx12CpuPageProperty,
    pub memory_pool_preference: Dx12MemoryPool,
    pub creation_node_mask: u32,
    pub visible_node_mask: u32,
}

/// The kinds of object that a heap takes.
#[derive(Clone, Copy, Debug, PartialEq, Eq, Structural)]
pub enum Dx12HeapFlags {
    AllowOnlyBuffers,
    AllowOnlyNonRtDsTextures,
    AllowOnlyRtDsTextures,
    /// Render targets and depth stencils that can be shown on a display
    AllowOnlyRtDsTexturesAndDisplay,
    AllowAllBuffersAndTextures,
}

/// The heap that memory of usage `memory_usage` comes from: memory that only the device
/// uses lies in video memory that the host cannot address; memory that the host writes lies
/// in an upload heap, a staging buffer's in system memory.
pub open spec fn heap_properties_for(memory_usage: MemoryUsage) -> Dx12HeapProperties {
    match memory_usage {
        MemoryUsage::DeviceOnly => Dx12HeapProperties {
            heap_type: Dx12HeapType::Default,
            cpu_page_property: Dx12CpuPageProperty::NotAvailable,
            memory_pool_preference: Dx12MemoryPool::L1,
            creation_node_mask: 0,
            visible_node_mask: 0,
        },
        MemoryUsage::LowFrequencyUpload => Dx12HeapProperties {
            heap_type: Dx12HeapType::Upload,
            cpu_page_property: Dx12CpuPageProperty::WriteCombine,
            memory_pool_preference: Dx12MemoryPool::L1,
            creation_node_mask: 0,
            visible_node_mask: 0,
        },
        MemoryUsage::StagingBuffer => Dx12HeapProperties {
            heap_type: Dx12HeapType::Upload,
            cpu_page_property: Dx12CpuPageProperty::WriteCombine,
            memory_pool_preference: Dx12MemoryPool::L0,
            creation_node_mask: 0,
            visible_node_mask: 0,
        },
    }
}

/// The kinds of object that a heap for `allowed_objects` takes.
pub open spec fn heap_flags_for(allowed_objects: ObjectType) -> Dx12HeapFlags {
    match allowed_objects {
        ObjectType::Buffer => Dx12HeapFlags::AllowOnlyBuffers,
        ObjectType::Texture => Dx12HeapFlags::AllowOnlyNonRtDsTextures,
        ObjectType::Attachment => Dx12HeapFlags::AllowOnlyRtDsTextures,
        ObjectType::SwapchainSurface => Dx12HeapFlags::AllowOnlyRtDsTexturesAndDisplay,
        ObjectType::Any => Dx12HeapFlags::AllowAllBuffersAndTextures,
    }
}

/// Whether the host can address a heap with `properties`.
pub open spec fn is_host_visible(properties: Dx12HeapProperties) -> bool {
    properties.heap_type == Dx12HeapType::Upload && properties.cpu_page_property
        == Dx12CpuPageProperty::WriteCombine
}

/// The heap of a usage is visible to the host exactly where the host writes the memory.
pub proof fn lemma_heap_visibility(memory_usage: MemoryUsage)
    ensures
        is_host_visible(heap_properties_for(memory_usage)) == memory_usage.is_host_mapped(),
        memory_usage == MemoryUsage::DeviceOnly ==> heap_properties_for(memory_usage).heap_type
            == Dx12HeapType::Default,
{
}

/// One allocation: a heap.
#[derive(Clone, Copy, Debug)]
pub struct Dx12Memory {
    pub block: MemoryBlock,
    pub heap_properties: Dx12HeapProperties,
    pub heap_flags: Dx12HeapFlags,
}

impl Memory for Dx12Memory {
    type Buffer = Dx12Buffer;

    open spec fn block(&self) -> MemoryBlock {
        self.block
    }

    fn create_buffer(&mut self, data: BufferCreateInfo, status: NativeStatus) -> (buffer: Result<
        Dx12Buffer,
        MemoryError,
    >) {
        match self.block.create_buffer(data, status) {
            Ok(record) => Ok(Dx12Buffer { record }),
            Err(error) => Err(error),
        }
    }
}

} // verus!
