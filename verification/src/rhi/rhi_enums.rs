//! The vocabulary of the interface: usages, types, states, errors and flag sets.

use vstd::prelude::*;

verus! {

#[derive(Clone, Copy, Debug, PartialEq, Eq, Structural)]
pub enum PhysicalDeviceManufacturer {
    Nvidia,
    AMD,
    Intel,
    Other,
}

/// The manufacturer that a PCI vendor id stands for.
pub open spec fn manufacturer_of(vendor_id: u32) -> PhysicalDeviceManufacturer {
    if vendor_id == 0x1002 {
        PhysicalDeviceManufacturer::AMD
    } else if vendor_id == 0x10DE {
        PhysicalDeviceManufacturer::Nvidia
    } else if vendor_id == 0x8086 {
        PhysicalDeviceManufacturer::Intel
    } else {
        PhysicalDeviceManufacturer::Other
    }
}

impl PhysicalDeviceManufacturer {
    /// The manufacturer behind a PCI vendor id.
    pub fn from_vendor_id(vendor_id: u32) -> (manufacturer: PhysicalDeviceManufacturer)
        ensures
            manufacturer == manufacturer_of(vendor_id),
    {
        if vendor_id == 0x1002 {
            PhysicalDeviceManufacturer::AMD
        } else if vendor_id == 0x10DE {
            PhysicalDeviceManufacturer::Nvidia
        } else if vendor_id == 0x8086 {
            PhysicalDeviceManufacturer::Intel
        } else {
            PhysicalDeviceManufacturer::Other
        }
    }
}

#[derive(Clone, Copy, Debug, PartialEq, Eq, Structural)]
pub enum PhysicalDeviceType {
    Integrated,
    Discreet,
    Virtual,
    CPU,
    Other,
}

/// How a piece of memory will be used
#[derive(Clone, Copy, Debug, PartialEq, Eq, Structural)]
pub enum MemoryUsage {
    /// The memory will only be used by device
    ///
    /// Useful for things like vertex buffers and dynamic textures
    DeviceOnly,
    /// The memory will be written to by the CPU, but will only be written to a handful of times per frame
    ///
    /// Useful for the model matrix buffer, the per-frame data buffer, and other uniform buffers which are updated a
    /// few times per frame
    LowFrequencyUpload,
    /// The memory will be used for a staging buffer
    StagingBuffer,
}

impl MemoryUsage {
    /// Whether memory of this usage is mapped into host address space for its whole life.
    pub open spec fn is_host_mapped(self) -> bool {
        self != MemoryUsage::DeviceOnly
    }

    pub fn host_mapped(self) -> (mapped: bool)
        ensures
            mapped == self.is_host_mapped(),
    {
        match self {
            MemoryUsage::DeviceOnly => false,
            MemoryUsage::LowFrequencyUpload => true,
            MemoryUsage::StagingBuffer => true,
        }
    }
}

/// Describes what kind of object you want to allocate from a new memory pool
#[derive(Clone, Copy, Debug, PartialEq, Eq, Structural)]
pub enum ObjectType {
    Buffer,
    Texture,
    Attachment,
    SwapchainSurface,
    Any,
}

#[derive(Clone, Copy, Debug, PartialEq, Eq, Structural)]
pub enum QueueType {
    Graphics,
    Compute,
    Copy,
}

#[derive(Clone, Copy, Debug, PartialEq, Eq, Structural)]
pub enum CommandListLevel {
    Primary,
    Secondary,
}

#[derive(Clone, Copy, Debug, PartialEq, Eq, Structural)]
pub enum DeviceCreationError {
    Failed,
}

/// A memory-related error
#[derive(Clone, Copy, Debug, PartialEq, Eq, Structural)]
pub enum MemoryError {
    /// There's not enough host memory to create the requested object
    OutOfHostMemory,
    /// There's not enough device memory to create the requested object
    OutOfDeviceMemory,
}

/// Errors that can happen when you try to get a queue from a device
#[derive(Clone, Copy, Debug, PartialEq, Eq, Structural)]
pub enum QueueGettingError {
    /// The device does not have enough memory to get you the queue you want
    OutOfMemory,
    /// The device has no queue of the wanted type at the wanted index
    NotSupported,
}

/// All the errors you might get when allocating memory
#[derive(Clone, Copy, Debug, PartialEq, Eq, Structural)]
pub enum AllocationError {
    /// There's not enough host memory to make the requested allocation
    OutOfHostMemory,
    /// There's not enough device memory to make the requested allocation
    OutOfDeviceMemory,
    /// You've made too many memory allocations already
    TooManyObjects,
    InvalidExternalHandle,
}

#[derive(Clone, Copy, Debug, PartialEq, Eq, Structural)]
pub enum DescriptorPoolCreationError {
    /// There's not enough host memory to create the descriptor pool
    OutOfHostMemory,
    /// There's not enough device memory to create the descriptor pool
    OutOfDeviceMemory,
    /// Memory is too fragmented to create the descriptor pool
    Fragmentation,
}

#[derive(Clone, Copy, Debug, PartialEq, Eq, Structural)]
pub enum PipelineCreationError {
    /// There's not enough host memory to create the pipeline
    OutOfHostMemory,
    /// There's not enough device memory to create the pipeline
    OutOfDeviceMemory,
    /// One or more shaders failed to compile or link. If debug reports are enabled, details are
    /// reported through a debug report
    InvalidShader,
}

/// The state a resource is in
#[derive(Clone, Copy, Debug, PartialEq, Eq, Structural)]
pub enum ResourceState {
    /// The state is not defined. The GPU may or may not do _things_ with the resource
    Undefined,
    /// The resource may be used for anything you want, but it won't be optimal for anything
    General,
    ColorAttachment,
    DepthStencilAttachment,
    DepthReadOnlyStencilAttachment,
    DepthAttachmentStencilReadOnly,
    DepthStencilReadOnlyAttachment,
    PresentSource,
    NonFragmentShaderReadOnly,
    FragmentShaderReadOnly,
    TransferSource,
    TransferDestination,
}

#[derive(Clone, Copy, Debug, PartialEq, Eq, Structural)]
pub enum DescriptorType {
    CombinedImageSampler,
    UniformBuffer,
    StorageBuffer,
}

#[derive(Clone, Copy, Debug, PartialEq, Eq, Structural)]
pub enum BufferUsage {
    UniformBuffer,
    IndexBuffer,
    VertexBuffer,
    StagingBuffer,
}

/// What a native call reported, in the terms that the interface's errors are made of.
///
/// Each backend reads its own result codes into this type; what a code
/// means for the caller is then decided once, for every backend alike.
#[derive(Clone, Copy, Debug, PartialEq, Eq, Structural)]
pub enum NativeStatus {
    Success,
    OutOfHostMemory,
    OutOfDeviceMemory,
    TooManyObjects,
    InvalidExternalHandle,
    MemoryMapFailed,
    /// Memory is too fragmented for what was asked
    Fragmentation,
    /// A pool's memory is too fragmented for what was asked of the pool
    FragmentedPool,
    InvalidShader,
    /// Any failure that the interface has no name for
    Other,
}

impl NativeStatus {
    /// The statuses that a call which can only run out of memory may report.
    pub open spec fn is_memory_outcome(self) -> bool {
        self == NativeStatus::Success || self.memory_error() is Some
    }

    /// The statuses that a memory allocation may report.
    pub open spec fn is_allocation_outcome(self) -> bool {
        self == NativeStatus::Success || self.allocation_error() is Some
    }

    /// The statuses that creating a descriptor pool, or sets from it, may report.
    pub open spec fn is_descriptor_outcome(self) -> bool {
        self == NativeStatus::Success || self.descriptor_error() is Some
    }

    /// The statuses that creating a pipeline may report.
    pub open spec fn is_pipeline_outcome(self) -> bool {
        self == NativeStatus::Success || self.pipeline_error() is Some
    }

    /// The memory error that this status stands for, if it stands for one.
    pub open spec fn memory_error(self) -> Option<MemoryError> {
        match self {
            NativeStatus::OutOfHostMemory => Some(MemoryError::OutOfHostMemory),
            NativeStatus::OutOfDeviceMemory => Some(MemoryError::OutOfDeviceMemory),
            _ => None,
        }
    }

    /// The allocation error that this status stands for, if it stands for one.
    pub open spec fn allocation_error(self) -> Option<AllocationError> {
        match self {
            NativeStatus::OutOfHostMemory => Some(AllocationError::OutOfHostMemory),
            NativeStatus::OutOfDeviceMemory => Some(AllocationError::OutOfDeviceMemory),
            NativeStatus::TooManyObjects => Some(AllocationError::TooManyObjects),
            NativeStatus::InvalidExternalHandle => Some(AllocationError::InvalidExternalHandle),
            _ => None,
        }
    }

    /// The allocation error that this status stands for as the outcome of mapping memory
    /// into host address space.
    ///
    /// A mapping fails for want of memory on one side or the other, or for want of room in
    /// the address space of the host. Whatever is not the device's shortage is the host's.
    pub open spec fn mapping_error(self) -> Option<AllocationError> {
        match self {
            NativeStatus::Success => None,
            NativeStatus::OutOfDeviceMemory => Some(AllocationError::OutOfDeviceMemory),
            _ => Some(AllocationError::OutOfHostMemory),
        }
    }

    /// The descriptor pool error that this status stands for, if it stands for one.
    pub open spec fn descriptor_error(self) -> Option<DescriptorPoolCreationError> {
        match self {
            NativeStatus::OutOfHostMemory => Some(DescriptorPoolCreationError::OutOfHostMemory),
            NativeStatus::OutOfDeviceMemory => Some(DescriptorPoolCreationError::OutOfDeviceMemory),
            NativeStatus::Fragmentation => Some(DescriptorPoolCreationError::Fragmentation),
            NativeStatus::FragmentedPool => Some(DescriptorPoolCreationError::Fragmentation),
            _ => None,
        }
    }

    /// The pipeline creation error that this status stands for, if it stands for one.
    pub open spec fn pipeline_error(self) -> Option<PipelineCreationError> {
        match self {
            NativeStatus::OutOfHostMemory => Some(PipelineCreationError::OutOfHostMemory),
            NativeStatus::OutOfDeviceMemory => Some(PipelineCreationError::OutOfDeviceMemory),
            NativeStatus::InvalidShader => Some(PipelineCreationError::InvalidShader),
            _ => None,
        }
    }

    /// Whether the native call went well.
    pub fn is_success(self) -> (ok: bool)
        ensures
            ok == (self == NativeStatus::Success),
    {
        match self {
            NativeStatus::Success => true,
            _ => false,
        }
    }

    /// The memory error that this status stands for, if it stands for one.
    pub fn to_memory_error(self) -> (e: Option<MemoryError>)
        ensures
            e == self.memory_error(),
    {
        match self {
            NativeStatus::OutOfHostMemory => Some(MemoryError::OutOfHostMemory),
            NativeStatus::OutOfDeviceMemory => Some(MemoryError::OutOfDeviceMemory),
            _ => None,
        }
    }

    /// The allocation error that this status stands for, if it stands for one.
    pub fn to_allocation_error(self) -> (e: Option<AllocationError>)
        ensures
            e == self.allocation_error(),
    {
        match self {
            NativeStatus::OutOfHostMemory => Some(AllocationError::OutOfHostMemory),
            NativeStatus::OutOfDeviceMemory => Some(AllocationError::OutOfDeviceMemory),
            NativeStatus::TooManyObjects => Some(AllocationError::TooManyObjects),
            NativeStatus::InvalidExternalHandle => Some(AllocationError::InvalidExternalHandle),
            _ => None,
        }
    }

    /// The allocation error that this status stands for as the outcome of mapping memory
    /// into host address space.
    pub fn to_mapping_error(self) -> (e: Option<AllocationError>)
        ensures
            e == self.mapping_error(),
    {
        match self {
            NativeStatus::Success => None,
            NativeStatus::OutOfDeviceMemory => Some(AllocationError::OutOfDeviceMemory),
            _ => Some(AllocationError::OutOfHostMemory),
        }
    }

    /// The descriptor pool error that this status stands for, if it stands for one.
    pub fn to_descriptor_error(self) -> (e: Option<DescriptorPoolCreationError>)
        ensures
            e == self.descriptor_error(),
    {
        match self {
            NativeStatus::OutOfHostMemory => Some(DescriptorPoolCreationError::OutOfHostMemory),
            NativeStatus::OutOfDeviceMemory => Some(DescriptorPoolCreationError::OutOfDeviceMemory),
            NativeStatus::Fragmentation => Some(DescriptorPoolCreationError::Fragmentation),
            NativeStatus::FragmentedPool => Some(DescriptorPoolCreationError::Fragmentation),
            _ => None,
        }
    }

    /// The pipeline creation error that this status stands for, if it stands for one.
    pub fn to_pipeline_error(self) -> (e: Option<PipelineCreationError>)
        ensures
            e == self.pipeline_error(),
    {
        match self {
            NativeStatus::OutOfHostMemory => Some(PipelineCreationError::OutOfHostMemory),
            NativeStatus::OutOfDeviceMemory => Some(PipelineCreationError::OutOfDeviceMemory),
            NativeStatus::InvalidShader => Some(PipelineCreationError::InvalidShader),
            _ => None,
        }
    }
}

/// The stages of the pipeline that a barrier orders work against.
///
/// A set of the bits named below; a value never holds any other bit.
#[derive(Clone, Copy, Debug, PartialEq, Eq, Structural)]
pub struct PipelineStageFlags {
    bits: u32,
}

impl PipelineStageFlags {
    pub const TOP_OF_PIPE: u32 = 0x00000001;

    pub const DRAW_INDIRECT: u32 = 0x00000002;

    pub const VERTEX_INPUT: u32 = 0x00000004;

    pub const VERTEX_SHADER: u32 = 0x00000008;

    pub const TESSELLATION_CONTROL_SHADER: u32 = 0x00000010;

    pub const TESSELLATION_EVALUATION_SHADER: u32 = 0x00000020;

    pub const GEOMETRY_SHADER: u32 = 0x00000040;

    pub const FRAGMENT_SHADER: u32 = 0x00000080;

    pub const EARLY_FRAGMENT_TESTS: u32 = 0x00000100;

    pub const LATE_FRAGMENT_TESTS: u32 = 0x00000200;

    pub const COLOR_ATTACHMENT_OUTPUT: u32 = 0x00000400;

    pub const COMPUTE_SHADER: u32 = 0x00000800;

    pub const TRANSFER: u32 = 0x00001000;

    pub const BOTTOM_OF_PIPE: u32 = 0x00002000;

    pub const HOST: u32 = 0x00004000;

    pub const ALL_GRAPHICS: u32 = 0x00008000;

    pub const ALL_COMMANDS: u32 = 0x00010000;

    pub const SHADING_RATE_IMAGE: u32 = 0x00400000;

    pub const RAY_TRACING_SHADER: u32 = 0x00200000;

    pub const ACCELERATION_STRUCTURE_BUILD: u32 = 0x02000000;

    pub const TASK_SHADER: u32 = 0x00080000;

    pub const MESH_SHADER: u32 = 0x00100000;

    pub const FRAGMENT_DENSITY_PROCESS: u32 = 0x00800000;

    /// Every bit that has a name.
    pub const ALL: u32 = 0x02f9ffff;

    #[verifier::type_invariant]
    spec fn holds_named_bits_only(self) -> bool {
        self.bits & !PipelineStageFlags::ALL == 0
    }

    /// The bits of the set.
    pub closed spec fn view(self) -> u32 {
        self.bits
    }

    /// The empty set.
    pub fn empty() -> (flags: Self)
        ensures
            flags@ == 0,
    {
        assert(0u32 & !0x02f9ffffu32 == 0) by (bit_vector);
        PipelineStageFlags { bits: 0 }
    }

    /// The set with exactly `bits`, where every one of them has a name.
    pub fn from_bits(bits: u32) -> (flags: Option<Self>)
        ensures
            bits & !PipelineStageFlags::ALL == 0 ==> flags is Some && flags->Some_0@ == bits,
            bits & !PipelineStageFlags::ALL != 0 ==> flags is None,
    {
        if bits & !PipelineStageFlags::ALL == 0 {
            Some(PipelineStageFlags { bits })
        } else {
            None
        }
    }

    /// The set of those of `bits` that have a name.
    pub fn from_bits_truncate(bits: u32) -> (flags: Self)
        ensures
            flags@ == bits & PipelineStageFlags::ALL,
    {
        assert((bits & 0x02f9ffffu32) & !0x02f9ffffu32 == 0) by (bit_vector);
        PipelineStageFlags { bits: bits & PipelineStageFlags::ALL }
    }

    /// The bits of the set.
    pub fn bits(self) -> (bits: u32)
        ensures
            bits == self@,
    {
        self.bits
    }

    /// Whether every bit of `other` is in the set.
    pub fn contains(self, other: Self) -> (all: bool)
        ensures
            all == (self@ & other@ == other@),
    {
        self.bits & other.bits == other.bits
    }

    /// The set of the bits that are in either set.
    pub fn union(self, other: Self) -> (flags: Self)
        ensures
            flags@ == self@ | other@,
    {
        proof {
            use_type_invariant(self);
            use_type_invariant(other);
            let a = self.bits;
            let b = other.bits;
            assert((a | b) & !0x02f9ffffu32 == 0) by (bit_vector)
                requires
                    a & !0x02f9ffffu32 == 0,
                    b & !0x02f9ffffu32 == 0,
            ;
        }
        PipelineStageFlags { bits: self.bits | other.bits }
    }
}

/// The kinds of access to a resource that a barrier separates.
///
/// A set of the bits named below; a value never holds any other bit.
#[derive(Clone, Copy, Debug, PartialEq, Eq, Structural)]
pub struct ResourceAccessFlags {
    bits: u32,
}

impl ResourceAccessFlags {
    pub const NO_FLAGS: u32 = 0x00000000;

    pub const INDEX_READ_BIT: u32 = 0x00000002;

    pub const VERTEX_ATTRIBUTE_READ_BIT: u32 = 0x00000004;

    pub const UNIFORM_READ_BIT: u32 = 0x00000008;

    pub const INPUT_ATTACHMENT_READ_BIT: u32 = 0x00000010;

    pub const SHADER_READ_BIT: u32 = 0x00000020;

    pub const SHADER_WRITE_BIT: u32 = 0x00000040;

    pub const COLOR_ATTACHMENT_READ_BIT: u32 = 0x00000080;

    pub const COLOR_ATTACHMENT_WRITE_BIT: u32 = 0x00000100;

    pub const DEPTH_STENCIL_ATTACHMENT_READ_BIT: u32 = 0x00000200;

    pub const DEPTH_STENCIL_ATTACHMENT_WRITE_BIT: u32 = 0x00000400;

    pub const TRANSFER_READ_BIT: u32 = 0x00000800;

    pub const TRANSFER_WRITE_BIT: u32 = 0x00001000;

    pub const HOST_READ_BIT: u32 = 0x00002000;

    pub const HOST_WRITE_BIT: u32 = 0x00004000;

    pub const MEMORY_READ_BIT: u32 = 0x00008000;

    pub const MEMORY_WRITE_BIT: u32 = 0x00010000;

    /// Every bit that has a name.
    pub const ALL: u32 = 0x0001fffe;

    #[verifier::type_invariant]
    spec fn holds_named_bits_only(self) -> bool {
        self.bits & !ResourceAccessFlags::ALL == 0
    }

    /// The bits of the set.
    pub closed spec fn view(self) -> u32 {
        self.bits
    }

    /// The empty set.
    pub fn empty() -> (flags: Self)
        ensures
            flags@ == 0,
    {
        assert(0u32 & !0x0001fffeu32 == 0) by (bit_vector);
        ResourceAccessFlags { bits: 0 }
    }

    /// The set with exactly `bits`, where every one of them has a name.
    pub fn from_bits(bits: u32) -> (flags: Option<Self>)
        ensures
            bits & !ResourceAccessFlags::ALL == 0 ==> flags is Some && flags->Some_0@ == bits,
            bits & !ResourceAccessFlags::ALL != 0 ==> flags is None,
    {
        if bits & !ResourceAccessFlags::ALL == 0 {
            Some(ResourceAccessFlags { bits })
        } else {
            None
        }
    }

    /// The set of those of `bits` that have a name.
    pub fn from_bits_truncate(bits: u32) -> (flags: Self)
        ensures
            flags@ == bits & ResourceAccessFlags::ALL,
    {
        assert((bits & 0x0001fffeu32) & !0x0001fffeu32 == 0) by (bit_vector);
        ResourceAccessFlags { bits: bits & ResourceAccessFlags::ALL }
    }

    /// The bits of the set.
    pub fn bits(self) -> (bits: u32)
        ensures
            bits == self@,
    {
        self.bits
    }

    /// Whether every bit of `other` is in the set.
    pub fn contains(self, other: Self) -> (all: bool)
        ensures
            all == (self@ & other@ == other@),
    {
        self.bits & other.bits == other.bits
    }

    /// The set of the bits that are in either set.
    pub fn union(self, other: Self) -> (flags: Self)
        ensures
            flags@ == self@ | other@,
    {
        proof {
            use_type_invariant(self);
            use_type_invariant(other);
            let a = self.bits;
            let b = other.bits;
            assert((a | b) & !0x0001fffeu32 == 0) by (bit_vector)
                requires
                    a & !0x0001fffeu32 == 0,
                    b & !0x0001fffeu32 == 0,
            ;
        }
        ResourceAccessFlags { bits: self.bits | other.bits }
    }
}

/// The aspects of an image that a barrier covers.
///
/// A set of the bits named below; a value never holds any other bit.
#[derive(Clone, Copy, Debug, PartialEq, Eq, Structural)]
pub struct ImageAspectFlags {
    bits: u32,
}

impl ImageAspectFlags {
    pub const COLOR: u32 = 0x00000001;

    pub const DEPTH: u32 = 0x00000002;

    pub const STENCIL: u32 = 0x00000004;

    /// Every bit that has a name.
    pub const ALL: u32 = 0x00000007;

    #[verifier::type_invariant]
    spec fn holds_named_bits_only(self) -> bool {
        self.bits & !ImageAspectFlags::ALL == 0
    }

    /// The bits of the set.
    pub closed spec fn view(self) -> u32 {
        self.bits
    }

    /// The empty set.
    pub fn empty() -> (flags: Self)
        ensures
            flags@ == 0,
    {
        assert(0u32 & !0x00000007u32 == 0) by (bit_vector);
        ImageAspectFlags { bits: 0 }
    }

    /// The set with exactly `bits`, where every one of them has a name.
    pub fn from_bits(bits: u32) -> (flags: Option<Self>)
        ensures
            bits & !ImageAspectFlags::ALL == 0 ==> flags is Some && flags->Some_0@ == bits,
            bits & !ImageAspectFlags::ALL != 0 ==> flags is None,
    {
        if bits & !ImageAspectFlags::ALL == 0 {
            Some(ImageAspectFlags { bits })
        } else {
            None
        }
    }

    /// The set of those of `bits` that have a name.
    pub fn from_bits_truncate(bits: u32) -> (flags: Self)
        ensures
            flags@ == bits & ImageAspectFlags::ALL,
    {
        assert((bits & 0x00000007u32) & !0x00000007u32 == 0) by (bit_vector);
        ImageAspectFlags { bits: bits & ImageAspectFlags::ALL }
    }

    /// The bits of the set.
    pub fn bits(self) -> (bits: u32)
        ensures
            bits == self@,
    {
        self.bits
    }

    /// Whether every bit of `other` is in the set.
    pub fn contains(self, other: Self) -> (all: bool)
        ensures
            all == (self@ & other@ == other@),
    {
        self.bits & other.bits == other.bits
    }

    /// The set of the bits that are in either set.
    pub fn union(self, other: Self) -> (flags: Self)
        ensures
            flags@ == self@ | other@,
    {
        proof {
            use_type_invariant(self);
            use_type_invariant(other);
            let a = self.bits;
            let b = other.bits;
            assert((a | b) & !0x00000007u32 == 0) by (bit_vector)
                requires
                    a & !0x00000007u32 == 0,
                    b & !0x00000007u32 == 0,
            ;
        }
        ImageAspectFlags { bits: self.bits | other.bits }
    }
}

/// The shader stages that read a binding.
///
/// A set of the bits named below; a value never holds any other bit.
#[derive(Clone, Copy, Debug, PartialEq, Eq, Structural)]
pub struct ShaderStageFlags {
    bits: u32,
}

impl ShaderStageFlags {
    pub const VERTEX: u32 = 0x00000001;

    pub const TESSELLATION_CONTROL: u32 = 0x00000002;

    pub const TESSELLATION_EVALUATION: u32 = 0x00000004;

    pub const GEOMETRY: u32 = 0x00000008;

    pub const FRAGMENT: u32 = 0x00000010;

    pub const COMPUTE: u32 = 0x00000020;

    pub const RAYGEN: u32 = 0x00000100;

    pub const ANY_HIT: u32 = 0x00000200;

    pub const CLOSEST_HIT: u32 = 0x00000400;

    pub const MISS: u32 = 0x00000800;

    pub const INTERSECTION: u32 = 0x00001000;

    pub const TASK: u32 = 0x00000040;

    pub const MESH: u32 = 0x00000080;

    /// Every bit that has a name.
    pub const ALL: u32 = 0x00001fff;

    #[verifier::type_invariant]
    spec fn holds_named_bits_only(self) -> bool {
        self.bits & !ShaderStageFlags::ALL == 0
    }

    /// The bits of the set.
    pub closed spec fn view(self) -> u32 {
        self.bits
    }

    /// The empty set.
    pub fn empty() -> (flags: Self)
        ensures
            flags@ == 0,
    {
        assert(0u32 & !0x00001fffu32 == 0) by (bit_vector);
        ShaderStageFlags { bits: 0 }
    }

    /// The set with exactly `bits`, where every one of them has a name.
    pub fn from_bits(bits: u32) -> (flags: Option<Self>)
        ensures
            bits & !ShaderStageFlags::ALL == 0 ==> flags is Some && flags->Some_0@ == bits,
            bits & !ShaderStageFlags::ALL != 0 ==> flags is None,
    {
        if bits & !ShaderStageFlags::ALL == 0 {
            Some(ShaderStageFlags { bits })
        } else {
            None
        }
    }

    /// The set of those of `bits` that have a name.
    pub fn from_bits_truncate(bits: u32) -> (flags: Self)
        ensures
            flags@ == bits & ShaderStageFlags::ALL,
    {
        assert((bits & 0x00001fffu32) & !0x00001fffu32 == 0) by (bit_vector);
        ShaderStageFlags { bits: bits & ShaderStageFlags::ALL }
    }

    /// The bits of the set.
    pub fn bits(self) -> (bits: u32)
        ensures
            bits == self@,
    {
        self.bits
    }

    /// Whether every bit of `other` is in the set.
    pub fn contains(self, other: Self) -> (all: bool)
        ensures
            all == (self@ & other@ == other@),
    {
        self.bits & other.bits == other.bits
    }

    /// The set of the bits that are in either set.
    pub fn union(self, other: Self) -> (flags: Self)
        ensures
            flags@ == self@ | other@,
    {
        proof {
            use_type_invariant(self);
            use_type_invariant(other);
            let a = self.bits;
            let b = other.bits;
            assert((a | b) & !0x00001fffu32 == 0) by (bit_vector)
                requires
                    a & !0x00001fffu32 == 0,
                    b & !0x00001fffu32 == 0,
            ;
        }
        ShaderStageFlags { bits: self.bits | other.bits }
    }
}

} // verus!
