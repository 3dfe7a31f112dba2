use nova_rs::rhi::rhi_enums::{
    AllocationError, DescriptorPoolCreationError, ImageAspectFlags, MemoryError, MemoryUsage,
    NativeStatus, PhysicalDeviceManufacturer, PipelineCreationError, PipelineStageFlags,
    ResourceAccessFlags, ShaderStageFlags,
};

#[test]
fn only_device_only_memory_is_not_host_mapped() {
    assert!(!MemoryUsage::DeviceOnly.host_mapped());
    assert!(MemoryUsage::LowFrequencyUpload.host_mapped());
    assert!(MemoryUsage::StagingBuffer.host_mapped());
}

#[test]
fn vendor_ids_name_their_manufacturer() {
    assert_eq!(PhysicalDeviceManufacturer::from_vendor_id(0x1002), PhysicalDeviceManufacturer::AMD);
    assert_eq!(
        PhysicalDeviceManufacturer::from_vendor_id(0x10DE),
        PhysicalDeviceManufacturer::Nvidia
    );
    assert_eq!(
        PhysicalDeviceManufacturer::from_vendor_id(0x8086),
        PhysicalDeviceManufacturer::Intel
    );
    assert_eq!(PhysicalDeviceManufacturer::from_vendor_id(0), PhysicalDeviceManufacturer::Other);
    assert_eq!(
        PhysicalDeviceManufacturer::from_vendor_id(0x1003),
        PhysicalDeviceManufacturer::Other
    );
}

#[test]
fn success_stands_for_no_error() {
    let status = NativeStatus::Success;
    assert!(status.is_success());
    assert_eq!(status.to_memory_error(), None);
    assert_eq!(status.to_allocation_error(), None);
    assert_eq!(status.to_descriptor_error(), None);
    assert_eq!(status.to_pipeline_error(), None);
}

#[test]
fn statuses_stand_for_memory_errors() {
    assert!(!NativeStatus::OutOfHostMemory.is_success());
    assert_eq!(
        NativeStatus::OutOfHostMemory.to_memory_error(),
        Some(MemoryError::OutOfHostMemory)
    );
    assert_eq!(
        NativeStatus::OutOfDeviceMemory.to_memory_error(),
        Some(MemoryError::OutOfDeviceMemory)
    );
    assert_eq!(NativeStatus::TooManyObjects.to_memory_error(), None);
    assert_eq!(NativeStatus::Other.to_memory_error(), None);
}

#[test]
fn statuses_stand_for_allocation_errors() {
    assert_eq!(
        NativeStatus::OutOfHostMemory.to_allocation_error(),
        Some(AllocationError::OutOfHostMemory)
    );
    assert_eq!(
        NativeStatus::OutOfDeviceMemory.to_allocation_error(),
        Some(AllocationError::OutOfDeviceMemory)
    );
    assert_eq!(
        NativeStatus::TooManyObjects.to_allocation_error(),
        Some(AllocationError::TooManyObjects)
    );
    assert_eq!(
        NativeStatus::InvalidExternalHandle.to_allocation_error(),
        Some(AllocationError::InvalidExternalHandle)
    );
    assert_eq!(NativeStatus::MemoryMapFailed.to_allocation_error(), None);
    assert_eq!(NativeStatus::Fragmentation.to_allocation_error(), None);
}

#[test]
fn statuses_stand_for_descriptor_pool_errors() {
    assert_eq!(
        NativeStatus::OutOfHostMemory.to_descriptor_error(),
        Some(DescriptorPoolCreationError::OutOfHostMemory)
    );
    assert_eq!(
        NativeStatus::OutOfDeviceMemory.to_descriptor_error(),
        Some(DescriptorPoolCreationError::OutOfDeviceMemory)
    );
    assert_eq!(
        NativeStatus::Fragmentation.to_descriptor_error(),
        Some(DescriptorPoolCreationError::Fragmentation)
    );
    assert_eq!(
        NativeStatus::FragmentedPool.to_descriptor_error(),
        Some(DescriptorPoolCreationError::Fragmentation)
    );
    assert_eq!(NativeStatus::InvalidShader.to_descriptor_error(), None);
}

#[test]
fn statuses_stand_for_pipeline_errors() {
    assert_eq!(
        NativeStatus::OutOfHostMemory.to_pipeline_error(),
        Some(PipelineCreationError::OutOfHostMemory)
    );
    assert_eq!(
        NativeStatus::OutOfDeviceMemory.to_pipeline_error(),
        Some(PipelineCreationError::OutOfDeviceMemory)
    );
    assert_eq!(
        NativeStatus::InvalidShader.to_pipeline_error(),
        Some(PipelineCreationError::InvalidShader)
    );
    assert_eq!(NativeStatus::Fragmentation.to_pipeline_error(), None);
}

#[test]
fn pipeline_stage_flags_keep_named_bits_only() {
    assert_eq!(PipelineStageFlags::empty().bits(), 0);
    assert_eq!(PipelineStageFlags::ALL, 0x02f9_ffff);
    let transfer = PipelineStageFlags::from_bits(PipelineStageFlags::TRANSFER).unwrap();
    assert_eq!(transfer.bits(), 0x1000);
    assert!(PipelineStageFlags::from_bits(0x0004_0000).is_none());
    assert!(PipelineStageFlags::from_bits(PipelineStageFlags::TRANSFER | 0x0004_0000).is_none());
    assert_eq!(PipelineStageFlags::from_bits_truncate(0xffff_ffff).bits(), 0x02f9_ffff);
    assert_eq!(PipelineStageFlags::from_bits_truncate(0x0004_1000).bits(), 0x1000);
}

#[test]
fn pipeline_stage_flags_unite_and_contain() {
    let top = PipelineStageFlags::from_bits_truncate(PipelineStageFlags::TOP_OF_PIPE);
    let fragment = PipelineStageFlags::from_bits_truncate(PipelineStageFlags::FRAGMENT_SHADER);
    let both = top.union(fragment);
    assert_eq!(both.bits(), 0x81);
    assert!(both.contains(top));
    assert!(both.contains(fragment));
    assert!(!top.contains(fragment));
    assert!(top.contains(PipelineStageFlags::empty()));
    assert_eq!(both, PipelineStageFlags::from_bits(0x81).unwrap());
}

#[test]
fn resource_access_flags_keep_named_bits_only() {
    assert_eq!(ResourceAccessFlags::NO_FLAGS, 0);
    assert_eq!(ResourceAccessFlags::ALL, 0x0001_fffe);
    assert!(ResourceAccessFlags::from_bits(1).is_none());
    assert_eq!(ResourceAccessFlags::from_bits_truncate(0xffff_ffff).bits(), 0x0001_fffe);
    let read = ResourceAccessFlags::from_bits(ResourceAccessFlags::SHADER_READ_BIT).unwrap();
    let write = ResourceAccessFlags::from_bits(ResourceAccessFlags::SHADER_WRITE_BIT).unwrap();
    assert_eq!(read.union(write).bits(), 0x60);
    assert!(read.union(write).contains(write));
    assert_eq!(ResourceAccessFlags::empty().bits(), ResourceAccessFlags::NO_FLAGS);
}

#[test]
fn image_aspect_flags_keep_named_bits_only() {
    assert_eq!(ImageAspectFlags::ALL, 0x7);
    assert!(ImageAspectFlags::from_bits(0x8).is_none());
    assert_eq!(ImageAspectFlags::from_bits_truncate(0xf).bits(), 0x7);
    let depth = ImageAspectFlags::from_bits(ImageAspectFlags::DEPTH).unwrap();
    let stencil = ImageAspectFlags::from_bits(ImageAspectFlags::STENCIL).unwrap();
    assert_eq!(depth.union(stencil).bits(), 0x6);
    assert!(!depth.contains(stencil));
    assert_eq!(ImageAspectFlags::empty().bits(), 0);
}

#[test]
fn shader_stage_flags_keep_named_bits_only() {
    assert_eq!(ShaderStageFlags::ALL, 0x1fff);
    assert!(ShaderStageFlags::from_bits(0x2000).is_none());
    assert_eq!(ShaderStageFlags::from_bits_truncate(0xffff).bits(), 0x1fff);
    let vertex = ShaderStageFlags::from_bits(ShaderStageFlags::VERTEX).unwrap();
    let fragment = ShaderStageFlags::from_bits(ShaderStageFlags::FRAGMENT).unwrap();
    assert_eq!(vertex.union(fragment).bits(), 0x11);
    assert!(vertex.union(fragment).contains(vertex));
    assert_eq!(ShaderStageFlags::empty().bits(), 0);
}
