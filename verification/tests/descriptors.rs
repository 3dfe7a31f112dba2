use nova_rs::rhi::rhi_descriptors::{
    have_distinct_names, DescriptorPoolRecord, PipelineInterfaceRecord,
};
use nova_rs::rhi::rhi_enums::{
    DescriptorPoolCreationError, DescriptorType, NativeStatus, ShaderStageFlags,
};
use nova_rs::rhi::rhi_structs::{
    DescriptorSetHandle, DescriptorSetWrite, DescriptorUpdateInfo, ImageHandle,
    PipelineInterfaceHandle, ResourceBindingDescription, SamplerHandle,
};
use nova_rs::rhi::rhi_traits::{DescriptorPool, Device};
use nova_rs::rhi::vulkan::vulkan_descriptor_pool::VulkanDescriptorPool;
use nova_rs::rhi::vulkan::vulkan_device::VulkanDevice;
use nova_rs::shaderpack::shaderpack_data::{PixelFormat, TextureDimensionType};

fn binding(set: u32, binding: u32, descriptor_type: DescriptorType) -> ResourceBindingDescription {
    ResourceBindingDescription {
        set,
        binding,
        count: 1,
        descriptor_type,
        stages: ShaderStageFlags::from_bits_truncate(ShaderStageFlags::FRAGMENT),
    }
}

fn interface(id: usize, bindings: Vec<(u32, u32)>) -> PipelineInterfaceRecord {
    PipelineInterfaceRecord {
        handle: PipelineInterfaceHandle { id },
        bindings: bindings
            .into_iter()
            .enumerate()
            .map(|(i, (set, number))| {
                (format!("binding_{}", i), binding(set, number, DescriptorType::UniformBuffer))
            })
            .collect(),
        color_attachments: Vec::new(),
        depth_texture: None,
    }
}

fn pool(id: usize) -> DescriptorPoolRecord {
    DescriptorPoolRecord { id, num_sampled_images: 8, num_samplers: 8, num_uniform_buffers: 8 }
}

fn write(set: DescriptorSetHandle, binding: u32, image: usize) -> DescriptorSetWrite {
    DescriptorSetWrite {
        set,
        binding,
        update_info: DescriptorUpdateInfo::Image {
            image: ImageHandle { id: image },
            pixel_format: PixelFormat::RGBA8,
            dimension_type: TextureDimensionType::Absolute,
            sampler: SamplerHandle { id: 0 },
        },
    }
}

fn image_of(info: Option<DescriptorUpdateInfo>) -> Option<usize> {
    info.map(|info| match info {
        DescriptorUpdateInfo::Image { image, .. } => image.id,
    })
}

#[test]
fn binding_groups_are_the_set_numbers_in_order_of_first_use() {
    assert_eq!(interface(0, vec![(0, 0), (0, 1), (1, 0)]).groups(), vec![0, 1]);
    assert_eq!(interface(0, vec![(2, 0), (0, 0), (2, 1), (1, 0), (0, 3)]).groups(), vec![2, 0, 1]);
    assert_eq!(interface(0, vec![(7, 0)]).groups(), vec![7]);
    assert!(interface(0, Vec::new()).groups().is_empty());
}

#[test]
fn one_descriptor_set_is_made_for_each_binding_group() {
    let sets = pool(3)
        .create_descriptor_sets(&interface(5, vec![(1, 0), (0, 0), (1, 1)]), NativeStatus::Success)
        .ok()
        .unwrap();
    assert_eq!(
        sets,
        vec![
            DescriptorSetHandle { pool: 3, pipeline_interface: 5, set: 1 },
            DescriptorSetHandle { pool: 3, pipeline_interface: 5, set: 0 },
        ]
    );
}

#[test]
fn interface_without_bindings_gets_no_descriptor_sets() {
    let sets = pool(0).create_descriptor_sets(&interface(1, Vec::new()), NativeStatus::Success);
    assert_eq!(sets, Ok(Vec::new()));
}

#[test]
fn exhausted_pool_gives_the_error_of_its_status() {
    let layout = interface(5, vec![(0, 0)]);
    let cases = [
        (NativeStatus::OutOfHostMemory, DescriptorPoolCreationError::OutOfHostMemory),
        (NativeStatus::OutOfDeviceMemory, DescriptorPoolCreationError::OutOfDeviceMemory),
        (NativeStatus::Fragmentation, DescriptorPoolCreationError::Fragmentation),
        (NativeStatus::FragmentedPool, DescriptorPoolCreationError::Fragmentation),
    ];
    for (status, error) in cases {
        assert_eq!(pool(0).create_descriptor_sets(&layout, status), Err(error));
    }
}

#[test]
fn backend_pool_makes_the_sets_of_its_record() {
    let backend = VulkanDescriptorPool { record: pool(2) };
    let layout = interface(4, vec![(0, 0), (3, 0)]);
    assert_eq!(
        backend.create_descriptor_sets(&layout, NativeStatus::Success),
        pool(2).create_descriptor_sets(&layout, NativeStatus::Success)
    );
    assert_eq!(
        backend.create_descriptor_sets(&layout, NativeStatus::Fragmentation),
        Err(DescriptorPoolCreationError::Fragmentation)
    );
}

#[test]
fn interface_knows_the_bindings_it_declares() {
    let layout = interface(4, vec![(0, 0), (0, 2), (1, 5)]);
    let set = |number| DescriptorSetHandle { pool: 0, pipeline_interface: 4, set: number };
    assert!(layout.declares_target_of(&write(set(0), 0, 1)));
    assert!(layout.declares_target_of(&write(set(0), 2, 1)));
    assert!(layout.declares_target_of(&write(set(1), 5, 1)));
    assert!(!layout.declares_target_of(&write(set(0), 1, 1)));
    assert!(!layout.declares_target_of(&write(set(1), 0, 1)));
    assert!(!layout.declares_target_of(&write(set(2), 0, 1)));
    assert!(!interface(4, Vec::new()).declares_target_of(&write(set(0), 0, 1)));
}

#[test]
fn every_write_is_applied() {
    let mut device = VulkanDevice::new(0, 1, None, Vec::new());
    let first = DescriptorSetHandle { pool: 0, pipeline_interface: 1, set: 0 };
    let second = DescriptorSetHandle { pool: 0, pipeline_interface: 1, set: 1 };
    assert_eq!(image_of(device.descriptor(first, 0)), None);
    device.update_descriptor_sets(vec![
        write(first, 0, 10),
        write(first, 1, 11),
        write(second, 0, 12),
    ]);
    assert_eq!(image_of(device.descriptor(first, 0)), Some(10));
    assert_eq!(image_of(device.descriptor(first, 1)), Some(11));
    assert_eq!(image_of(device.descriptor(second, 0)), Some(12));
    device.update_descriptor_sets(vec![write(first, 1, 13)]);
    device.update_descriptor_sets(Vec::new());
    assert_eq!(image_of(device.descriptor(first, 0)), Some(10));
    assert_eq!(image_of(device.descriptor(first, 1)), Some(13));
    assert_eq!(image_of(device.descriptor(second, 1)), None);
}

#[test]
fn last_write_to_a_binding_is_what_it_holds() {
    let mut core = nova_rs::rhi::rhi_device::DeviceCore::new();
    let first = DescriptorSetHandle { pool: 0, pipeline_interface: 1, set: 0 };
    let second = DescriptorSetHandle { pool: 0, pipeline_interface: 1, set: 1 };
    let other_pool = DescriptorSetHandle { pool: 9, pipeline_interface: 1, set: 0 };
    assert_eq!(image_of(core.descriptor(first, 0)), None);
    core.update_descriptor_sets(vec![
        write(first, 0, 10),
        write(first, 1, 11),
        write(second, 0, 12),
    ]);
    assert_eq!(image_of(core.descriptor(first, 0)), Some(10));
    assert_eq!(image_of(core.descriptor(first, 1)), Some(11));
    assert_eq!(image_of(core.descriptor(second, 0)), Some(12));
    assert_eq!(image_of(core.descriptor(second, 1)), None);
    assert_eq!(image_of(core.descriptor(other_pool, 0)), None);
    core.update_descriptor_sets(vec![write(first, 1, 13), write(first, 1, 14)]);
    assert_eq!(image_of(core.descriptor(first, 0)), Some(10));
    assert_eq!(image_of(core.descriptor(first, 1)), Some(14));
    core.update_descriptor_sets(Vec::new());
    assert_eq!(image_of(core.descriptor(first, 1)), Some(14));
}

#[test]
fn names_of_bindings_are_told_apart() {
    let named = |names: &[&str]| -> Vec<(String, ResourceBindingDescription)> {
        names
            .iter()
            .map(|name| (name.to_string(), binding(0, 0, DescriptorType::StorageBuffer)))
            .collect()
    };
    assert!(have_distinct_names(&named(&[])));
    assert!(have_distinct_names(&named(&["per_frame"])));
    assert!(have_distinct_names(&named(&["per_frame", "model", "lightmap"])));
    assert!(!have_distinct_names(&named(&["per_frame", "per_frame"])));
    assert!(!have_distinct_names(&named(&["per_frame", "model", "per_frame"])));
    assert!(!have_distinct_names(&named(&["a", "b", "c", "c"])));
    assert!(have_distinct_names(&named(&["a", "A", "a "])));
}

#[test]
fn interface_keeps_its_bindings_and_attachments() {
    let mut device = VulkanDevice::new(0, 1, None, Vec::new());
    let attachment = |name: &str, pixel_format| nova_rs::shaderpack::shaderpack_data::TextureAttachmentInfo {
        name: name.to_string(),
        pixel_format,
        clear: true,
    };
    let bindings = vec![
        ("per_frame".to_string(), binding(0, 0, DescriptorType::UniformBuffer)),
        ("albedo".to_string(), binding(1, 2, DescriptorType::CombinedImageSampler)),
    ];
    assert!(have_distinct_names(&bindings));
    let interface = device
        .create_pipeline_interface(
            bindings,
            vec![attachment("Color", PixelFormat::RGBA8), attachment("Hdr", PixelFormat::RGBA16F)],
            Some(attachment("Depth", PixelFormat::Depth)),
            NativeStatus::Success,
        )
        .ok()
        .unwrap();
    assert_eq!(interface.bindings.len(), 2);
    assert_eq!(interface.bindings[0].0, "per_frame");
    assert_eq!(interface.bindings[1].0, "albedo");
    assert_eq!(interface.bindings[1].1.set, 1);
    assert_eq!(interface.bindings[1].1.binding, 2);
    assert_eq!(interface.bindings[1].1.descriptor_type, DescriptorType::CombinedImageSampler);
    assert_eq!(interface.color_attachments.len(), 2);
    assert_eq!(interface.color_attachments[0].name, "Color");
    assert_eq!(interface.color_attachments[1].name, "Hdr");
    assert_eq!(interface.color_attachments[1].pixel_format, PixelFormat::RGBA16F);
    assert!(interface.color_attachments[1].clear);
    let depth = interface.depth_texture.as_ref().unwrap();
    assert_eq!(depth.name, "Depth");
    assert_eq!(depth.pixel_format, PixelFormat::Depth);
}
