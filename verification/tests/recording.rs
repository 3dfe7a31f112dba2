use nova_rs::rhi::dx12::dx12_buffer::Dx12Buffer;
use nova_rs::rhi::dx12::dx12_command_list::Dx12CommandList;
use nova_rs::rhi::rhi_commands::{
    Command, CommandListState, CommandRecorder, RecordingError,
};
use nova_rs::rhi::rhi_descriptors::PipelineInterfaceRecord;
use nova_rs::rhi::rhi_enums::{
    BufferUsage, ImageAspectFlags, PipelineStageFlags, QueueType, ResourceAccessFlags,
    ResourceState,
};
use nova_rs::rhi::rhi_memory::BufferRecord;
use nova_rs::rhi::rhi_structs::{
    BufferId, CommandListId, DescriptorSetHandle, FramebufferHandle, ImageHandle, PipelineHandle,
    PipelineInterfaceHandle, RenderpassHandle, ResourceBarrier, ResourceId, ResourceSpecificData,
};
use nova_rs::rhi::rhi_traits::{CommandList, Resource, Token};
use nova_rs::rhi::vulkan::vulkan_buffer::VulkanBuffer;
use nova_rs::rhi::vulkan::vulkan_command_list::VulkanCommandList;

fn recorder() -> CommandRecorder {
    CommandRecorder::new(CommandListId { allocator: 0, index: 0 }, QueueType::Graphics)
}

fn buffer_id(index: usize) -> BufferId {
    BufferId { memory: 0, index }
}

fn buffer_record(index: usize) -> BufferRecord {
    BufferRecord {
        id: buffer_id(index),
        size: 64,
        usage: BufferUsage::VertexBuffer,
        host_mapped: false,
    }
}

fn renderpass() -> RenderpassHandle {
    RenderpassHandle { id: 10, color_attachments: 1, has_depth: false }
}

fn framebuffer() -> FramebufferHandle {
    FramebufferHandle { id: 11, renderpass: 10, attachments: 1 }
}

fn stages(bits: u32) -> PipelineStageFlags {
    PipelineStageFlags::from_bits(bits).unwrap()
}

fn barrier(resource: ResourceId, from: ResourceState, to: ResourceState) -> ResourceBarrier {
    ResourceBarrier {
        resource,
        initial_state: from,
        final_state: to,
        access_before_barrier: ResourceAccessFlags::from_bits_truncate(
            ResourceAccessFlags::COLOR_ATTACHMENT_WRITE_BIT,
        ),
        access_after_barrier: ResourceAccessFlags::from_bits_truncate(
            ResourceAccessFlags::SHADER_READ_BIT,
        ),
        source_queue: QueueType::Graphics,
        destination_queue: QueueType::Graphics,
        resource_info: ResourceSpecificData::Image {
            aspect: ImageAspectFlags::from_bits_truncate(ImageAspectFlags::COLOR),
        },
    }
}

fn image(id: usize) -> ResourceId {
    ImageHandle { id }.to_resource_id()
}

/// The slot and buffer of each vertex buffer binding among `commands`, in order.
fn vertex_bindings(commands: &[Command]) -> Vec<(usize, BufferId)> {
    commands
        .iter()
        .filter_map(|command| match command {
            Command::BindVertexBuffer { slot, buffer } => Some((*slot, *buffer)),
            _ => None,
        })
        .collect()
}

#[test]
fn new_list_is_in_its_initial_state() {
    let list = recorder();
    assert_eq!(list.current_state(), CommandListState::Initial);
    assert!(list.recorded().is_empty());
    assert!(!list.is_in_renderpass());
    assert_eq!(list.list_id(), CommandListId { allocator: 0, index: 0 });
    assert_eq!(list.queue_type(), QueueType::Graphics);
}

#[test]
fn recording_moves_a_list_out_of_its_initial_state() {
    let mut list = recorder();
    list.bind_index_buffer(buffer_id(0));
    assert_eq!(list.current_state(), CommandListState::Recording);
    assert_eq!(list.recorded().len(), 1);
}

#[test]
fn draw_outside_a_renderpass_is_refused() {
    let mut list = recorder();
    assert_eq!(list.draw_indexed_mesh(36, 1), Err(RecordingError::NoRenderpassOpen));
    assert!(list.recorded().is_empty());
    assert_eq!(list.current_state(), CommandListState::Initial);
    // Binding what a draw needs does not open a renderpass.
    list.bind_pipeline(PipelineHandle { id: 1, pipeline_interface: 0 });
    list.bind_vertex_buffers(vec![buffer_id(0)]);
    list.bind_index_buffer(buffer_id(1));
    assert_eq!(list.draw_indexed_mesh(36, 1), Err(RecordingError::NoRenderpassOpen));
    assert_eq!(list.recorded().len(), 3);
}

#[test]
fn draw_after_the_renderpass_has_ended_is_refused() {
    let mut list = recorder();
    assert_eq!(list.begin_renderpass(renderpass(), framebuffer()), Ok(()));
    assert_eq!(list.draw_indexed_mesh(3, 1), Ok(()));
    assert_eq!(list.end_renderpass(), Ok(()));
    assert_eq!(list.draw_indexed_mesh(3, 1), Err(RecordingError::NoRenderpassOpen));
    assert_eq!(list.recorded().len(), 3);
}

#[test]
fn draw_inside_a_renderpass_is_recorded() {
    let mut list = recorder();
    list.begin_renderpass(renderpass(), framebuffer()).unwrap();
    assert!(list.is_in_renderpass());
    assert_eq!(list.draw_indexed_mesh(36, 2), Ok(()));
    let commands = list.recorded();
    assert_eq!(commands.len(), 2);
    match &commands[0] {
        Command::BeginRenderpass { renderpass: pass, framebuffer: target } => {
            assert_eq!(*pass, renderpass());
            assert_eq!(*target, framebuffer());
        }
        other => panic!("unexpected command {:?}", other),
    }
    match &commands[1] {
        Command::DrawIndexedMesh { num_indices, num_instances } => {
            assert_eq!(*num_indices, 36);
            assert_eq!(*num_instances, 2);
        }
        other => panic!("unexpected command {:?}", other),
    }
}

#[test]
fn renderpass_in_a_renderpass_is_refused() {
    let mut list = recorder();
    list.begin_renderpass(renderpass(), framebuffer()).unwrap();
    assert_eq!(
        list.begin_renderpass(renderpass(), framebuffer()),
        Err(RecordingError::RenderpassAlreadyOpen)
    );
    assert_eq!(list.recorded().len(), 1);
    assert!(list.is_in_renderpass());
    list.end_renderpass().unwrap();
    assert!(!list.is_in_renderpass());
    assert_eq!(list.begin_renderpass(renderpass(), framebuffer()), Ok(()));
}

#[test]
fn ending_no_renderpass_is_refused() {
    let mut list = recorder();
    assert_eq!(list.end_renderpass(), Err(RecordingError::NoRenderpassOpen));
    assert!(list.recorded().is_empty());
    list.begin_renderpass(renderpass(), framebuffer()).unwrap();
    assert_eq!(list.end_renderpass(), Ok(()));
    assert_eq!(list.end_renderpass(), Err(RecordingError::NoRenderpassOpen));
    assert_eq!(list.recorded().len(), 2);
    assert!(matches!(list.recorded()[1], Command::EndRenderpass));
}

#[test]
fn binding_three_vertex_buffers_is_binding_them_one_by_one() {
    let (a, b, c) = (buffer_id(5), buffer_id(6), buffer_id(7));
    let mut at_once = recorder();
    at_once.begin_renderpass(renderpass(), framebuffer()).unwrap();
    at_once.bind_vertex_buffers(vec![a, b, c]);
    at_once.draw_indexed_mesh(3, 1).unwrap();
    let mut one_by_one = recorder();
    one_by_one.begin_renderpass(renderpass(), framebuffer()).unwrap();
    one_by_one.bind_vertex_buffer(0, a);
    one_by_one.bind_vertex_buffer(1, b);
    one_by_one.bind_vertex_buffer(2, c);
    one_by_one.draw_indexed_mesh(3, 1).unwrap();
    assert_eq!(at_once.recorded().len(), 5);
    assert_eq!(one_by_one.recorded().len(), 5);
    assert_eq!(vertex_bindings(at_once.recorded()), vec![(0, a), (1, b), (2, c)]);
    assert_eq!(vertex_bindings(at_once.recorded()), vertex_bindings(one_by_one.recorded()));
    assert_eq!(format!("{:?}", at_once.recorded()), format!("{:?}", one_by_one.recorded()));
}

#[test]
fn binding_no_vertex_buffers_records_nothing() {
    let mut list = recorder();
    list.bind_vertex_buffers(Vec::new());
    assert!(list.recorded().is_empty());
    assert_eq!(list.current_state(), CommandListState::Initial);
}

#[test]
fn vertex_buffers_are_bound_from_slot_zero_every_time() {
    let mut list = recorder();
    list.bind_vertex_buffers(vec![buffer_id(1), buffer_id(2)]);
    list.bind_vertex_buffers(vec![buffer_id(3)]);
    assert_eq!(
        vertex_bindings(list.recorded()),
        vec![(0, buffer_id(1)), (1, buffer_id(2)), (0, buffer_id(3))]
    );
}

#[test]
fn commands_are_recorded_in_order() {
    let mut list = recorder();
    list.copy_buffer(buffer_id(1), 16, buffer_id(2), 32, 64);
    list.execute_command_lists(vec![CommandListId { allocator: 0, index: 4 }]);
    list.bind_pipeline(PipelineHandle { id: 3, pipeline_interface: 2 });
    let set = DescriptorSetHandle { pool: 1, pipeline_interface: 2, set: 0 };
    list.bind_descriptor_sets(vec![set], PipelineInterfaceHandle { id: 2 });
    list.bind_index_buffer(buffer_id(9));
    let commands = list.recorded();
    assert_eq!(commands.len(), 5);
    match &commands[0] {
        Command::CopyBuffer {
            destination_buffer,
            destination_offset,
            source_buffer,
            source_offset,
            num_bytes,
        } => {
            assert_eq!(*destination_buffer, buffer_id(1));
            assert_eq!(*destination_offset, 16);
            assert_eq!(*source_buffer, buffer_id(2));
            assert_eq!(*source_offset, 32);
            assert_eq!(*num_bytes, 64);
        }
        other => panic!("unexpected command {:?}", other),
    }
    match &commands[1] {
        Command::ExecuteCommandLists { lists } => {
            assert_eq!(*lists, vec![CommandListId { allocator: 0, index: 4 }]);
        }
        other => panic!("unexpected command {:?}", other),
    }
    match &commands[2] {
        Command::BindPipeline { pipeline } => {
            assert_eq!(*pipeline, PipelineHandle { id: 3, pipeline_interface: 2 });
        }
        other => panic!("unexpected command {:?}", other),
    }
    match &commands[3] {
        Command::BindDescriptorSets { descriptor_sets, pipeline_interface } => {
            assert_eq!(*descriptor_sets, vec![set]);
            assert_eq!(*pipeline_interface, PipelineInterfaceHandle { id: 2 });
        }
        other => panic!("unexpected command {:?}", other),
    }
    match &commands[4] {
        Command::BindIndexBuffer { buffer } => assert_eq!(*buffer, buffer_id(9)),
        other => panic!("unexpected command {:?}", other),
    }
}

#[test]
fn barriers_are_recorded_with_their_stages() {
    let mut list = recorder();
    let before = stages(PipelineStageFlags::COLOR_ATTACHMENT_OUTPUT);
    let after = stages(PipelineStageFlags::FRAGMENT_SHADER);
    list.resource_barriers(
        before,
        after,
        vec![barrier(image(1), ResourceState::ColorAttachment, ResourceState::FragmentShaderReadOnly)],
    );
    match &list.recorded()[0] {
        Command::ResourceBarriers { stages_before_barrier, stages_after_barrier, barriers } => {
            assert_eq!(*stages_before_barrier, before);
            assert_eq!(*stages_after_barrier, after);
            assert_eq!(barriers.len(), 1);
            assert_eq!(barriers[0].resource, image(1));
            assert_eq!(barriers[0].final_state, ResourceState::FragmentShaderReadOnly);
        }
        other => panic!("unexpected command {:?}", other),
    }
}

#[test]
fn nothing_but_barriers_changes_the_state_of_a_resource() {
    let mut list = recorder();
    assert_eq!(list.resource_state(image(1)), None);
    list.begin_renderpass(renderpass(), framebuffer()).unwrap();
    list.draw_indexed_mesh(3, 1).unwrap();
    list.end_renderpass().unwrap();
    list.copy_buffer(buffer_id(1), 0, buffer_id(2), 0, 8);
    assert_eq!(list.resource_state(image(1)), None);
    assert_eq!(list.resource_state(buffer_id(1).to_resource_id()), None);
}

#[test]
fn last_barrier_of_a_resource_decides_its_state() {
    let mut list = recorder();
    let all = stages(PipelineStageFlags::ALL_COMMANDS);
    list.resource_barriers(
        all,
        all,
        vec![
            barrier(image(1), ResourceState::Undefined, ResourceState::TransferDestination),
            barrier(image(2), ResourceState::Undefined, ResourceState::ColorAttachment),
            barrier(image(1), ResourceState::TransferDestination, ResourceState::General),
        ],
    );
    assert_eq!(list.resource_state(image(1)), Some(ResourceState::General));
    assert_eq!(list.resource_state(image(2)), Some(ResourceState::ColorAttachment));
    assert_eq!(list.resource_state(image(3)), None);
    list.bind_index_buffer(buffer_id(0));
    list.resource_barriers(
        all,
        all,
        vec![barrier(image(2), ResourceState::ColorAttachment, ResourceState::PresentSource)],
    );
    assert_eq!(list.resource_state(image(1)), Some(ResourceState::General));
    assert_eq!(list.resource_state(image(2)), Some(ResourceState::PresentSource));
    // An image and a buffer with the same number are two resources.
    let same_number = ResourceId::Buffer(BufferId { memory: 0, index: 1 });
    assert_eq!(list.resource_state(same_number), None);
}

#[test]
fn barrier_into_the_same_state_changes_no_state_and_is_recorded() {
    let mut list = recorder();
    let before = stages(PipelineStageFlags::TRANSFER);
    let after = stages(PipelineStageFlags::VERTEX_SHADER);
    list.resource_barriers(
        before,
        after,
        vec![
            barrier(image(1), ResourceState::Undefined, ResourceState::General),
            barrier(image(2), ResourceState::Undefined, ResourceState::TransferSource),
        ],
    );
    list.resource_barriers(
        before,
        after,
        vec![barrier(image(1), ResourceState::General, ResourceState::General)],
    );
    assert_eq!(list.resource_state(image(1)), Some(ResourceState::General));
    assert_eq!(list.resource_state(image(2)), Some(ResourceState::TransferSource));
    let commands = list.recorded();
    assert_eq!(commands.len(), 2);
    match &commands[1] {
        Command::ResourceBarriers { stages_before_barrier, stages_after_barrier, barriers } => {
            assert_eq!(stages_before_barrier.bits(), PipelineStageFlags::TRANSFER);
            assert_eq!(stages_after_barrier.bits(), PipelineStageFlags::VERTEX_SHADER);
            assert_eq!(barriers.len(), 1);
        }
        other => panic!("unexpected command {:?}", other),
    }
}

#[test]
fn barrier_call_without_barriers_still_orders_its_stages() {
    let mut list = recorder();
    let before = stages(PipelineStageFlags::COMPUTE_SHADER);
    let after = stages(PipelineStageFlags::DRAW_INDIRECT);
    list.resource_barriers(before, after, Vec::new());
    assert_eq!(list.recorded().len(), 1);
    assert!(matches!(
        &list.recorded()[0],
        Command::ResourceBarriers { stages_before_barrier, stages_after_barrier, barriers }
            if *stages_before_barrier == before && *stages_after_barrier == after
                && barriers.is_empty()
    ));
    assert_eq!(list.resource_state(image(1)), None);
}

#[test]
fn dx12_command_list_records_through_the_interface() {
    let mut list = Dx12CommandList { recorder: recorder() };
    let buffers = vec![
        Dx12Buffer { record: buffer_record(1) },
        Dx12Buffer { record: buffer_record(2) },
        Dx12Buffer { record: buffer_record(3) },
    ];
    assert_eq!(list.draw_indexed_mesh(3, 1), Err(RecordingError::NoRenderpassOpen));
    assert_eq!(list.end_renderpass(), Err(RecordingError::NoRenderpassOpen));
    list.copy_buffer(&buffers[0], 0, &buffers[1], 8, 16);
    list.resource_barriers(PipelineStageFlags::empty(), PipelineStageFlags::empty(), Vec::new());
    assert_eq!(list.begin_renderpass(&renderpass(), &framebuffer()), Ok(()));
    assert_eq!(
        list.begin_renderpass(&renderpass(), &framebuffer()),
        Err(RecordingError::RenderpassAlreadyOpen)
    );
    list.bind_pipeline(&PipelineHandle { id: 3, pipeline_interface: 2 });
    let interface = PipelineInterfaceRecord {
        handle: PipelineInterfaceHandle { id: 2 },
        bindings: Vec::new(),
        color_attachments: Vec::new(),
        depth_texture: None,
    };
    let set = DescriptorSetHandle { pool: 1, pipeline_interface: 2, set: 0 };
    list.bind_descriptor_sets(&vec![set], &interface);
    list.bind_vertex_buffers(&buffers);
    list.bind_index_buffer(&buffers[0]);
    assert_eq!(list.draw_indexed_mesh(3, 1), Ok(()));
    assert_eq!(list.end_renderpass(), Ok(()));
    let secondary = Dx12CommandList {
        recorder: CommandRecorder::new(CommandListId { allocator: 0, index: 1 }, QueueType::Graphics),
    };
    list.execute_command_lists(vec![secondary]);
    assert_eq!(list.to_handle(), CommandListId { allocator: 0, index: 0 });
    let recorder = list.into_recorder();
    let commands = recorder.recorded();
    assert_eq!(commands.len(), 12);
    assert_eq!(
        vertex_bindings(commands),
        vec![(0, buffer_id(1)), (1, buffer_id(2)), (2, buffer_id(3))]
    );
    assert!(matches!(
        &commands[0],
        Command::CopyBuffer { destination_buffer, source_buffer, source_offset: 8, num_bytes: 16, .. }
            if *destination_buffer == buffer_id(1) && *source_buffer == buffer_id(2)
    ));
    assert!(matches!(
        &commands[4],
        Command::BindDescriptorSets { descriptor_sets, pipeline_interface }
            if *descriptor_sets == vec![set] && pipeline_interface.id == 2
    ));
    assert!(matches!(
        &commands[8],
        Command::BindIndexBuffer { buffer } if *buffer == buffer_id(1)
    ));
    assert!(matches!(
        &commands[11],
        Command::ExecuteCommandLists { lists }
            if *lists == vec![CommandListId { allocator: 0, index: 1 }]
    ));
}

#[test]
fn vulkan_command_list_records_what_the_dx12_one_records() {
    let mut vulkan = VulkanCommandList { recorder: recorder() };
    let mut dx12 = Dx12CommandList { recorder: recorder() };
    let vulkan_buffers =
        vec![VulkanBuffer { record: buffer_record(1) }, VulkanBuffer { record: buffer_record(2) }];
    let dx12_buffers =
        vec![Dx12Buffer { record: buffer_record(1) }, Dx12Buffer { record: buffer_record(2) }];
    assert_eq!(vulkan.draw_indexed_mesh(1, 1), dx12.draw_indexed_mesh(1, 1));
    vulkan.begin_renderpass(&renderpass(), &framebuffer()).unwrap();
    dx12.begin_renderpass(&renderpass(), &framebuffer()).unwrap();
    vulkan.bind_vertex_buffers(&vulkan_buffers);
    dx12.bind_vertex_buffers(&dx12_buffers);
    vulkan.bind_index_buffer(&vulkan_buffers[1]);
    dx12.bind_index_buffer(&dx12_buffers[1]);
    vulkan.copy_buffer(&vulkan_buffers[0], 1, &vulkan_buffers[1], 2, 3);
    dx12.copy_buffer(&dx12_buffers[0], 1, &dx12_buffers[1], 2, 3);
    assert_eq!(vulkan.draw_indexed_mesh(6, 2), Ok(()));
    assert_eq!(dx12.draw_indexed_mesh(6, 2), Ok(()));
    assert_eq!(vulkan.end_renderpass(), dx12.end_renderpass());
    assert_eq!(
        format!("{:?}", vulkan.recorder.recorded()),
        format!("{:?}", dx12.recorder.recorded())
    );
    assert_eq!(vulkan.recorder.recorded().len(), 7);
}

#[test]
fn barriers_of_one_call_leave_each_resource_in_its_final_state() {
    let mut list = recorder();
    let all = stages(PipelineStageFlags::ALL_COMMANDS);
    list.resource_barriers(
        all,
        all,
        vec![barrier(image(1), ResourceState::Undefined, ResourceState::General)],
    );
    list.resource_barriers(
        all,
        all,
        vec![
            barrier(image(2), ResourceState::Undefined, ResourceState::TransferDestination),
            barrier(image(1), ResourceState::General, ResourceState::General),
            barrier(image(3), ResourceState::Undefined, ResourceState::ColorAttachment),
        ],
    );
    // The barrier into the same state kept its image where it was, beside barriers that
    // moved theirs.
    assert_eq!(list.resource_state(image(1)), Some(ResourceState::General));
    assert_eq!(list.resource_state(image(2)), Some(ResourceState::TransferDestination));
    assert_eq!(list.resource_state(image(3)), Some(ResourceState::ColorAttachment));
    assert_eq!(list.resource_state(image(4)), None);
}
