//! Command lists of the Vulkan backend.

use crate::rhi::vulkan::vulkan_buffer::VulkanBuffer;
use crate::rhi::rhi_commands::{CommandRecorder, ListState, RecordingError};
use crate::rhi::rhi_descriptors::PipelineInterfaceRecord;
use crate::rhi::rhi_enums::PipelineStageFlags;
use crate::rhi::rhi_structs::{
    CommandListId, DescriptorSetHandle, FramebufferHandle, PipelineHandle, RenderpassHandle,
    ResourceBarrier,
};
use crate::rhi::rhi_traits::{handles_of, CommandList, Token};
use vstd::prelude::*;

verus! {

/// A command list: what was recorded for the GPU, in the order in which it will run.
pub struct VulkanCommandList {
    pub recorder: CommandRecorder,
}

impl Token for VulkanCommandList {
    type Handle = CommandListId;

    open spec fn handle(&self) -> CommandListId {
        self.recorder@.id
    }

    fn to_handle(&self) -> CommandListId {
        self.recorder.list_id()
    }
}

impl CommandList for VulkanCommandList {
    type Buffer = VulkanBuffer;

    type Renderpass = RenderpassHandle;

    type Framebuffer = FramebufferHandle;

    type Pipeline = PipelineHandle;

    type DescriptorSet = DescriptorSetHandle;

    type PipelineInterface = PipelineInterfaceRecord;

    open spec fn state(&self) -> ListState {
        self.recorder@
    }

    fn into_recorder(self) -> (recorder: CommandRecorder) {
        self.recorder
    }

    fn resource_barriers(
        &mut self,
        stages_before_barrier: PipelineStageFlags,
        stages_after_barrier: PipelineStageFlags,
        barriers: Vec<ResourceBarrier>,
    ) {
        self.recorder.resource_barriers(stages_before_barrier, stages_after_barrier, barriers);
    }

    fn copy_buffer(
        &mut self,
        destination_buffer: &VulkanBuffer,
        destination_offset: u64,
        source_buffer: &VulkanBuffer,
        source_offset: u64,
        num_bytes: u64,
    ) {
        self.recorder.copy_buffer(
            destination_buffer.record.id,
            destination_offset,
            source_buffer.record.id,
            source_offset,
            num_bytes,
        );
    }

    fn execute_command_lists(&mut self, lists: Vec<VulkanCommandList>) {
        let ids = handles_of(&lists);
        assert(self.recorder@.commands.push(
            crate::rhi::rhi_commands::Command::ExecuteCommandLists { lists: ids },
        ).drop_last() == self.recorder@.commands);
        self.recorder.execute_command_lists(ids);
    }

    fn begin_renderpass(&mut self, renderpass: &RenderpassHandle, framebuffer: &FramebufferHandle)
        -> (result: Result<(), RecordingError>) {
        self.recorder.begin_renderpass(*renderpass, *framebuffer)
    }

    fn end_renderpass(&mut self) -> (result: Result<(), RecordingError>) {
        self.recorder.end_renderpass()
    }

    fn bind_pipeline(&mut self, pipeline: &PipelineHandle) {
        self.recorder.bind_pipeline(*pipeline);
    }

    fn bind_descriptor_sets(
        &mut self,
        descriptor_sets: &Vec<DescriptorSetHandle>,
        pipeline_interface: &PipelineInterfaceRecord,
    ) {
        let sets = handles_of(descriptor_sets);
        assert(self.recorder@.commands.push(
            crate::rhi::rhi_commands::Command::BindDescriptorSets {
                descriptor_sets: sets,
                pipeline_interface: pipeline_interface.handle,
            },
        ).drop_last() == self.recorder@.commands);
        self.recorder.bind_descriptor_sets(sets, pipeline_interface.handle);
    }

    fn bind_vertex_buffers(&mut self, buffers: &Vec<VulkanBuffer>) {
        let ids = handles_of(buffers);
        self.recorder.bind_vertex_buffers(ids);
    }

    fn bind_index_buffer(&mut self, buffer: &VulkanBuffer) {
        self.recorder.bind_index_buffer(buffer.record.id);
    }

    fn draw_indexed_mesh(&mut self, num_indices: u32, num_instances: u32) -> (result: Result<
        (),
        RecordingError,
    >) {
        self.recorder.draw_indexed_mesh(num_indices, num_instances)
    }
}

} // verus!
