//! Descriptor pools of the Vulkan backend.

use crate::rhi::rhi_descriptors::{DescriptorPoolRecord, PipelineInterfaceRecord};
use crate::rhi::rhi_enums::{DescriptorPoolCreationError, NativeStatus};
use crate::rhi::rhi_structs::DescriptorSetHandle;
use crate::rhi::rhi_traits::{handles, DescriptorPool};
use vstd::prelude::*;

verus! {

/// A pool of descriptors. How many of each kind it holds is fixed when it is made.
#[derive(Clone, Copy, Debug)]
pub struct VulkanDescriptorPool {
    pub record: DescriptorPoolRecord,
}

impl DescriptorPool for VulkanDescriptorPool {
    type PipelineInterface = PipelineInterfaceRecord;

    type DescriptorSet = DescriptorSetHandle;

    open spec fn record(&self) -> DescriptorPoolRecord {
        self.record
    }

    fn create_descriptor_sets(
        &self,
        pipeline_interface: &PipelineInterfaceRecord,
        status: NativeStatus,
    ) -> (sets: Result<Vec<DescriptorSetHandle>, DescriptorPoolCreationError>) {
        let sets = self.record.create_descriptor_sets(pipeline_interface, status);
        proof {
            if sets is Ok {
                assert(handles(sets->Ok_0@) =~= sets->Ok_0@);
            }
        }
        sets
    }
}

} // verus!
