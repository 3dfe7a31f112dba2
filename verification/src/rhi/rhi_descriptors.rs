//! Pipeline interfaces, descriptor pools and the descriptor sets made from them.

use crate::rhi::rhi_enums::{DescriptorPoolCreationError, NativeStatus};
use crate::rhi::rhi_structs::{
    DescriptorSetHandle, DescriptorSetWrite, DescriptorUpdateInfo, PipelineInterfaceHandle,
    ResourceBindingDescription,
};
use crate::rhi::rhi_traits::{PipelineInterface, Token};
use crate::shaderpack::shaderpack_data::TextureAttachmentInfo;
use vstd::prelude::*;

verus! {

/// What a pipeline binds and writes to: its named bindings and its attachments.
///
/// It is made once and never changes. Every pipeline and every descriptor set that is
/// built against it shares it. A name stands for one binding: an interface that a device
/// has made holds no name twice.
#[derive(Debug)]
pub struct PipelineInterfaceRecord {
    pub handle: PipelineInterfaceHandle,
    /// The bindings that the pipeline exposes, each with its name
    pub bindings: Vec<(String, ResourceBindingDescription)>,
    /// All the color attachments that the pipeline writes to
    pub color_attachments: Vec<TextureAttachmentInfo>,
    /// The depth texture that the pipeline writes to, if it writes to one
    pub depth_texture: Option<TextureAttachmentInfo>,
}

/// A pool of descriptors. How many descriptors of each kind it holds is fixed when it is made.
#[derive(Clone, Copy, Debug)]
pub struct DescriptorPoolRecord {
    /// The token of the pool
    pub id: usize,
    /// The number of sampled image descriptors in the pool
    pub num_sampled_images: u32,
    /// The number of sampler descriptors in the pool
    pub num_samplers: u32,
    /// The number of UBO/CBV or SSBO/UAV descriptors in the pool
    pub num_uniform_buffers: u32,
}

/// Whether no name occurs twice in `bindings`.
pub open spec fn distinct_names(bindings: Seq<(String, ResourceBindingDescription)>) -> bool {
    forall|i: int, j: int|
        0 <= i < j < bindings.len() ==> (#[trigger] bindings[i]).0@ != (#[trigger] bindings[j]).0@
}

/// Whether no name occurs twice in `bindings`.
pub fn have_distinct_names(bindings: &Vec<(String, ResourceBindingDescription)>) -> (distinct:
    bool)
    ensures
        distinct == distinct_names(bindings@),
{
    let mut j: usize = 0;
    while j < bindings.len()
        invariant
            j <= bindings.len(),
            forall|a: int, b: int|
                0 <= a < b < j ==> (#[trigger] bindings@[a]).0@ != (#[trigger] bindings@[b]).0@,
        decreases bindings.len() - j,
    {
        let mut i: usize = 0;
        while i < j
            invariant
                i <= j < bindings.len(),
                forall|a: int| 0 <= a < i ==> (#[trigger] bindings@[a]).0@ != bindings@[j as int].0@,
            decreases j - i,
        {
            if bindings[i].0 == bindings[j].0 {
                assert(bindings@[i as int].0@ == bindings@[j as int].0@);
                return false;
            }
            i += 1;
        }
        j += 1;
    }
    true
}

/// The numbers of the binding groups of `bindings`: each set number that a binding names,
/// once, in the order in which they first occur.
pub open spec fn binding_groups(bindings: Seq<(String, ResourceBindingDescription)>) -> Seq<u32>
    decreases bindings.len(),
{
    if bindings.len() == 0 {
        Seq::empty()
    } else {
        let groups = binding_groups(bindings.drop_last());
        if groups.contains(bindings.last().1.set) {
            groups
        } else {
            groups.push(bindings.last().1.set)
        }
    }
}

/// Whether `bindings` declare binding number `binding` in set number `set`.
pub open spec fn declares(
    bindings: Seq<(String, ResourceBindingDescription)>,
    set: u32,
    binding: u32,
) -> bool {
    exists|i: int|
        0 <= i < bindings.len() && (#[trigger] bindings[i]).1.set == set && bindings[i].1.binding
            == binding
}

/// What the last of `writes` that went to `binding` of `set` put there.
pub open spec fn last_write(writes: Seq<DescriptorSetWrite>, set: DescriptorSetHandle, binding: u32)
    -> Option<DescriptorUpdateInfo>
    decreases writes.len(),
{
    if writes.len() == 0 {
        None
    } else if writes.last().set == set && writes.last().binding == binding {
        Some(writes.last().update_info)
    } else {
        last_write(writes.drop_last(), set, binding)
    }
}

/// Two writes to different bindings can be applied in either order: every binding holds the
/// same afterwards.
pub proof fn lemma_writes_to_different_bindings_commute(
    writes: Seq<DescriptorSetWrite>,
    first: DescriptorSetWrite,
    second: DescriptorSetWrite,
    set: DescriptorSetHandle,
    binding: u32,
)
    requires
        first.set != second.set || first.binding != second.binding,
    ensures
        last_write(writes.push(first).push(second), set, binding) == last_write(
            writes.push(second).push(first),
            set,
            binding,
        ),
{
    reveal_with_fuel(last_write, 3);
    assert(writes.push(first).push(second).drop_last() == writes.push(first));
    assert(writes.push(second).push(first).drop_last() == writes.push(second));
    assert(writes.push(first).drop_last() == writes);
    assert(writes.push(second).drop_last() == writes);
}

/// The descriptor sets that `pool` makes for the interface `interface` with binding groups
/// `groups`: one for each group, in order.
pub open spec fn sets_for(pool: usize, interface: PipelineInterfaceHandle, groups: Seq<u32>) -> Seq<
    DescriptorSetHandle,
> {
    Seq::new(
        groups.len(),
        |i: int| DescriptorSetHandle { pool, pipeline_interface: interface.id, set: groups[i] },
    )
}

/// Whether `group` is one of `groups`.
fn contains_group(groups: &Vec<u32>, group: u32) -> (found: bool)
    ensures
        found == groups@.contains(group),
{
    let mut i: usize = 0;
    while i < groups.len()
        invariant
            i <= groups.len(),
            forall|j: int| 0 <= j < i ==> groups@[j] != group,
        decreases groups.len() - i,
    {
        if groups[i] == group {
            return true;
        }
        i += 1;
    }
    false
}

impl PipelineInterfaceRecord {
    /// The numbers of the binding groups of the interface.
    pub fn groups(&self) -> (groups: Vec<u32>)
        ensures
            groups@ == binding_groups(self.bindings@),
    {
        let mut groups: Vec<u32> = Vec::new();
        let mut i: usize = 0;
        while i < self.bindings.len()
            invariant
                i <= self.bindings.len(),
                groups@ == binding_groups(self.bindings@.take(i as int)),
            decreases self.bindings.len() - i,
        {
            assert(self.bindings@.take(i + 1).drop_last() == self.bindings@.take(i as int));
            assert(self.bindings@.take(i + 1).last() == self.bindings@[i as int]);
            let set = self.bindings[i].1.set;
            if !contains_group(&groups, set) {
                groups.push(set);
            }
            i += 1;
        }
        assert(self.bindings@.take(i as int) == self.bindings@);
        groups
    }

    /// Whether the interface declares the binding that `write` goes to, as every write to a
    /// set made for this interface must.
    pub fn declares_target_of(&self, write: &DescriptorSetWrite) -> (declared: bool)
        ensures
            declared == declares(self.bindings@, write.set.set, write.binding),
    {
        let mut i: usize = 0;
        while i < self.bindings.len()
            invariant
                i <= self.bindings.len(),
                forall|j: int|
                    0 <= j < i ==> !((#[trigger] self.bindings@[j]).1.set == write.set.set
                        && self.bindings@[j].1.binding == write.binding),
            decreases self.bindings.len() - i,
        {
            if self.bindings[i].1.set == write.set.set && self.bindings[i].1.binding
                == write.binding {
                return true;
            }
            i += 1;
        }
        false
    }
}

impl Token for PipelineInterfaceRecord {
    type Handle = PipelineInterfaceHandle;

    open spec fn handle(&self) -> PipelineInterfaceHandle {
        self.handle
    }

    fn to_handle(&self) -> PipelineInterfaceHandle {
        self.handle
    }
}

impl PipelineInterface for PipelineInterfaceRecord {
    open spec fn bindings(&self) -> Seq<(String, ResourceBindingDescription)> {
        self.bindings@
    }

    open spec fn color_attachments(&self) -> Seq<TextureAttachmentInfo> {
        self.color_attachments@
    }

    open spec fn depth_texture(&self) -> Option<TextureAttachmentInfo> {
        self.depth_texture
    }
}

impl DescriptorPoolRecord {
    /// Creates DescriptorSets from the provided PipelineInterface: one for each binding
    /// group of the interface, or none where the pool cannot give them.
    pub fn create_descriptor_sets(
        &self,
        pipeline_interface: &PipelineInterfaceRecord,
        status: NativeStatus,
    ) -> (result: Result<Vec<DescriptorSetHandle>, DescriptorPoolCreationError>)
        requires
            status.is_descriptor_outcome(),
        ensures
            result is Ok <==> status == NativeStatus::Success,
            result is Ok ==> result->Ok_0@ == sets_for(
                self.id,
                pipeline_interface.handle,
                binding_groups(pipeline_interface.bindings@),
            ),
            result is Err ==> status.descriptor_error() == Some(result->Err_0),
    {
        if let Some(error) = status.to_descriptor_error() {
            return Err(error);
        }
        let groups = pipeline_interface.groups();
        let ghost wanted = sets_for(self.id, pipeline_interface.handle, groups@);
        let mut sets: Vec<DescriptorSetHandle> = Vec::new();
        let mut i: usize = 0;
        while i < groups.len()
            invariant
                i <= groups.len(),
                wanted == sets_for(self.id, pipeline_interface.handle, groups@),
                sets@ == wanted.take(i as int),
            decreases groups.len() - i,
        {
            sets.push(
                DescriptorSetHandle {
                    pool: self.id,
                    pipeline_interface: pipeline_interface.handle.id,
                    set: groups[i],
                },
            );
            assert(sets@ =~= wanted.take(i + 1));
            i += 1;
        }
        assert(wanted.take(i as int) == wanted);
        Ok(sets)
    }
}

} // verus!
