//! What every device keeps on the host, whatever its backend.
//!
//! A device hands out tokens for the objects it creates, owns the state of
//! its fences and semaphores, and remembers which descriptor writes it has
//! applied. Creating an object is natural work of the native API; the
//! device is told how that went and answers with a token or with the error
//! that the status stands for.

use crate::rhi::rhi_enums::{
    DescriptorPoolCreationError, MemoryError, NativeStatus, PipelineCreationError,
};
use crate::rhi::rhi_descriptors::last_write;
use crate::rhi::rhi_structs::{
    DescriptorSetHandle, DescriptorSetWrite, DescriptorUpdateInfo, FenceHandle, SemaphoreHandle,
};
use crate::rhi::rhi_sync::{all_up, fence_ids, lowered, SyncPool};
use vstd::prelude::*;

verus! {

/// The mathematical content of a [`DeviceCore`].
pub struct DeviceState {
    /// Whether each fence is signaled, by fence id
    pub fences: Seq<bool>,
    /// Whether each semaphore is signaled, by semaphore id
    pub semaphores: Seq<bool>,
    /// How many tokens have been handed out; the next token has this number
    pub created: nat,
    /// Every descriptor write that was applied, oldest first
    pub descriptor_writes: Seq<DescriptorSetWrite>,
}

impl DeviceState {
    /// Whether there is a token left to hand out.
    pub open spec fn has_room(self) -> bool {
        self.created < usize::MAX
    }

    /// The state after one more token was handed out.
    pub open spec fn with_one_more(self) -> DeviceState {
        DeviceState { created: self.created + 1, ..self }
    }

    /// The state after an attempt to create an object: one more token is out where it
    /// succeeded, and nothing has changed where it failed.
    pub open spec fn after_creation(self, created: bool) -> DeviceState {
        if created {
            self.with_one_more()
        } else {
            self
        }
    }

    /// What creating an object answers whose creation can only run out of memory: the
    /// error that `status` stands for, else the next token, else, where no token is left,
    /// that the host is out of memory.
    pub open spec fn object_outcome(self, status: NativeStatus) -> Result<usize, MemoryError> {
        match status.memory_error() {
            Some(error) => Err(error),
            None => if self.has_room() {
                Ok(self.created as usize)
            } else {
                Err(MemoryError::OutOfHostMemory)
            },
        }
    }

    /// What creating a descriptor pool answers: as [`DeviceState::object_outcome`], in the
    /// errors of descriptor pools.
    pub open spec fn pool_outcome(self, status: NativeStatus) -> Result<
        usize,
        DescriptorPoolCreationError,
    > {
        match status.descriptor_error() {
            Some(error) => Err(error),
            None => if self.has_room() {
                Ok(self.created as usize)
            } else {
                Err(DescriptorPoolCreationError::OutOfHostMemory)
            },
        }
    }

    /// What creating a pipeline answers: as [`DeviceState::object_outcome`], in the errors of
    /// pipelines.
    pub open spec fn pipeline_outcome(self, status: NativeStatus) -> Result<
        usize,
        PipelineCreationError,
    > {
        match status.pipeline_error() {
            Some(error) => Err(error),
            None => if self.has_room() {
                Ok(self.created as usize)
            } else {
                Err(PipelineCreationError::OutOfHostMemory)
            },
        }
    }

    /// The state after `count` fences were added, unsignaled.
    pub open spec fn with_fences(self, count: nat) -> DeviceState {
        DeviceState { fences: self.fences + Seq::new(count, |i: int| false), ..self }
    }

    /// The state after `count` semaphores were added, unsignaled.
    pub open spec fn with_semaphores(self, count: nat) -> DeviceState {
        DeviceState { semaphores: self.semaphores + Seq::new(count, |i: int| false), ..self }
    }

    /// What `binding` of `set` holds: what the last write that was applied to it put there.
    pub open spec fn descriptor(self, set: DescriptorSetHandle, binding: u32) -> Option<
        DescriptorUpdateInfo,
    > {
        last_write(self.descriptor_writes, set, binding)
    }
}

/// The fences with ids `first`, `first + 1` and so on, `count` of them.
pub open spec fn fence_run(first: nat, count: nat) -> Seq<FenceHandle> {
    Seq::new(count, |i: int| FenceHandle { id: (first + i) as usize })
}

/// The semaphores with ids `first`, `first + 1` and so on, `count` of them.
pub open spec fn semaphore_run(first: nat, count: nat) -> Seq<SemaphoreHandle> {
    Seq::new(count, |i: int| SemaphoreHandle { id: (first + i) as usize })
}

/// The host side of a device.
pub struct DeviceCore {
    sync: SyncPool,
    created: usize,
    descriptor_writes: Vec<DescriptorSetWrite>,
}

impl View for DeviceCore {
    type V = DeviceState;

    closed spec fn view(&self) -> DeviceState {
        DeviceState {
            fences: self.sync.fences(),
            semaphores: self.sync.semaphores(),
            created: self.created as nat,
            descriptor_writes: self.descriptor_writes@,
        }
    }
}

impl DeviceCore {
    /// A device that has created nothing.
    pub fn new() -> (core: DeviceCore)
        ensures
            core@ == (DeviceState {
                fences: Seq::empty(),
                semaphores: Seq::empty(),
                created: 0,
                descriptor_writes: Seq::empty(),
            }),
    {
        DeviceCore { sync: SyncPool::new(), created: 0, descriptor_writes: Vec::new() }
    }

    /// The fences and semaphores of the device.
    pub fn sync(&self) -> (sync: &SyncPool)
        ensures
            sync.fences() == self@.fences,
            sync.semaphores() == self@.semaphores,
    {
        &self.sync
    }

    /// The fences and semaphores of the device, for a queue to signal.
    pub fn sync_mut(&mut self) -> (sync: &mut SyncPool)
        ensures
            sync.fences() == old(self)@.fences,
            sync.semaphores() == old(self)@.semaphores,
            final(self)@ == (DeviceState {
                fences: final(sync).fences(),
                semaphores: final(sync).semaphores(),
                ..old(self)@
            }),
    {
        &mut self.sync
    }

    /// Hands out the next token, if there is one left.
    fn mint(&mut self) -> (id: Option<usize>)
        ensures
            old(self)@.has_room() ==> id == Some(old(self)@.created as usize) && final(self)@
                == old(self)@.with_one_more(),
            !old(self)@.has_room() ==> id is None && final(self)@ == old(self)@,
    {
        if self.created < usize::MAX {
            let id = self.created;
            self.created = id + 1;
            Some(id)
        } else {
            None
        }
    }

    /// The token for an object whose creation can only run out of memory.
    ///
    /// A token is handed out where the native API reported success and the device has one
    /// left; where it has none, the host is out of memory.
    pub fn create_object(&mut self, status: NativeStatus) -> (result: Result<usize, MemoryError>)
        requires
            status.is_memory_outcome(),
        ensures
            result == old(self)@.object_outcome(status),
            final(self)@ == old(self)@.after_creation(result is Ok),
    {
        match status.to_memory_error() {
            Some(error) => Err(error),
            None => match self.mint() {
                Some(id) => Ok(id),
                None => Err(MemoryError::OutOfHostMemory),
            },
        }
    }

    /// The token for a descriptor pool.
    ///
    /// A token is handed out where the native API reported success and the device has one
    /// left; where it has none, the host is out of memory.
    pub fn create_descriptor_pool_object(&mut self, status: NativeStatus) -> (result: Result<
        usize,
        DescriptorPoolCreationError,
    >)
        requires
            status.is_descriptor_outcome(),
        ensures
            result == old(self)@.pool_outcome(status),
            final(self)@ == old(self)@.after_creation(result is Ok),
    {
        match status.to_descriptor_error() {
            Some(error) => Err(error),
            None => match self.mint() {
                Some(id) => Ok(id),
                None => Err(DescriptorPoolCreationError::OutOfHostMemory),
            },
        }
    }

    /// The token for a pipeline.
    ///
    /// A token is handed out where the native API reported success and the device has one
    /// left; where it has none, the host is out of memory.
    pub fn create_pipeline_object(&mut self, status: NativeStatus) -> (result: Result<
        usize,
        PipelineCreationError,
    >)
        requires
            status.is_pipeline_outcome(),
        ensures
            result == old(self)@.pipeline_outcome(status),
            final(self)@ == old(self)@.after_creation(result is Ok),
    {
        match status.to_pipeline_error() {
            Some(error) => Err(error),
            None => match self.mint() {
                Some(id) => Ok(id),
                None => Err(PipelineCreationError::OutOfHostMemory),
            },
        }
    }

    /// Creates `count` fences, all unsignaled, or none.
    pub fn create_fences(&mut self, count: u32, status: NativeStatus) -> (result: Result<
        Vec<FenceHandle>,
        MemoryError,
    >)
        requires
            status.is_memory_outcome(),
        ensures
            result is Ok <==> status == NativeStatus::Success,
            result is Ok ==> result->Ok_0@ == fence_run(old(self)@.fences.len(), count as nat)
                && final(self)@ == old(self)@.with_fences(count as nat),
            result is Err ==> status.memory_error() == Some(result->Err_0) && final(self)@ == old(self)@,
    {
        if let Some(error) = status.to_memory_error() {
            return Err(error);
        }
        let ghost before = self@;
        let mut fences: Vec<FenceHandle> = Vec::new();
        let mut i: u32 = 0;
        while i < count
            invariant
                i <= count,
                fences@ == fence_run(before.fences.len(), i as nat),
                self@ == before.with_fences(i as nat),
            decreases count - i,
        {
            let fence = self.sync.create_fence();
            fences.push(fence);
            assert(fences@ =~= fence_run(before.fences.len(), (i + 1) as nat));
            assert(self@.fences =~= before.with_fences((i + 1) as nat).fences);
            i += 1;
        }
        Ok(fences)
    }

    /// Creates `count` semaphores, all unsignaled, or none.
    pub fn create_semaphores(&mut self, count: u32, status: NativeStatus) -> (result: Result<
        Vec<SemaphoreHandle>,
        MemoryError,
    >)
        requires
            status.is_memory_outcome(),
        ensures
            result is Ok <==> status == NativeStatus::Success,
            result is Ok ==> result->Ok_0@ == semaphore_run(
                old(self)@.semaphores.len(),
                count as nat,
            ) && final(self)@ == old(self)@.with_semaphores(count as nat),
            result is Err ==> status.memory_error() == Some(result->Err_0) && final(self)@ == old(self)@,
    {
        if let Some(error) = status.to_memory_error() {
            return Err(error);
        }
        let ghost before = self@;
        let mut semaphores: Vec<SemaphoreHandle> = Vec::new();
        let mut i: u32 = 0;
        while i < count
            invariant
                i <= count,
                semaphores@ == semaphore_run(before.semaphores.len(), i as nat),
                self@ == before.with_semaphores(i as nat),
            decreases count - i,
        {
            let semaphore = self.sync.create_semaphore();
            semaphores.push(semaphore);
            assert(semaphores@ =~= semaphore_run(before.semaphores.len(), (i + 1) as nat));
            assert(self@.semaphores =~= before.with_semaphores((i + 1) as nat).semaphores);
            i += 1;
        }
        Ok(semaphores)
    }

    /// Creates one fence, unsignaled.
    pub fn create_fence(&mut self, status: NativeStatus) -> (result: Result<
        FenceHandle,
        MemoryError,
    >)
        requires
            status.is_memory_outcome(),
        ensures
            result is Ok <==> status == NativeStatus::Success,
            result is Ok ==> result->Ok_0.id == old(self)@.fences.len() && final(self)@ == old(self)@.with_fences(1),
            result is Err ==> status.memory_error() == Some(result->Err_0) && final(self)@ == old(self)@,
    {
        if let Some(error) = status.to_memory_error() {
            return Err(error);
        }
        let fence = self.sync.create_fence();
        assert(self@.fences =~= old(self)@.with_fences(1).fences);
        Ok(fence)
    }

    /// Creates one semaphore, unsignaled.
    pub fn create_semaphore(&mut self, status: NativeStatus) -> (result: Result<
        SemaphoreHandle,
        MemoryError,
    >)
        requires
            status.is_memory_outcome(),
        ensures
            result is Ok <==> status == NativeStatus::Success,
            result is Ok ==> result->Ok_0.id == old(self)@.semaphores.len() && final(self)@ == old(self)@.with_semaphores(1),
            result is Err ==> status.memory_error() == Some(result->Err_0) && final(self)@ == old(self)@,
    {
        if let Some(error) = status.to_memory_error() {
            return Err(error);
        }
        let semaphore = self.sync.create_semaphore();
        assert(self@.semaphores =~= old(self)@.with_semaphores(1).semaphores);
        Ok(semaphore)
    }

    /// Whether a wait for `fences` is over: every one of them is signaled.
    pub fn wait_for_fences(&self, fences: &Vec<FenceHandle>) -> (signaled: bool)
        ensures
            signaled == all_up(self@.fences, fence_ids(fences@)),
    {
        self.sync.all_fences_signaled(fences)
    }

    /// Puts every one of `fences` back into the unsignaled state.
    pub fn reset_fences(&mut self, fences: &Vec<FenceHandle>)
        ensures
            final(self)@ == (DeviceState {
                fences: lowered(old(self)@.fences, fence_ids(fences@)),
                ..old(self)@
            }),
    {
        self.sync.reset_fences(fences);
    }

    /// Applies every one of `updates`. Nothing is recorded on any command list and no list
    /// waits for the writes: ordering them before the lists that read them is up to the
    /// caller.
    pub fn update_descriptor_sets(&mut self, updates: Vec<DescriptorSetWrite>)
        ensures
            final(self)@ == (DeviceState {
                descriptor_writes: old(self)@.descriptor_writes + updates@,
                ..old(self)@
            }),
    {
        let mut updates = updates;
        self.descriptor_writes.append(&mut updates);
    }

    /// What `binding` of `set` holds, if anything was ever written to it.
    pub fn descriptor(&self, set: DescriptorSetHandle, binding: u32) -> (held: Option<
        DescriptorUpdateInfo,
    >)
        ensures
            held == self@.descriptor(set, binding),
    {
        let mut held: Option<DescriptorUpdateInfo> = None;
        let mut i: usize = 0;
        while i < self.descriptor_writes.len()
            invariant
                i <= self.descriptor_writes.len(),
                held == last_write(self.descriptor_writes@.take(i as int), set, binding),
            decreases self.descriptor_writes.len() - i,
        {
            assert(self.descriptor_writes@.take(i + 1).drop_last()
                == self.descriptor_writes@.take(i as int));
            assert(self.descriptor_writes@.take(i + 1).last() == self.descriptor_writes@[i as int]);
            if self.descriptor_writes[i].set == set && self.descriptor_writes[i].binding == binding {
                held = Some(self.descriptor_writes[i].update_info);
            }
            i += 1;
        }
        assert(self.descriptor_writes@.take(i as int) == self.descriptor_writes@);
        held
    }
}

} // verus!
