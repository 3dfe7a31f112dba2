//! Fences and semaphores, as the host keeps track of them.
//!
//! A fence is a binary flag that the GPU raises and the host can read. A
//! semaphore is a binary flag that orders one submission after another and
//! that only the GPU reads. A device owns one [`SyncPool`], which holds the
//! state of every fence and semaphore that the device has created.

use crate::rhi::rhi_structs::{FenceHandle, SemaphoreHandle};
use vstd::prelude::*;

verus! {

/// `states` with the flag at each of `ids` lowered.
pub open spec fn lowered(states: Seq<bool>, ids: Seq<usize>) -> Seq<bool> {
    Seq::new(states.len(), |i: int| states[i] && !ids.contains(i as usize))
}

/// `states` with the flag at each of `ids` raised.
pub open spec fn raised(states: Seq<bool>, ids: Seq<usize>) -> Seq<bool> {
    Seq::new(states.len(), |i: int| states[i] || ids.contains(i as usize))
}

/// Whether the flag at `id` exists in `states` and is up.
pub open spec fn is_up(states: Seq<bool>, id: usize) -> bool {
    id < states.len() && states[id as int]
}

/// Whether the flag at each of `ids` exists in `states` and is up.
pub open spec fn all_up(states: Seq<bool>, ids: Seq<usize>) -> bool {
    forall|i: int| 0 <= i < ids.len() ==> is_up(states, #[trigger] ids[i])
}

/// The ids of `fences`, in order.
pub open spec fn fence_ids(fences: Seq<FenceHandle>) -> Seq<usize> {
    Seq::new(fences.len(), |i: int| fences[i].id)
}

/// The ids of `semaphores`, in order.
pub open spec fn semaphore_ids(semaphores: Seq<SemaphoreHandle>) -> Seq<usize> {
    Seq::new(semaphores.len(), |i: int| semaphores[i].id)
}

/// Lowering the same flags a second time changes nothing.
pub proof fn lemma_lowered_idempotent(states: Seq<bool>, ids: Seq<usize>)
    ensures
        lowered(lowered(states, ids), ids) == lowered(states, ids),
{
    assert(lowered(lowered(states, ids), ids) =~= lowered(states, ids));
}

/// After lowering the flags at `ids`, none of them is up.
pub proof fn lemma_lowered_all_down(states: Seq<bool>, ids: Seq<usize>)
    ensures
        forall|i: int| 0 <= i < ids.len() ==> !is_up(lowered(states, ids), #[trigger] ids[i]),
{
}

/// After raising the flags at `ids`, each of them that exists is up, and every flag that was
/// up still is.
pub proof fn lemma_raised_up(states: Seq<bool>, ids: Seq<usize>)
    ensures
        forall|i: int|
            0 <= i < ids.len() && ids[i] < states.len() ==> is_up(
                raised(states, ids),
                #[trigger] ids[i],
            ),
        forall|id: usize| is_up(states, id) ==> is_up(raised(states, ids), id),
{
}

/// Whether the flag at `id` is up.
fn flag_is_up(states: &Vec<bool>, id: usize) -> (up: bool)
    ensures
        up == is_up(states@, id),
{
    id < states.len() && states[id]
}

/// Sets the flag at each of `ids` that exists to `value`.
fn set_flags(states: &mut Vec<bool>, ids: &Vec<usize>, value: bool)
    ensures
        value ==> final(states)@ == raised(old(states)@, ids@),
        !value ==> final(states)@ == lowered(old(states)@, ids@),
{
    let ghost before = states@;
    let mut k: usize = 0;
    while k < ids.len()
        invariant
            k <= ids.len(),
            states.len() == before.len(),
            value ==> states@ == raised(before, ids@.take(k as int)),
            !value ==> states@ == lowered(before, ids@.take(k as int)),
        decreases ids.len() - k,
    {
        let id = ids[k];
        let ghost prev = states@;
        if id < states.len() {
            states.set(id, value);
        }
        proof {
            let done = ids@.take(k as int);
            let next = ids@.take(k + 1);
            assert(next == done.push(id));
            assert forall|x: usize| next.contains(x) <==> (done.contains(x) || x == id) by {
                if next.contains(x) {
                    let j = choose|j: int| 0 <= j < next.len() && next[j] == x;
                    if j < k {
                        assert(done[j] == x);
                    }
                }
                if done.contains(x) {
                    let j = choose|j: int| 0 <= j < done.len() && done[j] == x;
                    assert(next[j] == x);
                }
                if x == id {
                    assert(next[k as int] == x);
                }
            }
            if value {
                assert(states@ =~= raised(before, next));
            } else {
                assert(states@ =~= lowered(before, next));
            }
        }
        k += 1;
    }
    assert(ids@.take(k as int) == ids@);
}

/// The state of every fence and semaphore of one device.
pub struct SyncPool {
    fences: Vec<bool>,
    semaphores: Vec<bool>,
}

impl SyncPool {
    /// Whether each fence is signaled, by fence id.
    pub closed spec fn fences(&self) -> Seq<bool> {
        self.fences@
    }

    /// Whether each semaphore is signaled, by semaphore id.
    pub closed spec fn semaphores(&self) -> Seq<bool> {
        self.semaphores@
    }

    /// Whether `fence` belongs to this pool and is signaled.
    pub open spec fn fence_signaled(&self, fence: FenceHandle) -> bool {
        is_up(self.fences(), fence.id)
    }

    /// Whether `semaphore` belongs to this pool and is signaled.
    pub open spec fn semaphore_signaled(&self, semaphore: SemaphoreHandle) -> bool {
        is_up(self.semaphores(), semaphore.id)
    }

    /// A pool without fences or semaphores.
    pub fn new() -> (pool: SyncPool)
        ensures
            pool.fences() == Seq::<bool>::empty(),
            pool.semaphores() == Seq::<bool>::empty(),
    {
        SyncPool { fences: Vec::new(), semaphores: Vec::new() }
    }

    /// Adds a fence, unsignaled.
    pub fn create_fence(&mut self) -> (fence: FenceHandle)
        ensures
            fence.id == old(self).fences().len(),
            final(self).fences() == old(self).fences().push(false),
            final(self).semaphores() == old(self).semaphores(),
    {
        let id = self.fences.len();
        self.fences.push(false);
        FenceHandle { id }
    }

    /// Adds a semaphore, unsignaled.
    pub fn create_semaphore(&mut self) -> (semaphore: SemaphoreHandle)
        ensures
            semaphore.id == old(self).semaphores().len(),
            final(self).semaphores() == old(self).semaphores().push(false),
            final(self).fences() == old(self).fences(),
    {
        let id = self.semaphores.len();
        self.semaphores.push(false);
        SemaphoreHandle { id }
    }

    /// Whether `fence` is signaled.
    pub fn is_fence_signaled(&self, fence: FenceHandle) -> (signaled: bool)
        ensures
            signaled == self.fence_signaled(fence),
    {
        flag_is_up(&self.fences, fence.id)
    }

    /// Whether `semaphore` is signaled.
    pub fn is_semaphore_signaled(&self, semaphore: SemaphoreHandle) -> (signaled: bool)
        ensures
            signaled == self.semaphore_signaled(semaphore),
    {
        flag_is_up(&self.semaphores, semaphore.id)
    }

    /// Whether every one of `fences` is signaled: what a wait for all of them waits for.
    pub fn all_fences_signaled(&self, fences: &Vec<FenceHandle>) -> (signaled: bool)
        ensures
            signaled == all_up(self.fences(), fence_ids(fences@)),
    {
        let mut i: usize = 0;
        while i < fences.len()
            invariant
                i <= fences.len(),
                forall|j: int| 0 <= j < i ==> is_up(self.fences@, #[trigger] fence_ids(fences@)[j]),
            decreases fences.len() - i,
        {
            if !flag_is_up(&self.fences, fences[i].id) {
                assert(!is_up(self.fences@, fence_ids(fences@)[i as int]));
                return false;
            }
            i += 1;
        }
        true
    }

    /// Whether every one of `semaphores` is signaled: what a submission that waits for them
    /// waits for.
    pub fn all_semaphores_signaled(&self, semaphores: &Vec<SemaphoreHandle>) -> (signaled: bool)
        ensures
            signaled == all_up(self.semaphores(), semaphore_ids(semaphores@)),
    {
        let mut i: usize = 0;
        while i < semaphores.len()
            invariant
                i <= semaphores.len(),
                forall|j: int|
                    0 <= j < i ==> is_up(
                        self.semaphores@,
                        #[trigger] semaphore_ids(semaphores@)[j],
                    ),
            decreases semaphores.len() - i,
        {
            if !flag_is_up(&self.semaphores, semaphores[i].id) {
                assert(!is_up(self.semaphores@, semaphore_ids(semaphores@)[i as int]));
                return false;
            }
            i += 1;
        }
        true
    }

    /// Puts every one of `fences` back into the unsignaled state. Every other fence and every
    /// semaphore keeps its state.
    pub fn reset_fences(&mut self, fences: &Vec<FenceHandle>)
        ensures
            final(self).fences() == lowered(old(self).fences(), fence_ids(fences@)),
            final(self).semaphores() == old(self).semaphores(),
    {
        let ids = ids_of_fences(fences);
        set_flags(&mut self.fences, &ids, false);
    }

    /// Signals `fence`, where it belongs to this pool.
    pub fn signal_fence(&mut self, fence: FenceHandle)
        ensures
            final(self).fences() == raised(old(self).fences(), seq![fence.id]),
            final(self).semaphores() == old(self).semaphores(),
    {
        let mut ids: Vec<usize> = Vec::new();
        ids.push(fence.id);
        assert(ids@ == seq![fence.id]);
        set_flags(&mut self.fences, &ids, true);
    }

    /// Signals every one of `semaphores` that belongs to this pool.
    pub fn signal_semaphores(&mut self, semaphores: &Vec<SemaphoreHandle>)
        ensures
            final(self).semaphores() == raised(old(self).semaphores(), semaphore_ids(semaphores@)),
            final(self).fences() == old(self).fences(),
    {
        let ids = ids_of_semaphores(semaphores);
        set_flags(&mut self.semaphores, &ids, true);
    }
}

/// The ids of `fences`, in order.
pub fn ids_of_fences(fences: &Vec<FenceHandle>) -> (ids: Vec<usize>)
    ensures
        ids@ == fence_ids(fences@),
{
    let mut ids: Vec<usize> = Vec::new();
    let mut i: usize = 0;
    while i < fences.len()
        invariant
            i <= fences.len(),
            ids@ == fence_ids(fences@).take(i as int),
        decreases fences.len() - i,
    {
        ids.push(fences[i].id);
        assert(ids@ =~= fence_ids(fences@).take(i + 1));
        i += 1;
    }
    assert(fence_ids(fences@).take(i as int) == fence_ids(fences@));
    ids
}

/// The ids of `semaphores`, in order.
pub fn ids_of_semaphores(semaphores: &Vec<SemaphoreHandle>) -> (ids: Vec<usize>)
    ensures
        ids@ == semaphore_ids(semaphores@),
{
    let mut ids: Vec<usize> = Vec::new();
    let mut i: usize = 0;
    while i < semaphores.len()
        invariant
            i <= semaphores.len(),
            ids@ == semaphore_ids(semaphores@).take(i as int),
        decreases semaphores.len() - i,
    {
        ids.push(semaphores[i].id);
        assert(ids@ =~= semaphore_ids(semaphores@).take(i + 1));
        i += 1;
    }
    assert(semaphore_ids(semaphores@).take(i as int) == semaphore_ids(semaphores@));
    ids
}

} // verus!
