//! The entry point of the Direct3D 12 backend.

use crate::rhi::dx12::dx12_device::is_success_code;
use crate::rhi::dx12::dx12_physical_device::{Dx12AdapterInfo, Dx12AdapterView, Dx12PhysicalDevice};
use crate::rhi::rhi_proofs::{lemma_filter_next, lemma_filter_none};
use crate::rhi::rhi_traits::{reports, GraphicsApi, PhysicalDevice};
use vstd::prelude::*;

verus! {

/// The content of each of `adapters`, in order.
pub open spec fn adapter_views(adapters: Seq<Dx12AdapterInfo>) -> Seq<Dx12AdapterView> {
    Seq::new(adapters.len(), |i: int| adapters[i]@)
}

/// Whether the renderer can use the adapter: it offers the adapter interface that the
/// renderer needs, a native device could be made on it, and that device gives a queue for
/// graphics and one for copies.
pub open spec fn is_suitable(adapter: Dx12AdapterView) -> bool {
    &&& adapter.has_adapter2
    &&& is_success_code(adapter.device_creation)
    &&& adapter.has_needed_queues()
}

/// The result code with which the native API says that there is no adapter at an index.
pub const DXGI_ERROR_NOT_FOUND: i32 = -2005270526;

/// Going through the adapters of the native API, one index after the other.
///
/// The native API is asked for the adapter at index 0, then at index 1 and so on, each
/// index once, until it answers that there is none. What each adapter reports is kept in
/// the order of the indices.
pub struct AdapterEnumeration {
    found: Vec<Dx12AdapterInfo>,
    ended: bool,
}

impl AdapterEnumeration {
    /// What the adapters that were found reported, in the order of their indices.
    pub closed spec fn reports(&self) -> Seq<Dx12AdapterView> {
        adapter_views(self.found@)
    }

    /// Whether the native API has answered that there is no adapter left.
    pub closed spec fn ended(&self) -> bool {
        self.ended
    }

    /// The index to ask the native API for next: the number of adapters found so far, as
    /// long as the native API has not said that there are no more and the number is an
    /// index.
    pub open spec fn next(&self) -> Option<u32> {
        if !self.ended() && self.reports().len() <= u32::MAX {
            Some(self.reports().len() as u32)
        } else {
            None
        }
    }

    /// An enumeration that has asked for nothing yet.
    pub fn new() -> (enumeration: AdapterEnumeration)
        ensures
            enumeration.reports() == Seq::<Dx12AdapterView>::empty(),
            !enumeration.ended(),
    {
        let enumeration = AdapterEnumeration { found: Vec::new(), ended: false };
        assert(enumeration.reports() =~= Seq::<Dx12AdapterView>::empty());
        enumeration
    }

    /// The index to ask the native API for next, if there is one.
    pub fn next_index(&self) -> (index: Option<u32>)
        ensures
            index == self.next(),
    {
        if !self.ended && self.found.len() <= 0xffff_ffff {
            Some(self.found.len() as u32)
        } else {
            None
        }
    }

    /// Whether the result code `hr` says that there is no adapter at the index asked for.
    pub fn is_end(hr: i32) -> (end: bool)
        ensures
            end == (hr == DXGI_ERROR_NOT_FOUND),
    {
        hr == DXGI_ERROR_NOT_FOUND
    }

    /// Takes what the adapter at the index asked for reported. Where the enumeration has
    /// ended, nothing is taken.
    pub fn found(&mut self, info: Dx12AdapterInfo)
        ensures
            final(self).ended() == old(self).ended(),
            !old(self).ended() ==> final(self).reports() == old(self).reports().push(info@),
            old(self).ended() ==> final(self).reports() == old(self).reports(),
    {
        if !self.ended {
            self.found.push(info);
            assert(adapter_views(self.found@) =~= adapter_views(old(self).found@).push(info@));
        }
    }

    /// Takes the answer that there is no adapter at the index asked for: the enumeration
    /// has ended.
    pub fn not_found(&mut self)
        ensures
            final(self).ended(),
            final(self).reports() == old(self).reports(),
    {
        self.ended = true;
    }

    /// The native API with the adapters that were found.
    pub fn finish(self) -> (api: Dx12GraphicsApi)
        ensures
            api.visible() == self.reports(),
    {
        Dx12GraphicsApi::new(self.found)
    }
}

/// The native API, with the adapters that it showed.
pub struct Dx12GraphicsApi {
    visible: Vec<Dx12AdapterInfo>,
}

impl Dx12GraphicsApi {
    /// The API with the adapters `visible`.
    pub fn new(visible: Vec<Dx12AdapterInfo>) -> (api: Dx12GraphicsApi)
        ensures
            api.visible() == adapter_views(visible@),
    {
        Dx12GraphicsApi { visible }
    }
}

impl GraphicsApi for Dx12GraphicsApi {
    type PhysicalDevice = Dx12PhysicalDevice;

    closed spec fn visible(&self) -> Seq<Dx12AdapterView> {
        adapter_views(self.visible@)
    }

    open spec fn accepts(&self, report: Dx12AdapterView) -> bool {
        is_suitable(report)
    }

    fn get_adapters(&self) -> (adapters: Vec<Dx12PhysicalDevice>) {
        let ghost keep = |report: Dx12AdapterView| self.accepts(report);
        let ghost visible = adapter_views(self.visible@);
        let mut adapters: Vec<Dx12PhysicalDevice> = Vec::new();
        let mut i: usize = 0;
        proof {
            lemma_filter_none(visible, keep);
            assert(reports(adapters@) =~= visible.take(0).filter(keep));
        }
        while i < self.visible.len()
            invariant
                i <= self.visible.len(),
                visible == adapter_views(self.visible@),
                keep == (|report: Dx12AdapterView| self.accepts(report)),
                reports(adapters@) == visible.take(i as int).filter(keep),
                forall|j: int| 0 <= j < adapters@.len() ==> (#[trigger] adapters@[j]).is_usable(),
            decreases self.visible.len() - i,
        {
            proof {
                lemma_filter_next(visible, keep, i as int);
            }
            let info = &self.visible[i];
            if info.has_adapter2 {
                let device = Dx12PhysicalDevice::new(info.duplicate());
                if device.can_be_used_by_nova() {
                    adapters.push(device);
                    assert(reports(adapters@) =~= visible.take(i as int).filter(keep).push(
                        visible[i as int],
                    ));
                }
            }
            i += 1;
        }
        assert(visible.take(i as int) == visible);
        adapters
    }
}

} // verus!
