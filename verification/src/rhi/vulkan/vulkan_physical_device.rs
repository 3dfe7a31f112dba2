//! Vulkan adapters: what one reports about itself, and whether it can be used.

use crate::rhi::rhi_enums::{
    manufacturer_of, DeviceCreationError, NativeStatus, PhysicalDeviceManufacturer,
};
use crate::rhi::rhi_structs::{PhysicalDeviceProperties, PropertiesView};
use crate::rhi::rhi_traits::{Device, PhysicalDevice};
use crate::rhi::vulkan::vulkan_device::{VulkanDevice, VulkanHardware};
use crate::rhi::vulkan::vulkan_graphics_api::{layer_names_for, VulkanGraphicsApi};
use crate::rhi::vulkan::vulkan_native::{
    debug_report_extension_name, device_type_from_raw, device_type_of, heap_device_local,
    queue_compute, queue_graphics, queue_transfer, swapchain_extension_name,
    win32_surface_extension_name, xlib_surface_extension_name, HEAP_DEVICE_LOCAL, QUEUE_COMPUTE,
    QUEUE_GRAPHICS, QUEUE_TRANSFER,
};
use vstd::prelude::*;

verus! {

/// One memory type of an adapter: its property bits and the heap it allocates from.
#[derive(Clone, Copy, Debug, PartialEq, Eq, Structural)]
pub struct MemoryType {
    pub property_flags: u32,
    pub heap_index: u32,
}

/// One memory heap of an adapter: its size in bytes and its heap bits.
#[derive(Clone, Copy, Debug, PartialEq, Eq, Structural)]
pub struct MemoryHeap {
    pub size: u64,
    pub flags: u32,
}

/// The optional features that a renderer needs of an adapter.
#[derive(Clone, Copy, Debug, PartialEq, Eq, Structural)]
pub struct DeviceFeatures {
    pub geometry_shader: bool,
    pub tessellation_shader: bool,
    pub sampler_anisotropy: bool,
}

/// The window system whose surfaces the renderer presents to.
#[derive(Clone, Copy, Debug, PartialEq, Eq, Structural)]
pub enum WindowSystem {
    Xlib,
    Win32,
}

/// Everything that the native API reports about one adapter, read once at enumeration.
#[derive(Debug)]
pub struct VulkanAdapterInfo {
    /// The native handle of the adapter. Nothing here reads it; it is there for whoever
    /// makes the native calls.
    pub native_handle: u64,
    pub vendor_id: u32,
    pub device_id: u32,
    pub device_name: String,
    /// The raw native device type
    pub device_type: i32,
    pub max_color_attachments: u32,
    /// The queue bits of each queue family, by family index
    pub queue_families: Vec<u32>,
    /// The names of the device extensions that the adapter offers
    pub extensions: Vec<String>,
    pub features: DeviceFeatures,
    pub memory_types: Vec<MemoryType>,
    pub memory_heaps: Vec<MemoryHeap>,
}

/// The mathematical content of a [`VulkanAdapterInfo`].
pub struct AdapterView {
    pub native_handle: u64,
    pub vendor_id: u32,
    pub device_id: u32,
    pub device_name: Seq<char>,
    pub device_type: i32,
    pub max_color_attachments: u32,
    pub queue_families: Seq<u32>,
    pub extensions: Seq<Seq<char>>,
    pub features: DeviceFeatures,
    pub memory_types: Seq<MemoryType>,
    pub memory_heaps: Seq<MemoryHeap>,
}

/// The names in `names`, each as its characters.
pub open spec fn names_view(names: Seq<String>) -> Seq<Seq<char>> {
    Seq::new(names.len(), |i: int| names[i]@)
}

impl View for VulkanAdapterInfo {
    type V = AdapterView;

    open spec fn view(&self) -> AdapterView {
        AdapterView {
            native_handle: self.native_handle,
            vendor_id: self.vendor_id,
            device_id: self.device_id,
            device_name: self.device_name@,
            device_type: self.device_type,
            max_color_attachments: self.max_color_attachments,
            queue_families: self.queue_families@,
            extensions: names_view(self.extensions@),
            features: self.features,
            memory_types: self.memory_types@,
            memory_heaps: self.memory_heaps@,
        }
    }
}

/// A copy of `names`, name by name.
pub fn copy_names(names: &Vec<String>) -> (copy: Vec<String>)
    ensures
        names_view(copy@) == names_view(names@),
{
    let mut copy: Vec<String> = Vec::new();
    let mut i: usize = 0;
    while i < names.len()
        invariant
            i <= names.len(),
            copy.len() == i,
            forall|j: int| 0 <= j < i ==> copy[j]@ == names[j]@,
        decreases names.len() - i,
    {
        copy.push(names[i].clone());
        i += 1;
    }
    assert(names_view(copy@) =~= names_view(names@));
    copy
}

impl VulkanAdapterInfo {
    /// A copy of this report with the same content.
    pub fn duplicate(&self) -> (copy: VulkanAdapterInfo)
        ensures
            copy@ == self@,
    {
        let queue_families = self.queue_families.clone();
        let memory_types = self.memory_types.clone();
        let memory_heaps = self.memory_heaps.clone();
        assert(queue_families@ =~= self.queue_families@);
        assert(memory_types@ =~= self.memory_types@);
        assert(memory_heaps@ =~= self.memory_heaps@);
        VulkanAdapterInfo {
            native_handle: self.native_handle,
            vendor_id: self.vendor_id,
            device_id: self.device_id,
            device_name: self.device_name.clone(),
            device_type: self.device_type,
            max_color_attachments: self.max_color_attachments,
            queue_families,
            extensions: copy_names(&self.extensions),
            features: self.features,
            memory_types,
            memory_heaps,
        }
    }
}

/// The names of the extensions that the renderer needs on `window_system`.
pub open spec fn needed_extension_names(window_system: WindowSystem) -> Seq<Seq<char>> {
    match window_system {
        WindowSystem::Xlib => seq![
            "VK_KHR_swapchain"@,
            "VK_KHR_xlib_surface"@,
            "VK_EXT_debug_report"@,
        ],
        WindowSystem::Win32 => seq![
            "VK_KHR_swapchain"@,
            "VK_KHR_win32_surface"@,
            "VK_EXT_debug_report"@,
        ],
    }
}

/// The extensions that the renderer needs: the swapchain, the surface of
/// the window system, and debug reports.
pub fn get_needed_extensions(window_system: WindowSystem) -> (names: Vec<String>)
    ensures
        names_view(names@) == needed_extension_names(window_system),
{
    let mut names: Vec<String> = Vec::new();
    names.push(swapchain_extension_name());
    match window_system {
        WindowSystem::Xlib => names.push(xlib_surface_extension_name()),
        WindowSystem::Win32 => names.push(win32_surface_extension_name()),
    }
    names.push(debug_report_extension_name());
    assert(names_view(names@) =~= needed_extension_names(window_system));
    names
}

/// Whether `found` is the lowest index of a family in `families` that has one of `bits`, or
/// `None` where no family has one.
pub open spec fn is_first_family(families: Seq<u32>, bits: u32, found: Option<usize>) -> bool {
    match found {
        Some(i) => {
            &&& i < families.len()
            &&& families[i as int] & bits != 0
            &&& forall|j: int| 0 <= j < i ==> families[j] & bits == 0
        },
        None => forall|j: int| 0 <= j < families.len() ==> families[j] & bits == 0,
    }
}

/// Whether some family in `families` has one of `bits`.
pub open spec fn has_family(families: Seq<u32>, bits: u32) -> bool {
    exists|i: int| 0 <= i < families.len() && #[trigger] families[i] & bits != 0
}

/// Whether every name in `needed` occurs in `available`.
pub open spec fn has_all_names(available: Seq<Seq<char>>, needed: Seq<Seq<char>>) -> bool {
    forall|i: int| 0 <= i < needed.len() ==> available.contains(#[trigger] needed[i])
}

/// Whether a renderer can use the adapter: it offers the needed extensions, has a queue
/// family for graphics and one for transfers, and supports geometry shaders, tessellation
/// shaders and anisotropic sampling. A family for compute is welcome and not needed.
pub open spec fn is_suitable(adapter: AdapterView, window_system: WindowSystem) -> bool {
    &&& has_all_names(adapter.extensions, needed_extension_names(window_system))
    &&& has_family(adapter.queue_families, QUEUE_GRAPHICS)
    &&& has_family(adapter.queue_families, QUEUE_TRANSFER)
    &&& adapter.features.geometry_shader
    &&& adapter.features.tessellation_shader
    &&& adapter.features.sampler_anisotropy
}

/// The sizes of the device-local heaps in `heaps`, added up.
pub open spec fn device_local_bytes(heaps: Seq<MemoryHeap>) -> nat
    decreases heaps.len(),
{
    if heaps.len() == 0 {
        0
    } else {
        let last = heaps.last();
        device_local_bytes(heaps.drop_last()) + if last.flags & HEAP_DEVICE_LOCAL != 0 {
            last.size as nat
        } else {
            0
        }
    }
}

/// The lowest index of a queue family that has one of `bits`.
fn first_queue_family(families: &Vec<u32>, bits: u32) -> (found: Option<usize>)
    ensures
        is_first_family(families@, bits, found),
{
    let mut i: usize = 0;
    while i < families.len()
        invariant
            i <= families.len(),
            forall|j: int| 0 <= j < i ==> families[j] & bits == 0,
        decreases families.len() - i,
    {
        if families[i] & bits != 0 {
            return Some(i);
        }
        i += 1;
    }
    None
}

/// Whether `name` is one of `names`.
fn contains_name(names: &Vec<String>, name: &String) -> (found: bool)
    ensures
        found == names_view(names@).contains(name@),
{
    let mut i: usize = 0;
    while i < names.len()
        invariant
            i <= names.len(),
            forall|j: int| 0 <= j < i ==> names_view(names@)[j] != name@,
        decreases names.len() - i,
    {
        if names[i] == *name {
            assert(names_view(names@)[i as int] == name@);
            return true;
        }
        i += 1;
    }
    false
}

/// Where a family has one of `bits`, `is_first_family` finds one, and only then.
proof fn lemma_first_family_found(families: Seq<u32>, bits: u32, found: Option<usize>)
    requires
        is_first_family(families, bits, found),
    ensures
        found is Some <==> has_family(families, bits),
{
    if let Some(i) = found {
        assert(families[i as int] & bits != 0);
    }
}

/// What a native device is created with.
#[derive(Debug)]
pub struct DeviceCreateInfo {
    /// The queue families that the device takes one queue from each of, at the highest
    /// priority
    pub queue_families: Vec<usize>,
    /// The features that are switched on
    pub features: DeviceFeatures,
    /// The names of the device extensions that are switched on
    pub extension_names: Vec<String>,
    /// The names of the layers that are switched on
    pub layer_names: Vec<String>,
}

/// The queue families that a device takes its queues from: the one for graphics, the one
/// for transfers and the one for compute, as far as there are any.
pub open spec fn queue_families_of(
    graphics: Option<usize>,
    transfer: Option<usize>,
    compute: Option<usize>,
) -> Seq<usize> {
    let needed = match (graphics, transfer) {
        (Some(g), Some(t)) => seq![g, t],
        _ => Seq::empty(),
    };
    match compute {
        Some(c) => needed.push(c),
        None => needed,
    }
}

/// A Vulkan adapter, with the queue families that the renderer will use on it.
pub struct VulkanPhysicalDevice {
    info: VulkanAdapterInfo,
    window_system: WindowSystem,
    validation: bool,
    graphics_queue_family_index: Option<usize>,
    compute_queue_family_index: Option<usize>,
    transfer_queue_family_index: Option<usize>,
}

impl VulkanPhysicalDevice {
    #[verifier::type_invariant]
    spec fn queues_detected(self) -> bool {
        &&& is_first_family(self.info.queue_families@, QUEUE_GRAPHICS, self.graphics_queue_family_index)
        &&& is_first_family(self.info.queue_families@, QUEUE_COMPUTE, self.compute_queue_family_index)
        &&& is_first_family(self.info.queue_families@, QUEUE_TRANSFER, self.transfer_queue_family_index)
    }

    /// What the adapter reported about itself.
    pub closed spec fn info(&self) -> AdapterView {
        self.info@
    }

    /// The window system that the renderer presents to.
    pub closed spec fn window_system(&self) -> WindowSystem {
        self.window_system
    }

    /// Whether devices made from this adapter run the validation layer.
    pub closed spec fn validation(&self) -> bool {
        self.validation
    }

    /// The queue family that graphics work goes to.
    pub closed spec fn graphics_queue_family(&self) -> Option<usize> {
        self.graphics_queue_family_index
    }

    /// The queue family that compute work goes to.
    pub closed spec fn compute_queue_family(&self) -> Option<usize> {
        self.compute_queue_family_index
    }

    /// The queue family that transfers go to.
    pub closed spec fn transfer_queue_family(&self) -> Option<usize> {
        self.transfer_queue_family_index
    }

    /// The adapter that reported `info`. Its queue families are picked here, once: for each
    /// kind of work the first family, in index order, that supports it.
    pub fn new(info: VulkanAdapterInfo, window_system: WindowSystem, validation: bool) -> (device:
        VulkanPhysicalDevice)
        ensures
            device.info() == info@,
            device.window_system() == window_system,
            device.validation() == validation,
            is_first_family(info@.queue_families, QUEUE_GRAPHICS, device.graphics_queue_family()),
            is_first_family(info@.queue_families, QUEUE_COMPUTE, device.compute_queue_family()),
            is_first_family(info@.queue_families, QUEUE_TRANSFER, device.transfer_queue_family()),
    {
        let (graphics, compute, transfer) = Self::detect_queues(&info.queue_families);
        VulkanPhysicalDevice {
            info,
            window_system,
            validation,
            graphics_queue_family_index: graphics,
            compute_queue_family_index: compute,
            transfer_queue_family_index: transfer,
        }
    }

    /// The native handle of the adapter.
    pub fn native_handle(&self) -> (handle: u64)
        ensures
            handle == self.info().native_handle,
    {
        self.info.native_handle
    }

    /// Picks the queue families for graphics, compute and transfers, in this order: the first
    /// family that supports each wins.
    fn detect_queues(families: &Vec<u32>) -> (found: (Option<usize>, Option<usize>, Option<usize>))
        ensures
            is_first_family(families@, QUEUE_GRAPHICS, found.0),
            is_first_family(families@, QUEUE_COMPUTE, found.1),
            is_first_family(families@, QUEUE_TRANSFER, found.2),
    {
        let graphics = first_queue_family(families, queue_graphics());
        let compute = first_queue_family(families, queue_compute());
        let transfer = first_queue_family(families, queue_transfer());
        (graphics, compute, transfer)
    }

    /// Whether the adapter offers every extension that the renderer needs.
    pub fn supports_needed_extensions(&self) -> (supported: bool)
        ensures
            supported == has_all_names(
                self.info().extensions,
                needed_extension_names(self.window_system()),
            ),
    {
        let needed = get_needed_extensions(self.window_system);
        let ghost wanted = needed_extension_names(self.window_system);
        let mut i: usize = 0;
        while i < needed.len()
            invariant
                i <= needed.len(),
                names_view(needed@) == wanted,
                wanted == needed_extension_names(self.window_system),
                forall|j: int| 0 <= j < i ==> self.info@.extensions.contains(#[trigger] wanted[j]),
            decreases needed.len() - i,
        {
            assert(wanted[i as int] == needed[i as int]@);
            if !contains_name(&self.info.extensions, &needed[i]) {
                assert(!self.info@.extensions.contains(wanted[i as int]));
                return false;
            }
            i += 1;
        }
        true
    }

    /// The manufacturer behind a PCI vendor id.
    pub fn get_manufacturer(vendor_id: u32) -> (manufacturer: PhysicalDeviceManufacturer)
        ensures
            manufacturer == manufacturer_of(vendor_id),
    {
        PhysicalDeviceManufacturer::from_vendor_id(vendor_id)
    }

    /// What a native device on this adapter is created with, where one can be created: a
    /// queue from the family for graphics, one from the family for transfers and, where the
    /// adapter has a family for compute, one from that; the features that the renderer needs;
    /// the swapchain extension; and the layers for validation where that is wanted.
    pub fn device_create_info(&self) -> (create_info: Option<DeviceCreateInfo>)
        ensures
            create_info is Some <==> self.can_make_device(),
            create_info is Some ==> {
                let info = create_info->Some_0;
                &&& info.queue_families@ == queue_families_of(
                    self.graphics_queue_family(),
                    self.transfer_queue_family(),
                    self.compute_queue_family(),
                )
                &&& info.features == DeviceFeatures {
                    geometry_shader: true,
                    tessellation_shader: true,
                    sampler_anisotropy: true,
                }
                &&& names_view(info.extension_names@) == seq!["VK_KHR_swapchain"@]
                &&& names_view(info.layer_names@) == layer_names_for(self.validation())
            },
    {
        proof {
            use_type_invariant(self);
            lemma_first_family_found(
                self.info@.queue_families,
                QUEUE_GRAPHICS,
                self.graphics_queue_family_index,
            );
            lemma_first_family_found(
                self.info@.queue_families,
                QUEUE_TRANSFER,
                self.transfer_queue_family_index,
            );
        }
        let graphics = match self.graphics_queue_family_index {
            Some(index) => index,
            None => {
                return None;
            },
        };
        let transfer = match self.transfer_queue_family_index {
            Some(index) => index,
            None => {
                return None;
            },
        };
        let mut queue_families: Vec<usize> = Vec::new();
        queue_families.push(graphics);
        queue_families.push(transfer);
        if let Some(compute) = self.compute_queue_family_index {
            queue_families.push(compute);
        }
        let mut extension_names: Vec<String> = Vec::new();
        extension_names.push(swapchain_extension_name());
        assert(names_view(extension_names@) =~= seq!["VK_KHR_swapchain"@]);
        assert(queue_families@ =~= queue_families_of(
            self.graphics_queue_family_index,
            self.transfer_queue_family_index,
            self.compute_queue_family_index,
        ));
        Some(
            DeviceCreateInfo {
                queue_families,
                features: DeviceFeatures {
                    geometry_shader: true,
                    tessellation_shader: true,
                    sampler_anisotropy: true,
                },
                extension_names,
                layer_names: VulkanGraphicsApi::get_layer_names(self.validation),
            },
        )
    }

    /// The bytes of device-local memory on the adapter, where they can be counted: where
    /// there are no more than the largest number.
    pub fn try_get_free_memory(&self) -> (bytes: Option<u64>)
        ensures
            device_local_bytes(self.info().memory_heaps) <= u64::MAX ==> bytes == Some(
                device_local_bytes(self.info().memory_heaps) as u64,
            ),
            device_local_bytes(self.info().memory_heaps) > u64::MAX ==> bytes is None,
    {
        let device_local = heap_device_local();
        let ghost heaps = self.info@.memory_heaps;
        let mut bytes: u64 = 0;
        let mut i: usize = 0;
        while i < self.info.memory_heaps.len()
            invariant
                i <= self.info.memory_heaps.len(),
                heaps == self.info.memory_heaps@,
                device_local == HEAP_DEVICE_LOCAL,
                bytes == device_local_bytes(heaps.take(i as int)),
            decreases self.info.memory_heaps.len() - i,
        {
            proof {
                assert(heaps.take(i + 1).drop_last() == heaps.take(i as int));
                lemma_device_local_bytes_grow(heaps, i + 1);
            }
            if self.info.memory_heaps[i].flags & device_local != 0 {
                match bytes.checked_add(self.info.memory_heaps[i].size) {
                    Some(sum) => {
                        bytes = sum;
                    },
                    None => {
                        return None;
                    },
                }
            }
            i += 1;
        }
        assert(heaps.take(i as int) == heaps);
        Some(bytes)
    }

    /// The bytes of device-local memory on the adapter. The native API tells how large the
    /// heaps are, not how much of them is free, so this is the whole of them.
    pub fn get_free_memory(&self) -> (bytes: u64)
        requires
            device_local_bytes(self.info().memory_heaps) <= u64::MAX,
        ensures
            bytes == device_local_bytes(self.info().memory_heaps),
    {
        let device_local = heap_device_local();
        let ghost heaps = self.info@.memory_heaps;
        let mut bytes: u64 = 0;
        let mut i: usize = 0;
        while i < self.info.memory_heaps.len()
            invariant
                i <= self.info.memory_heaps.len(),
                heaps == self.info.memory_heaps@,
                device_local == HEAP_DEVICE_LOCAL,
                bytes == device_local_bytes(heaps.take(i as int)),
                device_local_bytes(heaps) <= u64::MAX,
            decreases self.info.memory_heaps.len() - i,
        {
            proof {
                assert(heaps.take(i + 1).drop_last() == heaps.take(i as int));
                lemma_device_local_bytes_grow(heaps, i + 1);
            }
            if self.info.memory_heaps[i].flags & device_local != 0 {
                bytes = bytes + self.info.memory_heaps[i].size;
            }
            i += 1;
        }
        assert(heaps.take(i as int) == heaps);
        bytes
    }
}

impl PhysicalDevice for VulkanPhysicalDevice {
    type Device = VulkanDevice;

    type Report = AdapterView;

    open spec fn report(&self) -> AdapterView {
        self.info()
    }

    open spec fn is_usable(&self) -> bool {
        is_suitable(self.info(), self.window_system())
    }

    /// A device needs a queue family for graphics and one for transfers.
    open spec fn can_make_device(&self) -> bool {
        &&& has_family(self.info().queue_families, QUEUE_GRAPHICS)
        &&& has_family(self.info().queue_families, QUEUE_TRANSFER)
    }

    open spec fn properties(&self) -> PropertiesView {
        PropertiesView {
            manufacturer: manufacturer_of(self.info().vendor_id),
            device_id: self.info().device_id,
            device_name: self.info().device_name,
            device_type: device_type_of(self.info().device_type),
            max_color_attachments: self.info().max_color_attachments,
        }
    }

    fn get_properties(&self) -> (properties: PhysicalDeviceProperties) {
        PhysicalDeviceProperties {
            manufacturer: Self::get_manufacturer(self.info.vendor_id),
            device_id: self.info.device_id,
            device_name: self.info.device_name.clone(),
            device_type: device_type_from_raw(self.info.device_type),
            max_color_attachments: self.info.max_color_attachments,
        }
    }

    fn can_be_used_by_nova(&self) -> (usable: bool) {
        proof {
            use_type_invariant(self);
            lemma_first_family_found(
                self.info@.queue_families,
                QUEUE_GRAPHICS,
                self.graphics_queue_family_index,
            );
            lemma_first_family_found(
                self.info@.queue_families,
                QUEUE_TRANSFER,
                self.transfer_queue_family_index,
            );
        }
        if !self.supports_needed_extensions() {
            return false;
        }
        self.graphics_queue_family_index.is_some() && self.transfer_queue_family_index.is_some()
            && self.info.features.geometry_shader && self.info.features.tessellation_shader
            && self.info.features.sampler_anisotropy
    }

    /// The device gets the queue families that were picked when the adapter was found, and
    /// the adapter's memory types.
    fn create_logical_device(&self, status: NativeStatus) -> (device: Result<
        VulkanDevice,
        DeviceCreationError,
    >)
        ensures
            device is Ok ==> self.graphics_queue_family() is Some && self.transfer_queue_family()
                is Some && device->Ok_0.hardware() == (VulkanHardware {
                graphics_queue_family_index: self.graphics_queue_family()->Some_0,
                transfer_queue_family_index: self.transfer_queue_family()->Some_0,
                compute_queue_family_index: self.compute_queue_family(),
                memory_types: self.info().memory_types,
            }),
    {
        proof {
            use_type_invariant(self);
            lemma_first_family_found(
                self.info@.queue_families,
                QUEUE_GRAPHICS,
                self.graphics_queue_family_index,
            );
            lemma_first_family_found(
                self.info@.queue_families,
                QUEUE_TRANSFER,
                self.transfer_queue_family_index,
            );
        }
        if !status.is_success() {
            return Err(DeviceCreationError::Failed);
        }
        match (self.graphics_queue_family_index, self.transfer_queue_family_index) {
            (Some(graphics), Some(transfer)) => {
                let memory_types = self.info.memory_types.clone();
                assert(memory_types@ =~= self.info.memory_types@);
                Ok(
                    VulkanDevice::new(
                        graphics,
                        transfer,
                        self.compute_queue_family_index,
                        memory_types,
                    ),
                )
            },
            _ => Err(DeviceCreationError::Failed),
        }
    }
}

/// The device-local bytes of a prefix are no more than those of the whole.
proof fn lemma_device_local_bytes_grow(heaps: Seq<MemoryHeap>, n: int)
    requires
        0 <= n <= heaps.len(),
    ensures
        device_local_bytes(heaps.take(n)) <= device_local_bytes(heaps),
    decreases heaps.len() - n,
{
    if n < heaps.len() {
        assert(heaps.take(n + 1).drop_last() == heaps.take(n));
        lemma_device_local_bytes_grow(heaps, n + 1);
    } else {
        assert(heaps.take(n) == heaps);
    }
}

} // verus!
