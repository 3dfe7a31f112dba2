//! The entry point of the Vulkan backend.

use crate::rhi::rhi_enums::NativeStatus;
use crate::rhi::rhi_proofs::{lemma_filter_next, lemma_filter_none};
use crate::rhi::rhi_traits::{reports, GraphicsApi, PhysicalDevice};
use crate::rhi::vulkan::vulkan_native::{status_from_code, status_of};
use crate::rhi::vulkan::vulkan_physical_device::{
    get_needed_extensions, is_suitable, names_view, needed_extension_names, AdapterView,
    VulkanAdapterInfo, VulkanPhysicalDevice, WindowSystem,
};
use vstd::prelude::*;

verus! {

/// Why the native API could not be brought up.
#[derive(Debug)]
pub enum VulkanGraphicsApiCreationError {
    /// A native call failed with this result code
    VkFailedResult(i32),
    /// The native library or its entry points could not be loaded; each message says what
    LoadingError(Vec<String>),
}

/// What the native instance is created with.
#[derive(Debug)]
pub struct InstanceCreateInfo {
    pub application_name: String,
    pub application_version: u32,
    pub engine_name: String,
    pub engine_version: u32,
    pub api_version: u32,
    /// The names of the layers that are switched on
    pub layer_names: Vec<String>,
    /// The names of the instance extensions that are switched on
    pub extension_names: Vec<String>,
    /// Whether a callback for debug reports is installed
    pub debug_callback: bool,
}

/// How creating the native instance went.
#[derive(Debug)]
pub enum InstanceOutcome {
    Created,
    /// Entry points of the instance could not be loaded; each message says which
    LoadError(Vec<String>),
    /// The native call failed with this result code
    VkError(i32),
}

/// How bringing up the native API went, step by step.
#[derive(Debug)]
pub struct InstanceReport {
    /// Why the native library could not be loaded, if it could not
    pub loader_error: Option<String>,
    /// How creating the instance went
    pub instance: InstanceOutcome,
    /// The result code of installing the callback for debug reports
    pub debug_callback: i32,
    /// The adapters that the instance showed, or the result code that it failed with
    pub adapters: Result<Vec<VulkanAdapterInfo>, i32>,
}

/// A version number as the native API packs it: ten bits of major version, ten of minor
/// version and twelve of patch level.
pub open spec fn packed_version(major: u32, minor: u32, patch: u32) -> u32 {
    (major << 22) | (minor << 12) | patch
}

/// Packs a version number as the native API wants it.
pub fn make_version(major: u32, minor: u32, patch: u32) -> (version: u32)
    ensures
        version == packed_version(major, minor, patch),
{
    (major << 22) | (minor << 12) | patch
}

/// The names of the layers that are switched on.
pub open spec fn layer_names_for(validation: bool) -> Seq<Seq<char>> {
    if validation {
        seq!["VK_LAYER_LUNARG_standard_validation"@]
    } else {
        Seq::empty()
    }
}

/// The content of each of `adapters`, in order.
pub open spec fn adapter_views(adapters: Seq<VulkanAdapterInfo>) -> Seq<AdapterView> {
    Seq::new(adapters.len(), |i: int| adapters[i]@)
}

/// The native API, with the adapters that it showed.
pub struct VulkanGraphicsApi {
    validation: bool,
    window_system: WindowSystem,
    visible: Vec<VulkanAdapterInfo>,
}

impl VulkanGraphicsApi {
    /// Whether the validation layer is switched on.
    pub closed spec fn validation(&self) -> bool {
        self.validation
    }

    /// The window system that the renderer presents to.
    pub closed spec fn window_system(&self) -> WindowSystem {
        self.window_system
    }

    /// The names of the layers that are switched on: the validation layer, where
    /// validation is wanted.
    pub fn get_layer_names(validation: bool) -> (names: Vec<String>)
        ensures
            names_view(names@) == layer_names_for(validation),
    {
        let mut names: Vec<String> = Vec::new();
        if validation {
            names.push("VK_LAYER_LUNARG_standard_validation".to_owned());
        }
        assert(names_view(names@) =~= layer_names_for(validation));
        names
    }

    /// What the native instance is created with, for an application of the given name and
    /// version.
    pub fn instance_create_info(
        application_name: String,
        application_version: (u32, u32, u32),
        validation: bool,
        window_system: WindowSystem,
    ) -> (create_info: InstanceCreateInfo)
        ensures
            create_info.application_name == application_name,
            create_info.application_version == packed_version(
                application_version.0,
                application_version.1,
                application_version.2,
            ),
            create_info.engine_name@ == "Nova Renderer"@,
            create_info.engine_version == packed_version(0, 1, 0),
            create_info.api_version == packed_version(1, 1, 0),
            names_view(create_info.layer_names@) == layer_names_for(validation),
            names_view(create_info.extension_names@) == needed_extension_names(window_system),
            create_info.debug_callback == validation,
    {
        InstanceCreateInfo {
            application_name,
            application_version: make_version(
                application_version.0,
                application_version.1,
                application_version.2,
            ),
            engine_name: "Nova Renderer".to_owned(),
            engine_version: make_version(0, 1, 0),
            api_version: make_version(1, 1, 0),
            layer_names: Self::get_layer_names(validation),
            extension_names: get_needed_extensions(window_system),
            debug_callback: validation,
        }
    }

    /// The API, where it came up.
    ///
    /// It did not where the native library could not be loaded, where the instance could
    /// not be created and where, validation being wanted, the callback for debug reports
    /// could not be installed: in this order. Where it came up and the adapters could not
    /// be listed, it shows none.
    pub fn new(validation: bool, window_system: WindowSystem, report: InstanceReport) -> (api:
        Result<VulkanGraphicsApi, VulkanGraphicsApiCreationError>)
        ensures
            report.loader_error is Some ==> api is Err && api->Err_0 is LoadingError
                && api->Err_0->LoadingError_0@ == seq![report.loader_error->Some_0],
            report.loader_error is None && report.instance is LoadError ==> api is Err
                && api->Err_0 is LoadingError && api->Err_0->LoadingError_0
                == report.instance->LoadError_0,
            report.loader_error is None && report.instance is VkError ==> api is Err
                && api->Err_0 is VkFailedResult && api->Err_0->VkFailedResult_0
                == report.instance->VkError_0,
            report.loader_error is None && report.instance is Created && validation && status_of(
                report.debug_callback,
            ) != NativeStatus::Success ==> api is Err && api->Err_0 is VkFailedResult
                && api->Err_0->VkFailedResult_0 == report.debug_callback,
            report.loader_error is None && report.instance is Created && (!validation || status_of(
                report.debug_callback,
            ) == NativeStatus::Success) ==> {
                &&& api is Ok
                &&& api->Ok_0.validation() == validation
                &&& api->Ok_0.window_system() == window_system
                &&& report.adapters is Ok ==> api->Ok_0.visible() == adapter_views(
                    report.adapters->Ok_0@,
                )
                &&& report.adapters is Err ==> api->Ok_0.visible() == Seq::<AdapterView>::empty()
            },
    {
        if let Some(message) = report.loader_error {
            let mut messages: Vec<String> = Vec::new();
            messages.push(message);
            return Err(VulkanGraphicsApiCreationError::LoadingError(messages));
        }
        match report.instance {
            InstanceOutcome::LoadError(errors) => {
                return Err(VulkanGraphicsApiCreationError::LoadingError(errors));
            },
            InstanceOutcome::VkError(result) => {
                return Err(VulkanGraphicsApiCreationError::VkFailedResult(result));
            },
            InstanceOutcome::Created => {},
        }
        if validation && !status_from_code(report.debug_callback).is_success() {
            return Err(VulkanGraphicsApiCreationError::VkFailedResult(report.debug_callback));
        }
        let visible = match report.adapters {
            Ok(adapters) => adapters,
            Err(_) => Vec::new(),
        };
        Ok(VulkanGraphicsApi { validation, window_system, visible })
    }
}

impl GraphicsApi for VulkanGraphicsApi {
    type PhysicalDevice = VulkanPhysicalDevice;

    closed spec fn visible(&self) -> Seq<AdapterView> {
        adapter_views(self.visible@)
    }

    open spec fn accepts(&self, report: AdapterView) -> bool {
        is_suitable(report, self.window_system())
    }

    /// Each adapter knows the window system and whether validation is wanted.
    fn get_adapters(&self) -> (adapters: Vec<VulkanPhysicalDevice>)
        ensures
            forall|i: int|
                0 <= i < adapters@.len() ==> (#[trigger] adapters@[i]).window_system()
                    == self.window_system() && adapters@[i].validation() == self.validation(),
    {
        let ghost keep = |report: AdapterView| self.accepts(report);
        let ghost visible = adapter_views(self.visible@);
        let mut adapters: Vec<VulkanPhysicalDevice> = Vec::new();
        let mut i: usize = 0;
        proof {
            lemma_filter_none(visible, keep);
            assert(reports(adapters@) =~= visible.take(0).filter(keep));
        }
        while i < self.visible.len()
            invariant
                i <= self.visible.len(),
                visible == adapter_views(self.visible@),
                keep == (|report: AdapterView| self.accepts(report)),
                reports(adapters@) == visible.take(i as int).filter(keep),
                forall|j: int| 0 <= j < adapters@.len() ==> (#[trigger] adapters@[j]).is_usable(),
                forall|j: int|
                    0 <= j < adapters@.len() ==> (#[trigger] adapters@[j]).window_system()
                        == self.window_system && adapters@[j].validation() == self.validation,
            decreases self.visible.len() - i,
        {
            proof {
                lemma_filter_next(visible, keep, i as int);
            }
            let device = VulkanPhysicalDevice::new(
                self.visible[i].duplicate(),
                self.window_system,
                self.validation,
            );
            if device.can_be_used_by_nova() {
                adapters.push(device);
                assert(reports(adapters@) =~= visible.take(i as int).filter(keep).push(
                    visible[i as int],
                ));
            }
            i += 1;
        }
        assert(visible.take(i as int) == visible);
        adapters
    }
}

} // verus!
