//! The instance builder: application metadata, the validation request, and
//! what is handed to the driver to create the instance.

use vstd::prelude::*;
use vstd::string::*;
use crate::adapter::{check_device_extension_support, covers, names};
use crate::device::DeviceFeatures;

verus! {

/// What an application says of itself when it asks for a backend.
#[derive(Debug, Clone, Copy, PartialEq, Eq)]
pub struct AppInfo {
    pub app_name: &'static str,
    pub engine_name: &'static str,
    pub enable_validation: bool,
}

impl Default for AppInfo {
    fn default() -> (info: Self)
        ensures
            info.app_name@ == ""@,
            info.engine_name@ == ""@,
            !info.enable_validation,
    {
        AppInfo { app_name: "", engine_name: "", enable_validation: false }
    }
}

/// The configuration of the Vulkan backend, consumed once by initialization.
#[derive(Debug, Clone, Copy, PartialEq, Eq)]
pub struct VulkanRHIBuilder {
    pub rhi_name: &'static str,
    pub app_info: AppInfo,
    pub with_validation_layers: bool,
    /// The optional device features that the application demands.
    pub features: DeviceFeatures,
}

impl Default for VulkanRHIBuilder {
    fn default() -> (builder: Self)
        ensures
            builder.rhi_name@ == "Vulkan"@,
            builder.app_info.app_name@ == ""@,
            builder.app_info.engine_name@ == ""@,
            !builder.wants_validation(),
            builder.features == (DeviceFeatures { geometry_shader: false, sampler_anisotropy: false }),
    {
        VulkanRHIBuilder {
            rhi_name: "Vulkan",
            app_info: AppInfo { app_name: "", engine_name: "", enable_validation: false },
            with_validation_layers: false,
            features: DeviceFeatures { geometry_shader: false, sampler_anisotropy: false },
        }
    }
}

impl VulkanRHIBuilder {
    /// Validation is requested through the builder or through the
    /// application's metadata.
    pub open spec fn wants_validation(self) -> bool {
        self.with_validation_layers || self.app_info.enable_validation
    }

    /// A builder for an application without a name that requests neither
    /// validation nor any optional feature.
    pub fn new() -> (builder: Self)
        ensures
            builder.rhi_name@ == "Vulkan"@,
            builder.app_info.app_name@ == ""@,
            builder.app_info.engine_name@ == ""@,
            !builder.wants_validation(),
            builder.features == (DeviceFeatures { geometry_shader: false, sampler_anisotropy: false }),
    {
        VulkanRHIBuilder {
            rhi_name: "Vulkan",
            app_info: AppInfo { app_name: "", engine_name: "", enable_validation: false },
            with_validation_layers: false,
            features: DeviceFeatures { geometry_shader: false, sampler_anisotropy: false },
        }
    }

    /// Sets the application's metadata.
    pub fn app_info(self, app_info: AppInfo) -> (builder: Self)
        ensures
            builder == (VulkanRHIBuilder { app_info, ..self }),
    {
        VulkanRHIBuilder { app_info, ..self }
    }

    /// Requests validation.
    pub fn with_validation_layers(self) -> (builder: Self)
        ensures
            builder == (VulkanRHIBuilder { with_validation_layers: true, ..self }),
    {
        VulkanRHIBuilder { with_validation_layers: true, ..self }
    }

    /// Demands optional device features: the logical device enables these
    /// and no other.
    pub fn features(self, features: DeviceFeatures) -> (builder: Self)
        ensures
            builder == (VulkanRHIBuilder { features, ..self }),
    {
        VulkanRHIBuilder { features, ..self }
    }

    /// Whether validation is requested.
    pub fn validation_requested(&self) -> (requested: bool)
        ensures
            requested == self.wants_validation(),
    {
        self.with_validation_layers || self.app_info.enable_validation
    }
}

/// The names of the layers that validation needs.
pub open spec fn validation_layer_names() -> Seq<Seq<char>> {
    seq!["VK_LAYER_KHRONOS_validation"@]
}

/// Lists the layers that validation needs.
pub fn create_validation_layers() -> (layers: Vec<String>)
    ensures
        names(layers@) == validation_layer_names(),
{
    let mut layers: Vec<String> = Vec::new();
    layers.push(String::from_str("VK_LAYER_KHRONOS_validation"));
    assert(names(layers@) =~= validation_layer_names());
    layers
}

/// Whether every layer of `layers` is among the layers that the driver
/// offers.
pub fn vk_check_validation_layer_support(available: &Vec<String>, layers: &Vec<String>) -> (ok: bool)
    ensures
        ok == covers(names(available@), names(layers@)),
{
    check_device_extension_support(available, layers)
}

/// Validation is active where it was requested, the layer query succeeded,
/// and the driver offers every layer that validation needs.
pub open spec fn validation_active(requested: bool, available: Option<Vec<String>>) -> bool {
    requested && (available matches Some(a) && covers(names(a@), validation_layer_names()))
}

/// What became of a validation request.
#[derive(Debug, Clone, Copy, PartialEq, Eq, Structural)]
pub struct ValidationDecision {
    /// Validation is active.
    pub enabled: bool,
    /// Validation was requested and is not active: a warning is due.
    pub degraded: bool,
}

/// Decides whether validation is active. A request that the driver cannot
/// serve is no error: validation is left off and a warning is due.
/// `available` holds the layers that the driver offers, or nothing where the
/// query failed.
pub fn resolve_validation(requested: bool, available: &Option<Vec<String>>) -> (decision:
    ValidationDecision)
    ensures
        decision.enabled == validation_active(requested, *available),
        decision.degraded == (requested && !decision.enabled),
{
    if !requested {
        return ValidationDecision { enabled: false, degraded: false };
    }
    let supported = match available {
        Some(a) => {
            let layers = create_validation_layers();
            vk_check_validation_layer_support(a, &layers)
        },
        None => false,
    };
    ValidationDecision { enabled: supported, degraded: !supported }
}

/// The number that packs the four parts of a version, each shifted to its
/// place: the variant by 29 bits, the major part by 22, the minor part by 12.
pub open spec fn version_value(variant: u32, major: u32, minor: u32, patch: u32) -> u32 {
    (((variant << 29u32) | (major << 22u32)) | (minor << 12u32)) | patch
}

/// `ash::vk::make_api_version`: packs the four parts of a version into one
/// number by shifting each to its place and joining them bit by bit. Bits
/// shifted past the top are lost.
#[verifier::external_body]
fn make_api_version(variant: u32, major: u32, minor: u32, patch: u32) -> (version: u32)
    ensures
        version == version_value(variant, major, minor, patch),
{
    ash::vk::make_api_version(variant, major, minor, patch)
}

/// The name of the instance extension that a debug messenger needs.
pub open spec fn debug_extension_names() -> Seq<Seq<char>> {
    seq!["VK_EXT_debug_utils"@]
}

/// `ash::ext::debug_utils::NAME`: the name of the debug utilities instance
/// extension, which ash holds as the C string `VK_EXT_debug_utils`.
#[verifier::external_body]
fn debug_utils_extension_name() -> (name: String)
    ensures
        name@ == "VK_EXT_debug_utils"@,
{
    ash::ext::debug_utils::NAME.to_string_lossy().into_owned()
}

/// What is handed to the driver to create the instance.
#[derive(Debug, Clone, Copy, PartialEq, Eq)]
pub struct InstanceRequest {
    pub application_name: &'static str,
    pub application_version: u32,
    pub engine_name: &'static str,
    pub engine_version: u32,
    pub api_version: u32,
    /// Whether the validation layers and the debug extension are enabled.
    pub validation: bool,
}

impl InstanceRequest {
    /// The names of the layers that the instance enables.
    pub open spec fn layer_names(self) -> Seq<Seq<char>> {
        if self.validation {
            validation_layer_names()
        } else {
            Seq::<Seq<char>>::empty()
        }
    }

    /// The names of the extensions that the instance enables for
    /// diagnostics, beside those that the windowing layer asks for.
    pub open spec fn extension_names(self) -> Seq<Seq<char>> {
        if self.validation {
            debug_extension_names()
        } else {
            Seq::<Seq<char>>::empty()
        }
    }

    /// Lists the layers that the instance enables: those of validation where
    /// it is active, none otherwise.
    pub fn enabled_layer_names(&self) -> (layers: Vec<String>)
        ensures
            names(layers@) == self.layer_names(),
    {
        if self.validation {
            create_validation_layers()
        } else {
            let layers: Vec<String> = Vec::new();
            assert(names(layers@) =~= self.layer_names());
            layers
        }
    }

    /// Lists the extensions that the instance enables: those that the
    /// windowing layer asks for, in its order, then the debug utilities where
    /// validation is active.
    pub fn enabled_extension_names(&self, windowing: &Vec<String>) -> (extensions: Vec<String>)
        ensures
            names(extensions@) == names(windowing@) + self.extension_names(),
    {
        let mut extensions: Vec<String> = Vec::new();
        let mut i: usize = 0;
        while i < windowing.len()
            invariant
                i <= windowing.len(),
                names(extensions@) == names(windowing@).take(i as int),
            decreases windowing.len() - i,
        {
            let ghost before = names(extensions@);
            extensions.push(windowing[i].clone());
            assert(names(extensions@) =~= before.push(windowing@[i as int]@));
            assert(names(windowing@).take(i + 1) =~= names(windowing@).take(i as int).push(
                windowing@[i as int]@,
            ));
            i = i + 1;
        }
        assert(names(windowing@).take(i as int) =~= names(windowing@));
        let ghost listed = names(extensions@);
        if self.validation {
            extensions.push(debug_utils_extension_name());
            assert(names(extensions@) =~= listed + debug_extension_names());
        } else {
            assert(names(extensions@) =~= listed + Seq::<Seq<char>>::empty());
        }
        extensions
    }
}

/// The instance request for an application: its names, version 0.1.0 of the
/// application and of the engine, version 1.3.0 of the driver interface.
pub open spec fn instance_request_for(app_info: AppInfo, with_validation: bool) -> InstanceRequest {
    InstanceRequest {
        application_name: app_info.app_name,
        application_version: version_value(0, 0, 1, 0),
        engine_name: app_info.engine_name,
        engine_version: version_value(0, 0, 1, 0),
        api_version: version_value(0, 1, 3, 0),
        validation: with_validation,
    }
}

/// Describes the instance for an application, with or without validation.
pub fn vk_create_instance(app_info: &AppInfo, with_validation: bool) -> (request: InstanceRequest)
    ensures
        request == instance_request_for(*app_info, with_validation),
        request.application_version == 0x1000,
        request.engine_version == 0x1000,
        request.api_version == 0x40_3000,
{
    assert(version_value(0, 0, 1, 0) == 0x1000u32) by (bit_vector);
    assert(version_value(0, 1, 3, 0) == 0x40_3000u32) by (bit_vector);
    InstanceRequest {
        application_name: app_info.app_name,
        application_version: make_api_version(0, 0, 1, 0),
        engine_name: app_info.engine_name,
        engine_version: make_api_version(0, 0, 1, 0),
        api_version: make_api_version(0, 1, 3, 0),
        validation: with_validation,
    }
}

} // verus!
