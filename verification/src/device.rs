//! The logical device: which queues it is created with, and what it owns
//! once the driver has made it.

use vstd::prelude::*;
use crate::adapter::{
    find_queue_families, has_graphics, has_present, is_first_graphics, is_first_present, names,
    PhysicalDeviceCandidate,
};
use crate::error::{RHIError, RHIErrorEnum};

verus! {

/// The bits of the 32-bit floating point number 1.0, the priority of every
/// queue that is requested.
pub const QUEUE_PRIORITY_ONE_BITS: u32 = 0x3F80_0000;

/// The request for the queues of one family.
#[derive(Debug, Clone, Copy, PartialEq, Eq, Structural)]
pub struct QueueRequest {
    pub family_index: u32,
    pub queue_count: u32,
    /// The priority of the queue, as the bits of a 32-bit floating point number.
    pub priority_bits: u32,
}

/// The request for a single queue of the family, at priority 1.0.
pub open spec fn queue_request_for(family_index: u32) -> QueueRequest {
    QueueRequest { family_index, queue_count: 1, priority_bits: QUEUE_PRIORITY_ONE_BITS }
}

/// The optional features of a device that an application can demand.
#[derive(Debug, Clone, Copy, PartialEq, Eq, Structural)]
pub struct DeviceFeatures {
    pub geometry_shader: bool,
    pub sampler_anisotropy: bool,
}

impl DeviceFeatures {
    /// No optional feature.
    pub fn none() -> (features: Self)
        ensures
            features == (DeviceFeatures { geometry_shader: false, sampler_anisotropy: false }),
    {
        DeviceFeatures { geometry_shader: false, sampler_anisotropy: false }
    }
}

/// What is handed to the driver to create a logical device.
#[derive(Debug, Clone, Copy, PartialEq, Eq)]
pub struct DeviceRequest {
    pub physical_device: u64,
    pub graphics_family: u32,
    /// The family that presents; nothing where no surface was supplied.
    pub present_family: Option<u32>,
    /// The features that the device enables: those that the application
    /// demands, and no other.
    pub enabled_features: DeviceFeatures,
}

impl DeviceRequest {
    /// The present family is a family of its own, other than the graphics
    /// family.
    pub open spec fn separate_present(self) -> bool {
        self.present_family matches Some(p) && p != self.graphics_family
    }

    /// One queue request per distinct family: the graphics family, then the
    /// present family where it is another one.
    pub open spec fn queue_sequence(self) -> Seq<QueueRequest> {
        if self.separate_present() {
            seq![
                queue_request_for(self.graphics_family),
                queue_request_for(self.present_family->Some_0),
            ]
        } else {
            seq![queue_request_for(self.graphics_family)]
        }
    }

    /// Lists the queue requests of the device: one per distinct family.
    pub fn queue_create_infos(&self) -> (queues: Vec<QueueRequest>)
        ensures
            queues@ == self.queue_sequence(),
    {
        let mut queues: Vec<QueueRequest> = Vec::new();
        queues.push(
            QueueRequest {
                family_index: self.graphics_family,
                queue_count: 1,
                priority_bits: QUEUE_PRIORITY_ONE_BITS,
            },
        );
        match self.present_family {
            Some(p) => {
                if p != self.graphics_family {
                    queues.push(
                        QueueRequest {
                            family_index: p,
                            queue_count: 1,
                            priority_bits: QUEUE_PRIORITY_ONE_BITS,
                        },
                    );
                }
            },
            None => {},
        }
        assert(queues@ =~= self.queue_sequence());
        queues
    }

    /// Lists the extensions that the device enables: the required ones.
    pub fn enabled_extension_names(&self) -> (extensions: Vec<String>)
        ensures
            names(extensions@) == required_extension_names(),
    {
        get_required_extensions()
    }
}

/// The names of the device extensions that every device must offer.
pub open spec fn required_extension_names() -> Seq<Seq<char>> {
    seq!["VK_KHR_swapchain"@]
}

/// `ash::khr::swapchain::NAME`: the name of the swapchain device extension,
/// which ash holds as the C string `VK_KHR_swapchain`.
#[verifier::external_body]
fn swapchain_extension_name() -> (name: String)
    ensures
        name@ == "VK_KHR_swapchain"@,
{
    ash::khr::swapchain::NAME.to_string_lossy().into_owned()
}

/// Lists the device extensions that every device must offer: swapchain
/// support.
pub fn get_required_extensions() -> (required: Vec<String>)
    ensures
        names(required@) == required_extension_names(),
{
    let mut required: Vec<String> = Vec::new();
    required.push(swapchain_extension_name());
    assert(names(required@) =~= required_extension_names());
    required
}

/// The message with which a device request is refused for a queue family
/// table; nothing where the table has what is needed.
pub open spec fn request_failure(candidate: PhysicalDeviceCandidate, surface_supplied: bool) -> Option<
    Seq<char>,
> {
    if candidate.queue_families@.len() == 0 {
        Some("No queue families found."@)
    } else if !has_graphics(candidate.queue_families@) {
        Some("No queue family with graphics support found."@)
    } else if surface_supplied && !has_present(candidate.queue_families@) {
        Some("No queue family with present support found."@)
    } else {
        None
    }
}

/// The request names the candidate's handle, its first graphics-capable
/// family and, where a surface was supplied and only then, its first
/// present-capable family, and it enables the features demanded.
pub open spec fn request_describes(
    candidate: PhysicalDeviceCandidate,
    surface_supplied: bool,
    demanded: DeviceFeatures,
    request: DeviceRequest,
) -> bool {
    &&& request.physical_device == candidate.handle
    &&& request.enabled_features == demanded
    &&& is_first_graphics(candidate.queue_families@, request.graphics_family as int)
    &&& match request.present_family {
        Some(p) => surface_supplied && is_first_present(candidate.queue_families@, p as int),
        None => !surface_supplied,
    }
}

/// Describes the logical device for the selected candidate, with the
/// features that the application demands.
///
/// The queue families are resolved anew from the candidate's table: the first
/// graphics-capable family and, where a surface was supplied, the first
/// present-capable one. An empty table, and a table that lacks either, is an
/// initialization error.
pub fn vk_create_logical_device(
    rhi_name: &'static str,
    candidate: &PhysicalDeviceCandidate,
    surface_supplied: bool,
    demanded: DeviceFeatures,
) -> (planned: Result<DeviceRequest, RHIError>)
    requires
        candidate.wf(),
    ensures
        match request_failure(*candidate, surface_supplied) {
            Some(message) => planned is Err && planned->Err_0.says(
                RHIErrorEnum::InitializationError,
                message,
            ) && planned->Err_0.rhi == rhi_name,
            None => planned matches Ok(request) && request_describes(
                *candidate,
                surface_supplied,
                demanded,
                request,
            ),
        },
{
    if candidate.queue_families.len() == 0 {
        return Err(
            RHIError::new(rhi_name, RHIErrorEnum::InitializationError, "No queue families found."),
        );
    }
    let indices = find_queue_families(&candidate.queue_families);
    let graphics_family = match indices.graphics {
        Some(g) => g,
        None => {
            return Err(
                RHIError::new(
                    rhi_name,
                    RHIErrorEnum::InitializationError,
                    "No queue family with graphics support found.",
                ),
            );
        },
    };
    let present_family = if surface_supplied {
        match indices.present {
            Some(p) => Some(p),
            None => {
                return Err(
                    RHIError::new(
                        rhi_name,
                        RHIErrorEnum::InitializationError,
                        "No queue family with present support found.",
                    ),
                );
            },
        }
    } else {
        None
    };
    Ok(
        DeviceRequest {
            physical_device: candidate.handle,
            graphics_family,
            present_family,
            enabled_features: demanded,
        },
    )
}

/// What the driver answered to a device request: the device, the queue of
/// the graphics family and, where the request names a present family of its
/// own, the queue of that family.
#[derive(Debug, Clone, Copy, PartialEq, Eq)]
pub struct DeviceAnswer {
    pub device: u64,
    pub graphics_queue: u64,
    pub present_queue: Option<u64>,
}

/// A logical device with the queues resolved for it.
#[derive(Debug, Clone, Copy, PartialEq, Eq)]
pub struct LogicalDevice {
    pub handle: u64,
    pub physical_device: u64,
    pub graphics_family: u32,
    pub present_family: Option<u32>,
    pub graphics_queue: u64,
    pub present_queue: Option<u64>,
}

/// The answer holds what the request asked for.
pub open spec fn answer_complete(request: DeviceRequest, answer: Option<DeviceAnswer>) -> bool {
    answer matches Some(a) && (request.separate_present() ==> a.present_queue is Some)
}

/// The logical device that a complete answer to a request makes. A present
/// family that is the graphics family shares its queue.
pub open spec fn device_for(request: DeviceRequest, answer: DeviceAnswer) -> LogicalDevice {
    LogicalDevice {
        handle: answer.device,
        physical_device: request.physical_device,
        graphics_family: request.graphics_family,
        present_family: request.present_family,
        graphics_queue: answer.graphics_queue,
        present_queue: if request.present_family is None {
            None
        } else if request.separate_present() {
            answer.present_queue
        } else {
            Some(answer.graphics_queue)
        },
    }
}

/// Takes the driver's answer to a device request. A missing answer is a
/// logical device error; a complete one yields the device with its queues.
pub fn finish_logical_device(
    rhi_name: &'static str,
    request: DeviceRequest,
    answer: Option<DeviceAnswer>,
) -> (created: Result<LogicalDevice, RHIError>)
    ensures
        answer_complete(request, answer) ==> created == Ok::<LogicalDevice, RHIError>(
            device_for(request, answer->Some_0),
        ),
        !answer_complete(request, answer) ==> created is Err && created->Err_0.says(
            RHIErrorEnum::LogicalDeviceError,
            "Failed to create logical device."@,
        ) && created->Err_0.rhi == rhi_name,
{
    let failed = RHIError::new(
        rhi_name,
        RHIErrorEnum::LogicalDeviceError,
        "Failed to create logical device.",
    );
    let a = match answer {
        Some(a) => a,
        None => {
            return Err(failed);
        },
    };
    let present_queue = match request.present_family {
        None => None,
        Some(p) => {
            if p != request.graphics_family {
                match a.present_queue {
                    Some(q) => Some(q),
                    None => {
                        return Err(failed);
                    },
                }
            } else {
                Some(a.graphics_queue)
            }
        },
    };
    Ok(
        LogicalDevice {
            handle: a.device,
            physical_device: request.physical_device,
            graphics_family: request.graphics_family,
            present_family: request.present_family,
            graphics_queue: a.graphics_queue,
            present_queue,
        },
    )
}

/// A device request never asks for the same family twice.
pub proof fn lemma_queue_requests_distinct(request: DeviceRequest)
    ensures
        1 <= request.queue_sequence().len() <= 2,
        request.queue_sequence().len() == 2 ==> request.queue_sequence()[0].family_index
            != request.queue_sequence()[1].family_index,
        request.queue_sequence()[0].family_index == request.graphics_family,
{
}

} // verus!
