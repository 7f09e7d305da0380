//! Bringing the Vulkan backend up, one driver call at a time.
//!
//! The session decides; the caller acts. Each call of [`InitSession::step`]
//! takes the driver's answer to the action before and returns the next
//! action, until the backend stands or the chain is given up. A failure names
//! what was acquired so far, so that the caller gives it back.

use vstd::prelude::*;
use crate::adapter::{
    all_wf, any_suitable, is_selected, pick_physical_device, PhysicalDeviceCandidate,
};
use crate::backend::VulkanRHI;
use crate::debug::{create_debug_info, MessengerRequest};
use crate::device::{
    answer_complete, device_for, finish_logical_device, get_required_extensions,
    request_describes, required_extension_names, vk_create_logical_device, DeviceAnswer,
    DeviceRequest,
};
use crate::error::{RHIError, RHIErrorEnum};
use crate::instance::{
    instance_request_for, resolve_validation, validation_active, vk_create_instance,
    InstanceRequest, VulkanRHIBuilder,
};
use crate::resource::Resource;

verus! {

/// How far initialization has come: which answer the session waits for.
#[derive(Debug, Clone, Copy, PartialEq, Eq, Structural)]
pub enum InitStage {
    Start,
    AwaitLayers,
    AwaitInstance,
    AwaitMessenger,
    AwaitDevices,
    AwaitDevice,
    Done,
    Failed,
}

/// The driver's answer to the action before. An answer holds nothing where
/// the driver call failed.
#[derive(Debug, Clone, PartialEq, Eq)]
pub enum InitEvent {
    /// The caller asks for initialization.
    Begin,
    /// The layers that the driver offers.
    Layers(Option<Vec<String>>),
    Instance(Option<u64>),
    Messenger(Option<u64>),
    /// The physical devices, in enumeration order.
    Devices(Option<Vec<PhysicalDeviceCandidate>>),
    Device(Option<DeviceAnswer>),
}

/// What was acquired before a failure and has to be given back.
#[derive(Debug, Clone, Copy, PartialEq, Eq)]
pub struct Teardown {
    pub debug_messenger: Option<u64>,
    pub instance: Option<u64>,
}

impl Teardown {
    /// The handles in the order in which they are released: the debug
    /// messenger before the instance that it belongs to.
    pub open spec fn release_sequence(self) -> Seq<Resource> {
        (match self.debug_messenger {
            Some(m) => seq![Resource::DebugMessenger(m)],
            None => Seq::<Resource>::empty(),
        }) + (match self.instance {
            Some(i) => seq![Resource::Instance(i)],
            None => Seq::<Resource>::empty(),
        })
    }

    /// Lists what the caller releases, in order.
    pub fn release_order(&self) -> (order: Vec<Resource>)
        ensures
            order@ == self.release_sequence(),
    {
        let mut order: Vec<Resource> = Vec::new();
        match self.debug_messenger {
            Some(m) => {
                order.push(Resource::DebugMessenger(m));
            },
            None => {},
        }
        match self.instance {
            Some(i) => {
                order.push(Resource::Instance(i));
            },
            None => {},
        }
        assert(order@ =~= self.release_sequence());
        order
    }
}

/// What the caller does next.
#[derive(Debug, Clone, Copy, PartialEq, Eq)]
pub enum InitAction {
    QueryLayers,
    /// Create the instance. `warn` says that validation was requested and is
    /// left off: a warning is due.
    CreateInstance { request: InstanceRequest, warn: bool },
    CreateMessenger(MessengerRequest),
    EnumerateDevices,
    CreateDevice(DeviceRequest),
    /// The backend stands.
    Ready(VulkanRHI),
    /// Initialization is given up: release what `release` names, then report
    /// the error.
    Fail { error: RHIError, release: Teardown },
}

/// An initialization in progress.
#[derive(Debug, Clone, Copy, PartialEq, Eq)]
pub struct InitSession {
    pub builder: VulkanRHIBuilder,
    /// Whether the backend is to present to a surface.
    pub surface_supplied: bool,
    pub stage: InitStage,
    /// Whether validation is active.
    pub validation: bool,
    pub instance: Option<u64>,
    pub debug_messenger: Option<u64>,
    /// The device request that is out, while the session waits for the device.
    pub request: Option<DeviceRequest>,
}

impl InitSession {
    /// The session once it has come to an end: it holds no handle any more.
    pub open spec fn halted(self, stage: InitStage) -> InitSession {
        InitSession { stage, instance: None, debug_messenger: None, request: None, ..self }
    }

    /// The session gives up with an error of the given kind and message, and
    /// hands back what it had acquired.
    pub open spec fn fails(
        self,
        after: InitSession,
        action: InitAction,
        kind: RHIErrorEnum,
        message: Seq<char>,
    ) -> bool {
        &&& after == self.halted(InitStage::Failed)
        &&& action matches InitAction::Fail { error, release }
        &&& error.says(kind, message)
        &&& error.rhi == self.builder.rhi_name
        &&& release == (Teardown {
            debug_messenger: self.debug_messenger,
            instance: self.instance,
        })
    }

    /// An event that the stage does not wait for ends the session.
    pub open spec fn refuses(self, after: InitSession, action: InitAction) -> bool {
        self.fails(
            after,
            action,
            RHIErrorEnum::InitializationError,
            "Unexpected event for this stage of initialization."@,
        )
    }

    /// The step from `Start`: validation, where requested, begins with the
    /// layer query; otherwise the instance is created at once.
    pub open spec fn begins(self, after: InitSession, action: InitAction) -> bool {
        if self.builder.wants_validation() {
            &&& after == (InitSession { stage: InitStage::AwaitLayers, ..self })
            &&& action == InitAction::QueryLayers
        } else {
            &&& after == (InitSession { stage: InitStage::AwaitInstance, validation: false, ..self })
            &&& action == (InitAction::CreateInstance {
                request: instance_request_for(self.builder.app_info, false),
                warn: false,
            })
        }
    }

    /// The step on the layer query's answer: the instance is created, with
    /// validation where the driver can serve it, without and with a warning
    /// where it cannot.
    pub open spec fn takes_layers(
        self,
        available: Option<Vec<String>>,
        after: InitSession,
        action: InitAction,
    ) -> bool {
        let active = validation_active(true, available);
        &&& after == (InitSession { stage: InitStage::AwaitInstance, validation: active, ..self })
        &&& action == (InitAction::CreateInstance {
            request: instance_request_for(self.builder.app_info, active),
            warn: !active,
        })
    }

    /// The step on the instance: the debug messenger comes next where
    /// validation is active, the enumeration of devices otherwise.
    pub open spec fn takes_instance(
        self,
        created: Option<u64>,
        after: InitSession,
        action: InitAction,
    ) -> bool {
        match created {
            Some(handle) => if self.validation {
                &&& after == (InitSession {
                    stage: InitStage::AwaitMessenger,
                    instance: Some(handle),
                    ..self
                })
                &&& action == InitAction::CreateMessenger(
                    MessengerRequest { message_severity: 0x1111, message_type: 0x7 },
                )
            } else {
                &&& after == (InitSession {
                    stage: InitStage::AwaitDevices,
                    instance: Some(handle),
                    ..self
                })
                &&& action == InitAction::EnumerateDevices
            },
            None => self.fails(
                after,
                action,
                RHIErrorEnum::InitializationError,
                "Failed to create Vulkan Instance."@,
            ),
        }
    }

    /// The step on the debug messenger.
    pub open spec fn takes_messenger(
        self,
        created: Option<u64>,
        after: InitSession,
        action: InitAction,
    ) -> bool {
        match created {
            Some(handle) => {
                &&& after == (InitSession {
                    stage: InitStage::AwaitDevices,
                    debug_messenger: Some(handle),
                    ..self
                })
                &&& action == InitAction::EnumerateDevices
            },
            None => self.fails(
                after,
                action,
                RHIErrorEnum::InitializationError,
                "Failed to create debug messenger."@,
            ),
        }
    }

    /// The step on the enumeration: the device selected among the candidates
    /// is the one that the device request names.
    pub open spec fn takes_devices(
        self,
        enumerated: Option<Vec<PhysicalDeviceCandidate>>,
        after: InitSession,
        action: InitAction,
    ) -> bool {
        match enumerated {
            None => self.fails(
                after,
                action,
                RHIErrorEnum::InitializationError,
                "Failed to enumerate physical devices."@,
            ),
            Some(candidates) => if candidates@.len() == 0 {
                self.fails(
                    after,
                    action,
                    RHIErrorEnum::InitializationError,
                    "no physical devices"@,
                )
            } else if !any_suitable(
                candidates@,
                self.surface_supplied,
                required_extension_names(),
            ) {
                self.fails(
                    after,
                    action,
                    RHIErrorEnum::InitializationError,
                    "no suitable physical devices"@,
                )
            } else {
                &&& action matches InitAction::CreateDevice(request)
                &&& exists|i: int|
                    is_selected(
                        candidates@,
                        self.surface_supplied,
                        required_extension_names(),
                        i,
                    ) && request_describes(
                        #[trigger] candidates@[i],
                        self.surface_supplied,
                        self.builder.features,
                        request,
                    )
                &&& after == (InitSession {
                    stage: InitStage::AwaitDevice,
                    request: Some(request),
                    ..self
                })
            },
        }
    }

    /// The step on the device: the backend stands, with everything that the
    /// session acquired.
    pub open spec fn takes_device(
        self,
        answer: Option<DeviceAnswer>,
        after: InitSession,
        action: InitAction,
    ) -> bool {
        match (self.request, self.instance) {
            (Some(request), Some(instance)) => if answer_complete(request, answer) {
                &&& after == self.halted(InitStage::Done)
                &&& action == InitAction::Ready(
                    VulkanRHI {
                        rhi_name: self.builder.rhi_name,
                        instance,
                        debug_messenger: self.debug_messenger,
                        device: device_for(request, answer->Some_0),
                        post_initialized: false,
                        released: false,
                    },
                )
            } else {
                self.fails(
                    after,
                    action,
                    RHIErrorEnum::LogicalDeviceError,
                    "Failed to create logical device."@,
                )
            },
            _ => self.refuses(after, action),
        }
    }

    /// The one step that the session takes on an event.
    pub open spec fn steps_to(self, event: InitEvent, after: InitSession, action: InitAction) -> bool {
        match (self.stage, event) {
            (InitStage::Start, InitEvent::Begin) => self.begins(after, action),
            (InitStage::AwaitLayers, InitEvent::Layers(available)) => self.takes_layers(
                available,
                after,
                action,
            ),
            (InitStage::AwaitInstance, InitEvent::Instance(created)) => self.takes_instance(
                created,
                after,
                action,
            ),
            (InitStage::AwaitMessenger, InitEvent::Messenger(created)) => self.takes_messenger(
                created,
                after,
                action,
            ),
            (InitStage::AwaitDevices, InitEvent::Devices(enumerated)) => self.takes_devices(
                enumerated,
                after,
                action,
            ),
            (InitStage::AwaitDevice, InitEvent::Device(answer)) => self.takes_device(
                answer,
                after,
                action,
            ),
            _ => self.refuses(after, action),
        }
    }

    /// A session that has not begun.
    pub fn new(builder: VulkanRHIBuilder, surface_supplied: bool) -> (session: Self)
        ensures
            session == (InitSession {
                builder,
                surface_supplied,
                stage: InitStage::Start,
                validation: false,
                instance: None,
                debug_messenger: None,
                request: None,
            }),
    {
        InitSession {
            builder,
            surface_supplied,
            stage: InitStage::Start,
            validation: false,
            instance: None,
            debug_messenger: None,
            request: None,
        }
    }

    fn fail(&mut self, error: RHIError) -> (action: InitAction)
        ensures
            *final(self) == old(self).halted(InitStage::Failed),
            action == (InitAction::Fail {
                error,
                release: Teardown {
                    debug_messenger: old(self).debug_messenger,
                    instance: old(self).instance,
                },
            }),
    {
        let release = Teardown { debug_messenger: self.debug_messenger, instance: self.instance };
        self.stage = InitStage::Failed;
        self.instance = None;
        self.debug_messenger = None;
        self.request = None;
        InitAction::Fail { error, release }
    }

    fn refuse(&mut self) -> (action: InitAction)
        ensures
            old(self).refuses(*final(self), action),
    {
        let error = RHIError::new(
            self.builder.rhi_name,
            RHIErrorEnum::InitializationError,
            "Unexpected event for this stage of initialization.",
        );
        self.fail(error)
    }

    fn give_up(&mut self, kind: RHIErrorEnum, message: &'static str) -> (action: InitAction)
        ensures
            old(self).fails(*final(self), action, kind, message@),
    {
        let error = RHIError::new(self.builder.rhi_name, kind, message);
        self.fail(error)
    }

    fn select(&mut self, candidates: &Vec<PhysicalDeviceCandidate>) -> (action: InitAction)
        requires
            all_wf(candidates@),
        ensures
            old(self).takes_devices(Some(*candidates), *final(self), action),
    {
        let required = get_required_extensions();
        let name = self.builder.rhi_name;
        let picked = match pick_physical_device(name, candidates, self.surface_supplied, &required) {
            Ok(i) => i,
            Err(e) => {
                return self.fail(e);
            },
        };
        let demanded = self.builder.features;
        match vk_create_logical_device(name, &candidates[picked], self.surface_supplied, demanded) {
            Ok(request) => {
                self.stage = InitStage::AwaitDevice;
                self.request = Some(request);
                InitAction::CreateDevice(request)
            },
            Err(e) => self.fail(e),
        }
    }

    /// Takes the driver's answer to the action before and decides the next
    /// action.
    pub fn step(&mut self, event: InitEvent) -> (action: InitAction)
        requires
            event matches InitEvent::Devices(Some(candidates)) ==> all_wf(candidates@),
        ensures
            old(self).steps_to(event, *final(self), action),
    {
        let name = self.builder.rhi_name;
        match (self.stage, event) {
            (InitStage::Start, InitEvent::Begin) => {
                if self.builder.validation_requested() {
                    self.stage = InitStage::AwaitLayers;
                    InitAction::QueryLayers
                } else {
                    self.stage = InitStage::AwaitInstance;
                    self.validation = false;
                    InitAction::CreateInstance {
                        request: vk_create_instance(&self.builder.app_info, false),
                        warn: false,
                    }
                }
            },
            (InitStage::AwaitLayers, InitEvent::Layers(available)) => {
                let decision = resolve_validation(true, &available);
                self.stage = InitStage::AwaitInstance;
                self.validation = decision.enabled;
                InitAction::CreateInstance {
                    request: vk_create_instance(&self.builder.app_info, decision.enabled),
                    warn: decision.degraded,
                }
            },
            (InitStage::AwaitInstance, InitEvent::Instance(created)) => {
                match created {
                    Some(handle) => {
                        self.instance = Some(handle);
                        if self.validation {
                            self.stage = InitStage::AwaitMessenger;
                            InitAction::CreateMessenger(create_debug_info())
                        } else {
                            self.stage = InitStage::AwaitDevices;
                            InitAction::EnumerateDevices
                        }
                    },
                    None => self.give_up(
                        RHIErrorEnum::InitializationError,
                        "Failed to create Vulkan Instance.",
                    ),
                }
            },
            (InitStage::AwaitMessenger, InitEvent::Messenger(created)) => {
                match created {
                    Some(handle) => {
                        self.debug_messenger = Some(handle);
                        self.stage = InitStage::AwaitDevices;
                        InitAction::EnumerateDevices
                    },
                    None => self.give_up(
                        RHIErrorEnum::InitializationError,
                        "Failed to create debug messenger.",
                    ),
                }
            },
            (InitStage::AwaitDevices, InitEvent::Devices(enumerated)) => {
                match enumerated {
                    Some(candidates) => self.select(&candidates),
                    None => self.give_up(
                        RHIErrorEnum::InitializationError,
                        "Failed to enumerate physical devices.",
                    ),
                }
            },
            (InitStage::AwaitDevice, InitEvent::Device(answer)) => {
                match (self.request, self.instance) {
                    (Some(request), Some(instance)) => {
                        match finish_logical_device(name, request, answer) {
                            Ok(device) => {
                                let rhi = VulkanRHI {
                                    rhi_name: name,
                                    instance,
                                    debug_messenger: self.debug_messenger,
                                    device,
                                    post_initialized: false,
                                    released: false,
                                };
                                self.stage = InitStage::Done;
                                self.instance = None;
                                self.debug_messenger = None;
                                self.request = None;
                                InitAction::Ready(rhi)
                            },
                            Err(e) => self.fail(e),
                        }
                    },
                    _ => self.refuse(),
                }
            },
            _ => self.refuse(),
        }
    }
}

/// A request for validation that the driver cannot serve is no error: the
/// step on the layer query's answer, whatever layers it holds short of the
/// ones that validation needs, and also where the query failed, is the
/// creation of the instance without validation, with a warning.
pub proof fn lemma_missing_layer_is_no_error(
    session: InitSession,
    available: Option<Vec<String>>,
    after: InitSession,
    action: InitAction,
)
    requires
        session.stage == InitStage::AwaitLayers,
        !validation_active(true, available),
        session.steps_to(InitEvent::Layers(available), after, action),
    ensures
        action == (InitAction::CreateInstance {
            request: instance_request_for(session.builder.app_info, false),
            warn: true,
        }),
        !instance_request_for(session.builder.app_info, false).validation,
        after.stage == InitStage::AwaitInstance,
        !after.validation,
{
}

/// An enumeration without devices ends initialization with the error that
/// says so, and hands back the instance and the debug messenger.
pub proof fn lemma_no_devices_is_an_error(
    session: InitSession,
    candidates: Vec<PhysicalDeviceCandidate>,
    after: InitSession,
    action: InitAction,
)
    requires
        session.stage == InitStage::AwaitDevices,
        candidates@.len() == 0,
        session.steps_to(InitEvent::Devices(Some(candidates)), after, action),
    ensures
        action matches InitAction::Fail { error, release } && error.says(
            RHIErrorEnum::InitializationError,
            "no physical devices"@,
        ) && release.instance == session.instance && release.debug_messenger
            == session.debug_messenger,
        after.stage == InitStage::Failed,
{
}

} // verus!
