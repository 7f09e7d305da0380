use fusion_rhi::adapter::{DeviceClass, PhysicalDeviceCandidate, QueueFamily};
use fusion_rhi::backend::{teardown, VulkanRHI};
use fusion_rhi::debug::{
    category_label, create_debug_info, set_debug_severity, set_debug_type, severity_label,
    vulkan_debug_callback, Category, DebugMessage, MessengerRequest, Severity,
    DEBUG_SEVERITY_ERROR, DEBUG_SEVERITY_INFO, DEBUG_SEVERITY_VERBOSE, DEBUG_SEVERITY_WARNING,
    DEBUG_TYPE_GENERAL, DEBUG_TYPE_PERFORMANCE, DEBUG_TYPE_VALIDATION,
};
use fusion_rhi::device::{DeviceAnswer, DeviceFeatures, DeviceRequest, LogicalDevice};
use fusion_rhi::error::{RHIError, RHIErrorEnum};
use fusion_rhi::init::{InitAction, InitEvent, InitSession, InitStage, Teardown};
use fusion_rhi::instance::{
    create_validation_layers, resolve_validation, vk_check_validation_layer_support,
    vk_create_instance, AppInfo, InstanceRequest, ValidationDecision, VulkanRHIBuilder,
};
use fusion_rhi::render_pass::vk_create_render_pass;
use fusion_rhi::resource::Resource;
use fusion_rhi::swapchain::{
    CreationOutcome, Extent, SurfaceCapabilities, SurfaceFormat, SwapchainManager,
    SwapchainSupportDetails,
    COLOR_SPACE_SRGB_NONLINEAR, FORMAT_B8G8R8A8_SRGB, PRESENT_MODE_FIFO,
};

fn test_app() -> AppInfo {
    AppInfo { app_name: "Test", engine_name: "TestEngine", enable_validation: false }
}

fn discrete_gpu(handle: u64) -> PhysicalDeviceCandidate {
    PhysicalDeviceCandidate {
        handle,
        class: DeviceClass::Discrete,
        queue_families: vec![QueueFamily { queue_flags: 0x1, queue_count: 1, present_support: true }],
        extensions: vec![String::from("VK_KHR_swapchain")],
    }
}

fn init_error(message: &'static str) -> RHIError {
    RHIError { rhi: "Vulkan", kind: RHIErrorEnum::InitializationError, message }
}

fn standing(messenger: Option<u64>) -> VulkanRHI {
    VulkanRHI {
        rhi_name: "Vulkan",
        instance: 1,
        debug_messenger: messenger,
        device: LogicalDevice {
            handle: 3,
            physical_device: 9,
            graphics_family: 0,
            present_family: Some(0),
            graphics_queue: 4,
            present_queue: Some(4),
        },
        post_initialized: false,
        released: false,
    }
}

#[test]
fn builder_starts_without_validation() {
    let builder = VulkanRHIBuilder::new();
    assert_eq!(builder.rhi_name, "Vulkan");
    assert_eq!(builder.app_info, AppInfo { app_name: "", engine_name: "", enable_validation: false });
    assert_eq!(builder.app_info, AppInfo::default());
    assert_eq!(builder, VulkanRHIBuilder::default());
    assert!(!builder.validation_requested());
}

#[test]
fn builder_takes_metadata_and_the_validation_request() {
    let builder = VulkanRHIBuilder::new().app_info(test_app());
    assert_eq!(builder.app_info, test_app());
    assert!(!builder.validation_requested());
    assert!(builder.with_validation_layers().validation_requested());
    let through_metadata = VulkanRHIBuilder::new().app_info(AppInfo { enable_validation: true, ..test_app() });
    assert!(through_metadata.validation_requested());
    assert!(!through_metadata.with_validation_layers);
}

#[test]
fn validation_needs_the_khronos_layer() {
    assert_eq!(create_validation_layers(), vec![String::from("VK_LAYER_KHRONOS_validation")]);
}

#[test]
fn layer_support_asks_for_every_layer() {
    let layers = create_validation_layers();
    let offered = vec![String::from("VK_LAYER_MESA_overlay"), String::from("VK_LAYER_KHRONOS_validation")];
    assert!(vk_check_validation_layer_support(&offered, &layers));
    assert!(!vk_check_validation_layer_support(&vec![String::from("VK_LAYER_MESA_overlay")], &layers));
    assert!(!vk_check_validation_layer_support(&Vec::new(), &layers));
}

#[test]
fn validation_degrades_where_the_layer_is_missing() {
    let offered = Some(vec![String::from("VK_LAYER_KHRONOS_validation")]);
    assert_eq!(resolve_validation(true, &offered), ValidationDecision { enabled: true, degraded: false });
    assert_eq!(resolve_validation(true, &Some(Vec::new())), ValidationDecision { enabled: false, degraded: true });
    assert_eq!(resolve_validation(true, &None), ValidationDecision { enabled: false, degraded: true });
    assert_eq!(resolve_validation(false, &offered), ValidationDecision { enabled: false, degraded: false });
    assert_eq!(resolve_validation(false, &None), ValidationDecision { enabled: false, degraded: false });
}

#[test]
fn instance_request_packs_the_versions() {
    let request = vk_create_instance(&test_app(), false);
    assert_eq!(
        request,
        InstanceRequest {
            application_name: "Test",
            application_version: 4096,
            engine_name: "TestEngine",
            engine_version: 4096,
            api_version: 4_206_592,
            validation: false,
        }
    );
    assert_eq!(request.api_version, ash::vk::API_VERSION_1_3);
    assert_eq!(request.enabled_layer_names(), Vec::<String>::new());
    assert_eq!(request.enabled_extension_names(&Vec::new()), Vec::<String>::new());
    let windowing = vec![String::from("VK_KHR_surface"), String::from("VK_KHR_xcb_surface")];
    assert_eq!(request.enabled_extension_names(&windowing), windowing);
}

#[test]
fn instance_request_with_validation_enables_layer_and_extension() {
    let request = vk_create_instance(&test_app(), true);
    assert!(request.validation);
    assert_eq!(request.enabled_layer_names(), vec![String::from("VK_LAYER_KHRONOS_validation")]);
    assert_eq!(request.enabled_extension_names(&Vec::new()), vec![String::from("VK_EXT_debug_utils")]);
    assert_eq!(
        request.enabled_extension_names(&vec![String::from("VK_KHR_surface")]),
        vec![String::from("VK_KHR_surface"), String::from("VK_EXT_debug_utils")]
    );
}

#[test]
fn debug_codes_match_the_driver_bindings() {
    assert_eq!(DEBUG_SEVERITY_VERBOSE, ash::vk::DebugUtilsMessageSeverityFlagsEXT::VERBOSE.as_raw());
    assert_eq!(DEBUG_SEVERITY_INFO, ash::vk::DebugUtilsMessageSeverityFlagsEXT::INFO.as_raw());
    assert_eq!(DEBUG_SEVERITY_WARNING, ash::vk::DebugUtilsMessageSeverityFlagsEXT::WARNING.as_raw());
    assert_eq!(DEBUG_SEVERITY_ERROR, ash::vk::DebugUtilsMessageSeverityFlagsEXT::ERROR.as_raw());
    assert_eq!(DEBUG_TYPE_GENERAL, ash::vk::DebugUtilsMessageTypeFlagsEXT::GENERAL.as_raw());
    assert_eq!(DEBUG_TYPE_VALIDATION, ash::vk::DebugUtilsMessageTypeFlagsEXT::VALIDATION.as_raw());
    assert_eq!(DEBUG_TYPE_PERFORMANCE, ash::vk::DebugUtilsMessageTypeFlagsEXT::PERFORMANCE.as_raw());
}

#[test]
fn debug_masks_join_the_chosen_bits() {
    assert_eq!(set_debug_severity(true, true, true, true), 0x1111);
    assert_eq!(set_debug_severity(true, false, false, false), 0x1000);
    assert_eq!(set_debug_severity(false, true, false, true), 0x0101);
    assert_eq!(set_debug_severity(false, false, true, false), 0x0010);
    assert_eq!(set_debug_severity(false, false, false, false), 0);
    assert_eq!(set_debug_type(true, true, true), 0x7);
    assert_eq!(set_debug_type(true, false, true), 0x5);
    assert_eq!(set_debug_type(false, true, false), 0x2);
    assert_eq!(set_debug_type(false, false, false), 0);
    assert_eq!(create_debug_info(), MessengerRequest { message_severity: 0x1111, message_type: 0x7 });
}

#[test]
fn severity_is_read_from_a_single_bit() {
    assert_eq!(Severity::from_flags(0x1), Some(Severity::Verbose));
    assert_eq!(Severity::from_flags(0x10), Some(Severity::Info));
    assert_eq!(Severity::from_flags(0x100), Some(Severity::Warning));
    assert_eq!(Severity::from_flags(0x1000), Some(Severity::Error));
    assert_eq!(Severity::from_flags(0x1100), None);
    assert_eq!(Severity::from_flags(0), None);
    for severity in [Severity::Verbose, Severity::Info, Severity::Warning, Severity::Error] {
        assert_eq!(Severity::from_flags(severity.flag()), Some(severity));
    }
    assert_eq!(Category::from_flags(0x1), Some(Category::General));
    assert_eq!(Category::from_flags(0x2), Some(Category::Validation));
    assert_eq!(Category::from_flags(0x4), Some(Category::Performance));
    assert_eq!(Category::from_flags(0x3), None);
}

#[test]
fn labels_name_severity_and_category() {
    assert_eq!(severity_label(Some(Severity::Error)), "ERROR");
    assert_eq!(severity_label(Some(Severity::Warning)), "WARNING");
    assert_eq!(severity_label(Some(Severity::Info)), "INFO");
    assert_eq!(severity_label(Some(Severity::Verbose)), "VERBOSE");
    assert_eq!(severity_label(None), "UNKNOWN");
    assert_eq!(category_label(Some(Category::General)), "GENERAL");
    assert_eq!(category_label(Some(Category::Validation)), "VALIDATION");
    assert_eq!(category_label(Some(Category::Performance)), "PERFORMANCE");
    assert_eq!(category_label(None), "UNKNOWN");
}

#[test]
fn callback_forwards_the_message_with_its_severity() {
    let logged = vulkan_debug_callback(0x100, 0x2, Some(String::from("VUID-1")), 42, Some(String::from("bad call")));
    assert_eq!(
        logged,
        DebugMessage {
            severity: Some(Severity::Warning),
            category: Some(Category::Validation),
            id_name: String::from("VUID-1"),
            id_number: 42,
            message: String::from("bad call"),
        }
    );
}

#[test]
fn callback_puts_empty_text_for_missing_fields() {
    let logged = vulkan_debug_callback(0x1000, 0x1, None, -7, None);
    assert_eq!(
        logged,
        DebugMessage {
            severity: Some(Severity::Error),
            category: Some(Category::General),
            id_name: String::new(),
            id_number: -7,
            message: String::new(),
        }
    );
    let unknown = vulkan_debug_callback(0x1010, 0x8, None, 0, Some(String::from("m")));
    assert_eq!(unknown.severity, None);
    assert_eq!(unknown.category, None);
    assert_eq!(unknown.message, "m");
}

#[test]
fn init_without_devices_fails_and_hands_back_the_instance() {
    let mut session = InitSession::new(VulkanRHIBuilder::new().app_info(test_app()), true);
    session.step(InitEvent::Begin);
    assert_eq!(session.step(InitEvent::Instance(Some(1))), InitAction::EnumerateDevices);
    let action = session.step(InitEvent::Devices(Some(Vec::new())));
    assert_eq!(
        action,
        InitAction::Fail {
            error: init_error("no physical devices"),
            release: Teardown { debug_messenger: None, instance: Some(1) },
        }
    );
    assert_eq!(session.stage, InitStage::Failed);
    assert_eq!(session.instance, None);
}

#[test]
fn init_without_a_suitable_device_fails() {
    let mut session = InitSession::new(VulkanRHIBuilder::new().app_info(test_app()), true);
    session.step(InitEvent::Begin);
    session.step(InitEvent::Instance(Some(1)));
    let mut unsuitable = discrete_gpu(9);
    unsuitable.extensions = Vec::new();
    let action = session.step(InitEvent::Devices(Some(vec![unsuitable])));
    assert_eq!(
        action,
        InitAction::Fail {
            error: init_error("no suitable physical devices"),
            release: Teardown { debug_messenger: None, instance: Some(1) },
        }
    );
}

#[test]
fn init_with_validation_but_no_layer_creates_the_instance_with_a_warning() {
    let builder = VulkanRHIBuilder::new().app_info(test_app()).with_validation_layers();
    let mut session = InitSession::new(builder, true);
    assert_eq!(session.step(InitEvent::Begin), InitAction::QueryLayers);
    let action = session.step(InitEvent::Layers(Some(vec![String::from("VK_LAYER_MESA_overlay")])));
    assert_eq!(action, InitAction::CreateInstance { request: vk_create_instance(&test_app(), false), warn: true });
    assert!(!session.validation);
    assert_eq!(session.step(InitEvent::Instance(Some(1))), InitAction::EnumerateDevices);
    assert_eq!(session.stage, InitStage::AwaitDevices);
}

#[test]
fn init_with_validation_and_a_failed_layer_query_goes_on_without() {
    let builder = VulkanRHIBuilder::new().app_info(test_app()).with_validation_layers();
    let mut session = InitSession::new(builder, true);
    session.step(InitEvent::Begin);
    let action = session.step(InitEvent::Layers(None));
    assert_eq!(action, InitAction::CreateInstance { request: vk_create_instance(&test_app(), false), warn: true });
}

#[test]
fn init_with_validation_creates_the_messenger_after_the_instance() {
    let builder = VulkanRHIBuilder::new().app_info(test_app()).with_validation_layers();
    let mut session = InitSession::new(builder, true);
    session.step(InitEvent::Begin);
    let action = session.step(InitEvent::Layers(Some(vec![String::from("VK_LAYER_KHRONOS_validation")])));
    assert_eq!(action, InitAction::CreateInstance { request: vk_create_instance(&test_app(), true), warn: false });
    assert_eq!(
        session.step(InitEvent::Instance(Some(1))),
        InitAction::CreateMessenger(MessengerRequest { message_severity: 0x1111, message_type: 0x7 })
    );
    assert_eq!(session.step(InitEvent::Messenger(Some(2))), InitAction::EnumerateDevices);
    session.step(InitEvent::Devices(Some(vec![discrete_gpu(9)])));
    let action = session.step(InitEvent::Device(Some(DeviceAnswer { device: 3, graphics_queue: 4, present_queue: None })));
    assert_eq!(action, InitAction::Ready(standing(Some(2))));
}

#[test]
fn init_failures_hand_back_what_was_acquired() {
    let builder = VulkanRHIBuilder::new().app_info(test_app()).with_validation_layers();
    let layers = || InitEvent::Layers(Some(vec![String::from("VK_LAYER_KHRONOS_validation")]));

    let mut session = InitSession::new(builder, true);
    session.step(InitEvent::Begin);
    session.step(layers());
    assert_eq!(
        session.step(InitEvent::Instance(None)),
        InitAction::Fail {
            error: init_error("Failed to create Vulkan Instance."),
            release: Teardown { debug_messenger: None, instance: None },
        }
    );

    let mut session = InitSession::new(builder, true);
    session.step(InitEvent::Begin);
    session.step(layers());
    session.step(InitEvent::Instance(Some(1)));
    assert_eq!(
        session.step(InitEvent::Messenger(None)),
        InitAction::Fail {
            error: init_error("Failed to create debug messenger."),
            release: Teardown { debug_messenger: None, instance: Some(1) },
        }
    );

    let mut session = InitSession::new(builder, true);
    session.step(InitEvent::Begin);
    session.step(layers());
    session.step(InitEvent::Instance(Some(1)));
    session.step(InitEvent::Messenger(Some(2)));
    let failed = session.step(InitEvent::Devices(None));
    assert_eq!(
        failed,
        InitAction::Fail {
            error: init_error("Failed to enumerate physical devices."),
            release: Teardown { debug_messenger: Some(2), instance: Some(1) },
        }
    );
    if let InitAction::Fail { release, .. } = failed {
        assert_eq!(release.release_order(), vec![Resource::DebugMessenger(2), Resource::Instance(1)]);
    }

    let mut session = InitSession::new(builder, true);
    session.step(InitEvent::Begin);
    session.step(layers());
    session.step(InitEvent::Instance(Some(1)));
    session.step(InitEvent::Messenger(Some(2)));
    session.step(InitEvent::Devices(Some(vec![discrete_gpu(9)])));
    assert_eq!(
        session.step(InitEvent::Device(None)),
        InitAction::Fail {
            error: RHIError {
                rhi: "Vulkan",
                kind: RHIErrorEnum::LogicalDeviceError,
                message: "Failed to create logical device."
            },
            release: Teardown { debug_messenger: Some(2), instance: Some(1) },
        }
    );
    assert_eq!(session.stage, InitStage::Failed);
}

#[test]
fn init_refuses_an_event_out_of_turn() {
    let mut session = InitSession::new(VulkanRHIBuilder::new(), false);
    session.step(InitEvent::Begin);
    session.step(InitEvent::Instance(Some(1)));
    assert_eq!(
        session.step(InitEvent::Messenger(Some(2))),
        InitAction::Fail {
            error: init_error("Unexpected event for this stage of initialization."),
            release: Teardown { debug_messenger: None, instance: Some(1) },
        }
    );
    assert_eq!(
        session.step(InitEvent::Begin),
        InitAction::Fail {
            error: init_error("Unexpected event for this stage of initialization."),
            release: Teardown { debug_messenger: None, instance: None },
        }
    );
    assert_eq!(Teardown { debug_messenger: None, instance: None }.release_order(), Vec::new());
}

#[test]
fn end_to_end_initialization_with_one_discrete_gpu() {
    let mut session = InitSession::new(VulkanRHIBuilder::new().app_info(test_app()), true);
    assert_eq!(
        session.step(InitEvent::Begin),
        InitAction::CreateInstance { request: vk_create_instance(&test_app(), false), warn: false }
    );
    assert_eq!(session.step(InitEvent::Instance(Some(1))), InitAction::EnumerateDevices);
    let request = DeviceRequest { physical_device: 9, graphics_family: 0, present_family: Some(0), enabled_features: DeviceFeatures::none() };
    assert_eq!(session.step(InitEvent::Devices(Some(vec![discrete_gpu(9)]))), InitAction::CreateDevice(request));
    let answer = DeviceAnswer { device: 3, graphics_queue: 4, present_queue: None };
    let action = session.step(InitEvent::Device(Some(answer)));
    assert_eq!(action, InitAction::Ready(standing(None)));
    assert_eq!(session.stage, InitStage::Done);
    let rhi = match action {
        InitAction::Ready(rhi) => rhi,
        other => panic!("initialization ended with {:?}", other),
    };
    assert_eq!(rhi.device.graphics_family, 0);
    assert_eq!(rhi.device.present_family, Some(0));

    let manager = SwapchainManager::new(Extent { width: 1920, height: 1080 });
    let support = |min: u32, max: u32| SwapchainSupportDetails {
        capabilities: Some(SurfaceCapabilities {
            current_extent: Extent { width: 800, height: 600 },
            min_image_count: min,
            max_image_count: max,
        }),
        formats: Some(vec![SurfaceFormat { format: FORMAT_B8G8R8A8_SRGB, color_space: COLOR_SPACE_SRGB_NONLINEAR }]),
        present_modes: Some(vec![PRESENT_MODE_FIFO]),
    };
    let planned = manager.plan("Vulkan", &support(2, 8)).unwrap();
    assert_eq!(planned.config.image_count, 3);
    assert_eq!(planned.config.present_mode, PRESENT_MODE_FIFO);
    assert_eq!(manager.plan("Vulkan", &support(2, 2)).unwrap().config.image_count, 2);
    let pass = vk_create_render_pass(planned.config.format);
    assert_eq!(pass.attachment.format, FORMAT_B8G8R8A8_SRGB);

    let mut manager = manager;
    let created = CreationOutcome {
        swapchain: Some(100),
        images: vec![1, 2, 3],
        image_views: vec![Some(11), Some(12), Some(13)],
        render_pass: Some(50),
    };
    assert_eq!(manager.create_or_recreate("Vulkan", planned, created), Ok(None));
    assert_eq!(manager.swapchain().unwrap().config, planned.config);
}

#[test]
fn post_init_runs_once() {
    let mut rhi = standing(None);
    assert!(rhi.post_init());
    assert!(rhi.post_initialized);
    let after_first = rhi;
    assert!(!rhi.post_init());
    assert_eq!(rhi, after_first);
}

#[test]
fn post_init_after_shutdown_does_nothing() {
    let mut rhi = standing(None);
    rhi.shutdown();
    let shut = rhi;
    assert!(!rhi.post_init());
    assert_eq!(rhi, shut);
}

#[test]
fn shutdown_twice_releases_each_handle_once() {
    let mut rhi = standing(Some(2));
    let mut released = rhi.shutdown();
    assert_eq!(released, vec![Resource::Device(3), Resource::DebugMessenger(2), Resource::Instance(1)]);
    assert!(rhi.released);
    released.extend(rhi.shutdown());
    assert_eq!(released, vec![Resource::Device(3), Resource::DebugMessenger(2), Resource::Instance(1)]);
    assert_eq!(rhi.shutdown(), Vec::new());
}

#[test]
fn shutdown_without_a_messenger_releases_device_then_instance() {
    let mut rhi = standing(None);
    assert_eq!(rhi.shutdown(), vec![Resource::Device(3), Resource::Instance(1)]);
    assert_eq!(rhi.shutdown(), Vec::new());
}

#[test]
fn teardown_releases_presentation_before_the_backend() {
    let mut rhi = standing(Some(2));
    let mut manager = SwapchainManager::new(Extent { width: 1920, height: 1080 });
    let support = SwapchainSupportDetails::new(
        Some(SurfaceCapabilities {
            current_extent: Extent { width: 800, height: 600 },
            min_image_count: 2,
            max_image_count: 0,
        }),
        Some(vec![SurfaceFormat { format: FORMAT_B8G8R8A8_SRGB, color_space: COLOR_SPACE_SRGB_NONLINEAR }]),
        Some(vec![PRESENT_MODE_FIFO]),
    );
    let planned = manager.plan("Vulkan", &support).unwrap();
    let created = CreationOutcome {
        swapchain: Some(100),
        images: vec![1, 2],
        image_views: vec![Some(11), Some(12)],
        render_pass: Some(50),
    };
    manager.create_or_recreate("Vulkan", planned, created).unwrap();

    assert_eq!(
        teardown(&mut rhi, &mut manager),
        vec![
            Resource::RenderPass(50),
            Resource::ImageView(12),
            Resource::ImageView(11),
            Resource::Swapchain(100),
            Resource::Device(3),
            Resource::DebugMessenger(2),
            Resource::Instance(1),
        ]
    );
    assert!(manager.swapchain().is_none());
    assert!(rhi.released);
    assert_eq!(teardown(&mut rhi, &mut manager), Vec::new());
}

#[test]
fn teardown_without_a_swapchain_releases_the_backend_alone() {
    let mut rhi = standing(None);
    let mut manager = SwapchainManager::new(Extent { width: 1920, height: 1080 });
    assert_eq!(teardown(&mut rhi, &mut manager), vec![Resource::Device(3), Resource::Instance(1)]);
}

#[test]
fn init_hands_the_demanded_features_to_the_device_request() {
    let demanded = DeviceFeatures { geometry_shader: true, sampler_anisotropy: false };
    let builder = VulkanRHIBuilder::new().app_info(test_app()).features(demanded);
    assert_eq!(builder.features, demanded);
    let mut session = InitSession::new(builder, true);
    session.step(InitEvent::Begin);
    session.step(InitEvent::Instance(Some(1)));
    assert_eq!(
        session.step(InitEvent::Devices(Some(vec![discrete_gpu(9)]))),
        InitAction::CreateDevice(DeviceRequest {
            physical_device: 9,
            graphics_family: 0,
            present_family: Some(0),
            enabled_features: demanded,
        })
    );
}
