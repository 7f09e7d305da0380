use fusion_rhi::adapter::{
    check_device_extension_support, contains_name, find_queue_families, pick_physical_device,
    DeviceClass, PhysicalDeviceCandidate, QueueFamily, QueueFamilyIndices, QUEUE_GRAPHICS_BIT,
};
use fusion_rhi::device::{
    finish_logical_device, get_required_extensions, vk_create_logical_device, DeviceAnswer,
    DeviceFeatures, DeviceRequest, LogicalDevice, QueueRequest, QUEUE_PRIORITY_ONE_BITS,
};
use fusion_rhi::error::{RHIError, RHIErrorEnum};

fn family(flags: u32, count: u32, present: bool) -> QueueFamily {
    QueueFamily { queue_flags: flags, queue_count: count, present_support: present }
}

fn candidate(handle: u64, class: DeviceClass, families: Vec<QueueFamily>, swapchain: bool) -> PhysicalDeviceCandidate {
    let mut extensions = vec![String::from("VK_KHR_maintenance1")];
    if swapchain {
        extensions.push(String::from("VK_KHR_swapchain"));
    }
    PhysicalDeviceCandidate { handle, class, queue_families: families, extensions }
}

fn good(handle: u64, class: DeviceClass) -> PhysicalDeviceCandidate {
    candidate(handle, class, vec![family(0x1, 1, true)], true)
}

fn bad(handle: u64, class: DeviceClass) -> PhysicalDeviceCandidate {
    candidate(handle, class, vec![family(0x2, 1, true)], true)
}

#[test]
fn graphics_bit_matches_the_driver_bindings() {
    assert_eq!(QUEUE_GRAPHICS_BIT, ash::vk::QueueFlags::GRAPHICS.as_raw());
}

#[test]
fn graphics_support_reads_the_lowest_flag_bit() {
    assert!(family(0x1, 1, false).supports_graphics());
    assert!(family(0x7, 4, false).supports_graphics());
    assert!(!family(0x2, 1, false).supports_graphics());
    assert!(!family(0x6, 1, false).supports_graphics());
    assert!(!family(0x0, 1, false).supports_graphics());
}

#[test]
fn a_family_without_queues_supports_nothing() {
    assert!(!family(0x1, 0, true).supports_graphics());
    assert!(!family(0x1, 0, true).supports_present());
    assert!(family(0x0, 1, true).supports_present());
}

#[test]
fn device_class_reads_the_driver_code() {
    assert_eq!(DeviceClass::from_raw(ash::vk::PhysicalDeviceType::DISCRETE_GPU.as_raw()), DeviceClass::Discrete);
    assert_eq!(DeviceClass::from_raw(ash::vk::PhysicalDeviceType::INTEGRATED_GPU.as_raw()), DeviceClass::Integrated);
    assert_eq!(DeviceClass::from_raw(ash::vk::PhysicalDeviceType::VIRTUAL_GPU.as_raw()), DeviceClass::Virtual);
    assert_eq!(DeviceClass::from_raw(ash::vk::PhysicalDeviceType::CPU.as_raw()), DeviceClass::Cpu);
    assert_eq!(DeviceClass::from_raw(ash::vk::PhysicalDeviceType::OTHER.as_raw()), DeviceClass::Other);
    assert_eq!(DeviceClass::from_raw(77), DeviceClass::Other);
    assert_eq!(DeviceClass::from_raw(-1), DeviceClass::Other);
}

#[test]
fn device_class_priority_orders_the_tiers() {
    assert_eq!(DeviceClass::Discrete.priority(), 0);
    assert_eq!(DeviceClass::Integrated.priority(), 1);
    assert_eq!(DeviceClass::Virtual.priority(), 2);
    assert_eq!(DeviceClass::Cpu.priority(), 2);
    assert_eq!(DeviceClass::Other.priority(), 2);
}

#[test]
fn queue_families_resolve_to_the_first_capable_rows() {
    let table = vec![family(0x2, 1, false), family(0x3, 2, false), family(0x1, 1, true), family(0x1, 1, true)];
    assert_eq!(find_queue_families(&table), QueueFamilyIndices { graphics: Some(1), present: Some(2) });
}

#[test]
fn queue_families_may_share_one_row() {
    let table = vec![family(0x1, 1, true)];
    assert_eq!(find_queue_families(&table), QueueFamilyIndices { graphics: Some(0), present: Some(0) });
}

#[test]
fn queue_families_of_an_empty_table_are_missing() {
    assert_eq!(find_queue_families(&Vec::new()), QueueFamilyIndices { graphics: None, present: None });
}

#[test]
fn queue_families_skip_rows_without_queues() {
    let table = vec![family(0x1, 0, true), family(0x1, 1, false)];
    assert_eq!(find_queue_families(&table), QueueFamilyIndices { graphics: Some(1), present: None });
}

#[test]
fn names_are_found_by_their_text() {
    let list = vec![String::from("a"), String::from("bc")];
    assert!(contains_name(&list, &String::from("bc")));
    assert!(!contains_name(&list, &String::from("b")));
    assert!(!contains_name(&Vec::new(), &String::from("a")));
}

#[test]
fn extension_support_asks_for_every_required_name() {
    let available = vec![String::from("x"), String::from("VK_KHR_swapchain")];
    assert!(check_device_extension_support(&available, &get_required_extensions()));
    assert!(check_device_extension_support(&available, &Vec::new()));
    assert!(!check_device_extension_support(&vec![String::from("x")], &get_required_extensions()));
    assert!(!check_device_extension_support(&available, &vec![String::from("x"), String::from("y")]));
}

#[test]
fn required_extensions_are_swapchain_support() {
    assert_eq!(get_required_extensions(), vec![String::from("VK_KHR_swapchain")]);
}

#[test]
fn suitability_needs_graphics_present_and_extensions() {
    let required = get_required_extensions();
    assert!(good(1, DeviceClass::Discrete).is_device_suitable(true, &required));
    assert!(!bad(1, DeviceClass::Discrete).is_device_suitable(true, &required));
    let headless = candidate(1, DeviceClass::Discrete, vec![family(0x1, 1, false)], true);
    assert!(!headless.is_device_suitable(true, &required));
    assert!(headless.is_device_suitable(false, &required));
    let no_swapchain = candidate(1, DeviceClass::Discrete, vec![family(0x1, 1, true)], false);
    assert!(!no_swapchain.is_device_suitable(true, &required));
    let split = candidate(1, DeviceClass::Discrete, vec![family(0x1, 1, false), family(0x4, 1, true)], true);
    assert!(split.is_device_suitable(true, &required));
}

#[test]
fn no_devices_is_an_initialization_error() {
    let picked = pick_physical_device("Vulkan", &Vec::new(), true, &get_required_extensions());
    assert_eq!(
        picked,
        Err(RHIError { rhi: "Vulkan", kind: RHIErrorEnum::InitializationError, message: "no physical devices" })
    );
}

#[test]
fn no_suitable_device_is_an_initialization_error() {
    let devices = vec![bad(1, DeviceClass::Discrete), bad(2, DeviceClass::Integrated)];
    let picked = pick_physical_device("Vulkan", &devices, true, &get_required_extensions());
    assert_eq!(
        picked,
        Err(RHIError {
            rhi: "Vulkan",
            kind: RHIErrorEnum::InitializationError,
            message: "no suitable physical devices"
        })
    );
}

#[test]
fn first_suitable_discrete_wins_in_every_order() {
    let required = get_required_extensions();
    let orders: Vec<Vec<PhysicalDeviceCandidate>> = vec![
        vec![good(10, DeviceClass::Discrete), bad(11, DeviceClass::Discrete), bad(12, DeviceClass::Discrete), good(20, DeviceClass::Integrated)],
        vec![bad(11, DeviceClass::Discrete), good(10, DeviceClass::Discrete), bad(12, DeviceClass::Discrete), good(20, DeviceClass::Integrated)],
        vec![bad(12, DeviceClass::Discrete), bad(11, DeviceClass::Discrete), good(20, DeviceClass::Integrated), good(10, DeviceClass::Discrete)],
        vec![good(20, DeviceClass::Integrated), bad(12, DeviceClass::Discrete), good(10, DeviceClass::Discrete), bad(11, DeviceClass::Discrete)],
    ];
    for devices in orders.iter() {
        let picked = pick_physical_device("Vulkan", devices, true, &required).unwrap();
        assert_eq!(devices[picked].handle, 10);
        assert_eq!(devices[picked].class, DeviceClass::Discrete);
    }
}

#[test]
fn ties_within_a_tier_go_to_the_first() {
    let required = get_required_extensions();
    let devices = vec![good(1, DeviceClass::Integrated), good(2, DeviceClass::Discrete), good(3, DeviceClass::Discrete)];
    assert_eq!(pick_physical_device("Vulkan", &devices, true, &required), Ok(1));
    let rest = vec![good(1, DeviceClass::Cpu), good(2, DeviceClass::Other), good(3, DeviceClass::Virtual)];
    assert_eq!(pick_physical_device("Vulkan", &rest, true, &required), Ok(0));
}

#[test]
fn a_lower_tier_is_taken_where_the_higher_has_nothing_suitable() {
    let required = get_required_extensions();
    let devices = vec![bad(1, DeviceClass::Discrete), good(2, DeviceClass::Cpu), good(3, DeviceClass::Integrated)];
    assert_eq!(pick_physical_device("Vulkan", &devices, true, &required), Ok(2));
    let only_other = vec![bad(1, DeviceClass::Discrete), bad(2, DeviceClass::Integrated), good(3, DeviceClass::Virtual)];
    assert_eq!(pick_physical_device("Vulkan", &only_other, true, &required), Ok(2));
}

#[test]
fn device_request_shares_a_family_that_does_both() {
    let request = vk_create_logical_device("Vulkan", &good(9, DeviceClass::Discrete), true, DeviceFeatures::none()).unwrap();
    assert_eq!(request, DeviceRequest { physical_device: 9, graphics_family: 0, present_family: Some(0), enabled_features: DeviceFeatures::none() });
    assert_eq!(
        request.queue_create_infos(),
        vec![QueueRequest { family_index: 0, queue_count: 1, priority_bits: QUEUE_PRIORITY_ONE_BITS }]
    );
}

#[test]
fn device_request_asks_for_each_distinct_family_once() {
    let split = candidate(9, DeviceClass::Discrete, vec![family(0x1, 1, false), family(0x4, 1, true)], true);
    let request = vk_create_logical_device("Vulkan", &split, true, DeviceFeatures::none()).unwrap();
    assert_eq!(request, DeviceRequest { physical_device: 9, graphics_family: 0, present_family: Some(1), enabled_features: DeviceFeatures::none() });
    assert_eq!(
        request.queue_create_infos(),
        vec![
            QueueRequest { family_index: 0, queue_count: 1, priority_bits: 0x3F80_0000 },
            QueueRequest { family_index: 1, queue_count: 1, priority_bits: 0x3F80_0000 },
        ]
    );
}

#[test]
fn queue_priority_is_one() {
    assert_eq!(f32::from_bits(QUEUE_PRIORITY_ONE_BITS), 1.0f32);
}

#[test]
fn device_request_without_a_surface_names_no_present_family() {
    let request = vk_create_logical_device("Vulkan", &good(9, DeviceClass::Discrete), false, DeviceFeatures::none()).unwrap();
    assert_eq!(request, DeviceRequest { physical_device: 9, graphics_family: 0, present_family: None, enabled_features: DeviceFeatures::none() });
}

#[test]
fn device_request_fails_without_a_graphics_family() {
    let refused = vk_create_logical_device("Vulkan", &bad(9, DeviceClass::Discrete), true, DeviceFeatures::none());
    assert_eq!(
        refused,
        Err(RHIError {
            rhi: "Vulkan",
            kind: RHIErrorEnum::InitializationError,
            message: "No queue family with graphics support found."
        })
    );
}

#[test]
fn device_request_fails_without_a_present_family() {
    let headless = candidate(1, DeviceClass::Discrete, vec![family(0x1, 1, false)], true);
    let refused = vk_create_logical_device("Vulkan", &headless, true, DeviceFeatures::none());
    assert_eq!(
        refused,
        Err(RHIError {
            rhi: "Vulkan",
            kind: RHIErrorEnum::InitializationError,
            message: "No queue family with present support found."
        })
    );
}

#[test]
fn a_failed_device_creation_is_a_logical_device_error() {
    let request = DeviceRequest { physical_device: 9, graphics_family: 0, present_family: Some(0), enabled_features: DeviceFeatures::none() };
    let failed = finish_logical_device("Vulkan", request, None);
    assert_eq!(
        failed,
        Err(RHIError {
            rhi: "Vulkan",
            kind: RHIErrorEnum::LogicalDeviceError,
            message: "Failed to create logical device."
        })
    );
    let split = DeviceRequest { physical_device: 9, graphics_family: 0, present_family: Some(1), enabled_features: DeviceFeatures::none() };
    let incomplete = DeviceAnswer { device: 5, graphics_queue: 6, present_queue: None };
    assert_eq!(finish_logical_device("Vulkan", split, Some(incomplete)), failed);
}

#[test]
fn a_created_device_owns_its_queues() {
    let shared = DeviceRequest { physical_device: 9, graphics_family: 0, present_family: Some(0), enabled_features: DeviceFeatures::none() };
    let answer = DeviceAnswer { device: 5, graphics_queue: 6, present_queue: None };
    assert_eq!(
        finish_logical_device("Vulkan", shared, Some(answer)),
        Ok(LogicalDevice {
            handle: 5,
            physical_device: 9,
            graphics_family: 0,
            present_family: Some(0),
            graphics_queue: 6,
            present_queue: Some(6),
        })
    );
    let split = DeviceRequest { physical_device: 9, graphics_family: 0, present_family: Some(1), enabled_features: DeviceFeatures::none() };
    let both = DeviceAnswer { device: 5, graphics_queue: 6, present_queue: Some(7) };
    assert_eq!(
        finish_logical_device("Vulkan", split, Some(both)),
        Ok(LogicalDevice {
            handle: 5,
            physical_device: 9,
            graphics_family: 0,
            present_family: Some(1),
            graphics_queue: 6,
            present_queue: Some(7),
        })
    );
    let headless = DeviceRequest { physical_device: 9, graphics_family: 2, present_family: None, enabled_features: DeviceFeatures::none() };
    assert_eq!(
        finish_logical_device("Vulkan", headless, Some(both)),
        Ok(LogicalDevice {
            handle: 5,
            physical_device: 9,
            graphics_family: 2,
            present_family: None,
            graphics_queue: 6,
            present_queue: None,
        })
    );
}

#[test]
fn device_request_fails_on_an_empty_family_table() {
    let empty = candidate(9, DeviceClass::Discrete, Vec::new(), true);
    assert_eq!(
        vk_create_logical_device("Vulkan", &empty, false, DeviceFeatures::none()),
        Err(RHIError {
            rhi: "Vulkan",
            kind: RHIErrorEnum::InitializationError,
            message: "No queue families found."
        })
    );
}

#[test]
fn device_request_enables_the_features_demanded_and_no_other() {
    let demanded = DeviceFeatures { geometry_shader: false, sampler_anisotropy: true };
    let request = vk_create_logical_device("Vulkan", &good(9, DeviceClass::Discrete), true, demanded).unwrap();
    assert_eq!(request.enabled_features, demanded);
    assert_eq!(DeviceFeatures::none(), DeviceFeatures { geometry_shader: false, sampler_anisotropy: false });
    assert_eq!(request.enabled_extension_names(), vec![String::from("VK_KHR_swapchain")]);
}
