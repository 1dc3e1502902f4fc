use luminary::consts;
use luminary::device::Error;
use luminary::gpu::cost;
use luminary::gpu::count_ones;
use luminary::gpu::find_queue;
use luminary::gpu::find_queues;
use luminary::gpu::has_extensions;
use luminary::gpu::has_surface_support;
use luminary::gpu::is_suitable;
use luminary::gpu::pick_gpu;
use luminary::gpu::score;
use luminary::gpu::serves;
use luminary::gpu::GpuInfo;
use luminary::gpu::QueueFamilyInfo;
use luminary::gpu::Role;
use luminary::gpu::API_VERSION_1_3;

fn family(queue_flags: u32, has_present: bool) -> QueueFamilyInfo {
    QueueFamilyInfo { queue_flags, has_present }
}

fn needed() -> Vec<String> {
    vec![
        "VK_KHR_deferred_host_operations".to_string(),
        "VK_EXT_something_else".to_string(),
        "VK_KHR_swapchain".to_string(),
        "VK_KHR_ray_tracing_pipeline".to_string(),
        "VK_KHR_acceleration_structure".to_string(),
    ]
}

fn gpu(device_type: i32) -> GpuInfo {
    GpuInfo {
        api_version: API_VERSION_1_3,
        device_type,
        extensions: Some(needed()),
        surface_formats: Some(2),
        surface_present_modes: Some(3),
        queue_families: vec![family(0x7, true)],
    }
}

#[test]
fn the_version_constant_is_one_point_three() {
    assert_eq!(API_VERSION_1_3, ash::vk::API_VERSION_1_3);
    assert_eq!(API_VERSION_1_3, ash::vk::make_api_version(0, 1, 3, 0));
}

#[test]
fn devices_are_liked_by_their_type() {
    assert_eq!(score(consts::DEVICE_TYPE_DISCRETE_GPU), 5);
    assert_eq!(score(consts::DEVICE_TYPE_INTEGRATED_GPU), 4);
    assert_eq!(score(consts::DEVICE_TYPE_VIRTUAL_GPU), 3);
    assert_eq!(score(consts::DEVICE_TYPE_CPU), 2);
    assert_eq!(score(consts::DEVICE_TYPE_OTHER), 1);
    assert_eq!(score(17), 0);
    assert_eq!(score(-1), 0);
}

#[test]
fn extensions_must_all_be_there() {
    assert!(has_extensions(&Some(needed())));
    for missing in 0..5 {
        let mut names = needed();
        names.remove(missing);
        assert_eq!(has_extensions(&Some(names)), missing == 1);
    }
    assert!(!has_extensions(&Some(Vec::new())));
    assert!(!has_extensions(&None));
    assert!(!has_extensions(&Some(vec!["VK_KHR_swapchain".to_string(); 4])));
}

#[test]
fn the_surface_needs_a_format_and_a_present_mode() {
    assert!(has_surface_support(Some(1), Some(1)));
    assert!(!has_surface_support(Some(0), Some(1)));
    assert!(!has_surface_support(Some(1), Some(0)));
    assert!(!has_surface_support(None, Some(1)));
    assert!(!has_surface_support(Some(1), None));
}

#[test]
fn ones_are_counted() {
    assert_eq!(count_ones(0), 0);
    assert_eq!(count_ones(1), 1);
    assert_eq!(count_ones(0b1011), 3);
    assert_eq!(count_ones(0x8000_0000), 1);
    assert_eq!(count_ones(u32::MAX), 32);
    for x in [5u32, 77, 1 << 20, 0xdead_beef] {
        assert_eq!(count_ones(x), x.count_ones());
    }
}

#[test]
fn a_family_serves_a_role_by_its_flags() {
    let graphics = family(consts::QUEUE_GRAPHICS | consts::QUEUE_TRANSFER, false);
    assert!(serves(&graphics, Role::Graphics));
    assert!(serves(&graphics, Role::Transfer));
    assert!(!serves(&graphics, Role::Compute));
    assert!(!serves(&graphics, Role::Present));
    assert!(serves(&family(0, true), Role::Present));
    assert!(serves(&family(consts::QUEUE_COMPUTE, false), Role::Compute));
}

#[test]
fn the_cost_of_a_family() {
    assert_eq!(cost(&family(0, false), 0), 0);
    assert_eq!(cost(&family(0b111, false), 0), 3);
    assert_eq!(cost(&family(0b111, true), 0), 4);
    assert_eq!(cost(&family(0b1, true), 2), 202);
    assert_eq!(cost(&family(u32::MAX, true), u32::MAX), 33 + 100 * u32::MAX as u64);
}

#[test]
fn the_cheapest_family_is_taken_and_of_equals_the_first() {
    let families = vec![
        family(0b1111, true),
        family(0b0100, false),
        family(0b0110, false),
        family(0b0100, false),
    ];
    let none = vec![0, 0, 0, 0];
    assert_eq!(find_queue(&families, &none, Role::Transfer), Some(1));
    assert_eq!(find_queue(&families, &none, Role::Compute), Some(2));
    assert_eq!(find_queue(&families, &none, Role::Graphics), Some(0));
    assert_eq!(find_queue(&families, &none, Role::Present), Some(0));
    assert_eq!(find_queue(&families, &vec![0, 1, 0, 0], Role::Transfer), Some(3));
    assert_eq!(find_queue(&families, &vec![0, 1, 0, 1], Role::Transfer), Some(2));
    assert_eq!(find_queue(&families, &Vec::new(), Role::Transfer), Some(1));
    assert_eq!(find_queue(&families[1..].to_vec(), &none, Role::Present), None);
    assert_eq!(find_queue(&Vec::new(), &none, Role::Graphics), None);
}

#[test]
fn queue_families_spread_over_the_device() {
    let families = vec![
        family(0b0111, true),
        family(0b0110, false),
        family(0b0100, false),
    ];
    let chosen = find_queues(&families).unwrap();
    assert_eq!(chosen.present, 0);
    assert_eq!(chosen.graphics, 0);
    assert_eq!(chosen.transfer, 2);
    assert_eq!(chosen.compute, 1);
    assert_eq!(chosen.families, vec![0, 1, 2]);
}

#[test]
fn one_family_can_serve_every_role() {
    let chosen = find_queues(&vec![family(0b0111, true)]).unwrap();
    assert_eq!(
        (chosen.present, chosen.graphics, chosen.transfer, chosen.compute),
        (0, 0, 0, 0)
    );
    assert_eq!(chosen.families, vec![0]);
}

#[test]
fn a_family_in_use_is_avoided() {
    let families = vec![family(0b0001, true), family(0b0001, true), family(0b0110, false)];
    let chosen = find_queues(&families).unwrap();
    assert_eq!(chosen.present, 0);
    assert_eq!(chosen.graphics, 1);
    assert_eq!(chosen.transfer, 2);
    assert_eq!(chosen.compute, 2);
    assert_eq!(chosen.families, vec![0, 1, 2]);
}

#[test]
fn a_device_without_a_queue_for_a_role_has_no_queue_families() {
    assert!(find_queues(&vec![family(0b0011, true)]).is_none());
    assert!(find_queues(&vec![family(0b0111, false)]).is_none());
    assert!(find_queues(&Vec::new()).is_none());
}

#[test]
fn a_device_is_suitable_only_with_everything_in_place() {
    assert!(is_suitable(&gpu(2)).is_some());
    let mut old = gpu(2);
    old.api_version = API_VERSION_1_3 - 1;
    assert!(is_suitable(&old).is_none());
    let mut bare = gpu(2);
    bare.extensions = Some(vec!["VK_KHR_swapchain".to_string()]);
    assert!(is_suitable(&bare).is_none());
    let mut blind = gpu(2);
    blind.surface_formats = Some(0);
    assert!(is_suitable(&blind).is_none());
    let mut mute = gpu(2);
    mute.surface_present_modes = None;
    assert!(is_suitable(&mute).is_none());
    let mut lame = gpu(2);
    lame.queue_families = vec![family(0b0001, true)];
    assert!(is_suitable(&lame).is_none());
}

#[test]
fn the_device_liked_most_is_picked_and_of_equals_the_last() {
    let gpus = vec![
        gpu(consts::DEVICE_TYPE_INTEGRATED_GPU),
        gpu(consts::DEVICE_TYPE_DISCRETE_GPU),
        gpu(consts::DEVICE_TYPE_CPU),
        gpu(consts::DEVICE_TYPE_DISCRETE_GPU),
        gpu(consts::DEVICE_TYPE_VIRTUAL_GPU),
    ];
    let (picked, chosen) = pick_gpu(&gpus).unwrap();
    assert_eq!(picked, 3);
    assert_eq!(chosen.families, vec![0]);
    let first_three = vec![
        gpu(consts::DEVICE_TYPE_INTEGRATED_GPU),
        gpu(consts::DEVICE_TYPE_DISCRETE_GPU),
        gpu(consts::DEVICE_TYPE_CPU),
    ];
    let (picked, _) = pick_gpu(&first_three).unwrap();
    assert_eq!(picked, 1);
}

#[test]
fn an_unsuitable_device_is_never_picked() {
    let mut best = gpu(consts::DEVICE_TYPE_DISCRETE_GPU);
    best.extensions = None;
    let gpus = vec![best, gpu(consts::DEVICE_TYPE_OTHER)];
    let (picked, _) = pick_gpu(&gpus).unwrap();
    assert_eq!(picked, 1);
}

#[test]
fn without_a_suitable_device_nothing_is_picked() {
    assert!(matches!(pick_gpu(&Vec::new()), Err(Error::NoSuitableGpu)));
    let mut only = gpu(2);
    only.surface_formats = None;
    assert!(matches!(pick_gpu(&vec![only]), Err(Error::NoSuitableGpu)));
}
