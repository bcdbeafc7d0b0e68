use pupsy_engine::constants;
use pupsy_engine::debug::check_validation_layer_support;
use pupsy_engine::device::{
    check_device_extension_support, find_queue_family, is_physical_device_suitable,
    pick_physical_device, unique_queue_families, PhysicalDeviceInfo, QueueFamilyIndices,
    QueueFamilySupport,
};
use pupsy_engine::fps::FPSManager;
use pupsy_engine::frame::{AcquireOutcome, FrameAction, FrameSlots, FrameState};
use pupsy_engine::presenter::{PresentationState, RendererResources, SwapchainStatus};
use pupsy_engine::swapchain::{
    choose_sharing_mode, choose_swapchain_extent, choose_swapchain_format,
    choose_swapchain_present_mode, swapchain_image_count, Extent2D, SurfaceCapabilities,
    SurfaceFormat, COLOR_SPACE_SRGB_NONLINEAR, FORMAT_B8G8R8A8_SRGB, PRESENT_MODE_MAILBOX,
    SHARING_MODE_CONCURRENT, SHARING_MODE_EXCLUSIVE,
};
use pupsy_engine::tools::{bytes_eq, contains_name, vk_to_string};
use pupsy_engine::version::{
    api_version, api_version_major, api_version_minor, api_version_patch, make_api_version,
};

fn family(queue_count: u32, graphics: bool, present: bool) -> QueueFamilySupport {
    QueueFamilySupport {
        queue_count,
        supports_graphics: graphics,
        supports_present: present,
    }
}

fn names(list: &[&str]) -> Vec<Vec<u8>> {
    list.iter().map(|s| s.as_bytes().to_vec()).collect()
}

#[test]
fn version_packs_fields_into_expected_word() {
    assert_eq!(make_api_version(0, 1, 0, 0), 1 << 22);
    assert_eq!(make_api_version(0, 1, 2, 3), (1 << 22) | (2 << 12) | 3);
    assert_eq!(api_version(), 1 << 22);
}

#[test]
fn version_fields_read_back() {
    let v = make_api_version(0, 1, 3, 281);
    assert_eq!(api_version_major(v), 1);
    assert_eq!(api_version_minor(v), 3);
    assert_eq!(api_version_patch(v), 281);
}

#[test]
fn vk_to_string_stops_at_first_zero() {
    let mut raw = b"VK_KHR_swapchain".to_vec();
    raw.push(0);
    raw.extend_from_slice(b"leftover");
    assert_eq!(vk_to_string(&raw), b"VK_KHR_swapchain".to_vec());
}

#[test]
fn vk_to_string_of_leading_zero_is_empty() {
    let raw = vec![0u8, b'a', b'b'];
    assert_eq!(vk_to_string(&raw), Vec::<u8>::new());
}

#[test]
fn bytes_eq_compares_contents() {
    assert!(bytes_eq(&b"abc".to_vec(), &b"abc".to_vec()));
    assert!(!bytes_eq(&b"abc".to_vec(), &b"abd".to_vec()));
    assert!(!bytes_eq(&b"abc".to_vec(), &b"ab".to_vec()));
}

#[test]
fn contains_name_finds_exact_match_only() {
    let available = names(&["VK_KHR_surface", "VK_KHR_swapchain"]);
    assert!(contains_name(&available, &b"VK_KHR_swapchain".to_vec()));
    assert!(!contains_name(&available, &b"VK_KHR_swap".to_vec()));
}

#[test]
fn device_extension_support_requires_every_name() {
    let available = names(&["VK_KHR_surface", "VK_KHR_swapchain"]);
    assert!(check_device_extension_support(
        &names(&["VK_KHR_swapchain"]),
        &available
    ));
    assert!(!check_device_extension_support(
        &names(&["VK_KHR_swapchain", "VK_KHR_display"]),
        &available
    ));
    assert!(check_device_extension_support(&names(&[]), &available));
}

#[test]
fn validation_layer_support_needs_layers_present() {
    let available = names(&["VK_LAYER_KHRONOS_validation", "VK_LAYER_other"]);
    assert!(check_validation_layer_support(
        &names(&["VK_LAYER_KHRONOS_validation"]),
        &available
    ));
    assert!(!check_validation_layer_support(
        &names(&["VK_LAYER_missing"]),
        &available
    ));
    assert!(!check_validation_layer_support(&names(&[]), &names(&[])));
}

#[test]
fn queue_family_indices_start_incomplete() {
    let indices = QueueFamilyIndices::new();
    assert!(indices.graphics_family.is_none());
    assert!(indices.present_family.is_none());
    assert!(!indices.is_complete());
}

#[test]
fn find_queue_family_picks_first_graphics_and_last_present_seen() {
    let families = vec![family(1, false, true), family(1, true, false)];
    let r = find_queue_family(&families);
    assert_eq!(r.graphics_family, Some(1));
    assert_eq!(r.present_family, Some(0));
    assert!(r.is_complete());
}

#[test]
fn find_queue_family_stops_scanning_once_complete() {
    let families = vec![family(1, true, false), family(1, false, true)];
    let r = find_queue_family(&families);
    assert_eq!(r.graphics_family, Some(0));
    assert_eq!(r.present_family, None);
}

#[test]
fn find_queue_family_ignores_empty_families() {
    let families = vec![family(0, true, true), family(2, true, true)];
    let r = find_queue_family(&families);
    assert_eq!(r.graphics_family, Some(1));
    assert_eq!(r.present_family, Some(1));
}

#[test]
fn find_queue_family_without_graphics_scans_everything() {
    let families = vec![family(1, false, true), family(1, false, true)];
    let r = find_queue_family(&families);
    assert_eq!(r.graphics_family, None);
    assert_eq!(r.present_family, Some(1));
}

#[test]
fn suitable_device_needs_all_three_conditions() {
    let good = PhysicalDeviceInfo {
        queue_families: vec![family(1, true, true)],
        supports_required_extensions: true,
        surface_format_count: 1,
        present_mode_count: 1,
    };
    assert!(is_physical_device_suitable(&good));

    let no_graphics = PhysicalDeviceInfo {
        queue_families: vec![family(1, false, true)],
        supports_required_extensions: true,
        surface_format_count: 1,
        present_mode_count: 1,
    };
    assert!(!is_physical_device_suitable(&no_graphics));

    let no_extensions = PhysicalDeviceInfo {
        queue_families: vec![family(1, true, true)],
        supports_required_extensions: false,
        surface_format_count: 1,
        present_mode_count: 1,
    };
    assert!(!is_physical_device_suitable(&no_extensions));

    let no_formats = PhysicalDeviceInfo {
        queue_families: vec![family(1, true, true)],
        supports_required_extensions: true,
        surface_format_count: 0,
        present_mode_count: 1,
    };
    assert!(!is_physical_device_suitable(&no_formats));
}

#[test]
fn pick_physical_device_takes_first_suitable() {
    let devices = vec![
        PhysicalDeviceInfo {
            queue_families: vec![family(1, false, false)],
            supports_required_extensions: true,
            surface_format_count: 1,
            present_mode_count: 1,
        },
        PhysicalDeviceInfo {
            queue_families: vec![family(1, true, true)],
            supports_required_extensions: true,
            surface_format_count: 1,
            present_mode_count: 1,
        },
    ];
    assert_eq!(pick_physical_device(&devices), Some(1));
    assert_eq!(pick_physical_device(&Vec::new()), None);
}

#[test]
fn unique_queue_families_deduplicates() {
    let same = unique_queue_families(3, 3);
    assert_eq!(same, vec![3]);
    let mut different = unique_queue_families(3, 5);
    different.sort();
    assert_eq!(different, vec![3, 5]);
}

#[test]
fn format_choice_prefers_bgra_srgb() {
    let formats = vec![
        SurfaceFormat {
            format: 44,
            color_space: COLOR_SPACE_SRGB_NONLINEAR,
        },
        SurfaceFormat {
            format: FORMAT_B8G8R8A8_SRGB,
            color_space: COLOR_SPACE_SRGB_NONLINEAR,
        },
    ];
    let r = choose_swapchain_format(&formats);
    assert_eq!(r.format, FORMAT_B8G8R8A8_SRGB);
    assert_eq!(r.color_space, COLOR_SPACE_SRGB_NONLINEAR);
}

#[test]
fn format_choice_falls_back_to_first() {
    let formats = vec![
        SurfaceFormat {
            format: 44,
            color_space: 7,
        },
        SurfaceFormat {
            format: 45,
            color_space: 7,
        },
    ];
    let r = choose_swapchain_format(&formats);
    assert_eq!(r.format, 44);
    assert_eq!(r.color_space, 7);
}

#[test]
fn present_mode_choice_prefers_mailbox() {
    assert_eq!(
        choose_swapchain_present_mode(&vec![2, PRESENT_MODE_MAILBOX, 0]),
        PRESENT_MODE_MAILBOX
    );
    assert_eq!(choose_swapchain_present_mode(&vec![2, 0]), 2);
}

fn caps(
    min_count: u32,
    max_count: u32,
    current: (u32, u32),
    min_extent: (u32, u32),
    max_extent: (u32, u32),
) -> SurfaceCapabilities {
    SurfaceCapabilities {
        min_image_count: min_count,
        max_image_count: max_count,
        current_extent: Extent2D {
            width: current.0,
            height: current.1,
        },
        min_image_extent: Extent2D {
            width: min_extent.0,
            height: min_extent.1,
        },
        max_image_extent: Extent2D {
            width: max_extent.0,
            height: max_extent.1,
        },
    }
}

#[test]
fn extent_choice_takes_fixed_surface_extent() {
    let c = caps(2, 0, (640, 480), (1, 1), (4096, 4096));
    let e = choose_swapchain_extent(&c);
    assert_eq!((e.width, e.height), (640, 480));
}

#[test]
fn extent_choice_clamps_window_size_when_surface_leaves_it_open() {
    let c = caps(2, 0, (u32::MAX, u32::MAX), (100, 100), (500, 500));
    let e = choose_swapchain_extent(&c);
    assert_eq!((e.width, e.height), (500, 500));

    let c2 = caps(2, 0, (u32::MAX, u32::MAX), (1000, 900), (2000, 950));
    let e2 = choose_swapchain_extent(&c2);
    assert_eq!((e2.width, e2.height), (1000, 900));

    let c3 = caps(2, 0, (u32::MAX, u32::MAX), (1, 1), (4096, 4096));
    let e3 = choose_swapchain_extent(&c3);
    assert_eq!(
        (e3.width, e3.height),
        (constants::WINDOW_WIDTH, constants::WINDOW_HEIGHT)
    );
}

#[test]
fn image_count_is_one_over_minimum_capped_by_maximum() {
    assert_eq!(swapchain_image_count(&caps(2, 0, (1, 1), (1, 1), (1, 1))), 3);
    assert_eq!(swapchain_image_count(&caps(2, 3, (1, 1), (1, 1), (1, 1))), 3);
    assert_eq!(swapchain_image_count(&caps(3, 3, (1, 1), (1, 1), (1, 1))), 3);
}

#[test]
fn sharing_mode_concurrent_only_across_distinct_families() {
    let split = QueueFamilyIndices {
        graphics_family: Some(0),
        present_family: Some(2),
    };
    let plan = choose_sharing_mode(&split);
    assert_eq!(plan.sharing_mode, SHARING_MODE_CONCURRENT);
    assert_eq!(plan.queue_family_index_count, 2);
    assert_eq!(plan.queue_family_indices, vec![0, 2]);

    let joint = QueueFamilyIndices {
        graphics_family: Some(1),
        present_family: Some(1),
    };
    let plan2 = choose_sharing_mode(&joint);
    assert_eq!(plan2.sharing_mode, SHARING_MODE_EXCLUSIVE);
    assert_eq!(plan2.queue_family_index_count, 0);
    assert!(plan2.queue_family_indices.is_empty());

    let absent = QueueFamilyIndices {
        graphics_family: None,
        present_family: None,
    };
    let plan3 = choose_sharing_mode(&absent);
    assert_eq!(plan3.sharing_mode, SHARING_MODE_EXCLUSIVE);
    assert_eq!(plan3.queue_family_index_count, 0);
    assert!(plan3.queue_family_indices.is_empty());
}

#[test]
fn acquire_outcome_maps_to_frame_action() {
    assert!(matches!(
        FrameState::acquire_action(&AcquireOutcome::Success(2)),
        FrameAction::Render(2)
    ));
    assert!(matches!(
        FrameState::acquire_action(&AcquireOutcome::OutOfDate),
        FrameAction::SkipAndRecreate
    ));
}

#[test]
fn advance_frame_cycles_through_the_slots() {
    let mut state = FrameState::new();
    assert_eq!(state.current_frame, 0);
    state.advance_frame();
    assert_eq!(state.current_frame, 1);
    state.advance_frame();
    assert_eq!(state.current_frame, 0);
}

#[test]
fn frame_slot_wraps_inside_fixed_range() {
    let mut state = FrameState::new();
    for _ in 0..5 {
        state.advance_frame();
        assert!(state.current_frame < constants::MAX_FRAMES_IN_FLIGHT);
    }
}

#[test]
fn presentation_goes_stale_on_bad_status_only() {
    let presenting = PresentationState::Presenting;
    assert_eq!(
        presenting.observe(&SwapchainStatus::UpToDate),
        PresentationState::Presenting
    );
    assert_eq!(
        presenting.observe(&SwapchainStatus::Suboptimal),
        PresentationState::Stale
    );
    assert_eq!(
        presenting.observe(&SwapchainStatus::OutOfDate),
        PresentationState::Stale
    );
    let stale = PresentationState::Stale;
    assert_eq!(
        stale.observe(&SwapchainStatus::UpToDate),
        PresentationState::Stale
    );
}

#[test]
fn recovery_returns_presentation_to_healthy() {
    let stale = PresentationState::Stale;
    assert_eq!(stale.recovered(), PresentationState::Presenting);
    assert_eq!(
        stale.recovered().observe(&SwapchainStatus::UpToDate),
        PresentationState::Presenting
    );
}

#[test]
fn recreation_rebuilds_only_swapchain_sized_resources() {
    let mut resources = RendererResources::initial(3);
    assert_eq!(resources.semaphore_count, 2 * constants::MAX_FRAMES_IN_FLIGHT);
    assert_eq!(resources.fence_count, constants::MAX_FRAMES_IN_FLIGHT);
    assert_eq!(resources.image_view_count, 3);
    assert_eq!(resources.framebuffer_count, 3);
    assert_eq!(resources.command_buffer_count, 3);

    resources.recreate_swapchain(4);
    assert_eq!(resources.semaphore_count, 2 * constants::MAX_FRAMES_IN_FLIGHT);
    assert_eq!(resources.fence_count, constants::MAX_FRAMES_IN_FLIGHT);
    assert_eq!(resources.image_view_count, 4);
    assert_eq!(resources.framebuffer_count, 4);
    assert_eq!(resources.command_buffer_count, 4);
}

#[test]
fn frame_slots_track_one_submission_per_slot() {
    let mut slots = FrameSlots::new();
    assert_eq!(slots.busy, vec![false; constants::MAX_FRAMES_IN_FLIGHT]);

    slots.submit(0);
    assert!(slots.busy[0]);
    assert!(!slots.busy[1]);

    slots.fence_cleared(0);
    assert!(!slots.busy[0]);

    slots.submit(1);
    assert!(!slots.busy[0]);
    assert!(slots.busy[1]);
}

#[test]
fn fps_update_tracks_elapsed_time() {
    let mut fps = FPSManager::new();
    assert_eq!(fps.delta_time, 0);
    assert_eq!(fps.last_time, 0);

    fps.update(1000);
    assert_eq!(fps.delta_time, 1000);
    assert_eq!(fps.last_time, 1000);

    fps.update(1000);
    assert_eq!(fps.delta_time, 0);
    assert_eq!(fps.last_time, 1000);

    fps.update(2500);
    assert_eq!(fps.delta_time, 1500);
    assert_eq!(fps.last_time, 2500);
}

#[test]
fn device_extension_struct_names_swapchain() {
    let required = constants::DeviceExtension {
        names: ["VK_KHR_swapchain"],
    };
    assert_eq!(required.names[0], "VK_KHR_swapchain");
    let validation = constants::ValidationInfo {
        is_enable: true,
        required_validation_layers: ["VK_LAYER_KHRONOS_validation"],
    };
    assert!(validation.is_enable);
    assert_eq!(validation.required_validation_layers[0], "VK_LAYER_KHRONOS_validation");
}
