use ash::vk;
use omfg_layer::config::{DebugView, Mode};
use omfg_layer::heuristics::clamp_coord;
use omfg_layer::layer::{
    acquire_timed_out, result_is_usable, choose_present_action, device_command_for_name, instance_command_for_name,
    needs_history_image, negotiate_loader_interface, present_log_due, present_log_prefix,
    write_c_char_array, LayerCommand, PresentAction, VkLayerFunction, VkNegotiateLayerStructType,
    CURRENT_LOADER_LAYER_INTERFACE_VERSION,
};
use omfg_layer::memory::find_memory_type;
use omfg_layer::passes::{
    pass_dispatch_extent, pass_input_bindings, pass_output_bindings, ImageSlot, PASS_COUNT,
};
use omfg_layer::planner::{
    mark_injection_result, mutate_swapchain, planned_sequence, ImageUsage, PresentSequence,
    SimulatedPresentState,
};
use omfg_layer::text::{
    format_extent, format_hex, format_log_line, present_mode_name, str_equal, usage_flags,
};

const ALL_MODES: [Mode; 19] = [
    Mode::PassThrough,
    Mode::ClearTest,
    Mode::BfiTest,
    Mode::CopyTest,
    Mode::HistoryCopyTest,
    Mode::BlendTest,
    Mode::AdaptiveBlendTest,
    Mode::SearchBlendTest,
    Mode::SearchAdaptiveBlendTest,
    Mode::ReprojectBlendTest,
    Mode::ReprojectAdaptiveBlendTest,
    Mode::OptFlowBlendTest,
    Mode::OptFlowAdaptiveBlendTest,
    Mode::OptFlowMultiBlendTest,
    Mode::OptFlowAdaptiveMultiBlendTest,
    Mode::ReprojectMultiBlendTest,
    Mode::ReprojectAdaptiveMultiBlendTest,
    Mode::MultiBlendTest,
    Mode::AdaptiveMultiBlendTest,
];

const ALL_VIEWS: [DebugView; 7] = [
    DebugView::Off,
    DebugView::Motion,
    DebugView::Confidence,
    DebugView::Ambiguity,
    DebugView::Disocclusion,
    DebugView::HoleFill,
    DebugView::Fallback,
];

#[test]
fn every_mode_name_parses_back_to_its_mode() {
    for mode in ALL_MODES {
        assert_eq!(Mode::from_env_value(Some(mode.name())), mode, "mode {:?}", mode);
    }
}

#[test]
fn every_debug_view_name_parses_back_and_codes_are_distinct() {
    for (index, view) in ALL_VIEWS.iter().enumerate() {
        assert_eq!(DebugView::from_env_value(Some(view.name())), *view);
        assert_eq!(view.shader_code() as usize, index);
    }
    assert_eq!(DebugView::from_env_value(None), DebugView::Off);
}

#[test]
fn mode_parsing_is_exact_and_case_sensitive() {
    assert_eq!(Mode::from_env_value(Some("Clear")), Mode::PassThrough);
    assert_eq!(Mode::from_env_value(Some(" clear")), Mode::PassThrough);
    assert_eq!(Mode::from_env_value(Some("clear-tes")), Mode::PassThrough);
    assert_eq!(Mode::from_env_value(Some("passthrough")), Mode::PassThrough);
}

#[test]
fn mutation_keeps_every_requested_usage_bit() {
    let requested = ImageUsage::from_raw(
        vk::ImageUsageFlags::COLOR_ATTACHMENT.as_raw() | vk::ImageUsageFlags::STORAGE.as_raw(),
    );
    for mode in ALL_MODES {
        let result = mutate_swapchain(mode, 2, requested, Some(8));
        assert!(result.modified_usage.contains(requested), "mode {:?}", mode);
    }
}

#[test]
fn mutation_saturates_the_image_count() {
    let usage = ImageUsage::from_raw(0);
    let result = mutate_swapchain(Mode::MultiBlendTest, u32::MAX - 1, usage, None);
    assert_eq!(result.modified_min_image_count, u32::MAX);
    assert_eq!(
        result.modified_usage.as_raw(),
        vk::ImageUsageFlags::TRANSFER_SRC.as_raw() | vk::ImageUsageFlags::SAMPLED.as_raw()
    );
}

#[test]
fn mutation_cap_can_go_below_the_request_but_pass_through_ignores_it() {
    let usage = ImageUsage::from_raw(0);
    assert_eq!(mutate_swapchain(Mode::CopyTest, 5, usage, Some(4)).modified_min_image_count, 4);
    assert_eq!(mutate_swapchain(Mode::PassThrough, 7, usage, Some(4)).modified_min_image_count, 7);
    assert_eq!(mutate_swapchain(Mode::PassThrough, 7, usage, Some(4)).modified_usage, usage);
}

#[test]
fn history_modes_prime_once_even_after_a_failed_prime() {
    for mode in ALL_MODES {
        let mut state = SimulatedPresentState::default();
        let first = planned_sequence(mode, &state);
        mark_injection_result(mode, &mut state, false);
        let second = planned_sequence(mode, &state);
        if first == PresentSequence::PrimeHistory {
            assert_eq!(second, PresentSequence::GeneratedThenOriginal, "mode {:?}", mode);
            assert!(state.history_valid);
        } else {
            assert_eq!(first, second, "mode {:?}", mode);
        }
        assert_eq!(state.generated_present_count, 0);
        assert!(!state.injection_works);
    }
}

#[test]
fn generated_count_steps_by_the_mode_frame_count() {
    let mut state = SimulatedPresentState {
        history_valid: true,
        injection_works: false,
        generated_present_count: 40,
    };
    mark_injection_result(Mode::OptFlowAdaptiveMultiBlendTest, &mut state, true);
    assert_eq!(state.generated_present_count, 42);
    mark_injection_result(Mode::BfiTest, &mut state, true);
    assert_eq!(state.generated_present_count, 43);
    mark_injection_result(Mode::PassThrough, &mut state, true);
    assert_eq!(state.generated_present_count, 43);
    assert!(state.injection_works);
}

#[test]
fn dispatch_extent_covers_tiny_and_empty_frames() {
    assert_eq!(pass_dispatch_extent(0, 0, 0), (1, 1));
    assert_eq!(pass_dispatch_extent(7, 7, 7), (1, 1));
    assert_eq!(pass_dispatch_extent(0, 17, 16), (2, 1));
    assert_eq!(pass_dispatch_extent(9, 1920, 1080), (30, 17));
    assert_eq!(pass_dispatch_extent(19, 1920, 1080), (120, 68));
    assert_eq!(pass_dispatch_extent(0, u32::MAX - 16, 1), (268435455, 1));
}

#[test]
fn bindings_are_numbered_consecutively_and_never_alias() {
    for pass in 0..(PASS_COUNT + 2) {
        let inputs = pass_input_bindings(pass);
        let outputs = pass_output_bindings(pass);
        for (i, binding) in inputs.iter().enumerate() {
            assert_eq!(binding.0, 32 + i as u32);
        }
        for (i, binding) in outputs.iter().enumerate() {
            assert_eq!(binding.0, 48 + i as u32);
        }
        for input in &inputs {
            for output in &outputs {
                assert_ne!(input.1, output.1, "pass {}", pass);
            }
        }
        if pass >= PASS_COUNT {
            assert!(inputs.is_empty() && outputs.is_empty());
        }
    }
    assert_eq!(pass_output_bindings(18), vec![(48, ImageSlot::Output)]);
    assert_eq!(pass_output_bindings(3), vec![(48, ImageSlot::Feature(2))]);
}

#[test]
fn memory_type_choice_takes_the_first_suitable_type() {
    let device_local = vk::MemoryPropertyFlags::DEVICE_LOCAL.as_raw();
    let host = vk::MemoryPropertyFlags::HOST_VISIBLE.as_raw()
        | vk::MemoryPropertyFlags::HOST_COHERENT.as_raw();
    let types = [device_local, host, device_local | host];
    assert_eq!(find_memory_type(&types, 0b111, device_local), Some(0));
    assert_eq!(find_memory_type(&types, 0b110, device_local), Some(2));
    assert_eq!(find_memory_type(&types, 0b111, host), Some(1));
    assert_eq!(find_memory_type(&types, 0b001, host), None);
    assert_eq!(find_memory_type(&[], 0b111, 0), None);
}

#[test]
fn negotiation_requires_interface_and_version_two() {
    assert_eq!(
        negotiate_loader_interface(VkNegotiateLayerStructType::Interface, 2),
        Some(CURRENT_LOADER_LAYER_INTERFACE_VERSION)
    );
    assert_eq!(negotiate_loader_interface(VkNegotiateLayerStructType::Interface, 5), Some(2));
    assert_eq!(negotiate_loader_interface(VkNegotiateLayerStructType::Interface, 1), None);
    assert_eq!(negotiate_loader_interface(VkNegotiateLayerStructType::Uninitialized, 2), None);
    assert_eq!(VkNegotiateLayerStructType::from_raw(1), Some(VkNegotiateLayerStructType::Interface));
    assert_eq!(VkNegotiateLayerStructType::from_raw(7), None);
    assert_eq!(VkLayerFunction::from_raw(0), Some(VkLayerFunction::LinkInfo));
    assert_eq!(VkLayerFunction::LoaderFeatures.as_raw(), 3);
    assert_eq!(VkLayerFunction::from_raw(-1), None);
}

#[test]
fn proc_addr_returns_known_exports() {
    assert!(instance_command_for_name("vkCreateInstance").is_some());
    assert!(instance_command_for_name("vkQueuePresentKHR").is_some());
    assert!(device_command_for_name("vkQueuePresentKHR").is_some());
    assert!(device_command_for_name("vkGetDeviceQueue2").is_some());
}

#[test]
fn device_lookups_agree_with_instance_lookups() {
    let names = [
        "vkGetInstanceProcAddr",
        "vkGetDeviceProcAddr",
        "vkCreateInstance",
        "vkDestroyInstance",
        "vkCreateDevice",
        "vkDestroyDevice",
        "vkGetDeviceQueue",
        "vkGetDeviceQueue2",
        "vkCreateSwapchainKHR",
        "vkDestroySwapchainKHR",
        "vkQueuePresentKHR",
        "vkEnumerateInstanceLayerProperties",
        "vkEnumerateDeviceExtensionProperties",
        "vkCmdDraw",
    ];
    for name in names {
        if let Some(command) = device_command_for_name(name) {
            assert_eq!(instance_command_for_name(name), Some(command), "{}", name);
        }
    }
    assert_eq!(device_command_for_name("vkCreateInstance"), None);
    assert_eq!(instance_command_for_name("vkCmdDraw"), None);
    assert_eq!(
        instance_command_for_name("vkEnumerateDeviceLayerProperties"),
        Some(LayerCommand::EnumerateDeviceLayerProperties)
    );
}

#[test]
fn present_actions_follow_mode_sequence_and_queue() {
    assert_eq!(
        choose_present_action(Mode::ClearTest, PresentSequence::OriginalThenGenerated, true),
        PresentAction::PresentThenClear
    );
    assert_eq!(
        choose_present_action(Mode::CopyTest, PresentSequence::OriginalThenGenerated, true),
        PresentAction::CopyFrame
    );
    assert_eq!(
        choose_present_action(Mode::HistoryCopyTest, PresentSequence::PrimeHistory, true),
        PresentAction::HistoryCopyFrame
    );
    assert_eq!(
        choose_present_action(Mode::BlendTest, PresentSequence::GeneratedThenOriginal, true),
        PresentAction::BlendFrame
    );
    assert_eq!(
        choose_present_action(Mode::BlendTest, PresentSequence::GeneratedThenOriginal, false),
        PresentAction::PassThrough
    );
    assert_eq!(
        choose_present_action(Mode::BfiTest, PresentSequence::OriginalThenGenerated, true),
        PresentAction::PassThrough
    );
    assert!(present_log_due(1) && present_log_due(5) && present_log_due(120));
    assert!(!present_log_due(6) && !present_log_due(61));
    assert_eq!(present_log_prefix(Mode::CopyTest), "vkQueuePresentKHR frame=");
    assert_eq!(present_log_prefix(Mode::MultiBlendTest), "vkQueuePresentKHR passthrough frame=");
    assert!(needs_history_image(Mode::BlendTest) && !needs_history_image(Mode::CopyTest));
}

#[test]
fn c_char_array_is_zero_filled_and_truncated() {
    let mut short = [7u8; 6];
    write_c_char_array(&mut short, b"ab\0");
    assert_eq!(short, [b'a', b'b', 0, 0, 0, 0]);
    let mut tight = [7u8; 3];
    write_c_char_array(&mut tight, b"abcd\0");
    assert_eq!(tight, [b'a', b'b', b'c']);
}

#[test]
fn clamp_coord_clamps_into_the_axis() {
    assert_eq!(clamp_coord(-3, 5), 0);
    assert_eq!(clamp_coord(2, 5), 2);
    assert_eq!(clamp_coord(10, 5), 4);
    assert_eq!(clamp_coord(10, 0), 0);
}

#[test]
fn text_helpers_format_numbers_and_names() {
    assert_eq!(format_hex(0), "0x0");
    assert_eq!(format_hex(255), "0xff");
    assert_eq!(format_hex(u64::MAX), "0xffffffffffffffff");
    assert_eq!(format_extent(1920, 1080), "1920x1080");
    assert_eq!(format_extent(0, 7), "0x7");
    assert_eq!(present_mode_name(vk::PresentModeKHR::IMMEDIATE.as_raw()), "IMMEDIATE");
    assert_eq!(present_mode_name(vk::PresentModeKHR::MAILBOX.as_raw()), "MAILBOX");
    assert_eq!(present_mode_name(vk::PresentModeKHR::FIFO.as_raw()), "FIFO");
    assert_eq!(present_mode_name(vk::PresentModeKHR::FIFO_RELAXED.as_raw()), "FIFO_RELAXED");
    assert_eq!(present_mode_name(1000111000), "1000111000");
    assert_eq!(present_mode_name(-5), "-5");
    assert_eq!(present_mode_name(i32::MIN), "-2147483648");
    assert_eq!(format_log_line("info", 1234, "hello"), "[ppfg][info][1234] hello\n");
    assert!(str_equal("abc", "abc") && !str_equal("abc", "abd") && !str_equal("ab", "abc"));
}

#[test]
fn usage_description_names_set_bits_in_order() {
    let usage = |flags: vk::ImageUsageFlags| ImageUsage::from_raw(flags.as_raw());
    assert_eq!(usage_flags(usage(vk::ImageUsageFlags::COLOR_ATTACHMENT)), "COLOR_ATTACHMENT (0x10)");
    assert_eq!(
        usage_flags(usage(
            vk::ImageUsageFlags::COLOR_ATTACHMENT
                | vk::ImageUsageFlags::TRANSFER_SRC
                | vk::ImageUsageFlags::TRANSFER_DST
        )),
        "TRANSFER_SRC|TRANSFER_DST|COLOR_ATTACHMENT (0x13)"
    );
    assert_eq!(
        usage_flags(usage(
            vk::ImageUsageFlags::SAMPLED
                | vk::ImageUsageFlags::STORAGE
                | vk::ImageUsageFlags::DEPTH_STENCIL_ATTACHMENT
                | vk::ImageUsageFlags::TRANSIENT_ATTACHMENT
                | vk::ImageUsageFlags::INPUT_ATTACHMENT
        )),
        "SAMPLED|STORAGE|DEPTH_STENCIL_ATTACHMENT|TRANSIENT_ATTACHMENT|INPUT_ATTACHMENT (0xec)"
    );
    assert_eq!(usage_flags(ImageUsage::from_raw(0)), "0 (0x0)");
    assert_eq!(usage_flags(ImageUsage::from_raw(0x100)), "0 (0x100)");
}

#[test]
fn present_and_acquire_results_are_classified() {
    assert!(result_is_usable(vk::Result::SUCCESS.as_raw()));
    assert!(result_is_usable(vk::Result::SUBOPTIMAL_KHR.as_raw()));
    assert!(!result_is_usable(vk::Result::ERROR_OUT_OF_DATE_KHR.as_raw()));
    assert!(!result_is_usable(vk::Result::TIMEOUT.as_raw()));
    assert!(acquire_timed_out(vk::Result::TIMEOUT.as_raw()));
    assert!(acquire_timed_out(vk::Result::NOT_READY.as_raw()));
    assert!(!acquire_timed_out(vk::Result::SUCCESS.as_raw()));
    assert!(!acquire_timed_out(vk::Result::ERROR_DEVICE_LOST.as_raw()));
}
