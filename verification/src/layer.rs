//! Decisions of the layer's loader interface: interface negotiation, which
//! entry points the layer intercepts, and what a present does.
use vstd::prelude::*;

use crate::config::Mode;
use crate::planner::{sequence_for, PresentSequence};
use crate::text::str_equal;
use crate::vulkan::{
    ash_result_not_ready, ash_result_suboptimal, ash_result_success, ash_result_timeout,
    result_not_ready, result_suboptimal, result_success, result_timeout,
};

verus! {

/// The loader–layer interface version this layer implements.
pub const CURRENT_LOADER_LAYER_INTERFACE_VERSION: u32 = 2;

/// `sType` of the loader's interface-negotiation structure.
#[derive(Debug, Clone, Copy, PartialEq, Eq, Structural)]
pub enum VkNegotiateLayerStructType {
    Uninitialized,
    Interface,
}

/// The raw value of a negotiation structure type.
pub open spec fn negotiate_struct_type_raw(t: VkNegotiateLayerStructType) -> i32 {
    match t {
        VkNegotiateLayerStructType::Uninitialized => 0,
        VkNegotiateLayerStructType::Interface => 1,
    }
}

impl VkNegotiateLayerStructType {
    /// The value the loader writes for this structure type.
    pub fn as_raw(self) -> (r: i32)
        ensures
            r == negotiate_struct_type_raw(self),
    {
        match self {
            VkNegotiateLayerStructType::Uninitialized => 0,
            VkNegotiateLayerStructType::Interface => 1,
        }
    }

    /// The structure type with the given raw value, if there is one.
    pub fn from_raw(raw: i32) -> (r: Option<VkNegotiateLayerStructType>)
        ensures
            match r {
                Some(t) => negotiate_struct_type_raw(t) == raw,
                None => raw != 0 && raw != 1,
            },
    {
        if raw == 0 {
            Some(VkNegotiateLayerStructType::Uninitialized)
        } else if raw == 1 {
            Some(VkNegotiateLayerStructType::Interface)
        } else {
            None
        }
    }
}

/// The `function` field of the loader's layer create-info chain entries.
#[derive(Debug, Clone, Copy, PartialEq, Eq, Structural)]
pub enum VkLayerFunction {
    LinkInfo,
    LoaderDataCallback,
    LoaderLayerCreateDeviceCallback,
    LoaderFeatures,
}

/// The raw value of a layer function tag.
pub open spec fn layer_function_raw(f: VkLayerFunction) -> i32 {
    match f {
        VkLayerFunction::LinkInfo => 0,
        VkLayerFunction::LoaderDataCallback => 1,
        VkLayerFunction::LoaderLayerCreateDeviceCallback => 2,
        VkLayerFunction::LoaderFeatures => 3,
    }
}

impl VkLayerFunction {
    /// The value the loader writes for this tag.
    pub fn as_raw(self) -> (r: i32)
        ensures
            r == layer_function_raw(self),
    {
        match self {
            VkLayerFunction::LinkInfo => 0,
            VkLayerFunction::LoaderDataCallback => 1,
            VkLayerFunction::LoaderLayerCreateDeviceCallback => 2,
            VkLayerFunction::LoaderFeatures => 3,
        }
    }

    /// The tag with the given raw value, if there is one.
    pub fn from_raw(raw: i32) -> (r: Option<VkLayerFunction>)
        ensures
            match r {
                Some(f) => layer_function_raw(f) == raw,
                None => !(0 <= raw <= 3),
            },
    {
        if raw == 0 {
            Some(VkLayerFunction::LinkInfo)
        } else if raw == 1 {
            Some(VkLayerFunction::LoaderDataCallback)
        } else if raw == 2 {
            Some(VkLayerFunction::LoaderLayerCreateDeviceCallback)
        } else if raw == 3 {
            Some(VkLayerFunction::LoaderFeatures)
        } else {
            None
        }
    }
}

/// Answers the loader's interface negotiation: the version the layer will
/// speak, or `None` when the structure is not an interface-negotiation
/// structure or the loader offers a version older than 2.
pub fn negotiate_loader_interface(struct_type: VkNegotiateLayerStructType, offered_version: u32) -> (r:
    Option<u32>)
    ensures
        r == (if struct_type == VkNegotiateLayerStructType::Interface && offered_version >= 2 {
            Some(CURRENT_LOADER_LAYER_INTERFACE_VERSION)
        } else {
            None
        }),
{
    if struct_type != VkNegotiateLayerStructType::Interface {
        return None;
    }
    if offered_version < 2 {
        return None;
    }
    Some(CURRENT_LOADER_LAYER_INTERFACE_VERSION)
}

/// A Vulkan entry point that the layer implements itself.
#[derive(Debug, Clone, Copy, PartialEq, Eq, Structural)]
pub enum LayerCommand {
    GetInstanceProcAddr,
    GetDeviceProcAddr,
    CreateInstance,
    DestroyInstance,
    CreateDevice,
    DestroyDevice,
    GetDeviceQueue,
    GetDeviceQueue2,
    CreateSwapchainKHR,
    DestroySwapchainKHR,
    QueuePresentKHR,
    EnumerateInstanceLayerProperties,
    EnumerateInstanceExtensionProperties,
    EnumerateDeviceLayerProperties,
    EnumerateDeviceExtensionProperties,
}

/// The entry point that `vkGetInstanceProcAddr` answers with the layer's own
/// function for a command name; `None` means the call is forwarded down the chain.
pub open spec fn instance_command(name: Seq<char>) -> Option<LayerCommand> {
    if name == "vkGetInstanceProcAddr"@ {
        Some(LayerCommand::GetInstanceProcAddr)
    } else if name == "vkGetDeviceProcAddr"@ {
        Some(LayerCommand::GetDeviceProcAddr)
    } else if name == "vkCreateInstance"@ {
        Some(LayerCommand::CreateInstance)
    } else if name == "vkDestroyInstance"@ {
        Some(LayerCommand::DestroyInstance)
    } else if name == "vkCreateDevice"@ {
        Some(LayerCommand::CreateDevice)
    } else if name == "vkDestroyDevice"@ {
        Some(LayerCommand::DestroyDevice)
    } else if name == "vkGetDeviceQueue"@ {
        Some(LayerCommand::GetDeviceQueue)
    } else if name == "vkGetDeviceQueue2"@ {
        Some(LayerCommand::GetDeviceQueue2)
    } else if name == "vkCreateSwapchainKHR"@ {
        Some(LayerCommand::CreateSwapchainKHR)
    } else if name == "vkDestroySwapchainKHR"@ {
        Some(LayerCommand::DestroySwapchainKHR)
    } else if name == "vkQueuePresentKHR"@ {
        Some(LayerCommand::QueuePresentKHR)
    } else if name == "vkEnumerateInstanceLayerProperties"@ {
        Some(LayerCommand::EnumerateInstanceLayerProperties)
    } else if name == "vkEnumerateInstanceExtensionProperties"@ {
        Some(LayerCommand::EnumerateInstanceExtensionProperties)
    } else if name == "vkEnumerateDeviceLayerProperties"@ {
        Some(LayerCommand::EnumerateDeviceLayerProperties)
    } else if name == "vkEnumerateDeviceExtensionProperties"@ {
        Some(LayerCommand::EnumerateDeviceExtensionProperties)
    } else {
        None
    }
}

/// The entry point that `vkGetDeviceProcAddr` answers with the layer's own
/// function for a command name; `None` means the call is forwarded down the chain.
pub open spec fn device_command(name: Seq<char>) -> Option<LayerCommand> {
    if name == "vkGetDeviceProcAddr"@ {
        Some(LayerCommand::GetDeviceProcAddr)
    } else if name == "vkGetDeviceQueue"@ {
        Some(LayerCommand::GetDeviceQueue)
    } else if name == "vkGetDeviceQueue2"@ {
        Some(LayerCommand::GetDeviceQueue2)
    } else if name == "vkCreateSwapchainKHR"@ {
        Some(LayerCommand::CreateSwapchainKHR)
    } else if name == "vkDestroySwapchainKHR"@ {
        Some(LayerCommand::DestroySwapchainKHR)
    } else if name == "vkQueuePresentKHR"@ {
        Some(LayerCommand::QueuePresentKHR)
    } else if name == "vkDestroyDevice"@ {
        Some(LayerCommand::DestroyDevice)
    } else {
        None
    }
}

/// The layer's own entry point for a command name looked up through
/// `vkGetInstanceProcAddr`.
pub fn instance_command_for_name(name: &str) -> (r: Option<LayerCommand>)
    ensures
        r == instance_command(name@),
{
    if str_equal(name, "vkGetInstanceProcAddr") {
        Some(LayerCommand::GetInstanceProcAddr)
    } else if str_equal(name, "vkGetDeviceProcAddr") {
        Some(LayerCommand::GetDeviceProcAddr)
    } else if str_equal(name, "vkCreateInstance") {
        Some(LayerCommand::CreateInstance)
    } else if str_equal(name, "vkDestroyInstance") {
        Some(LayerCommand::DestroyInstance)
    } else if str_equal(name, "vkCreateDevice") {
        Some(LayerCommand::CreateDevice)
    } else if str_equal(name, "vkDestroyDevice") {
        Some(LayerCommand::DestroyDevice)
    } else if str_equal(name, "vkGetDeviceQueue") {
        Some(LayerCommand::GetDeviceQueue)
    } else if str_equal(name, "vkGetDeviceQueue2") {
        Some(LayerCommand::GetDeviceQueue2)
    } else if str_equal(name, "vkCreateSwapchainKHR") {
        Some(LayerCommand::CreateSwapchainKHR)
    } else if str_equal(name, "vkDestroySwapchainKHR") {
        Some(LayerCommand::DestroySwapchainKHR)
    } else if str_equal(name, "vkQueuePresentKHR") {
        Some(LayerCommand::QueuePresentKHR)
    } else if str_equal(name, "vkEnumerateInstanceLayerProperties") {
        Some(LayerCommand::EnumerateInstanceLayerProperties)
    } else if str_equal(name, "vkEnumerateInstanceExtensionProperties") {
        Some(LayerCommand::EnumerateInstanceExtensionProperties)
    } else if str_equal(name, "vkEnumerateDeviceLayerProperties") {
        Some(LayerCommand::EnumerateDeviceLayerProperties)
    } else if str_equal(name, "vkEnumerateDeviceExtensionProperties") {
        Some(LayerCommand::EnumerateDeviceExtensionProperties)
    } else {
        None
    }
}

/// The layer's own entry point for a command name looked up through
/// `vkGetDeviceProcAddr`.
pub fn device_command_for_name(name: &str) -> (r: Option<LayerCommand>)
    ensures
        r == device_command(name@),
{
    if str_equal(name, "vkGetDeviceProcAddr") {
        Some(LayerCommand::GetDeviceProcAddr)
    } else if str_equal(name, "vkGetDeviceQueue") {
        Some(LayerCommand::GetDeviceQueue)
    } else if str_equal(name, "vkGetDeviceQueue2") {
        Some(LayerCommand::GetDeviceQueue2)
    } else if str_equal(name, "vkCreateSwapchainKHR") {
        Some(LayerCommand::CreateSwapchainKHR)
    } else if str_equal(name, "vkDestroySwapchainKHR") {
        Some(LayerCommand::DestroySwapchainKHR)
    } else if str_equal(name, "vkQueuePresentKHR") {
        Some(LayerCommand::QueuePresentKHR)
    } else if str_equal(name, "vkDestroyDevice") {
        Some(LayerCommand::DestroyDevice)
    } else {
        None
    }
}

/// What the layer does with one present of the application.
#[derive(Debug, Clone, Copy, PartialEq, Eq, Structural)]
pub enum PresentAction {
    /// Forward the present unchanged.
    PassThrough,
    /// Forward the present, then present a cleared frame.
    PresentThenClear,
    /// Present the frame and a copy of it.
    CopyFrame,
    /// Present the previous frame's copy before the frame (or prime it).
    HistoryCopyFrame,
    /// Present a blended frame before the frame (or prime the history).
    BlendFrame,
}

/// The action for a present: a generated-frame path runs only on a queue the
/// layer tracks, and only for the modes that have one on the present path.
pub open spec fn present_action(
    mode: Mode,
    sequence: PresentSequence,
    have_queue: bool,
) -> PresentAction {
    if !have_queue {
        PresentAction::PassThrough
    } else {
        match sequence {
            PresentSequence::OriginalThenGenerated => if mode == Mode::ClearTest {
                PresentAction::PresentThenClear
            } else if mode == Mode::CopyTest {
                PresentAction::CopyFrame
            } else {
                PresentAction::PassThrough
            },
            PresentSequence::PrimeHistory | PresentSequence::GeneratedThenOriginal => if mode
                == Mode::HistoryCopyTest {
                PresentAction::HistoryCopyFrame
            } else if mode == Mode::BlendTest {
                PresentAction::BlendFrame
            } else {
                PresentAction::PassThrough
            },
            PresentSequence::PassThrough => PresentAction::PassThrough,
        }
    }
}

/// Chooses what a present does, from the mode, the planned sequence and
/// whether the presenting queue is tracked.
pub fn choose_present_action(mode: Mode, sequence: PresentSequence, have_queue: bool) -> (r:
    PresentAction)
    ensures
        r == present_action(mode, sequence, have_queue),
{
    match sequence {
        PresentSequence::PassThrough => PresentAction::PassThrough,
        PresentSequence::OriginalThenGenerated if matches!(mode, Mode::ClearTest) && have_queue => {
            PresentAction::PresentThenClear
        },
        PresentSequence::OriginalThenGenerated if matches!(mode, Mode::CopyTest) && have_queue => {
            PresentAction::CopyFrame
        },
        PresentSequence::PrimeHistory if matches!(mode, Mode::HistoryCopyTest) && have_queue => {
            PresentAction::HistoryCopyFrame
        },
        PresentSequence::GeneratedThenOriginal if matches!(mode, Mode::HistoryCopyTest)
            && have_queue => PresentAction::HistoryCopyFrame,
        PresentSequence::PrimeHistory if matches!(mode, Mode::BlendTest) && have_queue => {
            PresentAction::BlendFrame
        },
        PresentSequence::GeneratedThenOriginal if matches!(mode, Mode::BlendTest) && have_queue => {
            PresentAction::BlendFrame
        },
        _ => PresentAction::PassThrough,
    }
}

/// Whether the `n`-th present of a swapchain is logged: the first five and
/// every sixtieth.
pub fn present_log_due(present_count: u64) -> (r: bool)
    ensures
        r == (present_count <= 5 || present_count % 60 == 0),
{
    present_count <= 5 || present_count % 60 == 0
}

/// The prefix of a present's log line: modes with a generated-frame path on
/// the present path log plain frames, the others log pass-through frames.
pub fn present_log_prefix(mode: Mode) -> (r: &'static str)
    ensures
        r@ == (if matches!(mode, Mode::ClearTest | Mode::CopyTest | Mode::HistoryCopyTest | Mode::BlendTest) {
            "vkQueuePresentKHR frame="@
        } else {
            "vkQueuePresentKHR passthrough frame="@
        }),
{
    if matches!(mode, Mode::ClearTest | Mode::CopyTest | Mode::HistoryCopyTest | Mode::BlendTest) {
        "vkQueuePresentKHR frame="
    } else {
        "vkQueuePresentKHR passthrough frame="
    }
}

/// Whether a swapchain created in a mode gets a history image up front.
pub fn needs_history_image(mode: Mode) -> (r: bool)
    ensures
        r == (mode == Mode::HistoryCopyTest || mode == Mode::BlendTest),
{
    matches!(mode, Mode::HistoryCopyTest | Mode::BlendTest)
}

/// The characters of each entry-point name the layer intercepts.
proof fn lemma_command_names_spelled()
    ensures
        "vkCreateDevice"@ == seq!['v', 'k', 'C', 'r', 'e', 'a', 't', 'e', 'D', 'e', 'v', 'i', 'c', 'e'],
        "vkCreateInstance"@ == seq!['v', 'k', 'C', 'r', 'e', 'a', 't', 'e', 'I', 'n', 's', 't', 'a', 'n', 'c', 'e'],
        "vkCreateSwapchainKHR"@ == seq!['v', 'k', 'C', 'r', 'e', 'a', 't', 'e', 'S', 'w', 'a', 'p', 'c', 'h', 'a', 'i', 'n', 'K', 'H', 'R'],
        "vkDestroyDevice"@ == seq!['v', 'k', 'D', 'e', 's', 't', 'r', 'o', 'y', 'D', 'e', 'v', 'i', 'c', 'e'],
        "vkDestroyInstance"@ == seq!['v', 'k', 'D', 'e', 's', 't', 'r', 'o', 'y', 'I', 'n', 's', 't', 'a', 'n', 'c', 'e'],
        "vkDestroySwapchainKHR"@ == seq!['v', 'k', 'D', 'e', 's', 't', 'r', 'o', 'y', 'S', 'w', 'a', 'p', 'c', 'h', 'a', 'i', 'n', 'K', 'H', 'R'],
        "vkEnumerateDeviceExtensionProperties"@ == seq!['v', 'k', 'E', 'n', 'u', 'm', 'e', 'r', 'a', 't', 'e', 'D', 'e', 'v', 'i', 'c', 'e', 'E', 'x', 't', 'e', 'n', 's', 'i', 'o', 'n', 'P', 'r', 'o', 'p', 'e', 'r', 't', 'i', 'e', 's'],
        "vkEnumerateDeviceLayerProperties"@ == seq!['v', 'k', 'E', 'n', 'u', 'm', 'e', 'r', 'a', 't', 'e', 'D', 'e', 'v', 'i', 'c', 'e', 'L', 'a', 'y', 'e', 'r', 'P', 'r', 'o', 'p', 'e', 'r', 't', 'i', 'e', 's'],
        "vkEnumerateInstanceExtensionProperties"@ == seq!['v', 'k', 'E', 'n', 'u', 'm', 'e', 'r', 'a', 't', 'e', 'I', 'n', 's', 't', 'a', 'n', 'c', 'e', 'E', 'x', 't', 'e', 'n', 's', 'i', 'o', 'n', 'P', 'r', 'o', 'p', 'e', 'r', 't', 'i', 'e', 's'],
        "vkEnumerateInstanceLayerProperties"@ == seq!['v', 'k', 'E', 'n', 'u', 'm', 'e', 'r', 'a', 't', 'e', 'I', 'n', 's', 't', 'a', 'n', 'c', 'e', 'L', 'a', 'y', 'e', 'r', 'P', 'r', 'o', 'p', 'e', 'r', 't', 'i', 'e', 's'],
        "vkGetDeviceProcAddr"@ == seq!['v', 'k', 'G', 'e', 't', 'D', 'e', 'v', 'i', 'c', 'e', 'P', 'r', 'o', 'c', 'A', 'd', 'd', 'r'],
        "vkGetDeviceQueue"@ == seq!['v', 'k', 'G', 'e', 't', 'D', 'e', 'v', 'i', 'c', 'e', 'Q', 'u', 'e', 'u', 'e'],
        "vkGetDeviceQueue2"@ == seq!['v', 'k', 'G', 'e', 't', 'D', 'e', 'v', 'i', 'c', 'e', 'Q', 'u', 'e', 'u', 'e', '2'],
        "vkGetInstanceProcAddr"@ == seq!['v', 'k', 'G', 'e', 't', 'I', 'n', 's', 't', 'a', 'n', 'c', 'e', 'P', 'r', 'o', 'c', 'A', 'd', 'd', 'r'],
        "vkQueuePresentKHR"@ == seq!['v', 'k', 'Q', 'u', 'e', 'u', 'e', 'P', 'r', 'e', 's', 'e', 'n', 't', 'K', 'H', 'R'],
{
    reveal_strlit("vkCreateDevice");
    assert("vkCreateDevice"@ =~= seq!['v', 'k', 'C', 'r', 'e', 'a', 't', 'e', 'D', 'e', 'v', 'i', 'c', 'e']);
    reveal_strlit("vkCreateInstance");
    assert("vkCreateInstance"@ =~= seq!['v', 'k', 'C', 'r', 'e', 'a', 't', 'e', 'I', 'n', 's', 't', 'a', 'n', 'c', 'e']);
    reveal_strlit("vkCreateSwapchainKHR");
    assert("vkCreateSwapchainKHR"@ =~= seq!['v', 'k', 'C', 'r', 'e', 'a', 't', 'e', 'S', 'w', 'a', 'p', 'c', 'h', 'a', 'i', 'n', 'K', 'H', 'R']);
    reveal_strlit("vkDestroyDevice");
    assert("vkDestroyDevice"@ =~= seq!['v', 'k', 'D', 'e', 's', 't', 'r', 'o', 'y', 'D', 'e', 'v', 'i', 'c', 'e']);
    reveal_strlit("vkDestroyInstance");
    assert("vkDestroyInstance"@ =~= seq!['v', 'k', 'D', 'e', 's', 't', 'r', 'o', 'y', 'I', 'n', 's', 't', 'a', 'n', 'c', 'e']);
    reveal_strlit("vkDestroySwapchainKHR");
    assert("vkDestroySwapchainKHR"@ =~= seq!['v', 'k', 'D', 'e', 's', 't', 'r', 'o', 'y', 'S', 'w', 'a', 'p', 'c', 'h', 'a', 'i', 'n', 'K', 'H', 'R']);
    reveal_strlit("vkEnumerateDeviceExtensionProperties");
    assert("vkEnumerateDeviceExtensionProperties"@ =~= seq!['v', 'k', 'E', 'n', 'u', 'm', 'e', 'r', 'a', 't', 'e', 'D', 'e', 'v', 'i', 'c', 'e', 'E', 'x', 't', 'e', 'n', 's', 'i', 'o', 'n', 'P', 'r', 'o', 'p', 'e', 'r', 't', 'i', 'e', 's']);
    reveal_strlit("vkEnumerateDeviceLayerProperties");
    assert("vkEnumerateDeviceLayerProperties"@ =~= seq!['v', 'k', 'E', 'n', 'u', 'm', 'e', 'r', 'a', 't', 'e', 'D', 'e', 'v', 'i', 'c', 'e', 'L', 'a', 'y', 'e', 'r', 'P', 'r', 'o', 'p', 'e', 'r', 't', 'i', 'e', 's']);
    reveal_strlit("vkEnumerateInstanceExtensionProperties");
    assert("vkEnumerateInstanceExtensionProperties"@ =~= seq!['v', 'k', 'E', 'n', 'u', 'm', 'e', 'r', 'a', 't', 'e', 'I', 'n', 's', 't', 'a', 'n', 'c', 'e', 'E', 'x', 't', 'e', 'n', 's', 'i', 'o', 'n', 'P', 'r', 'o', 'p', 'e', 'r', 't', 'i', 'e', 's']);
    reveal_strlit("vkEnumerateInstanceLayerProperties");
    assert("vkEnumerateInstanceLayerProperties"@ =~= seq!['v', 'k', 'E', 'n', 'u', 'm', 'e', 'r', 'a', 't', 'e', 'I', 'n', 's', 't', 'a', 'n', 'c', 'e', 'L', 'a', 'y', 'e', 'r', 'P', 'r', 'o', 'p', 'e', 'r', 't', 'i', 'e', 's']);
    reveal_strlit("vkGetDeviceProcAddr");
    assert("vkGetDeviceProcAddr"@ =~= seq!['v', 'k', 'G', 'e', 't', 'D', 'e', 'v', 'i', 'c', 'e', 'P', 'r', 'o', 'c', 'A', 'd', 'd', 'r']);
    reveal_strlit("vkGetDeviceQueue");
    assert("vkGetDeviceQueue"@ =~= seq!['v', 'k', 'G', 'e', 't', 'D', 'e', 'v', 'i', 'c', 'e', 'Q', 'u', 'e', 'u', 'e']);
    reveal_strlit("vkGetDeviceQueue2");
    assert("vkGetDeviceQueue2"@ =~= seq!['v', 'k', 'G', 'e', 't', 'D', 'e', 'v', 'i', 'c', 'e', 'Q', 'u', 'e', 'u', 'e', '2']);
    reveal_strlit("vkGetInstanceProcAddr");
    assert("vkGetInstanceProcAddr"@ =~= seq!['v', 'k', 'G', 'e', 't', 'I', 'n', 's', 't', 'a', 'n', 'c', 'e', 'P', 'r', 'o', 'c', 'A', 'd', 'd', 'r']);
    reveal_strlit("vkQueuePresentKHR");
    assert("vkQueuePresentKHR"@ =~= seq!['v', 'k', 'Q', 'u', 'e', 'u', 'e', 'P', 'r', 'e', 's', 'e', 'n', 't', 'K', 'H', 'R']);
}

/// Every entry point that the layer answers for through
/// `vkGetDeviceProcAddr` it answers for through `vkGetInstanceProcAddr` too,
/// with the same function.
pub proof fn lemma_device_commands_are_instance_commands(name: Seq<char>)
    ensures
        device_command(name) is Some ==> instance_command(name) == device_command(name),
{
    lemma_command_names_spelled();
}


/// The contents of a fixed-size C character array after writing a
/// nul-terminated string into it: the string's bytes (with their nul) as far
/// as they fit, zeros after them.
pub open spec fn c_char_array_after_write(len: nat, value: Seq<u8>) -> Seq<u8> {
    Seq::new(len, |i: int| if i < value.len() { value[i] } else { 0u8 })
}

/// Writes a nul-terminated string (`value`, its nul included) into a
/// fixed-size character array, zero-filling the rest; a string longer than
/// the array is cut at its length.
pub fn write_c_char_array(dest: &mut [u8], value: &[u8])
    ensures
        final(dest)@ == c_char_array_after_write(old(dest)@.len(), value@),
{
    let n = dest.len();
    let mut i: usize = 0;
    while i < n
        invariant
            n == dest@.len(),
            n == old(dest)@.len(),
            i <= n,
            forall|j: int| 0 <= j < i ==> dest@[j] == (if j < value@.len() { value@[j] } else { 0u8 }),
        decreases n - i,
    {
        let b: u8 = if i < value.len() { value[i] } else { 0 };
        dest[i] = b;
        i += 1;
    }
    assert(dest@ =~= c_char_array_after_write(old(dest)@.len(), value@));
}

/// Whether a present or acquire result lets the frame go on: success, or
/// success with a suboptimal swapchain.
pub fn result_is_usable(raw: i32) -> (r: bool)
    ensures
        r == (raw == result_success() || raw == result_suboptimal()),
{
    raw == ash_result_success() || raw == ash_result_suboptimal()
}

/// Whether an acquire result means that no image became available in time,
/// in which case the generated frame is skipped rather than failed.
pub fn acquire_timed_out(raw: i32) -> (r: bool)
    ensures
        r == (raw == result_timeout() || raw == result_not_ready()),
{
    raw == ash_result_timeout() || raw == ash_result_not_ready()
}

/// The entry points the layer answers for, written out by name: through
/// `vkGetInstanceProcAddr` all fifteen of its commands, each under its own
/// name and no other; through `vkGetDeviceProcAddr` exactly the seven
/// device-level ones (proc-address lookup, queue retrieval, swapchain
/// creation and destruction, present, device destruction).
pub proof fn lemma_intercepted_commands(name: Seq<char>)
    ensures
        instance_command("vkGetInstanceProcAddr"@) == Some(LayerCommand::GetInstanceProcAddr),
        instance_command("vkGetDeviceProcAddr"@) == Some(LayerCommand::GetDeviceProcAddr),
        instance_command("vkCreateInstance"@) == Some(LayerCommand::CreateInstance),
        instance_command("vkDestroyInstance"@) == Some(LayerCommand::DestroyInstance),
        instance_command("vkCreateDevice"@) == Some(LayerCommand::CreateDevice),
        instance_command("vkDestroyDevice"@) == Some(LayerCommand::DestroyDevice),
        instance_command("vkGetDeviceQueue"@) == Some(LayerCommand::GetDeviceQueue),
        instance_command("vkGetDeviceQueue2"@) == Some(LayerCommand::GetDeviceQueue2),
        instance_command("vkCreateSwapchainKHR"@) == Some(LayerCommand::CreateSwapchainKHR),
        instance_command("vkDestroySwapchainKHR"@) == Some(LayerCommand::DestroySwapchainKHR),
        instance_command("vkQueuePresentKHR"@) == Some(LayerCommand::QueuePresentKHR),
        instance_command("vkEnumerateInstanceLayerProperties"@) == Some(LayerCommand::EnumerateInstanceLayerProperties),
        instance_command("vkEnumerateInstanceExtensionProperties"@) == Some(LayerCommand::EnumerateInstanceExtensionProperties),
        instance_command("vkEnumerateDeviceLayerProperties"@) == Some(LayerCommand::EnumerateDeviceLayerProperties),
        instance_command("vkEnumerateDeviceExtensionProperties"@) == Some(LayerCommand::EnumerateDeviceExtensionProperties),
        device_command("vkGetInstanceProcAddr"@) is None,
        device_command("vkGetDeviceProcAddr"@) == Some(LayerCommand::GetDeviceProcAddr),
        device_command("vkCreateInstance"@) is None,
        device_command("vkDestroyInstance"@) is None,
        device_command("vkCreateDevice"@) is None,
        device_command("vkDestroyDevice"@) == Some(LayerCommand::DestroyDevice),
        device_command("vkGetDeviceQueue"@) == Some(LayerCommand::GetDeviceQueue),
        device_command("vkGetDeviceQueue2"@) == Some(LayerCommand::GetDeviceQueue2),
        device_command("vkCreateSwapchainKHR"@) == Some(LayerCommand::CreateSwapchainKHR),
        device_command("vkDestroySwapchainKHR"@) == Some(LayerCommand::DestroySwapchainKHR),
        device_command("vkQueuePresentKHR"@) == Some(LayerCommand::QueuePresentKHR),
        device_command("vkEnumerateInstanceLayerProperties"@) is None,
        device_command("vkEnumerateInstanceExtensionProperties"@) is None,
        device_command("vkEnumerateDeviceLayerProperties"@) is None,
        device_command("vkEnumerateDeviceExtensionProperties"@) is None,
        instance_command(name) matches Some(c) ==> name == (match c {
                LayerCommand::GetInstanceProcAddr => "vkGetInstanceProcAddr"@,
                LayerCommand::GetDeviceProcAddr => "vkGetDeviceProcAddr"@,
                LayerCommand::CreateInstance => "vkCreateInstance"@,
                LayerCommand::DestroyInstance => "vkDestroyInstance"@,
                LayerCommand::CreateDevice => "vkCreateDevice"@,
                LayerCommand::DestroyDevice => "vkDestroyDevice"@,
                LayerCommand::GetDeviceQueue => "vkGetDeviceQueue"@,
                LayerCommand::GetDeviceQueue2 => "vkGetDeviceQueue2"@,
                LayerCommand::CreateSwapchainKHR => "vkCreateSwapchainKHR"@,
                LayerCommand::DestroySwapchainKHR => "vkDestroySwapchainKHR"@,
                LayerCommand::QueuePresentKHR => "vkQueuePresentKHR"@,
                LayerCommand::EnumerateInstanceLayerProperties => "vkEnumerateInstanceLayerProperties"@,
                LayerCommand::EnumerateInstanceExtensionProperties => "vkEnumerateInstanceExtensionProperties"@,
                LayerCommand::EnumerateDeviceLayerProperties => "vkEnumerateDeviceLayerProperties"@,
                LayerCommand::EnumerateDeviceExtensionProperties => "vkEnumerateDeviceExtensionProperties"@,
            }),
        device_command(name) is Some ==> (name == "vkGetDeviceProcAddr"@ || name == "vkGetDeviceQueue"@ || name == "vkGetDeviceQueue2"@ || name == "vkCreateSwapchainKHR"@ || name == "vkDestroySwapchainKHR"@ || name == "vkQueuePresentKHR"@ || name == "vkDestroyDevice"@),
{
    lemma_command_names_spelled();
    assert("vkGetDeviceQueue"@.len() == 16);
    assert("vkGetDeviceQueue2"@.len() == 17);
    assert("vkGetDeviceQueue"@ != "vkGetDeviceQueue2"@);
}

/// What a present does, written out: nothing on an untracked queue or a
/// pass-through sequence; clear and copy after the application's frame;
/// history copy and blend on both the priming present and every later one.
/// Together with the planner: on a tracked queue, the history-copy, blend,
/// clear and copy modes take their generated-frame path on every present,
/// whatever the history state.
pub proof fn lemma_present_actions(mode: Mode, sequence: PresentSequence, have_queue: bool, history_valid: bool)
    ensures
        !have_queue ==> present_action(mode, sequence, have_queue) == PresentAction::PassThrough,
        sequence == PresentSequence::PassThrough ==> present_action(mode, sequence, have_queue)
            == PresentAction::PassThrough,
        have_queue && sequence == PresentSequence::OriginalThenGenerated ==> present_action(
            mode,
            sequence,
            have_queue,
        ) == (match mode {
            Mode::ClearTest => PresentAction::PresentThenClear,
            Mode::CopyTest => PresentAction::CopyFrame,
            _ => PresentAction::PassThrough,
        }),
        have_queue && (sequence == PresentSequence::PrimeHistory || sequence
            == PresentSequence::GeneratedThenOriginal) ==> present_action(mode, sequence, have_queue)
            == (match mode {
            Mode::HistoryCopyTest => PresentAction::HistoryCopyFrame,
            Mode::BlendTest => PresentAction::BlendFrame,
            _ => PresentAction::PassThrough,
        }),
        present_action(Mode::HistoryCopyTest, sequence_for(Mode::HistoryCopyTest, history_valid), true)
            == PresentAction::HistoryCopyFrame,
        present_action(Mode::BlendTest, sequence_for(Mode::BlendTest, history_valid), true)
            == PresentAction::BlendFrame,
        present_action(Mode::ClearTest, sequence_for(Mode::ClearTest, history_valid), true)
            == PresentAction::PresentThenClear,
        present_action(Mode::CopyTest, sequence_for(Mode::CopyTest, history_valid), true)
            == PresentAction::CopyFrame,
{
}

} // verus!
