//! Raw values of the Vulkan constants that the layer's logic reads, taken
//! from the `ash` bindings. Each item here names one ash constant and states
//! the value that ash's source gives it; nothing else is claimed of ash.
use ash::vk;
use vstd::prelude::*;

verus! {

/// `VK_IMAGE_USAGE_TRANSFER_SRC_BIT`.
pub open spec fn usage_transfer_src() -> u32 {
    0x1
}

/// `VK_IMAGE_USAGE_TRANSFER_DST_BIT`.
pub open spec fn usage_transfer_dst() -> u32 {
    0x2
}

/// `VK_IMAGE_USAGE_SAMPLED_BIT`.
pub open spec fn usage_sampled() -> u32 {
    0x4
}

/// `VK_IMAGE_USAGE_STORAGE_BIT`.
pub open spec fn usage_storage() -> u32 {
    0x8
}

/// `VK_IMAGE_USAGE_COLOR_ATTACHMENT_BIT`.
pub open spec fn usage_color_attachment() -> u32 {
    0x10
}

/// `VK_IMAGE_USAGE_DEPTH_STENCIL_ATTACHMENT_BIT`.
pub open spec fn usage_depth_stencil_attachment() -> u32 {
    0x20
}

/// `VK_IMAGE_USAGE_TRANSIENT_ATTACHMENT_BIT`.
pub open spec fn usage_transient_attachment() -> u32 {
    0x40
}

/// `VK_IMAGE_USAGE_INPUT_ATTACHMENT_BIT`.
pub open spec fn usage_input_attachment() -> u32 {
    0x80
}

/// The raw bits of ash's `vk::ImageUsageFlags::TRANSFER_SRC` (ash: `Self(0b1)`).
#[verifier::external_body]
pub(crate) fn ash_usage_transfer_src() -> (r: u32)
    ensures
        r == usage_transfer_src(),
{
    vk::ImageUsageFlags::TRANSFER_SRC.as_raw()
}

/// The raw bits of ash's `vk::ImageUsageFlags::TRANSFER_DST` (ash: `Self(0b10)`).
#[verifier::external_body]
pub(crate) fn ash_usage_transfer_dst() -> (r: u32)
    ensures
        r == usage_transfer_dst(),
{
    vk::ImageUsageFlags::TRANSFER_DST.as_raw()
}

/// The raw bits of ash's `vk::ImageUsageFlags::SAMPLED` (ash: `Self(0b100)`).
#[verifier::external_body]
pub(crate) fn ash_usage_sampled() -> (r: u32)
    ensures
        r == usage_sampled(),
{
    vk::ImageUsageFlags::SAMPLED.as_raw()
}

/// The raw bits of ash's `vk::ImageUsageFlags::STORAGE` (ash: `Self(0b1000)`).
#[verifier::external_body]
pub(crate) fn ash_usage_storage() -> (r: u32)
    ensures
        r == usage_storage(),
{
    vk::ImageUsageFlags::STORAGE.as_raw()
}

/// The raw bits of ash's `vk::ImageUsageFlags::COLOR_ATTACHMENT` (ash: `Self(0b1_0000)`).
#[verifier::external_body]
pub(crate) fn ash_usage_color_attachment() -> (r: u32)
    ensures
        r == usage_color_attachment(),
{
    vk::ImageUsageFlags::COLOR_ATTACHMENT.as_raw()
}

/// The raw bits of ash's `vk::ImageUsageFlags::DEPTH_STENCIL_ATTACHMENT` (ash: `Self(0b10_0000)`).
#[verifier::external_body]
pub(crate) fn ash_usage_depth_stencil_attachment() -> (r: u32)
    ensures
        r == usage_depth_stencil_attachment(),
{
    vk::ImageUsageFlags::DEPTH_STENCIL_ATTACHMENT.as_raw()
}

/// The raw bits of ash's `vk::ImageUsageFlags::TRANSIENT_ATTACHMENT` (ash: `Self(0b100_0000)`).
#[verifier::external_body]
pub(crate) fn ash_usage_transient_attachment() -> (r: u32)
    ensures
        r == usage_transient_attachment(),
{
    vk::ImageUsageFlags::TRANSIENT_ATTACHMENT.as_raw()
}

/// The raw bits of ash's `vk::ImageUsageFlags::INPUT_ATTACHMENT` (ash: `Self(0b1000_0000)`).
#[verifier::external_body]
pub(crate) fn ash_usage_input_attachment() -> (r: u32)
    ensures
        r == usage_input_attachment(),
{
    vk::ImageUsageFlags::INPUT_ATTACHMENT.as_raw()
}

/// `VK_PRESENT_MODE_IMMEDIATE_KHR`.
pub open spec fn present_mode_immediate() -> i32 {
    0
}

/// `VK_PRESENT_MODE_MAILBOX_KHR`.
pub open spec fn present_mode_mailbox() -> i32 {
    1
}

/// `VK_PRESENT_MODE_FIFO_KHR`.
pub open spec fn present_mode_fifo() -> i32 {
    2
}

/// `VK_PRESENT_MODE_FIFO_RELAXED_KHR`.
pub open spec fn present_mode_fifo_relaxed() -> i32 {
    3
}

/// The raw value of ash's `vk::PresentModeKHR::IMMEDIATE` (ash: `Self(0)`).
#[verifier::external_body]
pub(crate) fn ash_present_mode_immediate() -> (r: i32)
    ensures
        r == present_mode_immediate(),
{
    vk::PresentModeKHR::IMMEDIATE.as_raw()
}

/// The raw value of ash's `vk::PresentModeKHR::MAILBOX` (ash: `Self(1)`).
#[verifier::external_body]
pub(crate) fn ash_present_mode_mailbox() -> (r: i32)
    ensures
        r == present_mode_mailbox(),
{
    vk::PresentModeKHR::MAILBOX.as_raw()
}

/// The raw value of ash's `vk::PresentModeKHR::FIFO` (ash: `Self(2)`).
#[verifier::external_body]
pub(crate) fn ash_present_mode_fifo() -> (r: i32)
    ensures
        r == present_mode_fifo(),
{
    vk::PresentModeKHR::FIFO.as_raw()
}

/// The raw value of ash's `vk::PresentModeKHR::FIFO_RELAXED` (ash: `Self(3)`).
#[verifier::external_body]
pub(crate) fn ash_present_mode_fifo_relaxed() -> (r: i32)
    ensures
        r == present_mode_fifo_relaxed(),
{
    vk::PresentModeKHR::FIFO_RELAXED.as_raw()
}

/// `VK_SUCCESS`.
pub open spec fn result_success() -> i32 {
    0
}

/// `VK_NOT_READY`.
pub open spec fn result_not_ready() -> i32 {
    1
}

/// `VK_TIMEOUT`.
pub open spec fn result_timeout() -> i32 {
    2
}

/// `VK_SUBOPTIMAL_KHR`.
pub open spec fn result_suboptimal() -> i32 {
    1_000_001_003
}

/// The raw value of ash's `vk::Result::SUCCESS` (ash: `Self(0)`).
#[verifier::external_body]
pub(crate) fn ash_result_success() -> (r: i32)
    ensures
        r == result_success(),
{
    vk::Result::SUCCESS.as_raw()
}

/// The raw value of ash's `vk::Result::NOT_READY` (ash: `Self(1)`).
#[verifier::external_body]
pub(crate) fn ash_result_not_ready() -> (r: i32)
    ensures
        r == result_not_ready(),
{
    vk::Result::NOT_READY.as_raw()
}

/// The raw value of ash's `vk::Result::TIMEOUT` (ash: `Self(2)`).
#[verifier::external_body]
pub(crate) fn ash_result_timeout() -> (r: i32)
    ensures
        r == result_timeout(),
{
    vk::Result::TIMEOUT.as_raw()
}

/// The raw value of ash's `vk::Result::SUBOPTIMAL_KHR` (ash: `Self(1_000_001_003)`).
#[verifier::external_body]
pub(crate) fn ash_result_suboptimal() -> (r: i32)
    ensures
        r == result_suboptimal(),
{
    vk::Result::SUBOPTIMAL_KHR.as_raw()
}

} // verus!
