//! Swapchain mutation and present sequencing: which images a mode needs,
//! in which order the application's and the generated frames are presented, and how
//! generated presents are counted.
use vstd::prelude::*;

use crate::config::Mode;
use crate::vulkan::{
    ash_usage_sampled, ash_usage_transfer_dst, ash_usage_transfer_src, usage_sampled,
    usage_transfer_dst, usage_transfer_src,
};

verus! {

/// A set of Vulkan image usage bits (`VkImageUsageFlags`), held as its raw mask.
#[derive(Debug, Clone, Copy, PartialEq, Eq, Structural)]
pub struct ImageUsage {
    bits: u32,
}

impl View for ImageUsage {
    type V = u32;

    closed spec fn view(&self) -> u32 {
        self.bits
    }
}

impl ImageUsage {
    /// The usage set with exactly the given raw bits.
    pub fn from_raw(bits: u32) -> (r: ImageUsage)
        ensures
            r@ == bits,
    {
        ImageUsage { bits }
    }

    /// The raw bits of this usage set.
    pub fn as_raw(self) -> (r: u32)
        ensures
            r == self@,
    {
        self.bits
    }

    /// Whether every bit of `other` is set in `self`.
    pub fn contains(self, other: ImageUsage) -> (r: bool)
        ensures
            r == (self@ & other@ == other@),
    {
        self.bits & other.bits == other.bits
    }
}

/// What the layer asks of a swapchain before it is created.
#[derive(Debug, Clone, Copy, PartialEq, Eq, Structural)]
pub struct SwapchainMutation {
    pub modified_min_image_count: u32,
    pub modified_usage: ImageUsage,
}

/// Modes that write a generated frame by transfer commands (clear, black
/// frame, copy, history copy).
pub open spec fn is_transfer_mode(m: Mode) -> bool {
    matches!(m, Mode::ClearTest | Mode::BfiTest | Mode::CopyTest | Mode::HistoryCopyTest)
}

/// Transfer modes that read a presented image as a copy source.
pub open spec fn is_copy_mode(m: Mode) -> bool {
    matches!(m, Mode::CopyTest | Mode::HistoryCopyTest)
}

/// Modes that synthesize one generated frame per real frame with a shader.
pub open spec fn is_single_blend_mode(m: Mode) -> bool {
    matches!(
        m,
        Mode::BlendTest | Mode::AdaptiveBlendTest | Mode::SearchBlendTest
            | Mode::SearchAdaptiveBlendTest | Mode::ReprojectBlendTest
            | Mode::ReprojectAdaptiveBlendTest | Mode::OptFlowBlendTest
            | Mode::OptFlowAdaptiveBlendTest
    )
}

/// Modes that synthesize several generated frames per real frame.
pub open spec fn is_multi_blend_mode(m: Mode) -> bool {
    matches!(
        m,
        Mode::MultiBlendTest | Mode::AdaptiveMultiBlendTest | Mode::ReprojectMultiBlendTest
            | Mode::ReprojectAdaptiveMultiBlendTest | Mode::OptFlowMultiBlendTest
            | Mode::OptFlowAdaptiveMultiBlendTest
    )
}

/// Modes that present their generated frame after the application's frame
/// and need no history.
pub open spec fn is_after_original_mode(m: Mode) -> bool {
    matches!(m, Mode::ClearTest | Mode::BfiTest | Mode::CopyTest)
}

/// Modes that build on the previous real frame: the first present only
/// primes the history.
pub open spec fn is_history_mode(m: Mode) -> bool {
    m == Mode::HistoryCopyTest || is_single_blend_mode(m) || is_multi_blend_mode(m)
}

/// The usage bits a mode adds to the application's request.
pub open spec fn added_usage(m: Mode) -> u32 {
    if is_transfer_mode(m) {
        if is_copy_mode(m) {
            usage_transfer_dst() | usage_transfer_src()
        } else {
            usage_transfer_dst()
        }
    } else if is_single_blend_mode(m) || is_multi_blend_mode(m) {
        usage_transfer_src() | usage_sampled()
    } else {
        0
    }
}

/// How many swapchain images a mode adds to the application's minimum.
pub open spec fn image_bump(m: Mode) -> u32 {
    if is_transfer_mode(m) {
        if is_copy_mode(m) {
            2
        } else {
            1
        }
    } else if is_single_blend_mode(m) {
        2
    } else if is_multi_blend_mode(m) {
        3
    } else {
        0
    }
}

/// The desired image count, held under the surface maximum when there is a
/// positive one (a maximum of 0 means the surface sets no limit).
pub open spec fn capped_image_count(desired: u32, max_image_count: Option<u32>) -> u32 {
    match max_image_count {
        Some(max) if max > 0 => if desired <= max {
            desired
        } else {
            max
        },
        _ => desired,
    }
}

/// The saturating sum of two `u32`s.
pub open spec fn saturating_add_u32(a: u32, b: u32) -> u32 {
    if a + b > u32::MAX {
        u32::MAX
    } else {
        (a + b) as u32
    }
}

/// The minimum image count that the layer requests for a mode.
pub open spec fn mutated_min_image_count(
    m: Mode,
    original_min_image_count: u32,
    max_image_count: Option<u32>,
) -> u32 {
    if image_bump(m) == 0 {
        original_min_image_count
    } else {
        capped_image_count(
            saturating_add_u32(original_min_image_count, image_bump(m)),
            max_image_count,
        )
    }
}

fn cap_image_count(desired: u32, max_image_count: Option<u32>) -> (r: u32)
    ensures
        r == capped_image_count(desired, max_image_count),
{
    match max_image_count {
        Some(max) if max > 0 => desired.min(max),
        _ => desired,
    }
}

/// Adds what a mode needs to the application's swapchain request: extra
/// usage bits for the generated-frame path and extra images, the latter held
/// under a positive surface maximum. Pass-through leaves the request as it is.
pub fn mutate_swapchain(
    mode: Mode,
    original_min_image_count: u32,
    original_usage: ImageUsage,
    max_image_count: Option<u32>,
) -> (r: SwapchainMutation)
    ensures
        r.modified_usage@ == original_usage@ | added_usage(mode),
        r.modified_usage@ == original_usage@ | (match mode {
            Mode::PassThrough => 0x0u32,
            Mode::ClearTest | Mode::BfiTest => 0x2u32,
            Mode::CopyTest | Mode::HistoryCopyTest => 0x3u32,
            _ => 0x5u32,
        }),
        mode == Mode::PassThrough ==> r.modified_min_image_count == original_min_image_count,
        r.modified_min_image_count == mutated_min_image_count(
            mode,
            original_min_image_count,
            max_image_count,
        ),
{
    let mut modified_usage = original_usage.bits;
    let mut modified_min_image_count = original_min_image_count;

    if matches!(mode, Mode::ClearTest | Mode::BfiTest | Mode::CopyTest | Mode::HistoryCopyTest) {
        modified_usage = modified_usage | ash_usage_transfer_dst();
        let image_bump: u32 = if matches!(mode, Mode::CopyTest | Mode::HistoryCopyTest) {
            modified_usage = modified_usage | ash_usage_transfer_src();
            2
        } else {
            1
        };
        let desired = original_min_image_count.saturating_add(image_bump);
        modified_min_image_count = cap_image_count(desired, max_image_count);
    }
    if matches!(
        mode,
        Mode::BlendTest | Mode::AdaptiveBlendTest | Mode::SearchBlendTest
            | Mode::SearchAdaptiveBlendTest | Mode::ReprojectBlendTest
            | Mode::ReprojectAdaptiveBlendTest | Mode::OptFlowBlendTest
            | Mode::OptFlowAdaptiveBlendTest
    ) {
        modified_usage = modified_usage | ash_usage_transfer_src();
        modified_usage = modified_usage | ash_usage_sampled();
        let desired = original_min_image_count.saturating_add(2);
        modified_min_image_count = cap_image_count(desired, max_image_count);
    }
    if matches!(
        mode,
        Mode::MultiBlendTest | Mode::AdaptiveMultiBlendTest | Mode::ReprojectMultiBlendTest
            | Mode::ReprojectAdaptiveMultiBlendTest | Mode::OptFlowMultiBlendTest
            | Mode::OptFlowAdaptiveMultiBlendTest
    ) {
        modified_usage = modified_usage | ash_usage_transfer_src();
        modified_usage = modified_usage | ash_usage_sampled();
        let desired = original_min_image_count.saturating_add(3);
        modified_min_image_count = cap_image_count(desired, max_image_count);
    }
    proof {
        lemma_mode_table(mode);
        let o = original_usage.bits;
        assert(o | 0x2u32 | 0x1u32 == o | (0x2u32 | 0x1u32)) by (bit_vector);
        assert(o | 0x1u32 | 0x4u32 == o | (0x1u32 | 0x4u32)) by (bit_vector);
        assert(o | 0u32 == o) by (bit_vector);
    }
    SwapchainMutation {
        modified_min_image_count,
        modified_usage: ImageUsage { bits: modified_usage },
    }
}

/// What the layer knows of a swapchain's present history.
#[derive(Debug, Clone, Copy, PartialEq, Eq, Structural)]
pub struct SimulatedPresentState {
    pub history_valid: bool,
    pub injection_works: bool,
    pub generated_present_count: u64,
}

impl Default for SimulatedPresentState {
    fn default() -> (r: Self)
        ensures
            !r.history_valid,
            !r.injection_works,
            r.generated_present_count == 0,
    {
        SimulatedPresentState {
            history_valid: false,
            injection_works: false,
            generated_present_count: 0,
        }
    }
}

/// The order in which the application's frame and the generated frame are
/// presented.
#[derive(Debug, Clone, Copy, PartialEq, Eq, Structural)]
pub enum PresentSequence {
    PassThrough,
    OriginalThenGenerated,
    PrimeHistory,
    GeneratedThenOriginal,
}

/// The present sequence for a mode, given whether a history frame is held.
pub open spec fn sequence_for(m: Mode, history_valid: bool) -> PresentSequence {
    if m == Mode::PassThrough {
        PresentSequence::PassThrough
    } else if is_after_original_mode(m) {
        PresentSequence::OriginalThenGenerated
    } else if !history_valid {
        PresentSequence::PrimeHistory
    } else {
        PresentSequence::GeneratedThenOriginal
    }
}

/// Chooses how the next present of a swapchain is sequenced.
pub fn planned_sequence(mode: Mode, state: &SimulatedPresentState) -> (r: PresentSequence)
    ensures
        r == sequence_for(mode, state.history_valid),
{
    match mode {
        Mode::PassThrough => PresentSequence::PassThrough,
        Mode::ClearTest | Mode::BfiTest | Mode::CopyTest => PresentSequence::OriginalThenGenerated,
        Mode::HistoryCopyTest
        | Mode::BlendTest
        | Mode::AdaptiveBlendTest
        | Mode::SearchBlendTest
        | Mode::SearchAdaptiveBlendTest
        | Mode::ReprojectBlendTest
        | Mode::ReprojectAdaptiveBlendTest
        | Mode::OptFlowBlendTest
        | Mode::OptFlowAdaptiveBlendTest
        | Mode::ReprojectMultiBlendTest
        | Mode::ReprojectAdaptiveMultiBlendTest
        | Mode::MultiBlendTest
        | Mode::AdaptiveMultiBlendTest
        | Mode::OptFlowMultiBlendTest
        | Mode::OptFlowAdaptiveMultiBlendTest => {
            if !state.history_valid {
                PresentSequence::PrimeHistory
            } else {
                PresentSequence::GeneratedThenOriginal
            }
        },
    }
}

/// How many generated presents one successful injection adds for a mode.
pub open spec fn generated_frames_per_injection(m: Mode) -> u64 {
    if is_multi_blend_mode(m) {
        2
    } else if m == Mode::PassThrough {
        0
    } else {
        1
    }
}

/// Whether an injection attempt counts as generated presents: it succeeded,
/// and it was not the present that only primes the history.
pub open spec fn injection_counts(m: Mode, history_valid: bool, injected_successfully: bool) -> bool {
    &&& injected_successfully
    &&& (is_after_original_mode(m) || (is_history_mode(m) && history_valid))
}

/// The present state after an injection attempt.
pub open spec fn state_after_injection(
    m: Mode,
    s: SimulatedPresentState,
    injected_successfully: bool,
) -> SimulatedPresentState {
    let counts = injection_counts(m, s.history_valid, injected_successfully);
    SimulatedPresentState {
        history_valid: s.history_valid || is_history_mode(m),
        injection_works: s.injection_works || counts,
        generated_present_count: if counts {
            (s.generated_present_count + generated_frames_per_injection(m)) as u64
        } else {
            s.generated_present_count
        },
    }
}

/// Records the outcome of an injection attempt: a counted success marks
/// injection as working and adds the mode's generated frames; a history mode
/// holds a valid history frame afterwards.
pub fn mark_injection_result(
    mode: Mode,
    state: &mut SimulatedPresentState,
    injected_successfully: bool,
)
    requires
        injection_counts(mode, old(state).history_valid, injected_successfully)
            ==> old(state).generated_present_count + generated_frames_per_injection(mode)
            <= u64::MAX,
    ensures
        *final(state) == state_after_injection(mode, *old(state), injected_successfully),
{
    match mode {
        Mode::PassThrough => {},
        Mode::ClearTest | Mode::BfiTest | Mode::CopyTest => {
            if injected_successfully {
                state.injection_works = true;
                state.generated_present_count = state.generated_present_count + 1;
            }
        },
        Mode::HistoryCopyTest
        | Mode::BlendTest
        | Mode::AdaptiveBlendTest
        | Mode::SearchBlendTest
        | Mode::SearchAdaptiveBlendTest
        | Mode::ReprojectBlendTest
        | Mode::ReprojectAdaptiveBlendTest
        | Mode::OptFlowBlendTest
        | Mode::OptFlowAdaptiveBlendTest => {
            if state.history_valid && injected_successfully {
                state.injection_works = true;
                state.generated_present_count = state.generated_present_count + 1;
            }
            state.history_valid = true;
        },
        Mode::MultiBlendTest
        | Mode::AdaptiveMultiBlendTest
        | Mode::ReprojectMultiBlendTest
        | Mode::ReprojectAdaptiveMultiBlendTest
        | Mode::OptFlowMultiBlendTest
        | Mode::OptFlowAdaptiveMultiBlendTest => {
            if state.history_valid && injected_successfully {
                state.injection_works = true;
                state.generated_present_count = state.generated_present_count + 2;
            }
            state.history_valid = true;
        },
    }
}

/// A mutation never drops a usage bit that the application asked for.
pub proof fn lemma_mutation_keeps_requested_usage(m: Mode, original_usage: u32)
    ensures
        (original_usage | added_usage(m)) & original_usage == original_usage,
{
    let a = added_usage(m);
    assert((original_usage | a) & original_usage == original_usage) by (bit_vector);
}

/// A mode that adds images never asks for more than a positive surface
/// maximum; with no positive maximum it asks for exactly its extra images on
/// top of the application's minimum, saturating at `u32::MAX`, and with a
/// positive maximum the smaller of that count and the maximum.
pub proof fn lemma_mutation_image_count_bounds(
    m: Mode,
    original_min_image_count: u32,
    max_image_count: Option<u32>,
)
    ensures
        image_bump(m) == 0 ==> mutated_min_image_count(m, original_min_image_count, max_image_count)
            == original_min_image_count,
        forall|max: u32|
            image_bump(m) > 0 && max_image_count == Some(max) && max > 0
                ==> mutated_min_image_count(m, original_min_image_count, max_image_count) <= max,
        image_bump(m) > 0 && (max_image_count is None || max_image_count == Some(0u32))
            ==> mutated_min_image_count(m, original_min_image_count, max_image_count)
            == saturating_add_u32(original_min_image_count, image_bump(m)),
        image_bump(m) == 0 <==> m == Mode::PassThrough,
        m != Mode::PassThrough ==> ({
            let sum: int = original_min_image_count + image_bump(m);
            let wanted: int = if sum > u32::MAX {
                u32::MAX as int
            } else {
                sum
            };
            mutated_min_image_count(m, original_min_image_count, max_image_count) == match max_image_count {
                Some(max) if max > 0 && wanted > max => max as int,
                _ => wanted,
            }
        }),
{
}

/// A history mode primes its history on the first present and presents a
/// generated frame before the application's frame on every later one, whatever the
/// outcome of the priming present.
pub proof fn lemma_history_primes_once(
    m: Mode,
    s: SimulatedPresentState,
    injected_successfully: bool,
)
    requires
        is_history_mode(m),
    ensures
        sequence_for(m, s.history_valid) == PresentSequence::PrimeHistory <==> !s.history_valid,
        sequence_for(m, state_after_injection(m, s, injected_successfully).history_valid)
            == PresentSequence::GeneratedThenOriginal,
{
}

/// The present that only primes the history never counts a generated frame.
pub proof fn lemma_priming_present_never_counts(
    m: Mode,
    s: SimulatedPresentState,
    injected_successfully: bool,
)
    requires
        sequence_for(m, s.history_valid) == PresentSequence::PrimeHistory,
    ensures
        state_after_injection(m, s, injected_successfully).generated_present_count
            == s.generated_present_count,
        state_after_injection(m, s, injected_successfully).injection_works == s.injection_works,
{
}

/// A failed injection never counts and never marks injection as working.
pub proof fn lemma_failed_injection_never_counts(m: Mode, s: SimulatedPresentState)
    ensures
        state_after_injection(m, s, false).generated_present_count == s.generated_present_count,
        state_after_injection(m, s, false).injection_works == s.injection_works,
{
}

/// The generated-present count never decreases, and each injection adds
/// either nothing or exactly the mode's generated frames (two for the
/// multi-frame modes, one for the others); a counted injection marks
/// injection as working, and the flag is never cleared.
pub proof fn lemma_generated_count_steps(
    m: Mode,
    s: SimulatedPresentState,
    injected_successfully: bool,
)
    requires
        s.generated_present_count + generated_frames_per_injection(m) <= u64::MAX,
    ensures
        ({
            let t = state_after_injection(m, s, injected_successfully);
            &&& t.generated_present_count == s.generated_present_count
                || t.generated_present_count == s.generated_present_count
                + generated_frames_per_injection(m)
            &&& t.generated_present_count > s.generated_present_count ==> t.injection_works
            &&& s.injection_works ==> t.injection_works
            &&& s.history_valid ==> t.history_valid
        }),
        is_multi_blend_mode(m) ==> generated_frames_per_injection(m) == 2,
        m != Mode::PassThrough && !is_multi_blend_mode(m) ==> generated_frames_per_injection(m) == 1,
{
}

/// Pass-through never injects: its sequence is pass-through and recording an
/// outcome leaves the state as it was.
pub proof fn lemma_pass_through_is_inert(s: SimulatedPresentState, injected_successfully: bool)
    ensures
        sequence_for(Mode::PassThrough, s.history_valid) == PresentSequence::PassThrough,
        state_after_injection(Mode::PassThrough, s, injected_successfully) == s,
{
}

/// For every mode, written out literally: the usage bits a mutation adds
/// (TRANSFER_DST = 0x2, TRANSFER_SRC = 0x1, SAMPLED = 0x4), the images it
/// adds, the generated frames one counted injection adds, and the sequence
/// of a present without and with a history frame.
pub proof fn lemma_mode_table(m: Mode)
    ensures
        added_usage(m) == (match m {
            Mode::PassThrough => 0x0u32,
            Mode::ClearTest | Mode::BfiTest => 0x2u32,
            Mode::CopyTest | Mode::HistoryCopyTest => 0x3u32,
            _ => 0x5u32,
        }),
        image_bump(m) == (match m {
            Mode::PassThrough => 0u32,
            Mode::ClearTest | Mode::BfiTest => 1u32,
            Mode::CopyTest | Mode::HistoryCopyTest => 2u32,
            Mode::MultiBlendTest
            | Mode::AdaptiveMultiBlendTest
            | Mode::ReprojectMultiBlendTest
            | Mode::ReprojectAdaptiveMultiBlendTest
            | Mode::OptFlowMultiBlendTest
            | Mode::OptFlowAdaptiveMultiBlendTest => 3u32,
            _ => 2u32,
        }),
        generated_frames_per_injection(m) == (match m {
            Mode::PassThrough => 0u64,
            Mode::MultiBlendTest
            | Mode::AdaptiveMultiBlendTest
            | Mode::ReprojectMultiBlendTest
            | Mode::ReprojectAdaptiveMultiBlendTest
            | Mode::OptFlowMultiBlendTest
            | Mode::OptFlowAdaptiveMultiBlendTest => 2u64,
            _ => 1u64,
        }),
        sequence_for(m, false) == (match m {
            Mode::PassThrough => PresentSequence::PassThrough,
            Mode::ClearTest | Mode::BfiTest | Mode::CopyTest => PresentSequence::OriginalThenGenerated,
            _ => PresentSequence::PrimeHistory,
        }),
        sequence_for(m, true) == (match m {
            Mode::PassThrough => PresentSequence::PassThrough,
            Mode::ClearTest | Mode::BfiTest | Mode::CopyTest => PresentSequence::OriginalThenGenerated,
            _ => PresentSequence::GeneratedThenOriginal,
        }),
{
    assert(0x2u32 | 0x1u32 == 0x3u32) by (bit_vector);
    assert(0x1u32 | 0x4u32 == 0x5u32) by (bit_vector);
}

/// The outcome of an injection attempt, written out literally per mode:
/// pass-through changes nothing; clear, black-frame and copy count one frame
/// per success; every other mode marks its history valid and, once the
/// history was already valid, counts one frame per success (two for the
/// multi-frame modes).
pub proof fn lemma_injection_outcome(m: Mode, s: SimulatedPresentState, injected_successfully: bool)
    requires
        s.generated_present_count + 2 <= u64::MAX,
    ensures
        ({
            let counts = injected_successfully && (match m {
                Mode::PassThrough => false,
                Mode::ClearTest | Mode::BfiTest | Mode::CopyTest => true,
                _ => s.history_valid,
            });
            let frames: int = match m {
                Mode::MultiBlendTest
            | Mode::AdaptiveMultiBlendTest
            | Mode::ReprojectMultiBlendTest
            | Mode::ReprojectAdaptiveMultiBlendTest
            | Mode::OptFlowMultiBlendTest
            | Mode::OptFlowAdaptiveMultiBlendTest => 2,
                _ => 1,
            };
            let t = state_after_injection(m, s, injected_successfully);
            &&& t.history_valid == (s.history_valid || !(match m {
                Mode::PassThrough | Mode::ClearTest | Mode::BfiTest | Mode::CopyTest => true,
                _ => false,
            }))
            &&& t.injection_works == (s.injection_works || counts)
            &&& t.generated_present_count == if counts {
                s.generated_present_count + frames
            } else {
                s.generated_present_count as int
            }
        }),
{
}

} // verus!
