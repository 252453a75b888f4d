//! The per-pass tables of the 19-pass compute pipeline that synthesizes a
//! generated frame: dispatch size, sampled inputs and storage outputs.
use vstd::prelude::*;

verus! {

/// Number of compute passes in the synthesis pipeline.
pub const PASS_COUNT: usize = 19;

/// Side of a compute workgroup, in pixels (`local_size_x = local_size_y = 16`).
pub const WORKGROUP_SIZE: u32 = 16;

/// The extent, along one axis, over which a pass works for a frame of
/// `size` pixels: full resolution, or a half, quarter or eighth of it.
pub open spec fn pass_working_size(pass: usize, size: u32) -> u32 {
    if pass == 0 {
        size
    } else if 1 <= pass <= 6 {
        size / 2
    } else if pass == 7 {
        size / 8
    } else if pass == 8 {
        size / 2
    } else if pass == 9 {
        size / 4
    } else if pass == 10 {
        size / 2
    } else {
        size
    }
}

/// Workgroups needed to cover `size` pixels, counting an empty extent as one pixel.
pub open spec fn workgroups_for(size: u32) -> int {
    let n = if size == 0 {
        1int
    } else {
        size as int
    };
    (n + 15) / 16
}

/// The workgroup counts `(x, y)` with which a pass is dispatched over a
/// frame of `frame_w` by `frame_h` pixels.
pub fn pass_dispatch_extent(pass: usize, frame_w: u32, frame_h: u32) -> (r: (u32, u32))
    requires
        pass_working_size(pass, frame_w) <= u32::MAX - 16,
        pass_working_size(pass, frame_h) <= u32::MAX - 16,
    ensures
        r.0 == workgroups_for(pass_working_size(pass, frame_w)),
        r.1 == workgroups_for(pass_working_size(pass, frame_h)),
        pass == 0 || 11 <= pass ==> ({
            &&& r.0 == ((if frame_w == 0 { 1int } else { frame_w as int }) + 15) / 16
            &&& r.1 == ((if frame_h == 0 { 1int } else { frame_h as int }) + 15) / 16
        }),
        1 <= pass <= 6 || pass == 8 || pass == 10 ==> ({
            &&& r.0 == ((if frame_w / 2 == 0 { 1int } else { (frame_w / 2) as int }) + 15) / 16
            &&& r.1 == ((if frame_h / 2 == 0 { 1int } else { (frame_h / 2) as int }) + 15) / 16
        }),
        pass == 9 ==> ({
            &&& r.0 == ((if frame_w / 4 == 0 { 1int } else { (frame_w / 4) as int }) + 15) / 16
            &&& r.1 == ((if frame_h / 4 == 0 { 1int } else { (frame_h / 4) as int }) + 15) / 16
        }),
        pass == 7 ==> ({
            &&& r.0 == ((if frame_w / 8 == 0 { 1int } else { (frame_w / 8) as int }) + 15) / 16
            &&& r.1 == ((if frame_h / 8 == 0 { 1int } else { (frame_h / 8) as int }) + 15) / 16
        }),
{
    let (w, h): (u32, u32) = match pass {
        0 => (frame_w, frame_h),
        1..=5 => (frame_w / 2, frame_h / 2),
        6 => (frame_w / 2, frame_h / 2),
        7 => (frame_w / 8, frame_h / 8),
        8 => (frame_w / 2, frame_h / 2),
        9 => (frame_w / 4, frame_h / 4),
        10 => (frame_w / 2, frame_h / 2),
        11 => (frame_w, frame_h),
        12 => (frame_w, frame_h),
        13 => (frame_w, frame_h),
        14 => (frame_w, frame_h),
        15 => (frame_w, frame_h),
        16 => (frame_w, frame_h),
        17..=18 => (frame_w, frame_h),
        _ => (frame_w, frame_h),
    };
    assert(w == pass_working_size(pass, frame_w) && h == pass_working_size(pass, frame_h));
    let wg = WORKGROUP_SIZE;
    let w1: u32 = if w < 1 {
        1
    } else {
        w
    };
    let h1: u32 = if h < 1 {
        1
    } else {
        h
    };
    ((w1 + wg - 1) / wg, (h1 + wg - 1) / wg)
}

/// The dispatch of a pass covers its whole working extent with no spare
/// workgroup: at least one group per axis, enough groups to cover every
/// pixel, and one group fewer would not.
pub proof fn lemma_dispatch_covers_extent(size: u32)
    ensures
        workgroups_for(size) >= 1,
        workgroups_for(size) * 16 >= size,
        (workgroups_for(size) - 1) * 16 < if size == 0 {
            1
        } else {
            size as int
        },
{
}

/// An image that a pass samples or writes.
#[derive(Debug, Clone, Copy, PartialEq, Eq, Structural)]
pub enum ImageSlot {
    /// The previous real frame.
    History,
    /// The real frame being presented.
    Current,
    /// A level of the single-channel image pyramid (levels 0 to 6).
    Pyramid(usize),
    /// One of the five feature maps.
    Feature(usize),
    /// The forward optical-flow field.
    FlowForward,
    /// The backward optical-flow field.
    FlowBackward,
    /// One of the three warp outputs.
    Warp(usize),
    /// The synthesized frame.
    Output,
    /// The scratch image of the flow merge.
    Scratch,
}

/// A binding number paired with the image bound there.
pub type Binding = (u32, ImageSlot);

/// The sampled inputs of a pass, from binding 32 up.
pub open spec fn input_bindings(pass: usize) -> Seq<Binding> {
    if pass == 0 || pass == 1 || pass == 2 {
        seq![(32u32, ImageSlot::History)]
    } else if pass == 3 {
        seq![(32u32, ImageSlot::Feature(0))]
    } else if pass == 4 {
        seq![(32u32, ImageSlot::Feature(1))]
    } else if pass == 5 {
        seq![(32u32, ImageSlot::Feature(2))]
    } else if pass == 6 {
        seq![(32u32, ImageSlot::Feature(0))]
    } else if pass == 7 || pass == 14 {
        seq![
            (32u32, ImageSlot::Pyramid(0)),
            (33u32, ImageSlot::Pyramid(1)),
            (34u32, ImageSlot::Pyramid(2)),
            (35u32, ImageSlot::Pyramid(3)),
            (36u32, ImageSlot::Pyramid(4)),
            (37u32, ImageSlot::Pyramid(5)),
        ]
    } else if 8 <= pass <= 11 {
        seq![(32u32, ImageSlot::Feature(0)), (33u32, ImageSlot::Feature(1))]
    } else if pass == 12 {
        seq![(32u32, ImageSlot::Feature(3)), (33u32, ImageSlot::Feature(4))]
    } else if pass == 13 || pass == 15 {
        seq![(32u32, ImageSlot::FlowForward), (33u32, ImageSlot::FlowBackward)]
    } else if pass == 16 {
        seq![(32u32, ImageSlot::Scratch)]
    } else if pass == 17 || pass == 18 {
        seq![
            (32u32, ImageSlot::History),
            (33u32, ImageSlot::Current),
            (34u32, ImageSlot::FlowForward),
            (35u32, ImageSlot::FlowBackward),
            (36u32, ImageSlot::Scratch),
        ]
    } else {
        seq![]
    }
}

/// The storage outputs of a pass, from binding 48 up.
pub open spec fn output_bindings(pass: usize) -> Seq<Binding> {
    if pass == 0 {
        seq![
            (48u32, ImageSlot::Pyramid(0)),
            (49u32, ImageSlot::Pyramid(1)),
            (50u32, ImageSlot::Pyramid(2)),
            (51u32, ImageSlot::Pyramid(3)),
            (52u32, ImageSlot::Pyramid(4)),
            (53u32, ImageSlot::Pyramid(5)),
            (54u32, ImageSlot::Pyramid(6)),
        ]
    } else if 1 <= pass <= 5 {
        seq![(48u32, ImageSlot::Feature((pass - 1) as usize))]
    } else if 6 <= pass <= 12 || pass == 16 {
        seq![(48u32, ImageSlot::FlowForward), (49u32, ImageSlot::FlowBackward)]
    } else if pass == 13 {
        seq![
            (48u32, ImageSlot::Pyramid(0)),
            (49u32, ImageSlot::Pyramid(1)),
            (50u32, ImageSlot::Pyramid(2)),
            (51u32, ImageSlot::Pyramid(3)),
            (52u32, ImageSlot::Pyramid(4)),
            (53u32, ImageSlot::Pyramid(5)),
        ]
    } else if pass == 14 || pass == 15 {
        seq![(48u32, ImageSlot::Scratch)]
    } else if pass == 17 {
        seq![
            (48u32, ImageSlot::Warp(0)),
            (49u32, ImageSlot::Warp(1)),
            (50u32, ImageSlot::Warp(2)),
        ]
    } else if pass == 18 {
        seq![(48u32, ImageSlot::Output)]
    } else {
        seq![]
    }
}

/// The images a pass samples, with their binding numbers.
pub fn pass_input_bindings(pass: usize) -> (r: Vec<Binding>)
    ensures
        r@ == input_bindings(pass),
{
    let r: Vec<Binding> = match pass {
        0 => vec![(32, ImageSlot::History)],
        1 => vec![(32, ImageSlot::History)],
        2 => vec![(32, ImageSlot::History)],
        3 => vec![(32, ImageSlot::Feature(0))],
        4 => vec![(32, ImageSlot::Feature(1))],
        5 => vec![(32, ImageSlot::Feature(2))],
        6 => vec![(32, ImageSlot::Feature(0))],
        7 => vec![
            (32, ImageSlot::Pyramid(0)),
            (33, ImageSlot::Pyramid(1)),
            (34, ImageSlot::Pyramid(2)),
            (35, ImageSlot::Pyramid(3)),
            (36, ImageSlot::Pyramid(4)),
            (37, ImageSlot::Pyramid(5)),
        ],
        8 => vec![(32, ImageSlot::Feature(0)), (33, ImageSlot::Feature(1))],
        9 => vec![(32, ImageSlot::Feature(0)), (33, ImageSlot::Feature(1))],
        10 => vec![(32, ImageSlot::Feature(0)), (33, ImageSlot::Feature(1))],
        11 => vec![(32, ImageSlot::Feature(0)), (33, ImageSlot::Feature(1))],
        12 => vec![(32, ImageSlot::Feature(3)), (33, ImageSlot::Feature(4))],
        13 => vec![(32, ImageSlot::FlowForward), (33, ImageSlot::FlowBackward)],
        14 => vec![
            (32, ImageSlot::Pyramid(0)),
            (33, ImageSlot::Pyramid(1)),
            (34, ImageSlot::Pyramid(2)),
            (35, ImageSlot::Pyramid(3)),
            (36, ImageSlot::Pyramid(4)),
            (37, ImageSlot::Pyramid(5)),
        ],
        15 => vec![(32, ImageSlot::FlowForward), (33, ImageSlot::FlowBackward)],
        16 => vec![(32, ImageSlot::Scratch)],
        17 => vec![
            (32, ImageSlot::History),
            (33, ImageSlot::Current),
            (34, ImageSlot::FlowForward),
            (35, ImageSlot::FlowBackward),
            (36, ImageSlot::Scratch),
        ],
        18 => vec![
            (32, ImageSlot::History),
            (33, ImageSlot::Current),
            (34, ImageSlot::FlowForward),
            (35, ImageSlot::FlowBackward),
            (36, ImageSlot::Scratch),
        ],
        _ => vec![],
    };
    assert(r@ =~= input_bindings(pass));
    r
}

/// The images a pass writes, with their binding numbers.
pub fn pass_output_bindings(pass: usize) -> (r: Vec<Binding>)
    ensures
        r@ == output_bindings(pass),
{
    let r: Vec<Binding> = match pass {
        0 => {
            let mut levels: Vec<Binding> = Vec::new();
            let mut i: usize = 0;
            while i < 7
                invariant
                    i <= 7,
                    levels@.len() == i,
                    forall|j: int|
                        0 <= j < i ==> #[trigger] levels@[j] == ((48 + j) as u32, ImageSlot::Pyramid(
                            j as usize,
                        )),
                decreases 7 - i,
            {
                levels.push((48 + i as u32, ImageSlot::Pyramid(i)));
                i += 1;
            }
            levels
        },
        1 => vec![(48, ImageSlot::Feature(0))],
        2 => vec![(48, ImageSlot::Feature(1))],
        3 => vec![(48, ImageSlot::Feature(2))],
        4 => vec![(48, ImageSlot::Feature(3))],
        5 => vec![(48, ImageSlot::Feature(4))],
        6 => vec![(48, ImageSlot::FlowForward), (49, ImageSlot::FlowBackward)],
        7 => vec![(48, ImageSlot::FlowForward), (49, ImageSlot::FlowBackward)],
        8 => vec![(48, ImageSlot::FlowForward), (49, ImageSlot::FlowBackward)],
        9 => vec![(48, ImageSlot::FlowForward), (49, ImageSlot::FlowBackward)],
        10 => vec![(48, ImageSlot::FlowForward), (49, ImageSlot::FlowBackward)],
        11 => vec![(48, ImageSlot::FlowForward), (49, ImageSlot::FlowBackward)],
        12 => vec![(48, ImageSlot::FlowForward), (49, ImageSlot::FlowBackward)],
        13 => vec![
            (48, ImageSlot::Pyramid(0)),
            (49, ImageSlot::Pyramid(1)),
            (50, ImageSlot::Pyramid(2)),
            (51, ImageSlot::Pyramid(3)),
            (52, ImageSlot::Pyramid(4)),
            (53, ImageSlot::Pyramid(5)),
        ],
        14 => vec![(48, ImageSlot::Scratch)],
        15 => vec![(48, ImageSlot::Scratch)],
        16 => vec![(48, ImageSlot::FlowForward), (49, ImageSlot::FlowBackward)],
        17 => vec![(48, ImageSlot::Warp(0)), (49, ImageSlot::Warp(1)), (50, ImageSlot::Warp(2))],
        18 => vec![(48, ImageSlot::Output)],
        _ => vec![],
    };
    assert(r@ =~= output_bindings(pass));
    r
}

/// Every pass numbers its sampled inputs consecutively from binding 32 and
/// its storage outputs consecutively from binding 48, within the binding
/// ranges of the pipeline layout (b32..b37 and b48..b54); indices past the
/// last pass have no bindings.
pub proof fn lemma_binding_numbers(pass: usize)
    ensures
        forall|i: int|
            0 <= i < input_bindings(pass).len() ==> #[trigger] input_bindings(pass)[i].0 == 32 + i,
        forall|i: int|
            0 <= i < output_bindings(pass).len() ==> #[trigger] output_bindings(pass)[i].0 == 48
                + i,
        input_bindings(pass).len() <= 6,
        output_bindings(pass).len() <= 7,
        pass >= PASS_COUNT ==> input_bindings(pass).len() == 0 && output_bindings(pass).len() == 0,
{
}

/// No pass samples an image that it also writes.
pub proof fn lemma_no_pass_reads_its_output(pass: usize)
    ensures
        forall|i: int, j: int|
            0 <= i < input_bindings(pass).len() && 0 <= j < output_bindings(pass).len()
                ==> #[trigger] input_bindings(pass)[i].1 != #[trigger] output_bindings(pass)[j].1,
{
}

/// The resolution of every pass, written out literally: the pyramid
/// builder (0) and passes 11 to 18 (late refinement, flow expansion, warp
/// and synthesis) work at full resolution, the feature, flow-init and first
/// refinement passes (1 to 6, 8, 10) at half, pass 9 at a quarter, and the
/// coarse flow pass (7) at an eighth.
pub proof fn lemma_pass_resolution_table(pass: usize, size: u32)
    ensures
        pass == 0 || 11 <= pass ==> pass_working_size(pass, size) == size,
        1 <= pass <= 6 || pass == 8 || pass == 10 ==> pass_working_size(pass, size) == size / 2,
        pass == 9 ==> pass_working_size(pass, size) == size / 4,
        pass == 7 ==> pass_working_size(pass, size) == size / 8,
{
}

/// Every pass that samples a frame binds the previous frame at b32 and the
/// current frame at b33; the two flow fields, when sampled, sit at
/// consecutive bindings with the forward one first; pyramid level `k` is
/// always bound at the base binding plus `k`, and warp output `k` at b48 plus
/// `k`; feature map `k` is written by pass `k + 1`; the warp and synthesis
/// passes sample the same images.
pub proof fn lemma_binding_roles(pass: usize)
    ensures
        forall|i: int|
            0 <= i < input_bindings(pass).len() && #[trigger] input_bindings(pass)[i].1
                == ImageSlot::History ==> input_bindings(pass)[i].0 == 32,
        forall|i: int|
            0 <= i < input_bindings(pass).len() && #[trigger] input_bindings(pass)[i].1
                == ImageSlot::Current ==> input_bindings(pass)[i].0 == 33,
        forall|i: int, j: int|
            0 <= i < input_bindings(pass).len() && 0 <= j < input_bindings(pass).len()
                && #[trigger] input_bindings(pass)[i].1 == ImageSlot::FlowForward
                && #[trigger] input_bindings(pass)[j].1 == ImageSlot::FlowBackward ==> j == i + 1,
        forall|i: int|
            0 <= i < input_bindings(pass).len() ==> (#[trigger] input_bindings(pass)[i].1 matches ImageSlot::Pyramid(k)
                ==> input_bindings(pass)[i].0 == 32 + k),
        forall|i: int|
            0 <= i < output_bindings(pass).len() ==> (#[trigger] output_bindings(pass)[i].1 matches ImageSlot::Pyramid(k)
                ==> output_bindings(pass)[i].0 == 48 + k),
        forall|i: int|
            0 <= i < output_bindings(pass).len() ==> (#[trigger] output_bindings(pass)[i].1 matches ImageSlot::Warp(k)
                ==> output_bindings(pass)[i].0 == 48 + k),
        forall|i: int|
            0 <= i < output_bindings(pass).len() ==> (#[trigger] output_bindings(pass)[i].1 matches ImageSlot::Feature(k)
                ==> pass == k + 1),
        input_bindings(17) == input_bindings(18),
        output_bindings(18) == seq![(48u32, ImageSlot::Output)],
{
}

/// Every image that a pass samples, other than the previous and current
/// frames, is written by an earlier pass of the same frame.
pub proof fn lemma_inputs_written_earlier(pass: usize, i: int)
    requires
        0 <= i < input_bindings(pass).len(),
        input_bindings(pass)[i].1 != ImageSlot::History,
        input_bindings(pass)[i].1 != ImageSlot::Current,
    ensures
        exists|q: usize, j: int|
            q < pass && 0 <= j < output_bindings(q).len() && #[trigger] output_bindings(q)[j].1
                == input_bindings(pass)[i].1,
{
    let s = input_bindings(pass)[i].1;
    if pass == 7 || pass == 14 {
        assert(output_bindings(0usize)[i].1 == s);
    } else if s == ImageSlot::Feature(0) {
        assert(output_bindings(1usize)[0].1 == s);
    } else if s == ImageSlot::Feature(1) {
        assert(output_bindings(2usize)[0].1 == s);
    } else if s == ImageSlot::Feature(2) {
        assert(output_bindings(3usize)[0].1 == s);
    } else if s == ImageSlot::Feature(3) {
        assert(output_bindings(4usize)[0].1 == s);
    } else if s == ImageSlot::Feature(4) {
        assert(output_bindings(5usize)[0].1 == s);
    } else if s == ImageSlot::FlowForward {
        assert(output_bindings(6usize)[0].1 == s);
    } else if s == ImageSlot::FlowBackward {
        assert(output_bindings(6usize)[1].1 == s);
    } else if s == ImageSlot::Scratch {
        assert(output_bindings(14usize)[0].1 == s);
    }
}

} // verus!
