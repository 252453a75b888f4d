//! The integer part of the motion-search heuristics: clamping a sample
//! coordinate to the frame.
use vstd::prelude::*;

verus! {

/// The largest coordinate index of an axis of `limit` pixels, as the signed
/// coordinate type (0 for an empty axis).
pub open spec fn coord_upper_bound(limit: usize) -> i32 {
    (if limit == 0 {
        0usize
    } else {
        (limit - 1) as usize
    }) as i32
}

/// Clamps a signed sample coordinate into an axis of `limit` pixels
/// (edge-clamp addressing).
pub fn clamp_coord(value: i32, limit: usize) -> (r: usize)
    requires
        coord_upper_bound(limit) >= 0,
    ensures
        r == (if value < 0 {
            0
        } else if value > coord_upper_bound(limit) {
            coord_upper_bound(limit) as int
        } else {
            value as int
        }),
        value < 0 ==> r == 0,
        0 < limit <= 0x8000_0000 ==> r < limit,
        limit <= 0x8000_0000 && 0 <= value && value < limit ==> r == value,
        0 < limit <= 0x8000_0000 && value >= limit ==> r == limit - 1,
{
    let upper = limit.saturating_sub(1) as i32;
    let clamped = if value < 0 {
        0
    } else if value > upper {
        upper
    } else {
        value
    };
    clamped as usize
}

} // verus!
