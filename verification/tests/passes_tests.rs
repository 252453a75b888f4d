use omfg_layer::passes::{pass_dispatch_extent, pass_input_bindings, pass_output_bindings, ImageSlot};

#[test]
fn pass_dispatch_extent_full_res_passes() {
    // Full resolution passes should use ceil(W/16) × ceil(H/16)
    let (gx, gy) = pass_dispatch_extent(0, 1920, 1080);
    assert_eq!(gx, 120); // ceil(1920/16)
    assert_eq!(gy, 68);  // ceil(1080/16)

    let (gx, gy) = pass_dispatch_extent(12, 1920, 1080);
    assert_eq!(gx, 120);
    assert_eq!(gy, 68);

    let (gx, gy) = pass_dispatch_extent(18, 1920, 1080);
    assert_eq!(gx, 120);
    assert_eq!(gy, 68);
}

#[test]
fn pass_dispatch_extent_half_res_passes() {
    // Half-resolution passes (feature extraction, OF refinement)
    let (gx, gy) = pass_dispatch_extent(1, 1920, 1080);
    assert_eq!(gx, 60);  // ceil(960/16)
    assert_eq!(gy, 34);  // ceil(540/16)

    let (gx, gy) = pass_dispatch_extent(8, 1920, 1080);
    assert_eq!(gx, 60);
    assert_eq!(gy, 34);
}

#[test]
fn pass_dispatch_extent_coarse_of() {
    // Coarse multi-scale OF at 1/8 resolution
    let (gx, gy) = pass_dispatch_extent(7, 1920, 1080);
    assert_eq!(gx, 15);  // ceil(240/16)
    assert_eq!(gy, 9);   // ceil(135/16)
}

#[test]
fn pass_dispatch_extent_iterative_of() {
    // Iterative OF at increasing resolutions
    let (gx, gy) = pass_dispatch_extent(9, 1920, 1080);  // 1/4 res
    assert_eq!(gx, 30);  // ceil(480/16)
    assert_eq!(gy, 17);  // ceil(270/16)

    let (gx, gy) = pass_dispatch_extent(10, 1920, 1080); // 1/2 res
    assert_eq!(gx, 60);
    assert_eq!(gy, 34);

    let (gx, gy) = pass_dispatch_extent(11, 1920, 1080); // full res
    assert_eq!(gx, 120);
    assert_eq!(gy, 68);
}

#[test]
fn pass_input_bindings_synthesis_uses_source_frames() {
    // Pass 18 (frame synthesis) should bind both frames + flow + confidence
    let bindings = pass_input_bindings(18);
    assert_eq!(bindings.len(), 5);
    assert_eq!(bindings[0].0, 32); // b32 = prev frame
    assert_eq!(bindings[1].0, 33); // b33 = curr frame
    assert_eq!(bindings[2].0, 34); // b34 = fwd flow
    assert_eq!(bindings[3].0, 35); // b35 = bwd flow
    assert_eq!(bindings[4].0, 36); // b36 = confidence
    assert_eq!(bindings[0].1, ImageSlot::History);
    assert_eq!(bindings[1].1, ImageSlot::Current);
}

#[test]
fn pass_output_bindings_pyramid_produces_7_levels() {
    let bindings = pass_output_bindings(0);
    assert_eq!(bindings.len(), 7);
    assert_eq!(bindings[0].0, 48);
    assert_eq!(bindings[6].0, 54);
}
