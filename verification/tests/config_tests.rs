use omfg_layer::config::{DebugView, Mode};

#[test]
fn parses_mode_aliases() {
    assert_eq!(Mode::from_env_value(None), Mode::PassThrough);
    assert_eq!(Mode::from_env_value(Some("")), Mode::PassThrough);
    assert_eq!(Mode::from_env_value(Some("clear")), Mode::ClearTest);
    assert_eq!(Mode::from_env_value(Some("clear-test")), Mode::ClearTest);
    assert_eq!(Mode::from_env_value(Some("bfi")), Mode::BfiTest);
    assert_eq!(Mode::from_env_value(Some("black-frame")), Mode::BfiTest);
    assert_eq!(
        Mode::from_env_value(Some("black-frame-insertion")),
        Mode::BfiTest
    );
    assert_eq!(Mode::from_env_value(Some("bfi-test")), Mode::BfiTest);
    assert_eq!(Mode::from_env_value(Some("copy")), Mode::CopyTest);
    assert_eq!(Mode::from_env_value(Some("copy-test")), Mode::CopyTest);
    assert_eq!(Mode::from_env_value(Some("duplicate")), Mode::CopyTest);
    assert_eq!(Mode::from_env_value(Some("history")), Mode::HistoryCopyTest);
    assert_eq!(
        Mode::from_env_value(Some("history-copy")),
        Mode::HistoryCopyTest
    );
    assert_eq!(
        Mode::from_env_value(Some("copy-prev")),
        Mode::HistoryCopyTest
    );
    assert_eq!(
        Mode::from_env_value(Some("history-copy-test")),
        Mode::HistoryCopyTest
    );
    assert_eq!(Mode::from_env_value(Some("blend")), Mode::BlendTest);
    assert_eq!(Mode::from_env_value(Some("blend-test")), Mode::BlendTest);
    assert_eq!(Mode::from_env_value(Some("history-blend")), Mode::BlendTest);
    assert_eq!(
        Mode::from_env_value(Some("blend-prev-current")),
        Mode::BlendTest
    );
    assert_eq!(
        Mode::from_env_value(Some("adaptive-blend")),
        Mode::AdaptiveBlendTest
    );
    assert_eq!(
        Mode::from_env_value(Some("adaptive")),
        Mode::AdaptiveBlendTest
    );
    assert_eq!(
        Mode::from_env_value(Some("adaptive-blend-test")),
        Mode::AdaptiveBlendTest
    );
    assert_eq!(
        Mode::from_env_value(Some("blend-adaptive")),
        Mode::AdaptiveBlendTest
    );
    assert_eq!(
        Mode::from_env_value(Some("search-blend")),
        Mode::SearchBlendTest
    );
    assert_eq!(
        Mode::from_env_value(Some("motion-search")),
        Mode::SearchBlendTest
    );
    assert_eq!(
        Mode::from_env_value(Some("motion-search-blend")),
        Mode::SearchBlendTest
    );
    assert_eq!(
        Mode::from_env_value(Some("search-blend-test")),
        Mode::SearchBlendTest
    );
    assert_eq!(
        Mode::from_env_value(Some("search-adaptive-blend")),
        Mode::SearchAdaptiveBlendTest
    );
    assert_eq!(
        Mode::from_env_value(Some("adaptive-search-blend")),
        Mode::SearchAdaptiveBlendTest
    );
    assert_eq!(
        Mode::from_env_value(Some("motion-search-adaptive")),
        Mode::SearchAdaptiveBlendTest
    );
    assert_eq!(
        Mode::from_env_value(Some("search-adaptive-blend-test")),
        Mode::SearchAdaptiveBlendTest
    );
    assert_eq!(
        Mode::from_env_value(Some("reproject-blend")),
        Mode::ReprojectBlendTest
    );
    assert_eq!(
        Mode::from_env_value(Some("vector-reproject-blend")),
        Mode::ReprojectBlendTest
    );
    assert_eq!(
        Mode::from_env_value(Some("motion-reproject")),
        Mode::ReprojectBlendTest
    );
    assert_eq!(
        Mode::from_env_value(Some("reproject-blend-test")),
        Mode::ReprojectBlendTest
    );
    assert_eq!(
        Mode::from_env_value(Some("reproject-adaptive-blend")),
        Mode::ReprojectAdaptiveBlendTest
    );
    assert_eq!(
        Mode::from_env_value(Some("adaptive-reproject-blend")),
        Mode::ReprojectAdaptiveBlendTest
    );
    assert_eq!(
        Mode::from_env_value(Some("vector-reproject-adaptive")),
        Mode::ReprojectAdaptiveBlendTest
    );
    assert_eq!(
        Mode::from_env_value(Some("reproject-adaptive-blend-test")),
        Mode::ReprojectAdaptiveBlendTest
    );
    assert_eq!(
        Mode::from_env_value(Some("optflow-blend")),
        Mode::OptFlowBlendTest
    );
    assert_eq!(
        Mode::from_env_value(Some("optical-flow")),
        Mode::OptFlowBlendTest
    );
    assert_eq!(
        Mode::from_env_value(Some("optical-flow-blend")),
        Mode::OptFlowBlendTest
    );
    assert_eq!(
        Mode::from_env_value(Some("optflow-blend-test")),
        Mode::OptFlowBlendTest
    );
    assert_eq!(
        Mode::from_env_value(Some("optflow-adaptive-blend")),
        Mode::OptFlowAdaptiveBlendTest
    );
    assert_eq!(
        Mode::from_env_value(Some("optflow-adaptive")),
        Mode::OptFlowAdaptiveBlendTest
    );
    assert_eq!(
        Mode::from_env_value(Some("optical-flow-adaptive")),
        Mode::OptFlowAdaptiveBlendTest
    );
    assert_eq!(
        Mode::from_env_value(Some("optflow-adaptive-blend-test")),
        Mode::OptFlowAdaptiveBlendTest
    );
    assert_eq!(
        Mode::from_env_value(Some("optflow-multi-blend")),
        Mode::OptFlowMultiBlendTest
    );
    assert_eq!(
        Mode::from_env_value(Some("optflow-multi-fg")),
        Mode::OptFlowMultiBlendTest
    );
    assert_eq!(
        Mode::from_env_value(Some("optflow-multi")),
        Mode::OptFlowMultiBlendTest
    );
    assert_eq!(
        Mode::from_env_value(Some("optical-flow-multi")),
        Mode::OptFlowMultiBlendTest
    );
    assert_eq!(
        Mode::from_env_value(Some("optflow-multi-blend-test")),
        Mode::OptFlowMultiBlendTest
    );
    assert_eq!(
        Mode::from_env_value(Some("optflow-adaptive-multi-blend")),
        Mode::OptFlowAdaptiveMultiBlendTest
    );
    assert_eq!(
        Mode::from_env_value(Some("optflow-adaptive-multi-fg")),
        Mode::OptFlowAdaptiveMultiBlendTest
    );
    assert_eq!(
        Mode::from_env_value(Some("optflow-adaptive-multi")),
        Mode::OptFlowAdaptiveMultiBlendTest
    );
    assert_eq!(
        Mode::from_env_value(Some("optical-flow-adaptive-multi")),
        Mode::OptFlowAdaptiveMultiBlendTest
    );
    assert_eq!(
        Mode::from_env_value(Some("optflow-adaptive-multi-blend-test")),
        Mode::OptFlowAdaptiveMultiBlendTest
    );
    assert_eq!(
        Mode::from_env_value(Some("reproject-multi-blend")),
        Mode::ReprojectMultiBlendTest
    );
    assert_eq!(
        Mode::from_env_value(Some("reproject-multi-fg")),
        Mode::ReprojectMultiBlendTest
    );
    assert_eq!(
        Mode::from_env_value(Some("reproject-multi-blend-test")),
        Mode::ReprojectMultiBlendTest
    );
    assert_eq!(
        Mode::from_env_value(Some("multi-reproject-blend")),
        Mode::ReprojectMultiBlendTest
    );
    assert_eq!(
        Mode::from_env_value(Some("reproject-adaptive-multi-blend")),
        Mode::ReprojectAdaptiveMultiBlendTest
    );
    assert_eq!(
        Mode::from_env_value(Some("adaptive-reproject-multi-blend")),
        Mode::ReprojectAdaptiveMultiBlendTest
    );
    assert_eq!(
        Mode::from_env_value(Some("reproject-adaptive-multi-fg")),
        Mode::ReprojectAdaptiveMultiBlendTest
    );
    assert_eq!(
        Mode::from_env_value(Some("reproject-adaptive-multi-blend-test")),
        Mode::ReprojectAdaptiveMultiBlendTest
    );
    assert_eq!(
        Mode::from_env_value(Some("multi-blend")),
        Mode::MultiBlendTest
    );
    assert_eq!(Mode::from_env_value(Some("multi-fg")), Mode::MultiBlendTest);
    assert_eq!(
        Mode::from_env_value(Some("multi-fg-test")),
        Mode::MultiBlendTest
    );
    assert_eq!(
        Mode::from_env_value(Some("multi-blend-test")),
        Mode::MultiBlendTest
    );
    assert_eq!(
        Mode::from_env_value(Some("adaptive-multi-blend")),
        Mode::AdaptiveMultiBlendTest
    );
    assert_eq!(
        Mode::from_env_value(Some("adaptive-multi-fg")),
        Mode::AdaptiveMultiBlendTest
    );
    assert_eq!(
        Mode::from_env_value(Some("adaptive-multi-blend-test")),
        Mode::AdaptiveMultiBlendTest
    );
    assert_eq!(
        Mode::from_env_value(Some("multi-blend-adaptive")),
        Mode::AdaptiveMultiBlendTest
    );
    assert_eq!(Mode::from_env_value(Some("wat")), Mode::PassThrough);
}

#[test]
fn returns_stable_mode_names() {
    assert_eq!(Mode::PassThrough.name(), "passthrough");
    assert_eq!(Mode::ClearTest.name(), "clear-test");
    assert_eq!(Mode::BfiTest.name(), "bfi-test");
    assert_eq!(Mode::CopyTest.name(), "copy-test");
    assert_eq!(Mode::HistoryCopyTest.name(), "history-copy-test");
    assert_eq!(Mode::BlendTest.name(), "blend-test");
    assert_eq!(Mode::AdaptiveBlendTest.name(), "adaptive-blend-test");
    assert_eq!(Mode::SearchBlendTest.name(), "search-blend-test");
    assert_eq!(
        Mode::SearchAdaptiveBlendTest.name(),
        "search-adaptive-blend-test"
    );
    assert_eq!(Mode::ReprojectBlendTest.name(), "reproject-blend-test");
    assert_eq!(
        Mode::ReprojectAdaptiveBlendTest.name(),
        "reproject-adaptive-blend-test"
    );
    assert_eq!(Mode::OptFlowBlendTest.name(), "optflow-blend-test");
    assert_eq!(
        Mode::OptFlowAdaptiveBlendTest.name(),
        "optflow-adaptive-blend-test"
    );
    assert_eq!(
        Mode::OptFlowMultiBlendTest.name(),
        "optflow-multi-blend-test"
    );
    assert_eq!(
        Mode::OptFlowAdaptiveMultiBlendTest.name(),
        "optflow-adaptive-multi-blend-test"
    );
    assert_eq!(
        Mode::ReprojectMultiBlendTest.name(),
        "reproject-multi-blend-test"
    );
    assert_eq!(
        Mode::ReprojectAdaptiveMultiBlendTest.name(),
        "reproject-adaptive-multi-blend-test"
    );
    assert_eq!(Mode::MultiBlendTest.name(), "multi-blend-test");
    assert_eq!(
        Mode::AdaptiveMultiBlendTest.name(),
        "adaptive-multi-blend-test"
    );
}

#[test]
fn parses_debug_view_aliases() {
    assert_eq!(DebugView::from_env_value(None), DebugView::Off);
    assert_eq!(DebugView::from_env_value(Some("")), DebugView::Off);
    assert_eq!(DebugView::from_env_value(Some("motion")), DebugView::Motion);
    assert_eq!(DebugView::from_env_value(Some("vector")), DebugView::Motion);
    assert_eq!(DebugView::from_env_value(Some("offset")), DebugView::Motion);
    assert_eq!(
        DebugView::from_env_value(Some("reprojection-offset")),
        DebugView::Motion
    );
    assert_eq!(
        DebugView::from_env_value(Some("confidence")),
        DebugView::Confidence
    );
    assert_eq!(
        DebugView::from_env_value(Some("reproject-confidence")),
        DebugView::Confidence
    );
    assert_eq!(
        DebugView::from_env_value(Some("ambiguity")),
        DebugView::Ambiguity
    );
    assert_eq!(
        DebugView::from_env_value(Some("reproject-ambiguity")),
        DebugView::Ambiguity
    );
    assert_eq!(
        DebugView::from_env_value(Some("disocclusion")),
        DebugView::Disocclusion
    );
    assert_eq!(
        DebugView::from_env_value(Some("reproject-disocclusion")),
        DebugView::Disocclusion
    );
    assert_eq!(
        DebugView::from_env_value(Some("occlusion")),
        DebugView::Disocclusion
    );
    assert_eq!(
        DebugView::from_env_value(Some("hole-fill")),
        DebugView::HoleFill
    );
    assert_eq!(
        DebugView::from_env_value(Some("holefill")),
        DebugView::HoleFill
    );
    assert_eq!(
        DebugView::from_env_value(Some("reproject-hole-fill")),
        DebugView::HoleFill
    );
    assert_eq!(
        DebugView::from_env_value(Some("fallback")),
        DebugView::Fallback
    );
    assert_eq!(
        DebugView::from_env_value(Some("source")),
        DebugView::Fallback
    );
    assert_eq!(
        DebugView::from_env_value(Some("fallback-source")),
        DebugView::Fallback
    );
    assert_eq!(DebugView::from_env_value(Some("wat")), DebugView::Off);
}

#[test]
fn returns_stable_debug_view_names_and_codes() {
    assert_eq!(DebugView::Off.name(), "off");
    assert_eq!(DebugView::Motion.name(), "motion");
    assert_eq!(DebugView::Confidence.name(), "confidence");
    assert_eq!(DebugView::Ambiguity.name(), "ambiguity");
    assert_eq!(DebugView::Disocclusion.name(), "disocclusion");
    assert_eq!(DebugView::HoleFill.name(), "hole-fill");
    assert_eq!(DebugView::Fallback.name(), "fallback");
    assert_eq!(DebugView::Off.shader_code(), 0);
    assert_eq!(DebugView::Motion.shader_code(), 1);
    assert_eq!(DebugView::Confidence.shader_code(), 2);
    assert_eq!(DebugView::Ambiguity.shader_code(), 3);
    assert_eq!(DebugView::Disocclusion.shader_code(), 4);
    assert_eq!(DebugView::HoleFill.shader_code(), 5);
    assert_eq!(DebugView::Fallback.shader_code(), 6);
}
