//! The layer's settings: the frame-generation mode and the debug view,
//! parsed from their setting values, with their stable names.
use vstd::prelude::*;

use crate::text::str_equal;

verus! {

/// Frame-generation mode of the layer, chosen by the `OMFG_LAYER_MODE` setting.
#[derive(Debug, Clone, Copy, PartialEq, Eq, Structural)]
pub enum Mode {
    PassThrough,
    ClearTest,
    BfiTest,
    CopyTest,
    HistoryCopyTest,
    BlendTest,
    AdaptiveBlendTest,
    SearchBlendTest,
    SearchAdaptiveBlendTest,
    ReprojectBlendTest,
    ReprojectAdaptiveBlendTest,
    OptFlowBlendTest,
    OptFlowAdaptiveBlendTest,
    OptFlowMultiBlendTest,
    OptFlowAdaptiveMultiBlendTest,
    ReprojectMultiBlendTest,
    ReprojectAdaptiveMultiBlendTest,
    MultiBlendTest,
    AdaptiveMultiBlendTest,
}

/// The characters of an optional setting value; an absent value reads as empty.
pub open spec fn setting_chars(value: Option<&str>) -> Seq<char> {
    match value {
        Some(s) => s@,
        None => Seq::empty(),
    }
}

/// The mode that a setting value selects: each mode has a set of accepted
/// aliases, and any other value (the empty one too) selects `PassThrough`.
pub open spec fn mode_for_value(s: Seq<char>) -> Mode {
    if s == "clear"@ || s == "clear-test"@ {
        Mode::ClearTest
    } else if s == "bfi"@ || s == "black-frame"@ || s == "black-frame-insertion"@ || s == "bfi-test"@ {
        Mode::BfiTest
    } else if s == "copy"@ || s == "copy-test"@ || s == "duplicate"@ {
        Mode::CopyTest
    } else if s == "history"@ || s == "history-copy"@ || s == "copy-prev"@ || s == "history-copy-test"@ {
        Mode::HistoryCopyTest
    } else if s == "blend"@ || s == "blend-test"@ || s == "history-blend"@ || s == "blend-prev-current"@ {
        Mode::BlendTest
    } else if s == "adaptive-blend"@ || s == "adaptive"@ || s == "adaptive-blend-test"@ || s == "blend-adaptive"@ {
        Mode::AdaptiveBlendTest
    } else if s == "search-blend"@ || s == "motion-search"@ || s == "motion-search-blend"@ || s == "search-blend-test"@ {
        Mode::SearchBlendTest
    } else if s == "search-adaptive-blend"@ || s == "adaptive-search-blend"@ || s == "motion-search-adaptive"@ || s == "search-adaptive-blend-test"@ {
        Mode::SearchAdaptiveBlendTest
    } else if s == "reproject-blend"@ || s == "vector-reproject-blend"@ || s == "motion-reproject"@ || s == "reproject-blend-test"@ {
        Mode::ReprojectBlendTest
    } else if s == "reproject-adaptive-blend"@ || s == "adaptive-reproject-blend"@ || s == "vector-reproject-adaptive"@ || s == "reproject-adaptive-blend-test"@ {
        Mode::ReprojectAdaptiveBlendTest
    } else if s == "optflow-blend"@ || s == "optical-flow"@ || s == "optical-flow-blend"@ || s == "optflow-blend-test"@ {
        Mode::OptFlowBlendTest
    } else if s == "optflow-adaptive-blend"@ || s == "optflow-adaptive"@ || s == "optical-flow-adaptive"@ || s == "optflow-adaptive-blend-test"@ {
        Mode::OptFlowAdaptiveBlendTest
    } else if s == "optflow-multi-blend"@ || s == "optflow-multi-fg"@ || s == "optflow-multi"@ || s == "optical-flow-multi"@ || s == "optflow-multi-blend-test"@ {
        Mode::OptFlowMultiBlendTest
    } else if s == "optflow-adaptive-multi-blend"@ || s == "optflow-adaptive-multi-fg"@ || s == "optflow-adaptive-multi"@ || s == "optical-flow-adaptive-multi"@ || s == "optflow-adaptive-multi-blend-test"@ {
        Mode::OptFlowAdaptiveMultiBlendTest
    } else if s == "reproject-multi-blend"@ || s == "reproject-multi-fg"@ || s == "reproject-multi-blend-test"@ || s == "multi-reproject-blend"@ {
        Mode::ReprojectMultiBlendTest
    } else if s == "reproject-adaptive-multi-blend"@ || s == "adaptive-reproject-multi-blend"@ || s == "reproject-adaptive-multi-fg"@ || s == "reproject-adaptive-multi-blend-test"@ {
        Mode::ReprojectAdaptiveMultiBlendTest
    } else if s == "multi-blend"@ || s == "multi-fg"@ || s == "multi-fg-test"@ || s == "multi-blend-test"@ {
        Mode::MultiBlendTest
    } else if s == "adaptive-multi-blend"@ || s == "adaptive-multi-fg"@ || s == "adaptive-multi-blend-test"@ || s == "multi-blend-adaptive"@ {
        Mode::AdaptiveMultiBlendTest
    } else {
        Mode::PassThrough
    }
}

/// The stable name of a mode, as the layer reports it in its log.
pub open spec fn mode_name(m: Mode) -> Seq<char> {
    match m {
        Mode::PassThrough => "passthrough"@,
        Mode::ClearTest => "clear-test"@,
        Mode::BfiTest => "bfi-test"@,
        Mode::CopyTest => "copy-test"@,
        Mode::HistoryCopyTest => "history-copy-test"@,
        Mode::BlendTest => "blend-test"@,
        Mode::AdaptiveBlendTest => "adaptive-blend-test"@,
        Mode::SearchBlendTest => "search-blend-test"@,
        Mode::SearchAdaptiveBlendTest => "search-adaptive-blend-test"@,
        Mode::ReprojectBlendTest => "reproject-blend-test"@,
        Mode::ReprojectAdaptiveBlendTest => "reproject-adaptive-blend-test"@,
        Mode::OptFlowBlendTest => "optflow-blend-test"@,
        Mode::OptFlowAdaptiveBlendTest => "optflow-adaptive-blend-test"@,
        Mode::OptFlowMultiBlendTest => "optflow-multi-blend-test"@,
        Mode::OptFlowAdaptiveMultiBlendTest => "optflow-adaptive-multi-blend-test"@,
        Mode::ReprojectMultiBlendTest => "reproject-multi-blend-test"@,
        Mode::ReprojectAdaptiveMultiBlendTest => "reproject-adaptive-multi-blend-test"@,
        Mode::MultiBlendTest => "multi-blend-test"@,
        Mode::AdaptiveMultiBlendTest => "adaptive-multi-blend-test"@,
    }
}

impl Mode {
    /// Parses the value of the mode setting.
    pub fn from_env_value(value: Option<&str>) -> (r: Mode)
        ensures
            r == mode_for_value(setting_chars(value)),
    {
        let v: &str = match value {
            Some(s) => s,
            None => "",
        };
        proof {
            reveal_strlit("");
        }
        assert(v@ == setting_chars(value));
        if str_equal(v, "clear") || str_equal(v, "clear-test") {
            Mode::ClearTest
        } else if str_equal(v, "bfi") || str_equal(v, "black-frame") || str_equal(v, "black-frame-insertion") || str_equal(v, "bfi-test") {
            Mode::BfiTest
        } else if str_equal(v, "copy") || str_equal(v, "copy-test") || str_equal(v, "duplicate") {
            Mode::CopyTest
        } else if str_equal(v, "history") || str_equal(v, "history-copy") || str_equal(v, "copy-prev") || str_equal(v, "history-copy-test") {
            Mode::HistoryCopyTest
        } else if str_equal(v, "blend") || str_equal(v, "blend-test") || str_equal(v, "history-blend") || str_equal(v, "blend-prev-current") {
            Mode::BlendTest
        } else if str_equal(v, "adaptive-blend") || str_equal(v, "adaptive") || str_equal(v, "adaptive-blend-test") || str_equal(v, "blend-adaptive") {
            Mode::AdaptiveBlendTest
        } else if str_equal(v, "search-blend") || str_equal(v, "motion-search") || str_equal(v, "motion-search-blend") || str_equal(v, "search-blend-test") {
            Mode::SearchBlendTest
        } else if str_equal(v, "search-adaptive-blend") || str_equal(v, "adaptive-search-blend") || str_equal(v, "motion-search-adaptive") || str_equal(v, "search-adaptive-blend-test") {
            Mode::SearchAdaptiveBlendTest
        } else if str_equal(v, "reproject-blend") || str_equal(v, "vector-reproject-blend") || str_equal(v, "motion-reproject") || str_equal(v, "reproject-blend-test") {
            Mode::ReprojectBlendTest
        } else if str_equal(v, "reproject-adaptive-blend") || str_equal(v, "adaptive-reproject-blend") || str_equal(v, "vector-reproject-adaptive") || str_equal(v, "reproject-adaptive-blend-test") {
            Mode::ReprojectAdaptiveBlendTest
        } else if str_equal(v, "optflow-blend") || str_equal(v, "optical-flow") || str_equal(v, "optical-flow-blend") || str_equal(v, "optflow-blend-test") {
            Mode::OptFlowBlendTest
        } else if str_equal(v, "optflow-adaptive-blend") || str_equal(v, "optflow-adaptive") || str_equal(v, "optical-flow-adaptive") || str_equal(v, "optflow-adaptive-blend-test") {
            Mode::OptFlowAdaptiveBlendTest
        } else if str_equal(v, "optflow-multi-blend") || str_equal(v, "optflow-multi-fg") || str_equal(v, "optflow-multi") || str_equal(v, "optical-flow-multi") || str_equal(v, "optflow-multi-blend-test") {
            Mode::OptFlowMultiBlendTest
        } else if str_equal(v, "optflow-adaptive-multi-blend") || str_equal(v, "optflow-adaptive-multi-fg") || str_equal(v, "optflow-adaptive-multi") || str_equal(v, "optical-flow-adaptive-multi") || str_equal(v, "optflow-adaptive-multi-blend-test") {
            Mode::OptFlowAdaptiveMultiBlendTest
        } else if str_equal(v, "reproject-multi-blend") || str_equal(v, "reproject-multi-fg") || str_equal(v, "reproject-multi-blend-test") || str_equal(v, "multi-reproject-blend") {
            Mode::ReprojectMultiBlendTest
        } else if str_equal(v, "reproject-adaptive-multi-blend") || str_equal(v, "adaptive-reproject-multi-blend") || str_equal(v, "reproject-adaptive-multi-fg") || str_equal(v, "reproject-adaptive-multi-blend-test") {
            Mode::ReprojectAdaptiveMultiBlendTest
        } else if str_equal(v, "multi-blend") || str_equal(v, "multi-fg") || str_equal(v, "multi-fg-test") || str_equal(v, "multi-blend-test") {
            Mode::MultiBlendTest
        } else if str_equal(v, "adaptive-multi-blend") || str_equal(v, "adaptive-multi-fg") || str_equal(v, "adaptive-multi-blend-test") || str_equal(v, "multi-blend-adaptive") {
            Mode::AdaptiveMultiBlendTest
        } else {
            Mode::PassThrough
        }
    }

    /// The stable name of this mode.
    pub fn name(self) -> (r: &'static str)
        ensures
            r@ == mode_name(self),
    {
        match self {
            Mode::PassThrough => "passthrough",
            Mode::ClearTest => "clear-test",
            Mode::BfiTest => "bfi-test",
            Mode::CopyTest => "copy-test",
            Mode::HistoryCopyTest => "history-copy-test",
            Mode::BlendTest => "blend-test",
            Mode::AdaptiveBlendTest => "adaptive-blend-test",
            Mode::SearchBlendTest => "search-blend-test",
            Mode::SearchAdaptiveBlendTest => "search-adaptive-blend-test",
            Mode::ReprojectBlendTest => "reproject-blend-test",
            Mode::ReprojectAdaptiveBlendTest => "reproject-adaptive-blend-test",
            Mode::OptFlowBlendTest => "optflow-blend-test",
            Mode::OptFlowAdaptiveBlendTest => "optflow-adaptive-blend-test",
            Mode::OptFlowMultiBlendTest => "optflow-multi-blend-test",
            Mode::OptFlowAdaptiveMultiBlendTest => "optflow-adaptive-multi-blend-test",
            Mode::ReprojectMultiBlendTest => "reproject-multi-blend-test",
            Mode::ReprojectAdaptiveMultiBlendTest => "reproject-adaptive-multi-blend-test",
            Mode::MultiBlendTest => "multi-blend-test",
            Mode::AdaptiveMultiBlendTest => "adaptive-multi-blend-test",
        }
    }
}

/// Diagnostic view that the synthesis shader can render in place of the
/// generated frame, chosen by the `OMFG_DEBUG_VIEW` setting.
#[derive(Debug, Clone, Copy, PartialEq, Eq, Structural)]
pub enum DebugView {
    Off,
    Motion,
    Confidence,
    Ambiguity,
    Disocclusion,
    HoleFill,
    Fallback,
}

/// The debug view that a setting value selects; any other value selects `Off`.
pub open spec fn debug_view_for_value(s: Seq<char>) -> DebugView {
    if s == "motion"@ || s == "vector"@ || s == "offset"@ || s == "reprojection-offset"@ {
        DebugView::Motion
    } else if s == "confidence"@ || s == "reproject-confidence"@ {
        DebugView::Confidence
    } else if s == "ambiguity"@ || s == "reproject-ambiguity"@ {
        DebugView::Ambiguity
    } else if s == "disocclusion"@ || s == "reproject-disocclusion"@ || s == "occlusion"@ {
        DebugView::Disocclusion
    } else if s == "hole-fill"@ || s == "holefill"@ || s == "reproject-hole-fill"@ {
        DebugView::HoleFill
    } else if s == "fallback"@ || s == "source"@ || s == "fallback-source"@ {
        DebugView::Fallback
    } else {
        DebugView::Off
    }
}

/// The stable name of a debug view.
pub open spec fn debug_view_name(v: DebugView) -> Seq<char> {
    match v {
        DebugView::Off => "off"@,
        DebugView::Motion => "motion"@,
        DebugView::Confidence => "confidence"@,
        DebugView::Ambiguity => "ambiguity"@,
        DebugView::Disocclusion => "disocclusion"@,
        DebugView::HoleFill => "hole-fill"@,
        DebugView::Fallback => "fallback"@,
    }
}

/// The code by which the synthesis shader selects a debug view.
pub open spec fn debug_view_code(v: DebugView) -> u32 {
    match v {
        DebugView::Off => 0,
        DebugView::Motion => 1,
        DebugView::Confidence => 2,
        DebugView::Ambiguity => 3,
        DebugView::Disocclusion => 4,
        DebugView::HoleFill => 5,
        DebugView::Fallback => 6,
    }
}

impl DebugView {
    /// Parses the value of the debug-view setting.
    pub fn from_env_value(value: Option<&str>) -> (r: DebugView)
        ensures
            r == debug_view_for_value(setting_chars(value)),
    {
        let v: &str = match value {
            Some(s) => s,
            None => "",
        };
        proof {
            reveal_strlit("");
        }
        assert(v@ == setting_chars(value));
        if str_equal(v, "motion") || str_equal(v, "vector") || str_equal(v, "offset") || str_equal(v, "reprojection-offset") {
            DebugView::Motion
        } else if str_equal(v, "confidence") || str_equal(v, "reproject-confidence") {
            DebugView::Confidence
        } else if str_equal(v, "ambiguity") || str_equal(v, "reproject-ambiguity") {
            DebugView::Ambiguity
        } else if str_equal(v, "disocclusion") || str_equal(v, "reproject-disocclusion") || str_equal(v, "occlusion") {
            DebugView::Disocclusion
        } else if str_equal(v, "hole-fill") || str_equal(v, "holefill") || str_equal(v, "reproject-hole-fill") {
            DebugView::HoleFill
        } else if str_equal(v, "fallback") || str_equal(v, "source") || str_equal(v, "fallback-source") {
            DebugView::Fallback
        } else {
            DebugView::Off
        }
    }

    /// The stable name of this debug view.
    pub fn name(self) -> (r: &'static str)
        ensures
            r@ == debug_view_name(self),
    {
        match self {
            DebugView::Off => "off",
            DebugView::Motion => "motion",
            DebugView::Confidence => "confidence",
            DebugView::Ambiguity => "ambiguity",
            DebugView::Disocclusion => "disocclusion",
            DebugView::HoleFill => "hole-fill",
            DebugView::Fallback => "fallback",
        }
    }

    /// The code that selects this view in the synthesis shader.
    pub fn shader_code(self) -> (r: u32)
        ensures
            r == debug_view_code(self),
    {
        match self {
            DebugView::Off => 0,
            DebugView::Motion => 1,
            DebugView::Confidence => 2,
            DebugView::Ambiguity => 3,
            DebugView::Disocclusion => 4,
            DebugView::HoleFill => 5,
            DebugView::Fallback => 6,
        }
    }
}

/// Every mode's stable name is one of its own aliases: parsing the name that
/// a mode reports gives that mode back.
pub proof fn lemma_mode_name_round_trip(m: Mode)
    ensures
        mode_for_value(mode_name(m)) == m,
{
    reveal_strlit("adaptive");
    assert("adaptive"@ =~= seq!['a', 'd', 'a', 'p', 't', 'i', 'v', 'e']);
    reveal_strlit("adaptive-blend");
    assert("adaptive-blend"@ =~= seq!['a', 'd', 'a', 'p', 't', 'i', 'v', 'e', '-', 'b', 'l', 'e', 'n', 'd']);
    reveal_strlit("adaptive-blend-test");
    assert("adaptive-blend-test"@ =~= seq!['a', 'd', 'a', 'p', 't', 'i', 'v', 'e', '-', 'b', 'l', 'e', 'n', 'd', '-', 't', 'e', 's', 't']);
    reveal_strlit("adaptive-multi-blend");
    assert("adaptive-multi-blend"@ =~= seq!['a', 'd', 'a', 'p', 't', 'i', 'v', 'e', '-', 'm', 'u', 'l', 't', 'i', '-', 'b', 'l', 'e', 'n', 'd']);
    reveal_strlit("adaptive-multi-blend-test");
    assert("adaptive-multi-blend-test"@ =~= seq!['a', 'd', 'a', 'p', 't', 'i', 'v', 'e', '-', 'm', 'u', 'l', 't', 'i', '-', 'b', 'l', 'e', 'n', 'd', '-', 't', 'e', 's', 't']);
    reveal_strlit("adaptive-multi-fg");
    assert("adaptive-multi-fg"@ =~= seq!['a', 'd', 'a', 'p', 't', 'i', 'v', 'e', '-', 'm', 'u', 'l', 't', 'i', '-', 'f', 'g']);
    reveal_strlit("adaptive-reproject-blend");
    assert("adaptive-reproject-blend"@ =~= seq!['a', 'd', 'a', 'p', 't', 'i', 'v', 'e', '-', 'r', 'e', 'p', 'r', 'o', 'j', 'e', 'c', 't', '-', 'b', 'l', 'e', 'n', 'd']);
    reveal_strlit("adaptive-reproject-multi-blend");
    assert("adaptive-reproject-multi-blend"@ =~= seq!['a', 'd', 'a', 'p', 't', 'i', 'v', 'e', '-', 'r', 'e', 'p', 'r', 'o', 'j', 'e', 'c', 't', '-', 'm', 'u', 'l', 't', 'i', '-', 'b', 'l', 'e', 'n', 'd']);
    reveal_strlit("adaptive-search-blend");
    assert("adaptive-search-blend"@ =~= seq!['a', 'd', 'a', 'p', 't', 'i', 'v', 'e', '-', 's', 'e', 'a', 'r', 'c', 'h', '-', 'b', 'l', 'e', 'n', 'd']);
    reveal_strlit("bfi");
    assert("bfi"@ =~= seq!['b', 'f', 'i']);
    reveal_strlit("bfi-test");
    assert("bfi-test"@ =~= seq!['b', 'f', 'i', '-', 't', 'e', 's', 't']);
    reveal_strlit("black-frame");
    assert("black-frame"@ =~= seq!['b', 'l', 'a', 'c', 'k', '-', 'f', 'r', 'a', 'm', 'e']);
    reveal_strlit("black-frame-insertion");
    assert("black-frame-insertion"@ =~= seq!['b', 'l', 'a', 'c', 'k', '-', 'f', 'r', 'a', 'm', 'e', '-', 'i', 'n', 's', 'e', 'r', 't', 'i', 'o', 'n']);
    reveal_strlit("blend");
    assert("blend"@ =~= seq!['b', 'l', 'e', 'n', 'd']);
    reveal_strlit("blend-adaptive");
    assert("blend-adaptive"@ =~= seq!['b', 'l', 'e', 'n', 'd', '-', 'a', 'd', 'a', 'p', 't', 'i', 'v', 'e']);
    reveal_strlit("blend-prev-current");
    assert("blend-prev-current"@ =~= seq!['b', 'l', 'e', 'n', 'd', '-', 'p', 'r', 'e', 'v', '-', 'c', 'u', 'r', 'r', 'e', 'n', 't']);
    reveal_strlit("blend-test");
    assert("blend-test"@ =~= seq!['b', 'l', 'e', 'n', 'd', '-', 't', 'e', 's', 't']);
    reveal_strlit("clear");
    assert("clear"@ =~= seq!['c', 'l', 'e', 'a', 'r']);
    reveal_strlit("clear-test");
    assert("clear-test"@ =~= seq!['c', 'l', 'e', 'a', 'r', '-', 't', 'e', 's', 't']);
    reveal_strlit("copy");
    assert("copy"@ =~= seq!['c', 'o', 'p', 'y']);
    reveal_strlit("copy-prev");
    assert("copy-prev"@ =~= seq!['c', 'o', 'p', 'y', '-', 'p', 'r', 'e', 'v']);
    reveal_strlit("copy-test");
    assert("copy-test"@ =~= seq!['c', 'o', 'p', 'y', '-', 't', 'e', 's', 't']);
    reveal_strlit("duplicate");
    assert("duplicate"@ =~= seq!['d', 'u', 'p', 'l', 'i', 'c', 'a', 't', 'e']);
    reveal_strlit("history");
    assert("history"@ =~= seq!['h', 'i', 's', 't', 'o', 'r', 'y']);
    reveal_strlit("history-blend");
    assert("history-blend"@ =~= seq!['h', 'i', 's', 't', 'o', 'r', 'y', '-', 'b', 'l', 'e', 'n', 'd']);
    reveal_strlit("history-copy");
    assert("history-copy"@ =~= seq!['h', 'i', 's', 't', 'o', 'r', 'y', '-', 'c', 'o', 'p', 'y']);
    reveal_strlit("history-copy-test");
    assert("history-copy-test"@ =~= seq!['h', 'i', 's', 't', 'o', 'r', 'y', '-', 'c', 'o', 'p', 'y', '-', 't', 'e', 's', 't']);
    reveal_strlit("motion-reproject");
    assert("motion-reproject"@ =~= seq!['m', 'o', 't', 'i', 'o', 'n', '-', 'r', 'e', 'p', 'r', 'o', 'j', 'e', 'c', 't']);
    reveal_strlit("motion-search");
    assert("motion-search"@ =~= seq!['m', 'o', 't', 'i', 'o', 'n', '-', 's', 'e', 'a', 'r', 'c', 'h']);
    reveal_strlit("motion-search-adaptive");
    assert("motion-search-adaptive"@ =~= seq!['m', 'o', 't', 'i', 'o', 'n', '-', 's', 'e', 'a', 'r', 'c', 'h', '-', 'a', 'd', 'a', 'p', 't', 'i', 'v', 'e']);
    reveal_strlit("motion-search-blend");
    assert("motion-search-blend"@ =~= seq!['m', 'o', 't', 'i', 'o', 'n', '-', 's', 'e', 'a', 'r', 'c', 'h', '-', 'b', 'l', 'e', 'n', 'd']);
    reveal_strlit("multi-blend");
    assert("multi-blend"@ =~= seq!['m', 'u', 'l', 't', 'i', '-', 'b', 'l', 'e', 'n', 'd']);
    reveal_strlit("multi-blend-adaptive");
    assert("multi-blend-adaptive"@ =~= seq!['m', 'u', 'l', 't', 'i', '-', 'b', 'l', 'e', 'n', 'd', '-', 'a', 'd', 'a', 'p', 't', 'i', 'v', 'e']);
    reveal_strlit("multi-blend-test");
    assert("multi-blend-test"@ =~= seq!['m', 'u', 'l', 't', 'i', '-', 'b', 'l', 'e', 'n', 'd', '-', 't', 'e', 's', 't']);
    reveal_strlit("multi-fg");
    assert("multi-fg"@ =~= seq!['m', 'u', 'l', 't', 'i', '-', 'f', 'g']);
    reveal_strlit("multi-fg-test");
    assert("multi-fg-test"@ =~= seq!['m', 'u', 'l', 't', 'i', '-', 'f', 'g', '-', 't', 'e', 's', 't']);
    reveal_strlit("multi-reproject-blend");
    assert("multi-reproject-blend"@ =~= seq!['m', 'u', 'l', 't', 'i', '-', 'r', 'e', 'p', 'r', 'o', 'j', 'e', 'c', 't', '-', 'b', 'l', 'e', 'n', 'd']);
    reveal_strlit("optflow-adaptive");
    assert("optflow-adaptive"@ =~= seq!['o', 'p', 't', 'f', 'l', 'o', 'w', '-', 'a', 'd', 'a', 'p', 't', 'i', 'v', 'e']);
    reveal_strlit("optflow-adaptive-blend");
    assert("optflow-adaptive-blend"@ =~= seq!['o', 'p', 't', 'f', 'l', 'o', 'w', '-', 'a', 'd', 'a', 'p', 't', 'i', 'v', 'e', '-', 'b', 'l', 'e', 'n', 'd']);
    reveal_strlit("optflow-adaptive-blend-test");
    assert("optflow-adaptive-blend-test"@ =~= seq!['o', 'p', 't', 'f', 'l', 'o', 'w', '-', 'a', 'd', 'a', 'p', 't', 'i', 'v', 'e', '-', 'b', 'l', 'e', 'n', 'd', '-', 't', 'e', 's', 't']);
    reveal_strlit("optflow-adaptive-multi");
    assert("optflow-adaptive-multi"@ =~= seq!['o', 'p', 't', 'f', 'l', 'o', 'w', '-', 'a', 'd', 'a', 'p', 't', 'i', 'v', 'e', '-', 'm', 'u', 'l', 't', 'i']);
    reveal_strlit("optflow-adaptive-multi-blend");
    assert("optflow-adaptive-multi-blend"@ =~= seq!['o', 'p', 't', 'f', 'l', 'o', 'w', '-', 'a', 'd', 'a', 'p', 't', 'i', 'v', 'e', '-', 'm', 'u', 'l', 't', 'i', '-', 'b', 'l', 'e', 'n', 'd']);
    reveal_strlit("optflow-adaptive-multi-blend-test");
    assert("optflow-adaptive-multi-blend-test"@ =~= seq!['o', 'p', 't', 'f', 'l', 'o', 'w', '-', 'a', 'd', 'a', 'p', 't', 'i', 'v', 'e', '-', 'm', 'u', 'l', 't', 'i', '-', 'b', 'l', 'e', 'n', 'd', '-', 't', 'e', 's', 't']);
    reveal_strlit("optflow-adaptive-multi-fg");
    assert("optflow-adaptive-multi-fg"@ =~= seq!['o', 'p', 't', 'f', 'l', 'o', 'w', '-', 'a', 'd', 'a', 'p', 't', 'i', 'v', 'e', '-', 'm', 'u', 'l', 't', 'i', '-', 'f', 'g']);
    reveal_strlit("optflow-blend");
    assert("optflow-blend"@ =~= seq!['o', 'p', 't', 'f', 'l', 'o', 'w', '-', 'b', 'l', 'e', 'n', 'd']);
    reveal_strlit("optflow-blend-test");
    assert("optflow-blend-test"@ =~= seq!['o', 'p', 't', 'f', 'l', 'o', 'w', '-', 'b', 'l', 'e', 'n', 'd', '-', 't', 'e', 's', 't']);
    reveal_strlit("optflow-multi");
    assert("optflow-multi"@ =~= seq!['o', 'p', 't', 'f', 'l', 'o', 'w', '-', 'm', 'u', 'l', 't', 'i']);
    reveal_strlit("optflow-multi-blend");
    assert("optflow-multi-blend"@ =~= seq!['o', 'p', 't', 'f', 'l', 'o', 'w', '-', 'm', 'u', 'l', 't', 'i', '-', 'b', 'l', 'e', 'n', 'd']);
    reveal_strlit("optflow-multi-blend-test");
    assert("optflow-multi-blend-test"@ =~= seq!['o', 'p', 't', 'f', 'l', 'o', 'w', '-', 'm', 'u', 'l', 't', 'i', '-', 'b', 'l', 'e', 'n', 'd', '-', 't', 'e', 's', 't']);
    reveal_strlit("optflow-multi-fg");
    assert("optflow-multi-fg"@ =~= seq!['o', 'p', 't', 'f', 'l', 'o', 'w', '-', 'm', 'u', 'l', 't', 'i', '-', 'f', 'g']);
    reveal_strlit("optical-flow");
    assert("optical-flow"@ =~= seq!['o', 'p', 't', 'i', 'c', 'a', 'l', '-', 'f', 'l', 'o', 'w']);
    reveal_strlit("optical-flow-adaptive");
    assert("optical-flow-adaptive"@ =~= seq!['o', 'p', 't', 'i', 'c', 'a', 'l', '-', 'f', 'l', 'o', 'w', '-', 'a', 'd', 'a', 'p', 't', 'i', 'v', 'e']);
    reveal_strlit("optical-flow-adaptive-multi");
    assert("optical-flow-adaptive-multi"@ =~= seq!['o', 'p', 't', 'i', 'c', 'a', 'l', '-', 'f', 'l', 'o', 'w', '-', 'a', 'd', 'a', 'p', 't', 'i', 'v', 'e', '-', 'm', 'u', 'l', 't', 'i']);
    reveal_strlit("optical-flow-blend");
    assert("optical-flow-blend"@ =~= seq!['o', 'p', 't', 'i', 'c', 'a', 'l', '-', 'f', 'l', 'o', 'w', '-', 'b', 'l', 'e', 'n', 'd']);
    reveal_strlit("optical-flow-multi");
    assert("optical-flow-multi"@ =~= seq!['o', 'p', 't', 'i', 'c', 'a', 'l', '-', 'f', 'l', 'o', 'w', '-', 'm', 'u', 'l', 't', 'i']);
    reveal_strlit("passthrough");
    assert("passthrough"@ =~= seq!['p', 'a', 's', 's', 't', 'h', 'r', 'o', 'u', 'g', 'h']);
    reveal_strlit("reproject-adaptive-blend");
    assert("reproject-adaptive-blend"@ =~= seq!['r', 'e', 'p', 'r', 'o', 'j', 'e', 'c', 't', '-', 'a', 'd', 'a', 'p', 't', 'i', 'v', 'e', '-', 'b', 'l', 'e', 'n', 'd']);
    reveal_strlit("reproject-adaptive-blend-test");
    assert("reproject-adaptive-blend-test"@ =~= seq!['r', 'e', 'p', 'r', 'o', 'j', 'e', 'c', 't', '-', 'a', 'd', 'a', 'p', 't', 'i', 'v', 'e', '-', 'b', 'l', 'e', 'n', 'd', '-', 't', 'e', 's', 't']);
    reveal_strlit("reproject-adaptive-multi-blend");
    assert("reproject-adaptive-multi-blend"@ =~= seq!['r', 'e', 'p', 'r', 'o', 'j', 'e', 'c', 't', '-', 'a', 'd', 'a', 'p', 't', 'i', 'v', 'e', '-', 'm', 'u', 'l', 't', 'i', '-', 'b', 'l', 'e', 'n', 'd']);
    reveal_strlit("reproject-adaptive-multi-blend-test");
    assert("reproject-adaptive-multi-blend-test"@ =~= seq!['r', 'e', 'p', 'r', 'o', 'j', 'e', 'c', 't', '-', 'a', 'd', 'a', 'p', 't', 'i', 'v', 'e', '-', 'm', 'u', 'l', 't', 'i', '-', 'b', 'l', 'e', 'n', 'd', '-', 't', 'e', 's', 't']);
    reveal_strlit("reproject-adaptive-multi-fg");
    assert("reproject-adaptive-multi-fg"@ =~= seq!['r', 'e', 'p', 'r', 'o', 'j', 'e', 'c', 't', '-', 'a', 'd', 'a', 'p', 't', 'i', 'v', 'e', '-', 'm', 'u', 'l', 't', 'i', '-', 'f', 'g']);
    reveal_strlit("reproject-blend");
    assert("reproject-blend"@ =~= seq!['r', 'e', 'p', 'r', 'o', 'j', 'e', 'c', 't', '-', 'b', 'l', 'e', 'n', 'd']);
    reveal_strlit("reproject-blend-test");
    assert("reproject-blend-test"@ =~= seq!['r', 'e', 'p', 'r', 'o', 'j', 'e', 'c', 't', '-', 'b', 'l', 'e', 'n', 'd', '-', 't', 'e', 's', 't']);
    reveal_strlit("reproject-multi-blend");
    assert("reproject-multi-blend"@ =~= seq!['r', 'e', 'p', 'r', 'o', 'j', 'e', 'c', 't', '-', 'm', 'u', 'l', 't', 'i', '-', 'b', 'l', 'e', 'n', 'd']);
    reveal_strlit("reproject-multi-blend-test");
    assert("reproject-multi-blend-test"@ =~= seq!['r', 'e', 'p', 'r', 'o', 'j', 'e', 'c', 't', '-', 'm', 'u', 'l', 't', 'i', '-', 'b', 'l', 'e', 'n', 'd', '-', 't', 'e', 's', 't']);
    reveal_strlit("reproject-multi-fg");
    assert("reproject-multi-fg"@ =~= seq!['r', 'e', 'p', 'r', 'o', 'j', 'e', 'c', 't', '-', 'm', 'u', 'l', 't', 'i', '-', 'f', 'g']);
    reveal_strlit("search-adaptive-blend");
    assert("search-adaptive-blend"@ =~= seq!['s', 'e', 'a', 'r', 'c', 'h', '-', 'a', 'd', 'a', 'p', 't', 'i', 'v', 'e', '-', 'b', 'l', 'e', 'n', 'd']);
    reveal_strlit("search-adaptive-blend-test");
    assert("search-adaptive-blend-test"@ =~= seq!['s', 'e', 'a', 'r', 'c', 'h', '-', 'a', 'd', 'a', 'p', 't', 'i', 'v', 'e', '-', 'b', 'l', 'e', 'n', 'd', '-', 't', 'e', 's', 't']);
    reveal_strlit("search-blend");
    assert("search-blend"@ =~= seq!['s', 'e', 'a', 'r', 'c', 'h', '-', 'b', 'l', 'e', 'n', 'd']);
    reveal_strlit("search-blend-test");
    assert("search-blend-test"@ =~= seq!['s', 'e', 'a', 'r', 'c', 'h', '-', 'b', 'l', 'e', 'n', 'd', '-', 't', 'e', 's', 't']);
    reveal_strlit("vector-reproject-adaptive");
    assert("vector-reproject-adaptive"@ =~= seq!['v', 'e', 'c', 't', 'o', 'r', '-', 'r', 'e', 'p', 'r', 'o', 'j', 'e', 'c', 't', '-', 'a', 'd', 'a', 'p', 't', 'i', 'v', 'e']);
    reveal_strlit("vector-reproject-blend");
    assert("vector-reproject-blend"@ =~= seq!['v', 'e', 'c', 't', 'o', 'r', '-', 'r', 'e', 'p', 'r', 'o', 'j', 'e', 'c', 't', '-', 'b', 'l', 'e', 'n', 'd']);
}

/// Every debug view's stable name parses back to that view.
pub proof fn lemma_debug_view_name_round_trip(v: DebugView)
    ensures
        debug_view_for_value(debug_view_name(v)) == v,
{
    reveal_strlit("ambiguity");
    assert("ambiguity"@ =~= seq!['a', 'm', 'b', 'i', 'g', 'u', 'i', 't', 'y']);
    reveal_strlit("confidence");
    assert("confidence"@ =~= seq!['c', 'o', 'n', 'f', 'i', 'd', 'e', 'n', 'c', 'e']);
    reveal_strlit("disocclusion");
    assert("disocclusion"@ =~= seq!['d', 'i', 's', 'o', 'c', 'c', 'l', 'u', 's', 'i', 'o', 'n']);
    reveal_strlit("fallback");
    assert("fallback"@ =~= seq!['f', 'a', 'l', 'l', 'b', 'a', 'c', 'k']);
    reveal_strlit("fallback-source");
    assert("fallback-source"@ =~= seq!['f', 'a', 'l', 'l', 'b', 'a', 'c', 'k', '-', 's', 'o', 'u', 'r', 'c', 'e']);
    reveal_strlit("hole-fill");
    assert("hole-fill"@ =~= seq!['h', 'o', 'l', 'e', '-', 'f', 'i', 'l', 'l']);
    reveal_strlit("holefill");
    assert("holefill"@ =~= seq!['h', 'o', 'l', 'e', 'f', 'i', 'l', 'l']);
    reveal_strlit("motion");
    assert("motion"@ =~= seq!['m', 'o', 't', 'i', 'o', 'n']);
    reveal_strlit("occlusion");
    assert("occlusion"@ =~= seq!['o', 'c', 'c', 'l', 'u', 's', 'i', 'o', 'n']);
    reveal_strlit("off");
    assert("off"@ =~= seq!['o', 'f', 'f']);
    reveal_strlit("offset");
    assert("offset"@ =~= seq!['o', 'f', 'f', 's', 'e', 't']);
    reveal_strlit("reproject-ambiguity");
    assert("reproject-ambiguity"@ =~= seq!['r', 'e', 'p', 'r', 'o', 'j', 'e', 'c', 't', '-', 'a', 'm', 'b', 'i', 'g', 'u', 'i', 't', 'y']);
    reveal_strlit("reproject-confidence");
    assert("reproject-confidence"@ =~= seq!['r', 'e', 'p', 'r', 'o', 'j', 'e', 'c', 't', '-', 'c', 'o', 'n', 'f', 'i', 'd', 'e', 'n', 'c', 'e']);
    reveal_strlit("reproject-disocclusion");
    assert("reproject-disocclusion"@ =~= seq!['r', 'e', 'p', 'r', 'o', 'j', 'e', 'c', 't', '-', 'd', 'i', 's', 'o', 'c', 'c', 'l', 'u', 's', 'i', 'o', 'n']);
    reveal_strlit("reproject-hole-fill");
    assert("reproject-hole-fill"@ =~= seq!['r', 'e', 'p', 'r', 'o', 'j', 'e', 'c', 't', '-', 'h', 'o', 'l', 'e', '-', 'f', 'i', 'l', 'l']);
    reveal_strlit("reprojection-offset");
    assert("reprojection-offset"@ =~= seq!['r', 'e', 'p', 'r', 'o', 'j', 'e', 'c', 't', 'i', 'o', 'n', '-', 'o', 'f', 'f', 's', 'e', 't']);
    reveal_strlit("source");
    assert("source"@ =~= seq!['s', 'o', 'u', 'r', 'c', 'e']);
    reveal_strlit("vector");
    assert("vector"@ =~= seq!['v', 'e', 'c', 't', 'o', 'r']);
}

/// Distinct debug views have distinct shader codes, all below the number of views.
pub proof fn lemma_debug_view_codes_distinct(v: DebugView, w: DebugView)
    ensures
        debug_view_code(v) < 7,
        v != w ==> debug_view_code(v) != debug_view_code(w),
{
}

} // verus!
