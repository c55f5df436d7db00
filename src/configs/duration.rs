//! Settings of the segment that shows how long the last command took.
use vstd::prelude::*;

use crate::configs::{Color, SegmentStyle};

verus! {

/// How the duration of the last command is drawn.
#[derive(Debug, Clone)]
pub struct DurationConfig {
    pub style: SegmentStyle,
    pub icon: String,
}

impl DurationConfig {
    /// The Material Design timer glyph.
    fn default_icon() -> (r: String)
        ensures
            r@ == "\u{fa1a}"@,
    {
        String::from_str("\u{fa1a}")
    }
}

impl Default for DurationConfig {
    fn default() -> (r: Self)
        ensures
            r.style == (SegmentStyle { foreground: Color::White, background: Color::Black }),
            r.icon@ == "\u{fa1a}"@,
    {
        DurationConfig { style: SegmentStyle::default(), icon: Self::default_icon() }
    }
}

} // verus!
