//! Settings of the segment that shows the git user.
use vstd::prelude::*;

use crate::configs::{Color, SegmentStyle};

verus! {

/// How the git user name is drawn.
#[derive(Debug, Clone)]
pub struct GitUserConfig {
    pub style: SegmentStyle,
    pub icon: String,
}

impl GitUserConfig {
    /// The Font Awesome user glyph.
    fn default_icon() -> (r: String)
        ensures
            r@ == "\u{f2c0}"@,
    {
        String::from_str("\u{f2c0}")
    }
}

impl Default for GitUserConfig {
    fn default() -> (r: Self)
        ensures
            r.style == (SegmentStyle { foreground: Color::White, background: Color::Black }),
            r.icon@ == "\u{f2c0}"@,
    {
        GitUserConfig { style: SegmentStyle::default(), icon: Self::default_icon() }
    }
}

} // verus!
