//! Settings of the segment that shows the active Python virtual environment.
use vstd::prelude::*;

use crate::configs::{Color};

verus! {

/// How the virtual environment is drawn.
#[derive(Debug, Clone)]
pub struct VenvConfig {
    pub background: Color,
    pub foreground: Color,
    pub icon: String,
}

impl VenvConfig {
    fn default_background() -> (r: Color)
        ensures
            r == Color::Black,
    {
        Color::Black
    }

    fn default_foreground() -> (r: Color)
        ensures
            r == Color::White,
    {
        Color::White
    }

    /// The Material Design Python glyph.
    fn default_icon() -> (r: String)
        ensures
            r@ == "\u{f81f}"@,
    {
        String::from_str("\u{f81f}")
    }
}

impl Default for VenvConfig {
    fn default() -> (r: Self)
        ensures
            r.background == Color::Black,
            r.foreground == Color::White,
            r.icon@ == "\u{f81f}"@,
    {
        VenvConfig {
            background: Self::default_background(),
            foreground: Self::default_foreground(),
            icon: Self::default_icon(),
        }
    }
}

} // verus!
