//! Settings of the segment that shows the time.
use vstd::prelude::*;

use crate::configs::{Color, SegmentStyle};

verus! {

/// How the time is drawn.
#[derive(Debug, Clone)]
pub struct TimeConfig {
    pub style: SegmentStyle,
    /// The layout of the time, in strftime's notation.
    pub format: String,
    /// Whether the time is given in UTC rather than the local zone.
    pub utc: bool,
}

impl TimeConfig {
    /// The Font Awesome clock glyph, the date and the time.
    fn default_format() -> (r: String)
        ensures
            r@ == "\u{f017} %Y/%m/%d %H:%M:%S"@,
    {
        String::from_str("\u{f017} %Y/%m/%d %H:%M:%S")
    }

    fn default_utc() -> (r: bool)
        ensures
            !r,
    {
        false
    }
}

impl Default for TimeConfig {
    fn default() -> (r: Self)
        ensures
            r.style == (SegmentStyle { foreground: Color::White, background: Color::Black }),
            r.format@ == "\u{f017} %Y/%m/%d %H:%M:%S"@,
            !r.utc,
    {
        TimeConfig {
            style: SegmentStyle::default(),
            format: Self::default_format(),
            utc: Self::default_utc(),
        }
    }
}

} // verus!
