//! Settings of the segment that shows the user and the host.
use vstd::prelude::*;

use crate::configs::{Color, SegmentStyle};

verus! {

/// How the user name is drawn.
#[derive(Debug, Clone, Copy, PartialEq, Eq, Structural)]
pub struct UserConfig {
    pub style: SegmentStyle,
    /// Whether the host name follows the user name.
    pub display_host: bool,
}

impl UserConfig {
    fn default_display_host() -> (r: bool)
        ensures
            r,
    {
        true
    }
}

impl Default for UserConfig {
    fn default() -> (r: Self)
        ensures
            r == (UserConfig {
                style: SegmentStyle { foreground: Color::White, background: Color::Black },
                display_host: true,
            }),
    {
        UserConfig { style: SegmentStyle::default(), display_host: Self::default_display_host() }
    }
}

} // verus!
