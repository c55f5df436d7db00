//! Settings of the segment that shows the last command's exit status.
use vstd::prelude::*;

use crate::configs::{Color, SegmentStyle};

verus! {

/// How the exit status is drawn.
#[derive(Debug, Clone)]
pub struct StatusConfig {
    pub icons: StatusConfigIcons,
    pub succeeded: StatusConfigSucceeded,
    pub failed: StatusConfigFailed,
}

impl Default for StatusConfig {
    fn default() -> (r: Self)
        ensures
            r.icons.is_default(),
            r.succeeded.style == (SegmentStyle { foreground: Color::White, background: Color::Black }),
            r.failed.style == (SegmentStyle { foreground: Color::White, background: Color::Black }),
            r.failed.display_exit_status,
    {
        StatusConfig {
            icons: StatusConfigIcons::default(),
            succeeded: StatusConfigSucceeded::default(),
            failed: StatusConfigFailed::default(),
        }
    }
}

/// The texts of the segment.
#[derive(Debug, Clone)]
pub struct StatusConfigIcons {
    pub succeeded: String,
    pub failed: String,
    /// Shown where the user is root.
    pub root: String,
    /// Shown where jobs run in the background.
    pub jobs: String,
}

impl StatusConfigIcons {
    /// Whether every icon has its default text.
    pub open spec fn is_default(&self) -> bool {
        &&& self.succeeded@ == "\u{2713}"@
        &&& self.failed@ == "\u{f06a}"@
        &&& self.root@ == "\u{e00a}"@
        &&& self.jobs@ == "\u{f013}"@
    }

    /// A check mark.
    fn default_succeeded() -> (r: String)
        ensures
            r@ == "\u{2713}"@,
    {
        String::from_str("\u{2713}")
    }

    /// The Font Awesome exclamation-circle glyph.
    fn default_failed() -> (r: String)
        ensures
            r@ == "\u{f06a}"@,
    {
        String::from_str("\u{f06a}")
    }

    /// The Pomicons external-interruption glyph.
    fn default_root() -> (r: String)
        ensures
            r@ == "\u{e00a}"@,
    {
        String::from_str("\u{e00a}")
    }

    /// The Font Awesome gear glyph.
    fn default_jobs() -> (r: String)
        ensures
            r@ == "\u{f013}"@,
    {
        String::from_str("\u{f013}")
    }
}

impl Default for StatusConfigIcons {
    fn default() -> (r: Self)
        ensures
            r.is_default(),
    {
        StatusConfigIcons {
            succeeded: Self::default_succeeded(),
            failed: Self::default_failed(),
            root: Self::default_root(),
            jobs: Self::default_jobs(),
        }
    }
}

/// The style after a command that succeeded.
#[derive(Debug, Clone, Copy, PartialEq, Eq, Structural)]
pub struct StatusConfigSucceeded {
    pub style: SegmentStyle,
}

impl Default for StatusConfigSucceeded {
    fn default() -> (r: Self)
        ensures
            r.style == (SegmentStyle { foreground: Color::White, background: Color::Black }),
    {
        StatusConfigSucceeded { style: SegmentStyle::default() }
    }
}

/// The style after a command that failed, and whether its exit status is
/// shown.
#[derive(Debug, Clone, Copy, PartialEq, Eq, Structural)]
pub struct StatusConfigFailed {
    pub style: SegmentStyle,
    pub display_exit_status: bool,
}

impl StatusConfigFailed {
    fn default_display_exit_status() -> (r: bool)
        ensures
            r,
    {
        true
    }
}

impl Default for StatusConfigFailed {
    fn default() -> (r: Self)
        ensures
            r.style == (SegmentStyle { foreground: Color::White, background: Color::Black }),
            r.display_exit_status,
    {
        StatusConfigFailed {
            style: SegmentStyle::default(),
            display_exit_status: Self::default_display_exit_status(),
        }
    }
}

} // verus!
