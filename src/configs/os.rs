//! Settings of the segment that shows the operating system.
use vstd::prelude::*;

use crate::configs::{Color, SegmentStyle};

verus! {

/// The icon of each operating system.
#[derive(Debug, Clone)]
pub struct OsConfig {
    pub linux: OsConfigLinux,
    pub mac: OsConfigMac,
    pub windows: OsConfigWindows,
}

impl Default for OsConfig {
    fn default() -> (r: Self)
        ensures
            r.linux.icon@ == OsConfigLinux::default_icon_text(),
            r.mac.icon@ == OsConfigMac::default_icon_text(),
            r.windows.icon@ == OsConfigWindows::default_icon_text(),
    {
        OsConfig {
            linux: OsConfigLinux::default(),
            mac: OsConfigMac::default(),
            windows: OsConfigWindows::default(),
        }
    }
}

/// How the segment looks on Linux.
#[derive(Debug, Clone)]
pub struct OsConfigLinux {
    pub style: SegmentStyle,
    pub icon: String,
}

impl OsConfigLinux {
    pub open spec fn default_icon_text() -> Seq<char> {
        "\u{f17c}"@
    }

    /// The Font Awesome Linux glyph.
    fn default_icon() -> (r: String)
        ensures
            r@ == "\u{f17c}"@,
    {
        String::from_str("\u{f17c}")
    }
}

impl Default for OsConfigLinux {
    fn default() -> (r: Self)
        ensures
            r.style == (SegmentStyle { foreground: Color::White, background: Color::Black }),
            r.icon@ == "\u{f17c}"@,
    {
        OsConfigLinux { style: SegmentStyle::default(), icon: Self::default_icon() }
    }
}

/// How the segment looks on Mac.
#[derive(Debug, Clone)]
pub struct OsConfigMac {
    pub style: SegmentStyle,
    pub icon: String,
}

impl OsConfigMac {
    pub open spec fn default_icon_text() -> Seq<char> {
        "\u{f179}"@
    }

    /// The Font Awesome Apple glyph.
    fn default_icon() -> (r: String)
        ensures
            r@ == "\u{f179}"@,
    {
        String::from_str("\u{f179}")
    }
}

impl Default for OsConfigMac {
    fn default() -> (r: Self)
        ensures
            r.style == (SegmentStyle { foreground: Color::White, background: Color::Black }),
            r.icon@ == "\u{f179}"@,
    {
        OsConfigMac { style: SegmentStyle::default(), icon: Self::default_icon() }
    }
}

/// How the segment looks on Windows.
#[derive(Debug, Clone)]
pub struct OsConfigWindows {
    pub style: SegmentStyle,
    pub icon: String,
}

impl OsConfigWindows {
    pub open spec fn default_icon_text() -> Seq<char> {
        "\u{f17a}"@
    }

    /// The Font Awesome Windows glyph.
    fn default_icon() -> (r: String)
        ensures
            r@ == "\u{f17a}"@,
    {
        String::from_str("\u{f17a}")
    }
}

impl Default for OsConfigWindows {
    fn default() -> (r: Self)
        ensures
            r.style == (SegmentStyle { foreground: Color::White, background: Color::Black }),
            r.icon@ == "\u{f17a}"@,
    {
        OsConfigWindows { style: SegmentStyle::default(), icon: Self::default_icon() }
    }
}

} // verus!
