//! Settings of the directory segment.
use vstd::prelude::*;

use crate::configs::{Color, SegmentStyle};

verus! {

/// How the working directory is drawn.
#[derive(Debug, Clone)]
pub struct DirectoryConfig {
    pub normal: DirectoryConfigNormal,
    pub error: DirectoryConfigError,
    /// The text that stands for the home directory.
    pub home: String,
    pub shrink: DirectoryConfigShrink,
    /// Directories shown by a short name of their own.
    pub aliases: Vec<DirectoryConfigAlias>,
}

impl DirectoryConfig {
    fn default_home() -> (r: String)
        ensures
            r@ == "~"@,
    {
        String::from_str("~")
    }
}

impl Default for DirectoryConfig {
    fn default() -> (r: Self)
        ensures
            r.normal.style == DirectoryConfigNormal::default_style(),
            r.error.style == DirectoryConfigError::default_style(),
            r.home@ == "~"@,
            r.shrink == (DirectoryConfigShrink { enabled: true, max_len: 1 }),
            r.aliases@.len() == 0,
    {
        DirectoryConfig {
            normal: DirectoryConfigNormal::default(),
            error: DirectoryConfigError::default(),
            home: Self::default_home(),
            shrink: DirectoryConfigShrink::default(),
            aliases: Vec::new(),
        }
    }
}

/// The style of a directory that exists.
#[derive(Debug, Clone, Copy, PartialEq, Eq, Structural)]
pub struct DirectoryConfigNormal {
    pub style: SegmentStyle,
}

impl DirectoryConfigNormal {
    pub open spec fn default_style() -> SegmentStyle {
        SegmentStyle { foreground: Color::White, background: Color::Black }
    }
}

impl Default for DirectoryConfigNormal {
    fn default() -> (r: Self)
        ensures
            r.style == Self::default_style(),
    {
        DirectoryConfigNormal { style: SegmentStyle::default() }
    }
}

/// The style of a working directory that no longer exists.
#[derive(Debug, Clone, Copy, PartialEq, Eq, Structural)]
pub struct DirectoryConfigError {
    pub style: SegmentStyle,
}

impl DirectoryConfigError {
    pub open spec fn default_style() -> SegmentStyle {
        SegmentStyle { foreground: Color::White, background: Color::Black }
    }
}

impl Default for DirectoryConfigError {
    fn default() -> (r: Self)
        ensures
            r.style == Self::default_style(),
    {
        DirectoryConfigError { style: SegmentStyle::default() }
    }
}

/// Whether, and to how many characters, the names of the directories above
/// the working one are cut.
#[derive(Debug, Clone, Copy, PartialEq, Eq, Structural)]
pub struct DirectoryConfigShrink {
    pub enabled: bool,
    pub max_len: usize,
}

impl DirectoryConfigShrink {
    fn default_enabled() -> (r: bool)
        ensures
            r,
    {
        true
    }

    fn default_max_len() -> (r: usize)
        ensures
            r == 1,
    {
        1
    }
}

impl Default for DirectoryConfigShrink {
    fn default() -> (r: Self)
        ensures
            r == (DirectoryConfigShrink { enabled: true, max_len: 1 }),
    {
        DirectoryConfigShrink { enabled: Self::default_enabled(), max_len: Self::default_max_len() }
    }
}

/// A directory and the name it is shown by; the path may start with `~`.
#[derive(Debug, Clone)]
pub struct DirectoryConfigAlias {
    pub path: String,
    pub alias: String,
}

} // verus!
