//! Settings of the segment that shows the shell.
use vstd::prelude::*;

use crate::configs::{Color, SegmentStyle};

verus! {

/// The icon of each shell.
#[derive(Debug, Clone)]
pub struct ShellConfig {
    pub bash: ShellConfigBash,
    pub zsh: ShellConfigZsh,
    pub fish: ShellConfigFish,
}

impl Default for ShellConfig {
    fn default() -> (r: Self)
        ensures
            r.bash.icon@ == ShellConfigBash::default_icon_text(),
            r.zsh.icon@ == ShellConfigZsh::default_icon_text(),
            r.fish.icon@ == ShellConfigFish::default_icon_text(),
    {
        ShellConfig {
            bash: ShellConfigBash::default(),
            zsh: ShellConfigZsh::default(),
            fish: ShellConfigFish::default(),
        }
    }
}

/// How the segment looks in Bash.
#[derive(Debug, Clone)]
pub struct ShellConfigBash {
    pub style: SegmentStyle,
    pub icon: String,
}

impl ShellConfigBash {
    pub open spec fn default_icon_text() -> Seq<char> {
        "Bash"@
    }

    /// The shell's name.
    fn default_icon() -> (r: String)
        ensures
            r@ == "Bash"@,
    {
        String::from_str("Bash")
    }
}

impl Default for ShellConfigBash {
    fn default() -> (r: Self)
        ensures
            r.style == (SegmentStyle { foreground: Color::White, background: Color::Black }),
            r.icon@ == "Bash"@,
    {
        ShellConfigBash { style: SegmentStyle::default(), icon: Self::default_icon() }
    }
}

/// How the segment looks in Zsh.
#[derive(Debug, Clone)]
pub struct ShellConfigZsh {
    pub style: SegmentStyle,
    pub icon: String,
}

impl ShellConfigZsh {
    pub open spec fn default_icon_text() -> Seq<char> {
        "Zsh"@
    }

    /// The shell's name.
    fn default_icon() -> (r: String)
        ensures
            r@ == "Zsh"@,
    {
        String::from_str("Zsh")
    }
}

impl Default for ShellConfigZsh {
    fn default() -> (r: Self)
        ensures
            r.style == (SegmentStyle { foreground: Color::White, background: Color::Black }),
            r.icon@ == "Zsh"@,
    {
        ShellConfigZsh { style: SegmentStyle::default(), icon: Self::default_icon() }
    }
}

/// How the segment looks in Fish.
#[derive(Debug, Clone)]
pub struct ShellConfigFish {
    pub style: SegmentStyle,
    pub icon: String,
}

impl ShellConfigFish {
    pub open spec fn default_icon_text() -> Seq<char> {
        "\u{f739}"@
    }

    /// The Material Design fish glyph.
    fn default_icon() -> (r: String)
        ensures
            r@ == "\u{f739}"@,
    {
        String::from_str("\u{f739}")
    }
}

impl Default for ShellConfigFish {
    fn default() -> (r: Self)
        ensures
            r.style == (SegmentStyle { foreground: Color::White, background: Color::Black }),
            r.icon@ == "\u{f739}"@,
    {
        ShellConfigFish { style: SegmentStyle::default(), icon: Self::default_icon() }
    }
}

} // verus!
