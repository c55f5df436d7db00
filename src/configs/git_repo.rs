//! Settings of the git repository segment.
use vstd::prelude::*;

use crate::configs::{Color, SegmentStyle};

verus! {

/// How the repository segment is drawn.
#[derive(Debug, Clone)]
pub struct GitRepoConfig {
    pub icons: GitRepoConfigIcons,
    pub clean: GitRepoConfigClean,
    pub unstaged: GitRepoConfigUnstaged,
    pub staged: GitRepoConfigStaged,
    pub conflicted: GitRepoConfigConflicted,
    /// Whether a branch named `master` or `main` is shown with its name.
    pub display_master: bool,
    /// Whether a detached HEAD that a tag points at is shown as that tag.
    pub display_tag: bool,
    /// How many characters of a commit id are shown.
    pub commit_hash_len: usize,
}

impl GitRepoConfig {
    fn default_display_master() -> (r: bool)
        ensures
            r,
    {
        true
    }

    fn default_display_tag() -> (r: bool)
        ensures
            r,
    {
        true
    }

    fn default_commit_hash_len() -> (r: usize)
        ensures
            r == 6,
    {
        6
    }
}

impl Default for GitRepoConfig {
    fn default() -> (r: Self)
        ensures
            r.icons.is_default(),
            r.clean.style == GitRepoConfigClean::default_style(),
            r.unstaged.style == GitRepoConfigUnstaged::default_style(),
            r.staged.style == GitRepoConfigStaged::default_style(),
            r.conflicted.style == GitRepoConfigConflicted::default_style(),
            r.display_master,
            r.display_tag,
            r.commit_hash_len == 6,
    {
        GitRepoConfig {
            icons: GitRepoConfigIcons::default(),
            clean: GitRepoConfigClean::default(),
            unstaged: GitRepoConfigUnstaged::default(),
            staged: GitRepoConfigStaged::default(),
            conflicted: GitRepoConfigConflicted::default(),
            display_master: Self::default_display_master(),
            display_tag: Self::default_display_tag(),
            commit_hash_len: Self::default_commit_hash_len(),
        }
    }
}

/// The texts that make up the segment's content.
#[derive(Debug, Clone)]
pub struct GitRepoConfigIcons {
    pub branch: String,
    pub tag: String,
    pub commit: String,
    pub modified: String,
    pub added: String,
    pub deleted: String,
    pub added_deleted: String,
    pub conflicted: String,
    pub behind: String,
    pub ahead: String,
}

impl GitRepoConfigIcons {
    /// Whether every icon has its default text.
    pub open spec fn is_default(&self) -> bool {
        &&& self.branch@ == "\u{f418}"@
        &&& self.tag@ == "\u{f412}"@
        &&& self.commit@ == "\u{f417}"@
        &&& self.modified@ == "\u{2026}"@
        &&& self.added@ == "+"@
        &&& self.deleted@ == "-"@
        &&& self.added_deleted@ == "\u{b1}"@
        &&& self.conflicted@ == "\u{f47f}"@
        &&& self.behind@ == "\u{f175}"@
        &&& self.ahead@ == "\u{f176}"@
    }

    /// The Octicons git-branch glyph.
    fn default_branch() -> (r: String)
        ensures
            r@ == "\u{f418}"@,
    {
        String::from_str("\u{f418}")
    }

    /// The Octicons tag glyph.
    fn default_tag() -> (r: String)
        ensures
            r@ == "\u{f412}"@,
    {
        String::from_str("\u{f412}")
    }

    /// The Octicons git-commit glyph.
    fn default_commit() -> (r: String)
        ensures
            r@ == "\u{f417}"@,
    {
        String::from_str("\u{f417}")
    }

    /// An ellipsis.
    fn default_modified() -> (r: String)
        ensures
            r@ == "\u{2026}"@,
    {
        String::from_str("\u{2026}")
    }

    /// A plus sign.
    fn default_added() -> (r: String)
        ensures
            r@ == "+"@,
    {
        String::from_str("+")
    }

    /// A minus sign.
    fn default_deleted() -> (r: String)
        ensures
            r@ == "-"@,
    {
        String::from_str("-")
    }

    /// A plus-minus sign.
    fn default_added_deleted() -> (r: String)
        ensures
            r@ == "\u{b1}"@,
    {
        String::from_str("\u{b1}")
    }

    /// The Octicons git-compare glyph.
    fn default_conflicted() -> (r: String)
        ensures
            r@ == "\u{f47f}"@,
    {
        String::from_str("\u{f47f}")
    }

    /// A long arrow pointing down.
    fn default_behind() -> (r: String)
        ensures
            r@ == "\u{f175}"@,
    {
        String::from_str("\u{f175}")
    }

    /// A long arrow pointing up.
    fn default_ahead() -> (r: String)
        ensures
            r@ == "\u{f176}"@,
    {
        String::from_str("\u{f176}")
    }
}

impl Default for GitRepoConfigIcons {
    fn default() -> (r: Self)
        ensures
            r.is_default(),
    {
        GitRepoConfigIcons {
            branch: Self::default_branch(),
            tag: Self::default_tag(),
            commit: Self::default_commit(),
            modified: Self::default_modified(),
            added: Self::default_added(),
            deleted: Self::default_deleted(),
            added_deleted: Self::default_added_deleted(),
            conflicted: Self::default_conflicted(),
            behind: Self::default_behind(),
            ahead: Self::default_ahead(),
        }
    }
}

/// The style of the segment when the working tree has no change.
#[derive(Debug, Clone, Copy, PartialEq, Eq, Structural)]
pub struct GitRepoConfigClean {
    pub style: SegmentStyle,
}

impl GitRepoConfigClean {
    pub open spec fn default_style() -> SegmentStyle {
        SegmentStyle { foreground: Color::White, background: Color::Black }
    }
}

impl Default for GitRepoConfigClean {
    fn default() -> (r: Self)
        ensures
            r.style == Self::default_style(),
    {
        GitRepoConfigClean { style: SegmentStyle::default() }
    }
}

/// The style of the segment when the working tree differs from the index.
#[derive(Debug, Clone, Copy, PartialEq, Eq, Structural)]
pub struct GitRepoConfigUnstaged {
    pub style: SegmentStyle,
}

impl GitRepoConfigUnstaged {
    pub open spec fn default_style() -> SegmentStyle {
        SegmentStyle { foreground: Color::White, background: Color::Black }
    }
}

impl Default for GitRepoConfigUnstaged {
    fn default() -> (r: Self)
        ensures
            r.style == Self::default_style(),
    {
        GitRepoConfigUnstaged { style: SegmentStyle::default() }
    }
}

/// The style of the segment when only the index differs from HEAD.
#[derive(Debug, Clone, Copy, PartialEq, Eq, Structural)]
pub struct GitRepoConfigStaged {
    pub style: SegmentStyle,
}

impl GitRepoConfigStaged {
    pub open spec fn default_style() -> SegmentStyle {
        SegmentStyle { foreground: Color::White, background: Color::Black }
    }
}

impl Default for GitRepoConfigStaged {
    fn default() -> (r: Self)
        ensures
            r.style == Self::default_style(),
    {
        GitRepoConfigStaged { style: SegmentStyle::default() }
    }
}

/// The style of the segment when a file is in a merge conflict.
#[derive(Debug, Clone, Copy, PartialEq, Eq, Structural)]
pub struct GitRepoConfigConflicted {
    pub style: SegmentStyle,
}

impl GitRepoConfigConflicted {
    pub open spec fn default_style() -> SegmentStyle {
        SegmentStyle { foreground: Color::White, background: Color::Black }
    }
}

impl Default for GitRepoConfigConflicted {
    fn default() -> (r: Self)
        ensures
            r.style == Self::default_style(),
    {
        GitRepoConfigConflicted { style: SegmentStyle::default() }
    }
}

} // verus!
