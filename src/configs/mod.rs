//! Settings of every segment, with the values used when a setting is absent.
pub mod directory;
pub mod duration;
pub mod git_repo;
pub mod git_user;
pub mod os;
pub mod shell;
pub mod status;
pub mod time;
pub mod user;
pub mod venv;
use vstd::prelude::*;

verus! {

/// A terminal colour: one of the eight basic colours, an entry of the
/// 256-colour palette, or a true colour given by its red, green and blue parts.
#[derive(Debug, Clone, Copy, PartialEq, Eq, Structural)]
pub enum Color {
    Black,
    Red,
    Green,
    Yellow,
    Blue,
    Purple,
    Cyan,
    White,
    Fixed(u8),
    RGB(u8, u8, u8),
}

/// The colours a segment is drawn with.
#[derive(Debug, Clone, Copy, PartialEq, Eq, Structural)]
pub struct SegmentStyle {
    pub foreground: Color,
    pub background: Color,
}

impl SegmentStyle {
    fn default_foreground() -> (r: Color)
        ensures
            r == Color::White,
    {
        Color::White
    }

    fn default_background() -> (r: Color)
        ensures
            r == Color::Black,
    {
        Color::Black
    }
}

impl Default for SegmentStyle {
    fn default() -> (r: Self)
        ensures
            r == (SegmentStyle { foreground: Color::White, background: Color::Black }),
    {
        SegmentStyle {
            foreground: Self::default_foreground(),
            background: Self::default_background(),
        }
    }
}

/// The glyphs drawn between two segments: a solid one where the background
/// changes, a thin one where it stays the same.
#[derive(Debug, Clone)]
pub struct SegmentSeparators {
    pub left_solid: String,
    pub left_wire: String,
}

impl SegmentSeparators {
    /// The powerline "left hard divider".
    fn default_left_solid() -> (r: String)
        ensures
            r@ == "\u{e0b0}"@,
    {
        String::from_str("\u{e0b0}")
    }

    /// The powerline "left soft divider".
    fn default_left_wire() -> (r: String)
        ensures
            r@ == "\u{e0b1}"@,
    {
        String::from_str("\u{e0b1}")
    }
}

impl Default for SegmentSeparators {
    fn default() -> (r: Self)
        ensures
            r.left_solid@ == "\u{e0b0}"@,
            r.left_wire@ == "\u{e0b1}"@,
    {
        SegmentSeparators {
            left_solid: Self::default_left_solid(),
            left_wire: Self::default_left_wire(),
        }
    }
}

/// The settings of every segment, the separators, and which segments each
/// line of the prompt shows, by name.
#[derive(Debug, Clone)]
pub struct Config {
    pub os: os::OsConfig,
    pub shell: shell::ShellConfig,
    pub user: user::UserConfig,
    pub directory: directory::DirectoryConfig,
    pub git_repo: git_repo::GitRepoConfig,
    pub git_user: git_user::GitUserConfig,
    pub status: status::StatusConfig,
    pub time: time::TimeConfig,
    pub duration: duration::DurationConfig,
    pub venv: venv::VenvConfig,
    pub segment_separators: SegmentSeparators,
    pub segments: Vec<Vec<String>>,
}

/// The segments of the first line of the default prompt.
pub open spec fn default_first_line() -> Seq<Seq<char>> {
    seq![
        "os"@,
        "shell"@,
        "time"@,
        "user"@,
        "directory"@,
        "git_repo"@,
        "git_user"@,
        "venv"@,
    ]
}

/// The segments of the second line of the default prompt.
pub open spec fn default_second_line() -> Seq<Seq<char>> {
    seq!["duration"@, "status"@]
}

/// The names in a line of segments.
pub open spec fn line_names(line: Vec<String>) -> Seq<Seq<char>> {
    line@.map_values(|s: String| s@)
}

fn names_line(names: &[&str]) -> (r: Vec<String>)
    ensures
        r@.len() == names@.len(),
        forall|i: int| 0 <= i < names@.len() ==> (#[trigger] r@[i])@ == names@[i]@,
{
    let mut line: Vec<String> = Vec::new();
    let mut i: usize = 0;
    while i < names.len()
        invariant
            i <= names@.len(),
            line@.len() == i,
            forall|j: int| 0 <= j < i ==> (#[trigger] line@[j])@ == names@[j]@,
        decreases names@.len() - i,
    {
        line.push(String::from_str(names[i]));
        i = i + 1;
    }
    line
}

impl Config {
    fn default_segments() -> (r: Vec<Vec<String>>)
        ensures
            r@.len() == 2,
            line_names(r@[0]) == default_first_line(),
            line_names(r@[1]) == default_second_line(),
    {
        let first = names_line(
            &["os", "shell", "time", "user", "directory", "git_repo", "git_user", "venv"],
        );
        let second = names_line(&["duration", "status"]);
        assert(line_names(first) =~= default_first_line());
        assert(line_names(second) =~= default_second_line());
        vec![first, second]
    }
}

impl Default for Config {
    fn default() -> (r: Self)
        ensures
            r.git_repo.icons.is_default(),
            r.git_repo.display_master,
            r.git_repo.display_tag,
            r.git_repo.commit_hash_len == 6,
            r.directory.home@ == "~"@,
            r.status.icons.is_default(),
            r.segment_separators.left_solid@ == "\u{e0b0}"@,
            r.segment_separators.left_wire@ == "\u{e0b1}"@,
            r.segments@.len() == 2,
            line_names(r.segments@[0]) == default_first_line(),
            line_names(r.segments@[1]) == default_second_line(),
    {
        Config {
            os: os::OsConfig::default(),
            shell: shell::ShellConfig::default(),
            user: user::UserConfig::default(),
            directory: directory::DirectoryConfig::default(),
            git_repo: git_repo::GitRepoConfig::default(),
            git_user: git_user::GitUserConfig::default(),
            status: status::StatusConfig::default(),
            time: time::TimeConfig::default(),
            duration: duration::DurationConfig::default(),
            venv: venv::VenvConfig::default(),
            segment_separators: SegmentSeparators::default(),
            segments: Self::default_segments(),
        }
    }
}

} // verus!
