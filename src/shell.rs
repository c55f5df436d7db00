//! The shells a prompt can be drawn for, and how each wants its text.
use vstd::prelude::*;

verus! {

/// A shell whose prompt this library draws.
#[derive(Debug, Clone, Copy, PartialEq, Eq, Structural)]
pub enum Shell {
    Bash,
    Zsh,
    Fish,
}

/// `s` with every `from` replaced by `to`.
pub open spec fn replaced(s: Seq<char>, from: char, to: Seq<char>) -> Seq<char>
    decreases s.len(),
{
    if s.len() == 0 {
        Seq::empty()
    } else {
        replaced(s.drop_last(), from, to) + if s.last() == from {
            to
        } else {
            seq![s.last()]
        }
    }
}

/// `s` with every `from` replaced by `to`.
fn replace_char(s: &str, from: char, to: &str) -> (r: String)
    ensures
        r@ == replaced(s@, from, to@),
{
    let n = s.unicode_len();
    let mut r = String::new();
    let mut i: usize = 0;
    while i < n
        invariant
            i <= n == s@.len(),
            r@ == replaced(s@.take(i as int), from, to@),
        decreases n - i,
    {
        let c = s.get_char(i);
        proof {
            assert(s@.take(i + 1).drop_last() =~= s@.take(i as int));
            assert(s@.take(i + 1).last() == c);
        }
        if c == from {
            r.append(to);
        } else {
            let one = s.substring_char(i, i + 1);
            proof {
                assert(one@ =~= seq![c]);
            }
            r.append(one);
        }
        i = i + 1;
    }
    assert(s@.take(n as int) =~= s@);
    r
}

impl Shell {
    /// The text as the shell's prompt must hold it: Bash doubles each
    /// backslash, Zsh each percent sign, Fish takes it as it is.
    pub fn escape_content(&self, content: &str) -> (r: String)
        ensures
            r@ == match self {
                Shell::Bash => replaced(content@, '\\', "\\\\"@),
                Shell::Zsh => replaced(content@, '%', "%%"@),
                Shell::Fish => content@,
            },
    {
        match self {
            Shell::Bash => replace_char(content, '\\', "\\\\"),
            Shell::Zsh => replace_char(content, '%', "%%"),
            Shell::Fish => String::from_str(content),
        }
    }

    /// What opens a run of characters that take no room on the line.
    pub fn control_prefix(&self) -> (r: &'static str)
        ensures
            r@ == match self {
                Shell::Bash => "\\["@,
                Shell::Zsh => "%{"@,
                Shell::Fish => ""@,
            },
    {
        match self {
            Shell::Bash => "\\[",
            Shell::Zsh => "%{",
            Shell::Fish => "",
        }
    }

    /// What closes a run of characters that take no room on the line.
    pub fn control_suffix(&self) -> (r: &'static str)
        ensures
            r@ == match self {
                Shell::Bash => "\\]"@,
                Shell::Zsh => "%}"@,
                Shell::Fish => ""@,
            },
    {
        match self {
            Shell::Bash => "\\]",
            Shell::Zsh => "%}",
            Shell::Fish => "",
        }
    }
}

} // verus!
