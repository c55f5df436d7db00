//! The segments a prompt is made of. Each one turns a few facts into a text
//! and the style it is drawn with.
pub mod directory;
pub mod git_repo;
pub mod git_user;
pub mod os;
pub mod shell;
pub mod status;
pub mod user;
pub mod venv;

use vstd::prelude::*;

use crate::configs::SegmentStyle;

verus! {

/// One piece of the prompt: its text and the colours it is drawn with.
#[derive(Debug, Clone)]
pub struct Segment {
    pub style: SegmentStyle,
    pub content: String,
}

/// The first `n` characters of `s`, or all of them where it is shorter.
pub open spec fn prefix_of(s: Seq<char>, n: nat) -> Seq<char> {
    if n < s.len() {
        s.take(n as int)
    } else {
        s
    }
}

} // verus!
