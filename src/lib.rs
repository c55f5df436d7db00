//! Rendering of a shell prompt's segments, centred on the status of a git
//! repository: which reference HEAD names, which files changed, and how far the
//! current branch has moved from its upstream.
pub mod configs;
pub mod segments;
pub mod shell;
