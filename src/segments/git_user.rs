//! The segment that shows the user name git commits under.
use vstd::prelude::*;

use crate::configs::git_user::GitUserConfig;
use crate::segments::git_repo::status_git2::{config_string, repo_config};
use crate::segments::Segment;

verus! {

/// The icon, a space, and the user name.
pub fn render_git_user(config: &GitUserConfig, user: &String) -> (r: Segment)
    ensures
        r.style == config.style,
        r.content@ == config.icon@ + seq![' '] + user@,
{
    proof {
        reveal_strlit(" ");
    }
    let mut content = config.icon.clone();
    content.append(" ");
    content.append(user.as_str());
    Segment { style: config.style, content }
}

/// The git user of the repository, or `None` where there is no repository or
/// no `user.name` is configured.
pub fn build_segment(repo: Option<&git2::Repository>, config: &GitUserConfig) -> (r: Option<Segment>)
    ensures
        repo is None ==> r is None,
        r matches Some(seg) ==> seg.style == config.style,
{
    let repo = match repo {
        Some(repo) => repo,
        None => return None,
    };
    let git_config = match repo_config(repo) {
        Some(c) => c,
        None => return None,
    };
    match config_string(&git_config, "user.name") {
        Some(user) => Some(render_git_user(config, &user)),
        None => None,
    }
}

} // verus!
