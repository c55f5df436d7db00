//! The segment that shows the user and, where configured, the host.
use vstd::prelude::*;

use crate::configs::user::UserConfig;
use crate::segments::git_repo::status_git2::name_or_unknown;
use crate::segments::Segment;

verus! {

/// The user name, then `@` and the host name where the host is displayed;
/// `?` for a name that could not be had.
pub open spec fn user_content(display_host: bool, username: Option<String>, hostname: Option<String>) -> Seq<char> {
    if display_host {
        name_or_unknown(username) + seq!['@'] + name_or_unknown(hostname)
    } else {
        name_or_unknown(username)
    }
}

/// Draws the user, and the host where configured.
pub fn build_segment(config: &UserConfig, username: &Option<String>, hostname: &Option<String>) -> (r:
    Segment)
    ensures
        r.style == config.style,
        r.content@ == user_content(config.display_host, *username, *hostname),
{
    let mut content = match username {
        Some(u) => u.clone(),
        None => String::from_str("?"),
    };
    if config.display_host {
        proof {
            reveal_strlit("@");
        }
        content.append("@");
        match hostname {
            Some(h) => content.append(h.as_str()),
            None => content.append("?"),
        }
    }
    assert(content@ =~= user_content(config.display_host, *username, *hostname));
    Segment { style: config.style, content }
}

} // verus!
