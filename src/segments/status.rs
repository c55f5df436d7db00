//! The status segment: whether the last command succeeded, and whether the
//! user is root or has jobs running.
use vstd::prelude::*;

use crate::configs::status::StatusConfig;
use crate::segments::git_repo::decimal_text;
use crate::segments::git_repo::decimal;
use crate::segments::Segment;

verus! {

/// `n` written in decimal, with a minus sign where it is negative.
pub open spec fn signed_decimal(n: int) -> Seq<char> {
    if n < 0 {
        seq!['-'] + decimal((-n) as nat)
    } else {
        decimal(n as nat)
    }
}

/// `n` written in decimal, with a minus sign where it is negative.
pub fn signed_decimal_text(n: i32) -> (r: String)
    ensures
        r@ == signed_decimal(n as int),
{
    if n < 0 {
        let magnitude = (-(n as i64)) as u32;
        let digits = decimal_text(magnitude);
        proof {
            reveal_strlit("-");
        }
        let mut text = String::from_str("-");
        text.append(digits.as_str());
        text
    } else {
        decimal_text(n as u32)
    }
}

/// Relies on `users::get_current_uid`: the real user id of this process.
#[verifier::external_body]
fn current_uid() -> u32 {
    users::get_current_uid()
}

/// Whether this process runs as root.
pub fn is_root_user() -> bool {
    current_uid() == 0
}

/// The segment's text: the success or failure icon (the latter followed by
/// the exit status where configured), then the root icon and the jobs icon
/// where they apply, each after a space.
pub open spec fn status_content(config: StatusConfig, exit_status: int, num_jobs: int, is_root: bool) -> Seq<
    char,
> {
    (if exit_status == 0 {
        config.icons.succeeded@
    } else if config.failed.display_exit_status {
        config.icons.failed@ + seq![' '] + signed_decimal(exit_status)
    } else {
        config.icons.failed@
    }) + (if is_root {
        seq![' '] + config.icons.root@
    } else {
        Seq::empty()
    }) + (if num_jobs > 0 {
        seq![' '] + config.icons.jobs@
    } else {
        Seq::empty()
    })
}

/// Draws the status of the last command.
pub fn render_status(config: &StatusConfig, exit_status: i32, num_jobs: i32, is_root: bool) -> (r:
    Segment)
    ensures
        r.content@ == status_content(*config, exit_status as int, num_jobs as int, is_root),
        r.style == if exit_status == 0 {
            config.succeeded.style
        } else {
            config.failed.style
        },
{
    proof {
        reveal_strlit(" ");
    }
    let style;
    let mut content;
    if exit_status == 0 {
        style = config.succeeded.style;
        content = config.icons.succeeded.clone();
    } else {
        style = config.failed.style;
        content = config.icons.failed.clone();
        if config.failed.display_exit_status {
            content.append(" ");
            let code = signed_decimal_text(exit_status);
            content.append(code.as_str());
        }
    }
    if is_root {
        content.append(" ");
        content.append(config.icons.root.as_str());
    }
    if num_jobs > 0 {
        content.append(" ");
        content.append(config.icons.jobs.as_str());
    }
    assert(content@ =~= status_content(*config, exit_status as int, num_jobs as int, is_root));
    Segment { style, content }
}

/// The status segment for this process.
pub fn build_segment(config: &StatusConfig, exit_status: i32, num_jobs: i32) -> (r: Segment)
    ensures
        r.content@ == status_content(*config, exit_status as int, num_jobs as int, false)
            || r.content@ == status_content(*config, exit_status as int, num_jobs as int, true),
{
    render_status(config, exit_status, num_jobs, is_root_user())
}

} // verus!
