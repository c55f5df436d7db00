//! The segment that shows the active Python virtual environment.
use vstd::prelude::*;

use crate::configs::venv::VenvConfig;
use crate::configs::SegmentStyle;
use crate::segments::directory::{components, path_components};
use crate::segments::Segment;

verus! {

/// The name of the environment at `path`: its last name, or `?` where the
/// path has none.
pub open spec fn env_name(path: Seq<char>) -> Seq<char> {
    if components(path).len() > 0 {
        components(path).last()
    } else {
        "?"@
    }
}

/// The icon and the name of the virtual environment at `virtual_env`, or
/// `None` where no environment is active.
pub fn build_segment(config: &VenvConfig, virtual_env: &Option<String>) -> (r: Option<Segment>)
    ensures
        r is Some <==> virtual_env is Some,
        r matches Some(seg) ==> {
            &&& seg.style == (SegmentStyle {
                foreground: config.foreground,
                background: config.background,
            })
            &&& seg.content@ == config.icon@ + seq![' '] + env_name(virtual_env.unwrap()@)
        },
{
    let path = match virtual_env {
        Some(p) => p,
        None => return None,
    };
    let names = path_components(path.as_str());
    let n = names.len();
    proof {
        reveal_strlit(" ");
    }
    let mut content = config.icon.clone();
    content.append(" ");
    if n > 0 {
        assert(names@[n - 1]@ == components(path@).last());
        content.append(names[n - 1].as_str());
    } else {
        content.append("?");
    }
    let style = SegmentStyle { foreground: config.foreground, background: config.background };
    Some(Segment { style, content })
}

} // verus!
