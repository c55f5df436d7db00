//! The segment that shows the operating system.
use vstd::prelude::*;

use crate::configs::os::OsConfig;
use crate::segments::Segment;

verus! {

/// An operating system the prompt knows an icon for.
#[derive(Debug, Clone, Copy, PartialEq, Eq, Structural)]
pub enum Os {
    Linux,
    Mac,
    Windows,
}

/// The icon of the operating system, in its style.
pub fn build_segment(config: &OsConfig, os: Os) -> (r: Segment)
    ensures
        match os {
            Os::Linux => r.style == config.linux.style && r.content@ == config.linux.icon@,
            Os::Mac => r.style == config.mac.style && r.content@ == config.mac.icon@,
            Os::Windows => r.style == config.windows.style && r.content@ == config.windows.icon@,
        },
{
    match os {
        Os::Linux => Segment { style: config.linux.style, content: config.linux.icon.clone() },
        Os::Mac => Segment { style: config.mac.style, content: config.mac.icon.clone() },
        Os::Windows => Segment {
            style: config.windows.style,
            content: config.windows.icon.clone(),
        },
    }
}

} // verus!
