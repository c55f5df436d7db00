//! The segment that shows the shell.
use vstd::prelude::*;

use crate::configs::shell::ShellConfig;
use crate::segments::Segment;
use crate::shell::Shell;

verus! {

/// The icon of the shell, in its style.
pub fn build_segment(config: &ShellConfig, shell: Shell) -> (r: Segment)
    ensures
        match shell {
            Shell::Bash => r.style == config.bash.style && r.content@ == config.bash.icon@,
            Shell::Zsh => r.style == config.zsh.style && r.content@ == config.zsh.icon@,
            Shell::Fish => r.style == config.fish.style && r.content@ == config.fish.icon@,
        },
{
    match shell {
        Shell::Bash => Segment { style: config.bash.style, content: config.bash.icon.clone() },
        Shell::Zsh => Segment { style: config.zsh.style, content: config.zsh.icon.clone() },
        Shell::Fish => Segment { style: config.fish.style, content: config.fish.icon.clone() },
    }
}

} // verus!
