use almel::shell::Shell;

#[test]
fn bash_doubles_backslashes() {
    assert_eq!(Shell::Bash.escape_content("a\\b\\\\c%"), "a\\\\b\\\\\\\\c%");
    assert_eq!(Shell::Bash.control_prefix(), "\\[");
    assert_eq!(Shell::Bash.control_suffix(), "\\]");
}

#[test]
fn zsh_doubles_percent_signs() {
    assert_eq!(Shell::Zsh.escape_content("100%\\"), "100%%\\");
    assert_eq!(Shell::Zsh.control_prefix(), "%{");
    assert_eq!(Shell::Zsh.control_suffix(), "%}");
}

#[test]
fn fish_keeps_text() {
    assert_eq!(Shell::Fish.escape_content("a\\b%c"), "a\\b%c");
    assert_eq!(Shell::Fish.control_prefix(), "");
    assert_eq!(Shell::Fish.control_suffix(), "");
}
