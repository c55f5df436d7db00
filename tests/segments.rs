use almel::configs::git_user::GitUserConfig;
use almel::configs::os::OsConfig;
use almel::configs::shell::ShellConfig;
use almel::configs::status::{StatusConfig, StatusConfigFailed};
use almel::configs::user::UserConfig;
use almel::configs::venv::VenvConfig;
use almel::configs::{Color, SegmentStyle};
use almel::segments::status::{render_status, signed_decimal_text};
use almel::segments::{git_user, os, shell, user, venv};
use almel::shell::Shell;

fn status_config(display_exit_status: bool) -> StatusConfig {
    let mut config = StatusConfig::default();
    config.icons.succeeded = "ok".to_string();
    config.icons.failed = "ng".to_string();
    config.icons.root = "#".to_string();
    config.icons.jobs = "&".to_string();
    config.succeeded.style = SegmentStyle { foreground: Color::White, background: Color::Green };
    config.failed = StatusConfigFailed {
        style: SegmentStyle { foreground: Color::White, background: Color::Red },
        display_exit_status,
    };
    config
}

#[test]
fn status_succeeded() {
    let config = status_config(true);
    let seg = render_status(&config, 0, 0, false);
    assert_eq!(seg.content, "ok");
    assert_eq!(seg.style, config.succeeded.style);
    assert_eq!(render_status(&config, 0, 2, true).content, "ok # &");
}

#[test]
fn status_failed() {
    let config = status_config(true);
    let seg = render_status(&config, 127, 0, false);
    assert_eq!(seg.content, "ng 127");
    assert_eq!(seg.style, config.failed.style);
    assert_eq!(render_status(&config, -1, 1, false).content, "ng -1 &");
    assert_eq!(render_status(&status_config(false), 1, 0, true).content, "ng #");
}

#[test]
fn signed_decimals() {
    assert_eq!(signed_decimal_text(0), "0");
    assert_eq!(signed_decimal_text(42), "42");
    assert_eq!(signed_decimal_text(-42), "-42");
    assert_eq!(signed_decimal_text(i32::MIN), "-2147483648");
    assert_eq!(signed_decimal_text(i32::MAX), "2147483647");
}

#[test]
fn os_and_shell_icons() {
    let config = OsConfig::default();
    assert_eq!(os::build_segment(&config, os::Os::Linux).content, "\u{f17c}");
    assert_eq!(os::build_segment(&config, os::Os::Mac).content, "\u{f179}");
    assert_eq!(os::build_segment(&config, os::Os::Windows).content, "\u{f17a}");
    let config = ShellConfig::default();
    assert_eq!(shell::build_segment(&config, Shell::Bash).content, "Bash");
    assert_eq!(shell::build_segment(&config, Shell::Zsh).content, "Zsh");
    assert_eq!(shell::build_segment(&config, Shell::Fish).content, "\u{f739}");
}

#[test]
fn user_and_host() {
    let mut config = UserConfig::default();
    let alice = Some("alice".to_string());
    let box_ = Some("box".to_string());
    assert_eq!(user::build_segment(&config, &alice, &box_).content, "alice@box");
    assert_eq!(user::build_segment(&config, &None, &None).content, "?@?");
    config.display_host = false;
    assert_eq!(user::build_segment(&config, &alice, &box_).content, "alice");
}

#[test]
fn git_user_text() {
    let config = GitUserConfig::default();
    let seg = git_user::render_git_user(&config, &"Alice".to_string());
    assert_eq!(seg.content, "\u{f2c0} Alice");
    assert!(git_user::build_segment(None, &config).is_none());
}

#[test]
fn venv_name() {
    let config = VenvConfig::default();
    let seg = venv::build_segment(&config, &Some("/home/a/.venvs/proj/".to_string())).unwrap();
    assert_eq!(seg.content, "\u{f81f} proj");
    assert_eq!(seg.style, SegmentStyle { foreground: Color::White, background: Color::Black });
    assert_eq!(venv::build_segment(&config, &Some("/".to_string())).unwrap().content, "\u{f81f} ?");
    assert!(venv::build_segment(&config, &None).is_none());
}
