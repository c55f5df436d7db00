use almel::configs::git_repo::GitRepoConfig;
use almel::configs::{Color, Config, SegmentSeparators, SegmentStyle};

#[test]
fn default_config() {
    let config = Config::default();
    assert_eq!(config.git_repo.commit_hash_len, 6);
    assert!(config.git_repo.display_master);
    assert!(config.git_repo.display_tag);
    assert_eq!(config.git_repo.icons.modified, "…");
    assert_eq!(config.git_repo.icons.added_deleted, "±");
    assert_eq!(config.git_repo.icons.branch, "\u{f418}");
    assert_eq!(config.directory.home, "~");
    assert!(config.directory.shrink.enabled);
    assert_eq!(config.directory.shrink.max_len, 1);
    assert!(config.status.failed.display_exit_status);
    assert_eq!(config.status.icons.succeeded, "✓");
    assert_eq!(config.time.format, "\u{f017} %Y/%m/%d %H:%M:%S");
    assert!(!config.time.utc);
    assert_eq!(
        config.segments,
        vec![
            vec!["os", "shell", "time", "user", "directory", "git_repo", "git_user", "venv"],
            vec!["duration", "status"],
        ]
    );
}

#[test]
fn default_styles_and_separators() {
    let style = SegmentStyle::default();
    assert_eq!(style, SegmentStyle { foreground: Color::White, background: Color::Black });
    let seps = SegmentSeparators::default();
    assert_eq!(seps.left_solid, "\u{e0b0}");
    assert_eq!(seps.left_wire, "\u{e0b1}");
    assert_eq!(GitRepoConfig::default().clean.style, style);
}
