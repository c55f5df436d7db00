use almel::configs::git_repo::{GitRepoConfig, GitRepoConfigClean, GitRepoConfigConflicted, GitRepoConfigIcons, GitRepoConfigStaged, GitRepoConfigUnstaged};
use almel::configs::{Color, SegmentStyle};
use almel::segments::git_repo::status_git2::{
    find_tag, remote_status_from, remote_status_from_lookup, resolve_head_status,
    worktree_status_from, worktree_status_of_listing, HeadFacts, RefFacts, StatusFlags,
    UpstreamLookup,
};
use almel::segments::git_repo::{
    build_head_status_text, build_remote_status_text, build_segment, build_worktree_status_text,
    decimal_text, render_repo_status, HeadStatus, RemoteStatus, RepoStatus, WorktreeStatus,
};

fn icons() -> GitRepoConfigIcons {
    GitRepoConfigIcons {
        branch: "B".to_string(),
        tag: "T".to_string(),
        commit: "C".to_string(),
        modified: "M".to_string(),
        added: "+".to_string(),
        deleted: "-".to_string(),
        added_deleted: "±".to_string(),
        conflicted: "C".to_string(),
        behind: "↓".to_string(),
        ahead: "↑".to_string(),
    }
}

fn worktree(
    unstaged_new: u32,
    unstaged_delete: u32,
    unstaged_changes: u32,
    staged_new: u32,
    staged_delete: u32,
    staged_changes: u32,
    conflicted: u32,
) -> WorktreeStatus {
    WorktreeStatus {
        num_unstaged_new: unstaged_new,
        num_unstaged_delete: unstaged_delete,
        num_unstaged_changes: unstaged_changes,
        num_staged_new: staged_new,
        num_staged_delete: staged_delete,
        num_staged_changes: staged_changes,
        num_conflicted: conflicted,
    }
}

fn style(foreground: Color, background: Color) -> SegmentStyle {
    SegmentStyle { foreground, background }
}

fn config(display_master: bool, display_tag: bool, commit_hash_len: usize) -> GitRepoConfig {
    GitRepoConfig {
        icons: icons(),
        clean: GitRepoConfigClean { style: style(Color::Black, Color::Green) },
        unstaged: GitRepoConfigUnstaged { style: style(Color::Black, Color::Yellow) },
        staged: GitRepoConfigStaged { style: style(Color::Black, Color::Blue) },
        conflicted: GitRepoConfigConflicted { style: style(Color::White, Color::Red) },
        display_master,
        display_tag,
        commit_hash_len,
    }
}

fn clean() -> WorktreeStatus {
    worktree(0, 0, 0, 0, 0, 0, 0)
}

fn flags() -> StatusFlags {
    StatusFlags {
        wt_new: false,
        wt_modified: false,
        wt_deleted: false,
        wt_renamed: false,
        wt_typechange: false,
        index_new: false,
        index_modified: false,
        index_deleted: false,
        index_renamed: false,
        index_typechange: false,
        conflicted: false,
    }
}

#[test]
fn test_build_head_status_text() {
    let icons = icons();
    let branch = |n: &str| HeadStatus::Branch(n.to_string());
    let commit = HeadStatus::Commit("0123456789ABCEDF".to_string());

    assert_eq!(build_head_status_text(&branch("master"), &icons, true, 7), "B master");
    assert_eq!(build_head_status_text(&branch("master"), &icons, false, 7), "B");
    assert_eq!(build_head_status_text(&branch("main"), &icons, false, 7), "B");
    assert_eq!(build_head_status_text(&branch("some-branch"), &icons, true, 7), "B some-branch");
    assert_eq!(build_head_status_text(&branch("some-branch"), &icons, false, 7), "B some-branch");
    assert_eq!(
        build_head_status_text(&HeadStatus::Tag("some-tag".to_string()), &icons, false, 7),
        "T some-tag"
    );
    assert_eq!(build_head_status_text(&commit, &icons, false, 7), "C 0123456");
    assert_eq!(build_head_status_text(&commit, &icons, false, 5), "C 01234");
    assert_eq!(build_head_status_text(&commit, &icons, false, 999), "C 0123456789ABCEDF");
}

#[test]
fn test_build_worktree_status_text() {
    let icons = icons();
    assert_eq!(build_worktree_status_text(&worktree(0, 0, 0, 0, 0, 0, 0), &icons), "");
    assert_eq!(build_worktree_status_text(&worktree(0, 0, 1, 0, 0, 0, 0), &icons), "M");
    assert_eq!(build_worktree_status_text(&worktree(1, 0, 0, 0, 0, 1, 0), &icons), "M+");
    assert_eq!(build_worktree_status_text(&worktree(0, 0, 0, 1, 0, 1, 0), &icons), "M+");
    assert_eq!(build_worktree_status_text(&worktree(1, 0, 0, 0, 1, 0, 0), &icons), "±");
}

#[test]
fn test_build_remote_status_text() {
    let icons = icons();
    let remote = |behind: u32, ahead: u32| RemoteStatus { commits_behind: behind, commits_ahead: ahead };
    assert_eq!(build_remote_status_text(&remote(0, 0), &icons), "");
    assert_eq!(build_remote_status_text(&remote(1, 0), &icons), "↓1");
    assert_eq!(build_remote_status_text(&remote(0, 2), &icons), "↑2");
    assert_eq!(build_remote_status_text(&remote(3, 4), &icons), "↓3↑4");
}

#[test]
fn worktree_predicates() {
    let w = worktree(0, 0, 0, 0, 0, 0, 0);
    assert!(!w.is_conflicted() && !w.is_modified() && !w.has_added() && !w.has_deleted());
    assert!(!w.has_unstaged_changes() && !w.has_staged_changes());
    assert!(worktree(0, 0, 0, 0, 0, 0, 2).is_conflicted());
    assert!(worktree(0, 0, 0, 0, 0, 1, 0).is_modified());
    assert!(worktree(0, 0, 1, 0, 0, 0, 0).is_modified());
    assert!(worktree(0, 0, 0, 3, 0, 0, 0).has_added());
    assert!(worktree(0, 4, 0, 0, 0, 0, 0).has_deleted());
    assert!(worktree(0, 4, 0, 0, 0, 0, 0).has_unstaged_changes());
    assert!(!worktree(0, 4, 0, 0, 0, 0, 0).has_staged_changes());
    assert!(worktree(0, 0, 0, 0, 1, 0, 0).has_staged_changes());
    assert!(!worktree(0, 0, 0, 0, 1, 0, 0).has_unstaged_changes());
}

#[test]
fn clean_worktree_gets_clean_style_and_no_icon() {
    let config = config(true, true, 7);
    let status = RepoStatus {
        head_status: HeadStatus::Branch("dev".to_string()),
        worktree_status: clean(),
        remote_status: None,
    };
    let seg = render_repo_status(&status, &config);
    assert_eq!(seg.content, "B dev");
    assert_eq!(seg.style, config.clean.style);
}

#[test]
fn conflict_takes_precedence_over_other_changes() {
    let config = config(true, true, 7);
    let status = RepoStatus {
        head_status: HeadStatus::Branch("dev".to_string()),
        worktree_status: worktree(1, 1, 1, 1, 1, 1, 1),
        remote_status: None,
    };
    let seg = render_repo_status(&status, &config);
    assert_eq!(seg.style, config.conflicted.style);
    assert_eq!(seg.content, "B dev M±");
}

#[test]
fn added_and_deleted_share_one_icon() {
    let icons = icons();
    assert_eq!(build_worktree_status_text(&worktree(0, 0, 0, 1, 1, 0, 0), &icons), "±");
    assert_eq!(build_worktree_status_text(&worktree(1, 1, 1, 0, 0, 0, 0), &icons), "M±");
}

#[test]
fn commit_hash_is_cut_to_seven_characters() {
    let head = HeadStatus::Commit("9fceb02d0ae598e9".to_string());
    assert_eq!(build_head_status_text(&head, &icons(), true, 7), "C 9fceb02");
}

#[test]
fn short_commit_hash_is_shown_whole() {
    let head = HeadStatus::Commit("9fceb02d0ae598e9".to_string());
    assert_eq!(build_head_status_text(&head, &icons(), true, 40), "C 9fceb02d0ae598e9");
    assert_eq!(build_head_status_text(&head, &icons(), true, 16), "C 9fceb02d0ae598e9");
}

#[test]
fn master_and_main_are_hidden() {
    let icons = icons();
    for name in ["master", "main"] {
        let head = HeadStatus::Branch(name.to_string());
        assert_eq!(build_head_status_text(&head, &icons, false, 7), "B");
    }
    let head = HeadStatus::Branch("mainline".to_string());
    assert_eq!(build_head_status_text(&head, &icons, false, 7), "B mainline");
}

#[test]
fn even_upstream_adds_nothing() {
    let config = config(true, true, 7);
    let status = RepoStatus {
        head_status: HeadStatus::Branch("dev".to_string()),
        worktree_status: clean(),
        remote_status: Some(RemoteStatus { commits_behind: 0, commits_ahead: 0 }),
    };
    assert_eq!(render_repo_status(&status, &config).content, "B dev");
}

#[test]
fn behind_and_ahead_are_not_separated() {
    let config = config(true, true, 7);
    let status = RepoStatus {
        head_status: HeadStatus::Branch("dev".to_string()),
        worktree_status: clean(),
        remote_status: Some(RemoteStatus { commits_behind: 3, commits_ahead: 4 }),
    };
    assert_eq!(render_repo_status(&status, &config).content, "B dev ↓3↑4");
}

#[test]
fn scenario_clean_feature_branch() {
    let config = config(true, true, 7);
    let status = RepoStatus {
        head_status: HeadStatus::Branch("feature-x".to_string()),
        worktree_status: clean(),
        remote_status: None,
    };
    let seg = render_repo_status(&status, &config);
    assert_eq!(seg.content, "B feature-x");
    assert_eq!(seg.style, config.clean.style);
}

#[test]
fn scenario_staged_new_and_unstaged_modified_on_main() {
    let config = config(false, true, 7);
    let mut staged_new = flags();
    staged_new.index_new = true;
    let mut modified = flags();
    modified.wt_modified = true;
    let worktree_status = worktree_status_from(&vec![staged_new, modified]);
    let status = RepoStatus {
        head_status: HeadStatus::Branch("main".to_string()),
        worktree_status,
        remote_status: None,
    };
    let seg = render_repo_status(&status, &config);
    assert_eq!(seg.content, "B M+");
    assert_eq!(seg.style, config.unstaged.style);
}

#[test]
fn scenario_detached_at_tag() {
    let id = "4b825dc642cb6eb9a060e54bf8d69288fbee4904".to_string();
    let refs = vec![
        RefFacts { is_tag: false, target: Some(id.clone()), shorthand: Some("main".to_string()) },
        RefFacts { is_tag: true, target: Some(id.clone()), shorthand: Some("v1.2.0".to_string()) },
    ];
    let head = resolve_head_status(&HeadFacts::Detached(Some(id)), true, &refs);
    let config = config(true, true, 7);
    let status = RepoStatus { head_status: head, worktree_status: clean(), remote_status: None };
    assert_eq!(render_repo_status(&status, &config).content, "T v1.2.0");
}

#[test]
fn scenario_branch_behind_upstream() {
    let config = config(true, true, 7);
    let status = RepoStatus {
        head_status: HeadStatus::Branch("name".to_string()),
        worktree_status: clean(),
        remote_status: Some(remote_status_from(0, 2)),
    };
    let seg = render_repo_status(&status, &config);
    assert_eq!(seg.content, "B name ↓2");
    assert_eq!(seg.style, config.clean.style);
}

#[test]
fn staged_only_gets_staged_style() {
    let config = config(true, true, 7);
    let status = RepoStatus {
        head_status: HeadStatus::Tag("v1".to_string()),
        worktree_status: worktree(0, 0, 0, 0, 1, 0, 0),
        remote_status: Some(RemoteStatus { commits_behind: 0, commits_ahead: 12 }),
    };
    let seg = render_repo_status(&status, &config);
    assert_eq!(seg.content, "T v1 - ↑12");
    assert_eq!(seg.style, config.staged.style);
}

#[test]
fn decimal_text_writes_numbers() {
    assert_eq!(decimal_text(0), "0");
    assert_eq!(decimal_text(7), "7");
    assert_eq!(decimal_text(10), "10");
    assert_eq!(decimal_text(1234567890), "1234567890");
    assert_eq!(decimal_text(u32::MAX), "4294967295");
}

#[test]
fn worktree_counts_each_kind() {
    let mut renamed = flags();
    renamed.wt_renamed = true;
    renamed.index_renamed = true;
    let mut typechange = flags();
    typechange.wt_typechange = true;
    typechange.index_typechange = true;
    let mut untracked = flags();
    untracked.wt_new = true;
    let mut conflicted = flags();
    conflicted.conflicted = true;
    let mut deleted = flags();
    deleted.wt_deleted = true;
    deleted.index_deleted = true;
    let w = worktree_status_from(&vec![renamed, typechange, untracked, conflicted, deleted, flags()]);
    assert_eq!(w, worktree(2, 2, 1, 1, 2, 1, 1));
    assert_eq!(worktree_status_from(&vec![]), clean());
}

#[test]
fn find_tag_takes_the_first_tag_at_the_commit() {
    let a = "aaaa".to_string();
    let b = "bbbb".to_string();
    let tag = |target: &String, name: &str| RefFacts {
        is_tag: true,
        target: Some(target.clone()),
        shorthand: Some(name.to_string()),
    };
    let refs = vec![
        RefFacts { is_tag: false, target: Some(b.clone()), shorthand: Some("dev".to_string()) },
        tag(&a, "old"),
        tag(&b, "first"),
        tag(&b, "second"),
    ];
    assert_eq!(find_tag(&refs, &b), Some(2));
    assert_eq!(find_tag(&refs, &a), Some(1));
    assert_eq!(find_tag(&refs, &"cccc".to_string()), None);
    assert_eq!(find_tag(&vec![], &a), None);
}

#[test]
fn head_resolution_covers_every_case() {
    let id = "abcdef0123".to_string();
    let refs = vec![RefFacts { is_tag: true, target: Some(id.clone()), shorthand: None }];
    let text = |h: HeadStatus| build_head_status_text(&h, &icons(), true, 40);
    assert_eq!(text(resolve_head_status(&HeadFacts::Unborn(None), true, &refs)), "B master");
    assert_eq!(
        text(resolve_head_status(&HeadFacts::Unborn(Some("trunk".to_string())), true, &refs)),
        "B trunk"
    );
    assert_eq!(
        text(resolve_head_status(&HeadFacts::Branch(Some("dev".to_string())), true, &refs)),
        "B dev"
    );
    assert_eq!(text(resolve_head_status(&HeadFacts::Branch(None), true, &refs)), "B ?");
    assert_eq!(text(resolve_head_status(&HeadFacts::Detached(None), true, &refs)), "C ?");
    assert_eq!(text(resolve_head_status(&HeadFacts::Detached(Some(id.clone())), true, &refs)), "T ?");
    assert_eq!(
        text(resolve_head_status(&HeadFacts::Detached(Some(id.clone())), false, &refs)),
        "C abcdef0123"
    );
    assert_eq!(
        text(resolve_head_status(&HeadFacts::Detached(Some("0000".to_string())), true, &refs)),
        "C 0000"
    );
}

#[test]
fn remote_counts_saturate() {
    let r = remote_status_from(5, 6);
    assert_eq!(r, RemoteStatus { commits_behind: 6, commits_ahead: 5 });
    let big = usize::MAX;
    let r = remote_status_from(big, 1);
    assert_eq!(r.commits_ahead, if big > u32::MAX as usize { u32::MAX } else { big as u32 });
}

#[test]
fn no_repository_gives_no_segment() {
    assert!(build_segment(None, &config(true, true, 7)).is_none());
}

#[test]
fn failed_listing_counts_as_clean() {
    assert_eq!(worktree_status_of_listing(None), clean());
    assert_eq!(worktree_status_of_listing(Some(vec![])), clean());
    let mut conflicted = flags();
    conflicted.conflicted = true;
    conflicted.wt_modified = true;
    assert_eq!(worktree_status_of_listing(Some(vec![conflicted])), worktree(0, 0, 1, 0, 0, 0, 1));
}

#[test]
fn upstream_lookup_gives_status_only_when_counted() {
    for lookup in [
        UpstreamLookup::NoHead,
        UpstreamLookup::NotBranch,
        UpstreamLookup::NoBranchName,
        UpstreamLookup::NoLocalBranch,
        UpstreamLookup::NoUpstream,
        UpstreamLookup::NoHeadTarget,
        UpstreamLookup::NoUpstreamTarget,
        UpstreamLookup::NoCounts,
    ] {
        assert!(remote_status_from_lookup(&lookup).is_none());
    }
    let counted = UpstreamLookup::Counted { ahead: 4, behind: 3 };
    assert_eq!(
        remote_status_from_lookup(&counted),
        Some(RemoteStatus { commits_behind: 3, commits_ahead: 4 })
    );
    let even = UpstreamLookup::Counted { ahead: 0, behind: 0 };
    assert_eq!(
        remote_status_from_lookup(&even),
        Some(RemoteStatus { commits_behind: 0, commits_ahead: 0 })
    );
}
