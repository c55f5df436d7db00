//! The git repository segment: what HEAD names, which kinds of change the
//! working tree holds, and how far the branch is from its upstream, drawn in a
//! colour that tells how clean the repository is.
pub mod status_git2;

use vstd::prelude::*;

use crate::configs::git_repo::{GitRepoConfig, GitRepoConfigIcons};
use crate::configs::SegmentStyle;
use crate::segments::{prefix_of, Segment};

verus! {

/// What HEAD refers to.
#[derive(Debug, Clone)]
pub enum HeadStatus {
    /// A local branch, by its short name.
    Branch(String),
    /// A detached HEAD at the commit a tag points at, by the tag's short name.
    Tag(String),
    /// A detached HEAD at a commit that no tag names, by its full id in hex.
    Commit(String),
}

/// A `HeadStatus` with its name as a sequence of characters.
pub enum HeadView {
    Branch(Seq<char>),
    Tag(Seq<char>),
    Commit(Seq<char>),
}

impl View for HeadStatus {
    type V = HeadView;

    open spec fn view(&self) -> HeadView {
        match self {
            HeadStatus::Branch(name) => HeadView::Branch(name@),
            HeadStatus::Tag(name) => HeadView::Tag(name@),
            HeadStatus::Commit(hash) => HeadView::Commit(hash@),
        }
    }
}

/// The branch names that `display_master` hides.
pub open spec fn is_main_branch_name(name: Seq<char>) -> bool {
    name == "master"@ || name == "main"@
}

/// The text that names HEAD.
pub open spec fn head_status_text(
    head: HeadView,
    icons: GitRepoConfigIcons,
    display_master: bool,
    commit_hash_len: nat,
) -> Seq<char> {
    match head {
        HeadView::Branch(name) => if !display_master && is_main_branch_name(name) {
            icons.branch@
        } else {
            icons.branch@ + seq![' '] + name
        },
        HeadView::Tag(name) => icons.tag@ + seq![' '] + name,
        HeadView::Commit(hash) => icons.commit@ + seq![' '] + prefix_of(hash, commit_hash_len),
    }
}

fn is_main_branch(name: &String) -> (r: bool)
    ensures
        r == is_main_branch_name(name@),
{
    let master = String::from_str("master");
    let main = String::from_str("main");
    *name == master || *name == main
}

/// The text that names HEAD: the branch icon alone for `master` or `main`
/// where those are not displayed, else the icon of the kind of reference, a
/// space, and the name (a commit id cut to `commit_hash_len` characters).
pub fn build_head_status_text(
    head_status: &HeadStatus,
    icons: &GitRepoConfigIcons,
    display_master: bool,
    commit_hash_len: usize,
) -> (r: String)
    ensures
        r@ == head_status_text(head_status@, *icons, display_master, commit_hash_len as nat),
{
    proof {
        reveal_strlit(" ");
    }
    match head_status {
        HeadStatus::Branch(name) => {
            if !display_master && is_main_branch(name) {
                icons.branch.clone()
            } else {
                let mut text = icons.branch.clone();
                text.append(" ");
                text.append(name.as_str());
                text
            }
        },
        HeadStatus::Tag(name) => {
            let mut text = icons.tag.clone();
            text.append(" ");
            text.append(name.as_str());
            text
        },
        HeadStatus::Commit(hash) => {
            let len = hash.as_str().unicode_len();
            let n = if commit_hash_len < len {
                commit_hash_len
            } else {
                len
            };
            let short = hash.as_str().substring_char(0, n);
            let mut text = icons.commit.clone();
            text.append(" ");
            text.append(short);
            assert(short@ == prefix_of(hash@, commit_hash_len as nat));
            text
        },
    }
}

/// How many files of the working tree fall in each kind of change. One file
/// may count in several kinds (a renamed file is both new and deleted).
#[derive(Debug, Clone, Copy, PartialEq, Eq, Structural)]
pub struct WorktreeStatus {
    pub num_unstaged_new: u32,
    pub num_unstaged_delete: u32,
    pub num_unstaged_changes: u32,
    pub num_staged_new: u32,
    pub num_staged_delete: u32,
    pub num_staged_changes: u32,
    pub num_conflicted: u32,
}

impl WorktreeStatus {
    pub open spec fn spec_is_conflicted(&self) -> bool {
        self.num_conflicted > 0
    }

    pub open spec fn spec_is_modified(&self) -> bool {
        self.num_unstaged_changes > 0 || self.num_staged_changes > 0
    }

    pub open spec fn spec_has_added(&self) -> bool {
        self.num_unstaged_new > 0 || self.num_staged_new > 0
    }

    pub open spec fn spec_has_deleted(&self) -> bool {
        self.num_unstaged_delete > 0 || self.num_staged_delete > 0
    }

    pub open spec fn spec_has_unstaged_changes(&self) -> bool {
        self.num_unstaged_new > 0 || self.num_unstaged_delete > 0 || self.num_unstaged_changes > 0
    }

    pub open spec fn spec_has_staged_changes(&self) -> bool {
        self.num_staged_new > 0 || self.num_staged_delete > 0 || self.num_staged_changes > 0
    }

    /// Whether some file is in a merge conflict.
    #[verifier::when_used_as_spec(spec_is_conflicted)]
    pub fn is_conflicted(&self) -> (r: bool)
        ensures
            r == self.spec_is_conflicted(),
    {
        self.num_conflicted > 0
    }

    /// Whether some file's content changed, staged or not.
    #[verifier::when_used_as_spec(spec_is_modified)]
    pub fn is_modified(&self) -> (r: bool)
        ensures
            r == self.spec_is_modified(),
    {
        self.num_unstaged_changes > 0 || self.num_staged_changes > 0
    }

    /// Whether some file is new, staged or not.
    #[verifier::when_used_as_spec(spec_has_added)]
    pub fn has_added(&self) -> (r: bool)
        ensures
            r == self.spec_has_added(),
    {
        self.num_unstaged_new > 0 || self.num_staged_new > 0
    }

    /// Whether some file was deleted, staged or not.
    #[verifier::when_used_as_spec(spec_has_deleted)]
    pub fn has_deleted(&self) -> (r: bool)
        ensures
            r == self.spec_has_deleted(),
    {
        self.num_unstaged_delete > 0 || self.num_staged_delete > 0
    }

    /// Whether the working tree differs from the index.
    #[verifier::when_used_as_spec(spec_has_unstaged_changes)]
    pub fn has_unstaged_changes(&self) -> (r: bool)
        ensures
            r == self.spec_has_unstaged_changes(),
    {
        self.num_unstaged_new > 0 || self.num_unstaged_delete > 0 || self.num_unstaged_changes > 0
    }

    /// Whether the index differs from HEAD.
    #[verifier::when_used_as_spec(spec_has_staged_changes)]
    pub fn has_staged_changes(&self) -> (r: bool)
        ensures
            r == self.spec_has_staged_changes(),
    {
        self.num_staged_new > 0 || self.num_staged_delete > 0 || self.num_staged_changes > 0
    }
}

/// A working tree in which no file differs.
pub open spec fn clean_worktree() -> WorktreeStatus {
    WorktreeStatus {
        num_unstaged_new: 0,
        num_unstaged_delete: 0,
        num_unstaged_changes: 0,
        num_staged_new: 0,
        num_staged_delete: 0,
        num_staged_changes: 0,
        num_conflicted: 0,
    }
}

/// The icon for files added, deleted, or both: one icon, never two.
pub open spec fn added_deleted_text(w: WorktreeStatus, icons: GitRepoConfigIcons) -> Seq<char> {
    if w.has_added() && w.has_deleted() {
        icons.added_deleted@
    } else if w.has_added() {
        icons.added@
    } else if w.has_deleted() {
        icons.deleted@
    } else {
        Seq::empty()
    }
}

/// The icons for the kinds of change in the working tree.
pub open spec fn worktree_status_text(w: WorktreeStatus, icons: GitRepoConfigIcons) -> Seq<char> {
    (if w.is_modified() {
        icons.modified@
    } else {
        Seq::empty()
    }) + added_deleted_text(w, icons)
}

/// The icons for the kinds of change in the working tree: the modified icon
/// where some file changed, then one icon for added files, deleted files, or
/// both. A conflict adds no icon.
pub fn build_worktree_status_text(worktree_status: &WorktreeStatus, icons: &GitRepoConfigIcons) -> (r:
    String)
    ensures
        r@ == worktree_status_text(*worktree_status, *icons),
{
    let mut text = String::new();
    if worktree_status.is_modified() {
        text.append(icons.modified.as_str());
    }
    let added = worktree_status.has_added();
    let deleted = worktree_status.has_deleted();
    if added && deleted {
        text.append(icons.added_deleted.as_str());
    } else if added {
        text.append(icons.added.as_str());
    } else if deleted {
        text.append(icons.deleted.as_str());
    }
    proof {
        assert(text@ =~= worktree_status_text(*worktree_status, *icons));
    }
    text
}

/// The decimal digit `d`.
pub open spec fn digit_char(d: nat) -> char {
    if d == 0 {
        '0'
    } else if d == 1 {
        '1'
    } else if d == 2 {
        '2'
    } else if d == 3 {
        '3'
    } else if d == 4 {
        '4'
    } else if d == 5 {
        '5'
    } else if d == 6 {
        '6'
    } else if d == 7 {
        '7'
    } else if d == 8 {
        '8'
    } else {
        '9'
    }
}

/// `n` written in decimal, without leading zeros.
pub open spec fn decimal(n: nat) -> Seq<char>
    decreases n,
{
    if n < 10 {
        seq![digit_char(n)]
    } else {
        decimal(n / 10).push(digit_char(n % 10))
    }
}

fn digit_text(d: u32) -> (r: &'static str)
    requires
        d < 10,
    ensures
        r@ == seq![digit_char(d as nat)],
{
    proof {
        reveal_strlit("0");
        reveal_strlit("1");
        reveal_strlit("2");
        reveal_strlit("3");
        reveal_strlit("4");
        reveal_strlit("5");
        reveal_strlit("6");
        reveal_strlit("7");
        reveal_strlit("8");
        reveal_strlit("9");
    }
    if d == 0 {
        "0"
    } else if d == 1 {
        "1"
    } else if d == 2 {
        "2"
    } else if d == 3 {
        "3"
    } else if d == 4 {
        "4"
    } else if d == 5 {
        "5"
    } else if d == 6 {
        "6"
    } else if d == 7 {
        "7"
    } else if d == 8 {
        "8"
    } else {
        "9"
    }
}

/// `n` written in decimal.
pub fn decimal_text(n: u32) -> (r: String)
    ensures
        r@ == decimal(n as nat),
    decreases n,
{
    if n < 10 {
        String::from_str(digit_text(n))
    } else {
        let mut text = decimal_text(n / 10);
        text.append(digit_text(n % 10));
        proof {
            assert(text@ =~= decimal(n as nat));
        }
        text
    }
}

/// How many commits the branch and its upstream each have that the other
/// lacks.
#[derive(Debug, Clone, Copy, PartialEq, Eq, Structural)]
pub struct RemoteStatus {
    pub commits_behind: u32,
    pub commits_ahead: u32,
}

/// The behind icon and count, then the ahead icon and count, each only where
/// its count is not zero.
pub open spec fn remote_status_text(r: RemoteStatus, icons: GitRepoConfigIcons) -> Seq<char> {
    (if r.commits_behind != 0 {
        icons.behind@ + decimal(r.commits_behind as nat)
    } else {
        Seq::empty()
    }) + (if r.commits_ahead != 0 {
        icons.ahead@ + decimal(r.commits_ahead as nat)
    } else {
        Seq::empty()
    })
}

/// The divergence from the upstream: the behind icon and the number of
/// commits behind, then the ahead icon and the number of commits ahead, each
/// left out where its number is zero.
pub fn build_remote_status_text(remote_status: &RemoteStatus, icons: &GitRepoConfigIcons) -> (r: String)
    ensures
        r@ == remote_status_text(*remote_status, *icons),
{
    let mut text = String::new();
    if remote_status.commits_behind != 0 {
        text.append(icons.behind.as_str());
        let count = decimal_text(remote_status.commits_behind);
        text.append(count.as_str());
    }
    if remote_status.commits_ahead != 0 {
        text.append(icons.ahead.as_str());
        let count = decimal_text(remote_status.commits_ahead);
        text.append(count.as_str());
    }
    proof {
        assert(text@ =~= remote_status_text(*remote_status, *icons));
    }
    text
}

/// Everything the segment shows of a repository.
#[derive(Debug, Clone)]
pub struct RepoStatus {
    pub head_status: HeadStatus,
    pub worktree_status: WorktreeStatus,
    /// Absent where HEAD is no branch or the branch has no upstream.
    pub remote_status: Option<RemoteStatus>,
}

/// `t` after a space, or nothing where `t` is empty.
pub open spec fn spaced(t: Seq<char>) -> Seq<char> {
    if t.len() == 0 {
        t
    } else {
        seq![' '] + t
    }
}

/// The divergence text, empty where there is no upstream.
pub open spec fn remote_part(r: Option<RemoteStatus>, icons: GitRepoConfigIcons) -> Seq<char> {
    match r {
        Some(r) => remote_status_text(r, icons),
        None => Seq::empty(),
    }
}

/// The segment's text: the head text, then the change icons and the
/// divergence, each after a space where it is not empty.
pub open spec fn repo_content(status: RepoStatus, config: GitRepoConfig) -> Seq<char> {
    head_status_text(
        status.head_status@,
        config.icons,
        config.display_master,
        config.commit_hash_len as nat,
    ) + spaced(worktree_status_text(status.worktree_status, config.icons)) + spaced(
        remote_part(status.remote_status, config.icons),
    )
}

/// The segment's style: the first of conflicted, unstaged, staged that
/// applies, else clean.
pub open spec fn repo_style(w: WorktreeStatus, config: GitRepoConfig) -> SegmentStyle {
    if w.is_conflicted() {
        config.conflicted.style
    } else if w.has_unstaged_changes() {
        config.unstaged.style
    } else if w.has_staged_changes() {
        config.staged.style
    } else {
        config.clean.style
    }
}

fn append_spaced(content: &mut String, text: &String)
    ensures
        final(content)@ == old(content)@ + spaced(text@),
{
    if text.as_str().unicode_len() != 0 {
        proof {
            reveal_strlit(" ");
        }
        content.append(" ");
        content.append(text.as_str());
        proof {
            assert(final(content)@ =~= old(content)@ + spaced(text@));
        }
    } else {
        proof {
            assert(old(content)@ + spaced(text@) =~= old(content)@);
        }
    }
}

/// Draws the status of a repository: its text and its style.
pub fn render_repo_status(status: &RepoStatus, config: &GitRepoConfig) -> (r: Segment)
    ensures
        r.content@ == repo_content(*status, *config),
        r.style == repo_style(status.worktree_status, *config),
{
    let icons = &config.icons;
    let mut content = build_head_status_text(
        &status.head_status,
        icons,
        config.display_master,
        config.commit_hash_len,
    );
    let worktree_text = build_worktree_status_text(&status.worktree_status, icons);
    append_spaced(&mut content, &worktree_text);
    let remote_text = match &status.remote_status {
        Some(remote) => build_remote_status_text(remote, icons),
        None => String::new(),
    };
    append_spaced(&mut content, &remote_text);
    let style = if status.worktree_status.is_conflicted() {
        config.conflicted.style
    } else if status.worktree_status.has_unstaged_changes() {
        config.unstaged.style
    } else if status.worktree_status.has_staged_changes() {
        config.staged.style
    } else {
        config.clean.style
    };
    Segment { style, content }
}

/// The repository segment, or `None` where there is no repository.
pub fn build_segment(repo: Option<&git2::Repository>, config: &GitRepoConfig) -> (r: Option<Segment>)
    ensures
        r is None <==> repo is None,
        r matches Some(seg) ==> exists|s: RepoStatus|
            #[trigger] repo_content(s, *config) == seg.content@ && seg.style == repo_style(
                s.worktree_status,
                *config,
            ),
{
    let status = match status_git2::git2_repo_status(repo, config.display_tag) {
        Some(status) => status,
        None => return None,
    };
    let segment = render_repo_status(&status, config);
    assert(repo_content(status, *config) == segment.content@);
    Some(segment)
}

/// A working tree without changes is drawn in the clean style and adds no
/// icon: the text is the head text and the divergence alone.
pub proof fn lemma_clean_worktree(status: RepoStatus, config: GitRepoConfig)
    requires
        status.worktree_status == clean_worktree(),
    ensures
        repo_style(status.worktree_status, config) == config.clean.style,
        worktree_status_text(status.worktree_status, config.icons) == Seq::<char>::empty(),
        repo_content(status, config) == head_status_text(
            status.head_status@,
            config.icons,
            config.display_master,
            config.commit_hash_len as nat,
        ) + spaced(remote_part(status.remote_status, config.icons)),
{
    let head = head_status_text(
        status.head_status@,
        config.icons,
        config.display_master,
        config.commit_hash_len as nat,
    );
    let remote = spaced(remote_part(status.remote_status, config.icons));
    assert(worktree_status_text(status.worktree_status, config.icons) =~= Seq::<char>::empty());
    assert(head + spaced(Seq::<char>::empty()) =~= head);
}

/// A conflict decides the style, whatever else the working tree holds.
pub proof fn lemma_conflict_style(w: WorktreeStatus, config: GitRepoConfig)
    requires
        w.num_conflicted > 0,
    ensures
        repo_style(w, config) == config.conflicted.style,
{
}

/// Files both added and deleted show the one added-deleted icon, never the
/// added icon and the deleted icon together.
pub proof fn lemma_added_deleted_icon(w: WorktreeStatus, icons: GitRepoConfigIcons)
    requires
        w.has_added(),
        w.has_deleted(),
    ensures
        added_deleted_text(w, icons) == icons.added_deleted@,
        !w.is_modified() ==> worktree_status_text(w, icons) == icons.added_deleted@,
{
    if !w.is_modified() {
        assert(Seq::<char>::empty() + icons.added_deleted@ =~= icons.added_deleted@);
    }
}

/// A commit id is cut to its first `commit_hash_len` characters, and shown
/// whole where it is no longer than that.
pub proof fn lemma_commit_hash_cut(
    hash: Seq<char>,
    icons: GitRepoConfigIcons,
    display_master: bool,
    commit_hash_len: nat,
)
    ensures
        commit_hash_len <= hash.len() ==> head_status_text(
            HeadView::Commit(hash),
            icons,
            display_master,
            commit_hash_len,
        ) == icons.commit@ + seq![' '] + hash.subrange(0, commit_hash_len as int),
        hash.len() <= commit_hash_len ==> head_status_text(
            HeadView::Commit(hash),
            icons,
            display_master,
            commit_hash_len,
        ) == icons.commit@ + seq![' '] + hash,
{
    if commit_hash_len == hash.len() {
        assert(hash.subrange(0, commit_hash_len as int) =~= hash);
    }
}

/// Where `display_master` is off, a branch named `master` or `main` is shown
/// as the branch icon alone.
pub proof fn lemma_main_branch_hidden(
    name: Seq<char>,
    icons: GitRepoConfigIcons,
    commit_hash_len: nat,
)
    requires
        name == "master"@ || name == "main"@,
    ensures
        head_status_text(HeadView::Branch(name), icons, false, commit_hash_len) == icons.branch@,
{
}

/// An upstream at the same commit adds nothing to the text: the divergence
/// shows only where the branch is ahead or behind.
pub proof fn lemma_even_with_upstream(status: RepoStatus, config: GitRepoConfig)
    requires
        status.remote_status == Some(RemoteStatus { commits_behind: 0, commits_ahead: 0 }),
    ensures
        remote_part(status.remote_status, config.icons) == Seq::<char>::empty(),
        repo_content(status, config) == head_status_text(
            status.head_status@,
            config.icons,
            config.display_master,
            config.commit_hash_len as nat,
        ) + spaced(worktree_status_text(status.worktree_status, config.icons)),
{
    let head = head_status_text(
        status.head_status@,
        config.icons,
        config.display_master,
        config.commit_hash_len as nat,
    );
    let wt = spaced(worktree_status_text(status.worktree_status, config.icons));
    assert(remote_part(status.remote_status, config.icons) =~= Seq::<char>::empty());
    assert(head + wt + spaced(Seq::<char>::empty()) =~= head + wt);
}

/// Behind and ahead together: the behind icon and count, then the ahead icon
/// and count, with nothing between them.
pub proof fn lemma_behind_and_ahead(r: RemoteStatus, icons: GitRepoConfigIcons)
    requires
        r.commits_behind != 0,
        r.commits_ahead != 0,
    ensures
        remote_status_text(r, icons) == icons.behind@ + decimal(r.commits_behind as nat)
            + icons.ahead@ + decimal(r.commits_ahead as nat),
{
    assert(remote_status_text(r, icons) =~= icons.behind@ + decimal(r.commits_behind as nat)
        + icons.ahead@ + decimal(r.commits_ahead as nat));
}

} // verus!
