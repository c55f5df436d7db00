//! Reading a repository's status through libgit2. Each call into the `git2`
//! crate stands in a small trusted function below; what the segment makes of
//! the answers is decided by the verified functions that take them as plain
//! values.
use vstd::prelude::*;

use git2::Config as GitConfig;
use git2::Status as GitStatus;

use super::{HeadStatus, HeadView, RemoteStatus, RepoStatus, WorktreeStatus};

verus! {

#[verifier::external_type_specification]
#[verifier::external_body]
pub struct ExRepository(git2::Repository);

#[verifier::external_type_specification]
#[verifier::external_body]
pub struct ExReference<'repo>(git2::Reference<'repo>);

#[verifier::external_type_specification]
#[verifier::external_body]
pub struct ExBranch<'repo>(git2::Branch<'repo>);

#[verifier::external_type_specification]
#[verifier::external_body]
pub struct ExOid(git2::Oid);

#[verifier::external_type_specification]
#[verifier::external_body]
pub struct ExGitConfig(GitConfig);

#[verifier::external_type_specification]
#[verifier::external_body]
pub struct ExStatuses<'repo>(git2::Statuses<'repo>);

#[verifier::external_type_specification]
#[verifier::external_body]
pub struct ExStatusEntry<'statuses>(git2::StatusEntry<'statuses>);

/// Relies on `Repository::head`: the reference HEAD resolves to, or `None`
/// where it resolves to nothing (a repository without commits).
#[verifier::external_body]
fn repo_head<'r>(repo: &'r git2::Repository) -> Option<git2::Reference<'r>> {
    repo.head().ok()
}

/// Relies on `Reference::is_branch`: whether the reference is a local branch.
#[verifier::external_body]
fn ref_is_branch(r: &git2::Reference) -> bool {
    r.is_branch()
}

/// Relies on `Reference::is_tag`: whether the reference is a tag.
#[verifier::external_body]
fn ref_is_tag(r: &git2::Reference) -> bool {
    r.is_tag()
}

/// Relies on `Reference::shorthand`: the reference's short name, `None` where
/// it is not valid UTF-8.
#[verifier::external_body]
fn ref_shorthand(r: &git2::Reference) -> Option<String> {
    r.shorthand().map(String::from)
}

/// Relies on `Reference::target`: the id a direct reference points at.
#[verifier::external_body]
fn ref_target(r: &git2::Reference) -> Option<git2::Oid> {
    r.target()
}

/// Relies on `Oid`'s `Display`: the id in hexadecimal.
#[verifier::external_body]
fn oid_text(oid: &git2::Oid) -> String {
    oid.to_string()
}

/// Relies on `Repository::references`: every reference of the repository, in
/// libgit2's order, `None` for one that could not be read.
#[verifier::external_body]
fn repo_references<'r>(repo: &'r git2::Repository) -> Option<Vec<Option<git2::Reference<'r>>>> {
    repo.references().ok().map(|refs| refs.map(|r| r.ok()).collect())
}

/// Relies on `Repository::config`: the repository's configuration.
#[verifier::external_body]
pub(crate) fn repo_config(repo: &git2::Repository) -> Option<GitConfig> {
    repo.config().ok()
}

/// Relies on `Config::get_string`: the value of a configuration key.
#[verifier::external_body]
pub(crate) fn config_string(config: &GitConfig, name: &str) -> Option<String> {
    config.get_string(name).ok()
}

/// Relies on `Repository::statuses` with no options, which libgit2 fills with
/// its defaults: untracked files are listed, each file of an untracked
/// directory apart, and ignored files carry only their ignored flag.
#[verifier::external_body]
fn repo_statuses<'r>(repo: &'r git2::Repository) -> Option<git2::Statuses<'r>> {
    repo.statuses(None).ok()
}

/// Relies on `Statuses::len`: the number of entries.
#[verifier::external_body]
fn statuses_len(statuses: &git2::Statuses) -> usize {
    statuses.len()
}

/// Relies on `Statuses::get`: the entry at an index.
#[verifier::external_body]
fn statuses_get<'a>(statuses: &'a git2::Statuses, index: usize) -> Option<git2::StatusEntry<'a>> {
    statuses.get(index)
}

/// Relies on `StatusEntry::status`: the entry's flags, one field for each.
#[verifier::external_body]
fn entry_flags(entry: &git2::StatusEntry) -> StatusFlags {
    let st = entry.status();
    StatusFlags {
        wt_new: st.contains(GitStatus::WT_NEW),
        wt_modified: st.contains(GitStatus::WT_MODIFIED),
        wt_deleted: st.contains(GitStatus::WT_DELETED),
        wt_renamed: st.contains(GitStatus::WT_RENAMED),
        wt_typechange: st.contains(GitStatus::WT_TYPECHANGE),
        index_new: st.contains(GitStatus::INDEX_NEW),
        index_modified: st.contains(GitStatus::INDEX_MODIFIED),
        index_deleted: st.contains(GitStatus::INDEX_DELETED),
        index_renamed: st.contains(GitStatus::INDEX_RENAMED),
        index_typechange: st.contains(GitStatus::INDEX_TYPECHANGE),
        conflicted: st.contains(GitStatus::CONFLICTED),
    }
}

/// Relies on `Repository::find_branch` with `BranchType::Local`: the local
/// branch of that name.
#[verifier::external_body]
fn find_local_branch<'r>(repo: &'r git2::Repository, name: &str) -> Option<git2::Branch<'r>> {
    repo.find_branch(name, git2::BranchType::Local).ok()
}

/// Relies on `Branch::upstream`: the branch's configured upstream.
#[verifier::external_body]
fn branch_upstream<'r>(branch: &git2::Branch<'r>) -> Option<git2::Branch<'r>> {
    branch.upstream().ok()
}

/// Relies on `Branch::get`: the reference behind the branch.
#[verifier::external_body]
fn branch_reference<'a, 'r>(branch: &'a git2::Branch<'r>) -> &'a git2::Reference<'r> {
    branch.get()
}

/// Relies on `Repository::graph_ahead_behind`: the commits the first id has
/// that the second lacks, and those the second has that the first lacks.
#[verifier::external_body]
fn ahead_behind(repo: &git2::Repository, local: git2::Oid, upstream: git2::Oid) -> Option<
    (usize, usize),
> {
    repo.graph_ahead_behind(local, upstream).ok()
}

/// The flags git reports for one file: how the working tree differs from the
/// index (`wt_`), how the index differs from HEAD (`index_`), and whether the
/// file is in a merge conflict.
#[derive(Debug, Clone, Copy, PartialEq, Eq, Structural)]
pub struct StatusFlags {
    pub wt_new: bool,
    pub wt_modified: bool,
    pub wt_deleted: bool,
    pub wt_renamed: bool,
    pub wt_typechange: bool,
    pub index_new: bool,
    pub index_modified: bool,
    pub index_deleted: bool,
    pub index_renamed: bool,
    pub index_typechange: bool,
    pub conflicted: bool,
}

/// The kinds of change that a `WorktreeStatus` counts.
pub enum ChangeKind {
    UnstagedNew,
    UnstagedDelete,
    UnstagedChanges,
    StagedNew,
    StagedDelete,
    StagedChanges,
    Conflicted,
}

/// Whether a file with flags `f` counts as a change of kind `k`. A rename
/// counts as both new and deleted.
pub open spec fn counts_as(f: StatusFlags, k: ChangeKind) -> bool {
    match k {
        ChangeKind::UnstagedNew => f.wt_new || f.wt_renamed,
        ChangeKind::UnstagedDelete => f.wt_deleted || f.wt_renamed,
        ChangeKind::UnstagedChanges => f.wt_modified || f.wt_typechange,
        ChangeKind::StagedNew => f.index_new || f.index_renamed,
        ChangeKind::StagedDelete => f.index_deleted || f.index_renamed,
        ChangeKind::StagedChanges => f.index_modified || f.index_typechange,
        ChangeKind::Conflicted => f.conflicted,
    }
}

/// How many of `entries` count as a change of kind `k`.
pub open spec fn num_of_kind(entries: Seq<StatusFlags>, k: ChangeKind) -> nat
    decreases entries.len(),
{
    if entries.len() == 0 {
        0
    } else {
        num_of_kind(entries.drop_last(), k) + if counts_as(entries.last(), k) {
            1nat
        } else {
            0nat
        }
    }
}

/// The counts of a working tree whose files have the flags `entries`.
pub open spec fn worktree_status_of(entries: Seq<StatusFlags>) -> WorktreeStatus {
    WorktreeStatus {
        num_unstaged_new: num_of_kind(entries, ChangeKind::UnstagedNew) as u32,
        num_unstaged_delete: num_of_kind(entries, ChangeKind::UnstagedDelete) as u32,
        num_unstaged_changes: num_of_kind(entries, ChangeKind::UnstagedChanges) as u32,
        num_staged_new: num_of_kind(entries, ChangeKind::StagedNew) as u32,
        num_staged_delete: num_of_kind(entries, ChangeKind::StagedDelete) as u32,
        num_staged_changes: num_of_kind(entries, ChangeKind::StagedChanges) as u32,
        num_conflicted: num_of_kind(entries, ChangeKind::Conflicted) as u32,
    }
}

proof fn lemma_num_of_kind_bound(entries: Seq<StatusFlags>, k: ChangeKind)
    ensures
        num_of_kind(entries, k) <= entries.len(),
    decreases entries.len(),
{
    if entries.len() > 0 {
        lemma_num_of_kind_bound(entries.drop_last(), k);
    }
}

/// Counts, for each kind of change, the files whose flags make them one.
pub fn worktree_status_from(entries: &Vec<StatusFlags>) -> (r: WorktreeStatus)
    requires
        entries@.len() <= u32::MAX,
    ensures
        r == worktree_status_of(entries@),
        r.num_unstaged_new == num_of_kind(entries@, ChangeKind::UnstagedNew),
        r.num_unstaged_delete == num_of_kind(entries@, ChangeKind::UnstagedDelete),
        r.num_unstaged_changes == num_of_kind(entries@, ChangeKind::UnstagedChanges),
        r.num_staged_new == num_of_kind(entries@, ChangeKind::StagedNew),
        r.num_staged_delete == num_of_kind(entries@, ChangeKind::StagedDelete),
        r.num_staged_changes == num_of_kind(entries@, ChangeKind::StagedChanges),
        r.num_conflicted == num_of_kind(entries@, ChangeKind::Conflicted),
{
    let mut status = WorktreeStatus {
        num_unstaged_new: 0,
        num_unstaged_delete: 0,
        num_unstaged_changes: 0,
        num_staged_new: 0,
        num_staged_delete: 0,
        num_staged_changes: 0,
        num_conflicted: 0,
    };
    let mut i: usize = 0;
    while i < entries.len()
        invariant
            i <= entries@.len() <= u32::MAX,
            status.num_unstaged_new == num_of_kind(entries@.take(i as int), ChangeKind::UnstagedNew),
            status.num_unstaged_delete == num_of_kind(
                entries@.take(i as int),
                ChangeKind::UnstagedDelete,
            ),
            status.num_unstaged_changes == num_of_kind(
                entries@.take(i as int),
                ChangeKind::UnstagedChanges,
            ),
            status.num_staged_new == num_of_kind(entries@.take(i as int), ChangeKind::StagedNew),
            status.num_staged_delete == num_of_kind(
                entries@.take(i as int),
                ChangeKind::StagedDelete,
            ),
            status.num_staged_changes == num_of_kind(
                entries@.take(i as int),
                ChangeKind::StagedChanges,
            ),
            status.num_conflicted == num_of_kind(entries@.take(i as int), ChangeKind::Conflicted),
        decreases entries@.len() - i,
    {
        let f = entries[i];
        proof {
            let prefix = entries@.take(i as int);
            let next = entries@.take(i + 1);
            assert(next.drop_last() =~= prefix);
            assert(next.last() == f);
            lemma_num_of_kind_bound(prefix, ChangeKind::UnstagedNew);
            lemma_num_of_kind_bound(prefix, ChangeKind::UnstagedDelete);
            lemma_num_of_kind_bound(prefix, ChangeKind::UnstagedChanges);
            lemma_num_of_kind_bound(prefix, ChangeKind::StagedNew);
            lemma_num_of_kind_bound(prefix, ChangeKind::StagedDelete);
            lemma_num_of_kind_bound(prefix, ChangeKind::StagedChanges);
            lemma_num_of_kind_bound(prefix, ChangeKind::Conflicted);
        }
        if f.wt_new || f.wt_renamed {
            status.num_unstaged_new = status.num_unstaged_new + 1;
        }
        if f.wt_deleted || f.wt_renamed {
            status.num_unstaged_delete = status.num_unstaged_delete + 1;
        }
        if f.wt_modified || f.wt_typechange {
            status.num_unstaged_changes = status.num_unstaged_changes + 1;
        }
        if f.index_new || f.index_renamed {
            status.num_staged_new = status.num_staged_new + 1;
        }
        if f.index_deleted || f.index_renamed {
            status.num_staged_delete = status.num_staged_delete + 1;
        }
        if f.index_modified || f.index_typechange {
            status.num_staged_changes = status.num_staged_changes + 1;
        }
        if f.conflicted {
            status.num_conflicted = status.num_conflicted + 1;
        }
        i = i + 1;
    }
    assert(entries@.take(entries@.len() as int) =~= entries@);
    status
}

/// What the repository says of HEAD.
pub enum HeadFacts {
    /// HEAD resolves to nothing: the repository has no commit yet. Holds the
    /// configured `init.defaultBranch`, if any.
    Unborn(Option<String>),
    /// HEAD is a local branch; its short name where it is valid UTF-8.
    Branch(Option<String>),
    /// HEAD is detached; the id it points at, in hex, where it has one.
    Detached(Option<String>),
}

/// What the repository says of one of its references.
pub struct RefFacts {
    pub is_tag: bool,
    /// The id the reference points at, in hex.
    pub target: Option<String>,
    pub shorthand: Option<String>,
}

/// Whether `r` is a tag that points at the commit `id`.
pub open spec fn names_tag_at(r: RefFacts, id: Seq<char>) -> bool {
    r.is_tag && r.target is Some && r.target.unwrap()@ == id
}

/// Whether `refs[i]` is the first tag of `refs` that points at `id`.
pub open spec fn is_first_tag_at(refs: Seq<RefFacts>, id: Seq<char>, i: int) -> bool {
    &&& 0 <= i < refs.len()
    &&& names_tag_at(refs[i], id)
    &&& forall|j: int| 0 <= j < i ==> !names_tag_at(#[trigger] refs[j], id)
}

/// Whether some tag of `refs` points at `id`.
pub open spec fn has_tag_at(refs: Seq<RefFacts>, id: Seq<char>) -> bool {
    exists|i: int| 0 <= i < refs.len() && names_tag_at(#[trigger] refs[i], id)
}

/// The index of the first tag of `refs` that points at `id`.
pub open spec fn first_tag_at(refs: Seq<RefFacts>, id: Seq<char>) -> int {
    choose|i: int| is_first_tag_at(refs, id, i)
}

proof fn lemma_first_tag_at(refs: Seq<RefFacts>, id: Seq<char>, i: int)
    requires
        is_first_tag_at(refs, id, i),
    ensures
        has_tag_at(refs, id),
        first_tag_at(refs, id) == i,
{
    assert(names_tag_at(refs[i], id));
    let k = first_tag_at(refs, id);
    assert(is_first_tag_at(refs, id, k));
    if k < i {
        assert(!names_tag_at(refs[k], id));
    } else if i < k {
        assert(!names_tag_at(refs[i], id));
    }
}

/// A name, or `?` where there is none.
pub open spec fn name_or_unknown(name: Option<String>) -> Seq<char> {
    match name {
        Some(n) => n@,
        None => "?"@,
    }
}

/// What HEAD is shown as. An unborn HEAD is the default branch (`master`
/// where none is configured); a detached one is the first tag at its commit
/// where tags are displayed and one points there, else the commit.
pub open spec fn head_view_of(head: HeadFacts, display_tag: bool, refs: Seq<RefFacts>) -> HeadView {
    match head {
        HeadFacts::Unborn(default_branch) => HeadView::Branch(
            match default_branch {
                Some(b) => b@,
                None => "master"@,
            },
        ),
        HeadFacts::Branch(shorthand) => HeadView::Branch(name_or_unknown(shorthand)),
        HeadFacts::Detached(None) => HeadView::Commit("?"@),
        HeadFacts::Detached(Some(id)) => if display_tag && has_tag_at(refs, id@) {
            HeadView::Tag(name_or_unknown(refs[first_tag_at(refs, id@)].shorthand))
        } else {
            HeadView::Commit(id@)
        },
    }
}

fn clone_name(name: &Option<String>) -> (r: String)
    ensures
        r@ == name_or_unknown(*name),
{
    match name {
        Some(n) => n.clone(),
        None => String::from_str("?"),
    }
}

/// The first tag of `refs` that points at the commit `id`.
pub fn find_tag(refs: &Vec<RefFacts>, id: &String) -> (r: Option<usize>)
    ensures
        match r {
            Some(i) => is_first_tag_at(refs@, id@, i as int),
            None => !has_tag_at(refs@, id@),
        },
{
    let mut i: usize = 0;
    while i < refs.len()
        invariant
            i <= refs@.len(),
            forall|j: int| 0 <= j < i ==> !names_tag_at(#[trigger] refs@[j], id@),
        decreases refs@.len() - i,
    {
        let r = &refs[i];
        let found = r.is_tag && match &r.target {
            Some(t) => *t == *id,
            None => false,
        };
        if found {
            return Some(i);
        }
        i = i + 1;
    }
    None
}

/// Decides what HEAD is shown as, from what the repository says of it and of
/// its references.
pub fn resolve_head_status(head: &HeadFacts, display_tag: bool, refs: &Vec<RefFacts>) -> (r:
    HeadStatus)
    ensures
        r@ == head_view_of(*head, display_tag, refs@),
{
    match head {
        HeadFacts::Unborn(default_branch) => match default_branch {
            Some(b) => HeadStatus::Branch(b.clone()),
            None => HeadStatus::Branch(String::from_str("master")),
        },
        HeadFacts::Branch(shorthand) => HeadStatus::Branch(clone_name(shorthand)),
        HeadFacts::Detached(None) => HeadStatus::Commit(String::from_str("?")),
        HeadFacts::Detached(Some(id)) => {
            if display_tag {
                match find_tag(refs, id) {
                    Some(i) => {
                        proof {
                            lemma_first_tag_at(refs@, id@, i as int);
                        }
                        return HeadStatus::Tag(clone_name(&refs[i].shorthand));
                    },
                    None => {},
                }
            }
            HeadStatus::Commit(id.clone())
        },
    }
}

/// What the repository says of each of its references; for one that is no
/// tag, only that.
fn reference_facts(repo: &git2::Repository) -> Vec<RefFacts> {
    let mut facts: Vec<RefFacts> = Vec::new();
    let refs = match repo_references(repo) {
        Some(refs) => refs,
        None => return facts,
    };
    let mut i: usize = 0;
    while i < refs.len()
        decreases refs@.len() - i,
    {
        if let Some(r) = &refs[i] {
            if ref_is_tag(r) {
                let target = match ref_target(r) {
                    Some(oid) => Some(oid_text(&oid)),
                    None => None,
                };
                facts.push(RefFacts { is_tag: true, target, shorthand: ref_shorthand(r) });
            } else {
                facts.push(RefFacts { is_tag: false, target: None, shorthand: None });
            }
        }
        i = i + 1;
    }
    facts
}

/// What HEAD is shown as. Tags are read only where HEAD is detached at a
/// commit and tags are displayed.
pub fn head_status(repo: &git2::Repository, head: &Option<git2::Reference>, display_tag: bool) -> (r:
    HeadStatus)
    ensures
        head is None ==> r@ is Branch,
        !display_tag ==> !(r@ is Tag),
{
    let facts = match head {
        None => {
            let default_branch = match repo_config(repo) {
                Some(config) => config_string(&config, "init.defaultBranch"),
                None => None,
            };
            HeadFacts::Unborn(default_branch)
        },
        Some(h) => {
            if ref_is_branch(h) {
                HeadFacts::Branch(ref_shorthand(h))
            } else {
                match ref_target(h) {
                    Some(oid) => HeadFacts::Detached(Some(oid_text(&oid))),
                    None => HeadFacts::Detached(None),
                }
            }
        },
    };
    let refs = match &facts {
        HeadFacts::Detached(Some(_)) => {
            if display_tag {
                reference_facts(repo)
            } else {
                Vec::new()
            }
        },
        _ => Vec::new(),
    };
    resolve_head_status(&facts, display_tag, &refs)
}

/// The counts of a working tree from git's listing of its files: those of
/// the listed entries, or those of a clean tree where git could not list
/// them or listed more entries than a `u32` counts.
pub open spec fn worktree_status_of_listing_spec(listing: Option<Seq<StatusFlags>>) -> WorktreeStatus {
    match listing {
        Some(e) => if e.len() <= u32::MAX {
            worktree_status_of(e)
        } else {
            worktree_status_of(Seq::empty())
        },
        None => worktree_status_of(Seq::empty()),
    }
}

/// The counts of a working tree from git's listing of its files, `None`
/// where git could not list them; a failed listing counts as a clean tree.
pub fn worktree_status_of_listing(listing: Option<Vec<StatusFlags>>) -> (r: WorktreeStatus)
    ensures
        r == worktree_status_of_listing_spec(
            match listing {
                Some(e) => Some(e@),
                None => None,
            },
        ),
{
    let empty: Vec<StatusFlags> = Vec::new();
    match listing {
        Some(entries) => {
            if entries.len() <= u32::MAX as usize {
                worktree_status_from(&entries)
            } else {
                worktree_status_from(&empty)
            }
        },
        None => worktree_status_from(&empty),
    }
}

/// The flags of each file that git lists as differing, or `None` where it
/// cannot list them.
fn status_listing(repo: &git2::Repository) -> Option<Vec<StatusFlags>> {
    let statuses = match repo_statuses(repo) {
        Some(statuses) => statuses,
        None => return None,
    };
    let n = statuses_len(&statuses);
    let mut entries: Vec<StatusFlags> = Vec::new();
    let mut i: usize = 0;
    while i < n
        invariant
            i <= n,
            entries@.len() <= i,
        decreases n - i,
    {
        match statuses_get(&statuses, i) {
            Some(entry) => entries.push(entry_flags(&entry)),
            None => break ,
        }
        i = i + 1;
    }
    Some(entries)
}

/// The counts of the working tree's changes, as git lists them; those of a
/// clean tree where git cannot list them.
pub fn worktree_status(repo: &git2::Repository) -> (r: WorktreeStatus)
    ensures
        exists|listing: Option<Seq<StatusFlags>>|
            #[trigger] worktree_status_of_listing_spec(listing) == r,
{
    let listing = status_listing(repo);
    let ghost view = match &listing {
        Some(e) => Some(e@),
        None => None,
    };
    let r = worktree_status_of_listing(listing);
    assert(worktree_status_of_listing_spec(view) == r);
    r
}

/// A count of commits as a `u32`, the largest one where it does not fit.
pub open spec fn clamp_count(n: nat) -> u32 {
    if n <= u32::MAX {
        n as u32
    } else {
        u32::MAX
    }
}

/// The divergence from the counts that libgit2 gives.
pub fn remote_status_from(ahead: usize, behind: usize) -> (r: RemoteStatus)
    ensures
        r.commits_ahead == clamp_count(ahead as nat),
        r.commits_behind == clamp_count(behind as nat),
{
    let commits_ahead = if ahead <= u32::MAX as usize {
        ahead as u32
    } else {
        u32::MAX
    };
    let commits_behind = if behind <= u32::MAX as usize {
        behind as u32
    } else {
        u32::MAX
    };
    RemoteStatus { commits_behind, commits_ahead }
}

/// How far the lookup of HEAD's upstream got: the step at which it stopped,
/// or the counts it ended with.
pub enum UpstreamLookup {
    /// HEAD resolves to nothing.
    NoHead,
    /// HEAD is not a local branch.
    NotBranch,
    /// The branch's name is not valid UTF-8.
    NoBranchName,
    /// No local branch has that name.
    NoLocalBranch,
    /// The branch has no configured upstream.
    NoUpstream,
    /// HEAD points at no id.
    NoHeadTarget,
    /// The upstream points at no id.
    NoUpstreamTarget,
    /// libgit2 could not count the commits between the two ids.
    NoCounts,
    /// The commits HEAD has that the upstream lacks, and those the upstream
    /// has that HEAD lacks.
    Counted { ahead: usize, behind: usize },
}

/// The divergence a lookup ends with: present only where the commits were
/// counted.
pub open spec fn remote_status_of_lookup(lookup: UpstreamLookup) -> Option<RemoteStatus> {
    match lookup {
        UpstreamLookup::Counted { ahead, behind } => Some(
            RemoteStatus {
                commits_behind: clamp_count(behind as nat),
                commits_ahead: clamp_count(ahead as nat),
            },
        ),
        _ => None,
    }
}

/// The divergence from the upstream that a lookup ends with; `None` wherever
/// the lookup stopped early.
pub fn remote_status_from_lookup(lookup: &UpstreamLookup) -> (r: Option<RemoteStatus>)
    ensures
        r == remote_status_of_lookup(*lookup),
{
    match lookup {
        UpstreamLookup::Counted { ahead, behind } => Some(remote_status_from(*ahead, *behind)),
        _ => None,
    }
}

/// Looks up HEAD's branch, its upstream, their ids, and the commits between
/// them, stopping at the first step that fails.
fn upstream_lookup(repo: &git2::Repository, head: &Option<git2::Reference>) -> (r: UpstreamLookup)
    ensures
        head is None <==> r is NoHead,
{
    let head = match head {
        Some(h) => h,
        None => return UpstreamLookup::NoHead,
    };
    if !ref_is_branch(head) {
        return UpstreamLookup::NotBranch;
    }
    let branch_name = match ref_shorthand(head) {
        Some(name) => name,
        None => return UpstreamLookup::NoBranchName,
    };
    let local_branch = match find_local_branch(repo, branch_name.as_str()) {
        Some(b) => b,
        None => return UpstreamLookup::NoLocalBranch,
    };
    let upstream_branch = match branch_upstream(&local_branch) {
        Some(b) => b,
        None => return UpstreamLookup::NoUpstream,
    };
    let local_oid = match ref_target(head) {
        Some(oid) => oid,
        None => return UpstreamLookup::NoHeadTarget,
    };
    let upstream_oid = match ref_target(branch_reference(&upstream_branch)) {
        Some(oid) => oid,
        None => return UpstreamLookup::NoUpstreamTarget,
    };
    match ahead_behind(repo, local_oid, upstream_oid) {
        Some((ahead, behind)) => UpstreamLookup::Counted { ahead, behind },
        None => UpstreamLookup::NoCounts,
    }
}

/// How far HEAD's branch is from its upstream; `None` where HEAD is no
/// branch, the branch has no local record or no upstream, or an id or the
/// counts cannot be had.
pub fn remote_status(repo: &git2::Repository, head: &Option<git2::Reference>) -> (r: Option<
    RemoteStatus,
>)
    ensures
        head is None ==> r is None,
        exists|lookup: UpstreamLookup|
            (head is None ==> lookup is NoHead) && #[trigger] remote_status_of_lookup(lookup) == r,
{
    let lookup = upstream_lookup(repo, head);
    let r = remote_status_from_lookup(&lookup);
    assert(remote_status_of_lookup(lookup) == r);
    r
}

/// Everything the segment shows of the repository, or `None` where there is
/// no repository.
pub fn git2_repo_status(repo: Option<&git2::Repository>, display_tag: bool) -> (r: Option<
    RepoStatus,
>)
    ensures
        r is None <==> repo is None,
        r matches Some(s) ==> (!display_tag ==> !(s.head_status@ is Tag)),
{
    let repo = match repo {
        Some(repo) => repo,
        None => return None,
    };
    let head = repo_head(repo);
    let head_status = head_status(repo, &head, display_tag);
    let worktree_status = worktree_status(repo);
    let remote_status = remote_status(repo, &head);
    Some(RepoStatus { head_status, worktree_status, remote_status })
}

} // verus!
