//! The directory segment: the working directory, with known directories
//! replaced by short aliases and the names above the last one cut short.
use vstd::prelude::*;

use crate::configs::directory::{DirectoryConfig, DirectoryConfigAlias};
use crate::segments::{prefix_of, Segment};

verus! {

/// The state of reading `p` into names: the names read so far, and the one
/// being read.
pub open spec fn split_state(p: Seq<char>) -> (Seq<Seq<char>>, Seq<char>)
    decreases p.len(),
{
    if p.len() == 0 {
        (Seq::empty(), Seq::empty())
    } else {
        let prev = split_state(p.drop_last());
        if p.last() == '/' {
            if prev.1.len() > 0 {
                (prev.0.push(prev.1), Seq::empty())
            } else {
                prev
            }
        } else {
            (prev.0, prev.1.push(p.last()))
        }
    }
}

/// The names of a path: what stands between its slashes, empty ones left
/// out.
pub open spec fn components(p: Seq<char>) -> Seq<Seq<char>> {
    let st = split_state(p);
    if st.1.len() > 0 {
        st.0.push(st.1)
    } else {
        st.0
    }
}

/// Whether the path `p` names the directory with those names, from the root
/// where `absolute` holds.
pub open spec fn same_dir(p: Seq<char>, absolute: bool, names: Seq<Seq<char>>) -> bool {
    starts_with(p, '/') == absolute && components(p) == names
}

/// The texts of a sequence of strings.
pub open spec fn texts(v: Seq<String>) -> Seq<Seq<char>> {
    v.map_values(|s: String| s@)
}

/// A directory by its names, from the root where `absolute` holds.
pub struct Dir {
    pub absolute: bool,
    pub names: Vec<String>,
}

/// Reads a path into its names.
pub fn path_components(p: &str) -> (r: Vec<String>)
    ensures
        texts(r@) == components(p@),
{
    let n = p.unicode_len();
    let mut done: Vec<String> = Vec::new();
    let mut cur = String::new();
    let mut i: usize = 0;
    while i < n
        invariant
            i <= n,
            n == p@.len(),
            texts(done@) == split_state(p@.take(i as int)).0,
            cur@ == split_state(p@.take(i as int)).1,
        decreases n - i,
    {
        let c = p.get_char(i);
        proof {
            assert(p@.take(i + 1).drop_last() =~= p@.take(i as int));
            assert(p@.take(i + 1).last() == c);
        }
        if c == '/' {
            if cur.as_str().unicode_len() > 0 {
                let ghost before = done@;
                done.push(cur);
                cur = String::new();
                proof {
                    assert(texts(done@) =~= texts(before).push(split_state(p@.take(i as int)).1));
                }
            }
        } else {
            let ch = p.substring_char(i, i + 1);
            proof {
                assert(ch@ =~= seq![c]);
            }
            cur.append(ch);
        }
        i = i + 1;
    }
    assert(p@.take(n as int) =~= p@);
    if cur.as_str().unicode_len() > 0 {
        let ghost before = done@;
        done.push(cur);
        proof {
            assert(texts(done@) =~= texts(before).push(split_state(p@).1));
        }
    }
    done
}

/// Reads a path into a directory.
pub fn to_dir(p: &str) -> (r: Dir)
    ensures
        r.absolute == starts_with(p@, '/'),
        texts(r.names@) == components(p@),
{
    let absolute = p.unicode_len() > 0 && p.get_char(0) == '/';
    Dir { absolute, names: path_components(p) }
}

/// Whether `dir` is the directory of the first `k` names of `names`, with
/// the same root.
fn is_ancestor(dir: &Dir, absolute: bool, names: &Vec<String>, k: usize) -> (r: bool)
    requires
        k <= names@.len(),
    ensures
        r == (dir.absolute == absolute && texts(dir.names@) == texts(names@).take(k as int)),
{
    if dir.absolute != absolute || dir.names.len() != k {
        proof {
            if dir.names@.len() != k {
                assert(texts(dir.names@).len() != texts(names@).take(k as int).len());
            }
        }
        return false;
    }
    let mut j: usize = 0;
    while j < k
        invariant
            j <= k <= names@.len(),
            dir.names@.len() == k,
            forall|t: int| 0 <= t < j ==> dir.names@[t]@ == names@[t]@,
        decreases k - j,
    {
        if dir.names[j] != names[j] {
            assert(texts(dir.names@)[j as int] != texts(names@).take(k as int)[j as int]);
            return false;
        }
        j = j + 1;
    }
    assert(texts(dir.names@) =~= texts(names@).take(k as int));
    true
}

/// A directory shown by a short name: everything up to it is replaced.
#[derive(Debug, Clone)]
pub struct PathAlias {
    pub path: String,
    pub alias: String,
}

/// Whether `s` starts with `c`.
pub open spec fn starts_with(s: Seq<char>, c: char) -> bool {
    s.len() > 0 && s[0] == c
}

/// A directory name cut to `shrink_len` characters, not counting a leading
/// dot.
pub open spec fn shrunk_name(file_name: Seq<char>, shrink_len: nat) -> Seq<char> {
    if starts_with(file_name, '.') {
        prefix_of(file_name, shrink_len + 1)
    } else {
        prefix_of(file_name, shrink_len)
    }
}

/// Cuts a directory name to `shrink_len` characters, keeping a leading dot
/// besides.
pub fn shrink_file_name(file_name: &str, shrink_len: usize) -> (r: String)
    ensures
        r@ == shrunk_name(file_name@, shrink_len as nat),
{
    let len = file_name.unicode_len();
    let dotted = len > 0 && file_name.get_char(0) == '.';
    let n = if dotted {
        if shrink_len < len {
            shrink_len + 1
        } else {
            len
        }
    } else if shrink_len < len {
        shrink_len
    } else {
        len
    };
    let r = String::from_str(file_name.substring_char(0, n));
    assert(r@ =~= shrunk_name(file_name@, shrink_len as nat));
    r
}

/// `rest` taken from the directory `base`: an absolute `rest` stands alone,
/// an empty one names `base` itself.
pub open spec fn join_path(base: Seq<char>, rest: Seq<char>) -> Seq<char> {
    if starts_with(rest, '/') {
        rest
    } else if rest.len() == 0 {
        base
    } else if base.len() == 0 || base.last() == '/' {
        base + rest
    } else {
        base + seq!['/'] + rest
    }
}

/// `path` with a leading `~` standing for the home directory, where that is
/// known.
pub open spec fn expanded_path(path: Seq<char>, home_dir: Option<Seq<char>>) -> Seq<char> {
    match home_dir {
        None => path,
        Some(home) => if path == seq!['~'] {
            home
        } else if path.len() >= 2 && path[0] == '~' && path[1] == '/' {
            join_path(home, path.skip(2))
        } else {
            path
        },
    }
}

fn join_path_text(base: &String, rest: &str) -> (r: String)
    ensures
        r@ == join_path(base@, rest@),
{
    let rest_len = rest.unicode_len();
    let base_len = base.as_str().unicode_len();
    if rest_len > 0 && rest.get_char(0) == '/' {
        String::from_str(rest)
    } else if rest_len == 0 {
        base.clone()
    } else if base_len == 0 || base.as_str().get_char(base_len - 1) == '/' {
        let mut r = base.clone();
        r.append(rest);
        r
    } else {
        let mut r = base.clone();
        proof {
            reveal_strlit("/");
        }
        r.append("/");
        r.append(rest);
        r
    }
}

/// Replaces a leading `~` of `path` by the home directory, where that is
/// known: `~` alone, or `~/` and what follows.
pub fn expand_tilde(path: &str, home_dir: &Option<String>) -> (r: String)
    ensures
        r@ == expanded_path(
            path@,
            match home_dir {
                Some(h) => Some(h@),
                None => None,
            },
        ),
{
    let home = match home_dir {
        Some(home) => home,
        None => return String::from_str(path),
    };
    let len = path.unicode_len();
    if len == 1 && path.get_char(0) == '~' {
        assert(path@ =~= seq!['~']);
        home.clone()
    } else if len >= 2 && path.get_char(0) == '~' && path.get_char(1) == '/' {
        let rest = path.substring_char(2, len);
        assert(rest@ =~= path@.skip(2));
        join_path_text(home, rest)
    } else {
        String::from_str(path)
    }
}

/// The aliases of the configuration, each with a leading `~` expanded, then
/// the home directory under `home_symbol`, where it is known.
pub fn path_aliases(aliases: &Vec<DirectoryConfigAlias>, home_dir: Option<String>, home_symbol: &String) -> (r:
    Vec<PathAlias>)
    ensures
        r@.len() == aliases@.len() + if home_dir is Some {
            1int
        } else {
            0int
        },
        forall|i: int|
            0 <= i < aliases@.len() ==> {
                &&& (#[trigger] r@[i]).path@ == expanded_path(
                    aliases@[i].path@,
                    match home_dir {
                        Some(h) => Some(h@),
                        None => None,
                    },
                )
                &&& r@[i].alias@ == aliases@[i].alias@
            },
        home_dir matches Some(h) ==> r@.last().path@ == h@ && r@.last().alias@ == home_symbol@,
        alias_views(r@) == expanded_aliases(
            aliases@,
            match home_dir {
                Some(h) => Some(h@),
                None => None,
            },
            home_symbol@,
        ),
{
    let mut result: Vec<PathAlias> = Vec::new();
    let mut i: usize = 0;
    while i < aliases.len()
        invariant
            i <= aliases@.len(),
            result@.len() == i,
            forall|j: int|
                0 <= j < i ==> {
                    &&& (#[trigger] result@[j]).path@ == expanded_path(
                        aliases@[j].path@,
                        match home_dir {
                            Some(h) => Some(h@),
                            None => None,
                        },
                    )
                    &&& result@[j].alias@ == aliases@[j].alias@
                },
        decreases aliases@.len() - i,
    {
        let a = &aliases[i];
        let path = expand_tilde(a.path.as_str(), &home_dir);
        result.push(PathAlias { path, alias: a.alias.clone() });
        i = i + 1;
    }
    let ghost home_view = match &home_dir {
        Some(h) => Some(h@),
        None => None,
    };
    let ghost configured = aliases@.map_values(
        |a: DirectoryConfigAlias| (expanded_path(a.path@, home_view), a.alias@),
    );
    assert(alias_views(result@) =~= configured);
    match home_dir {
        Some(home) => {
            result.push(PathAlias { path: home, alias: home_symbol.clone() });
            assert(alias_views(result@) =~= configured.push((home_view.unwrap(), home_symbol@)));
        },
        None => {},
    }
    result
}

/// The path and the text of each alias.
pub open spec fn alias_views(aliases: Seq<PathAlias>) -> Seq<(Seq<char>, Seq<char>)> {
    aliases.map_values(|a: PathAlias| (a.path@, a.alias@))
}

/// The aliases that `path_aliases` makes of the configured ones.
pub open spec fn expanded_aliases(
    aliases: Seq<DirectoryConfigAlias>,
    home_dir: Option<Seq<char>>,
    home_symbol: Seq<char>,
) -> Seq<(Seq<char>, Seq<char>)> {
    let configured = aliases.map_values(
        |a: DirectoryConfigAlias| (expanded_path(a.path@, home_dir), a.alias@),
    );
    match home_dir {
        Some(h) => configured.push((h, home_symbol)),
        None => configured,
    }
}

/// Whether some alias names the directory of the first `k` names of `cwd`.
pub open spec fn alias_at(aliases: Seq<(Seq<char>, Seq<char>)>, cwd: Seq<char>, k: int) -> bool {
    exists|i: int|
        0 <= i < aliases.len() && same_dir(
            (#[trigger] aliases[i]).0,
            starts_with(cwd, '/'),
            components(cwd).take(k),
        )
}

/// Whether `aliases[i]` is the first alias that names the directory of the
/// first `k` names of `cwd`.
pub open spec fn is_first_alias_at(aliases: Seq<(Seq<char>, Seq<char>)>, cwd: Seq<char>, k: int, i: int) -> bool {
    &&& 0 <= i < aliases.len()
    &&& same_dir(aliases[i].0, starts_with(cwd, '/'), components(cwd).take(k))
    &&& forall|j: int|
        0 <= j < i ==> !same_dir(
            (#[trigger] aliases[j]).0,
            starts_with(cwd, '/'),
            components(cwd).take(k),
        )
}

/// The first alias that names the directory of the first `k` names of `cwd`.
pub open spec fn first_alias_at(aliases: Seq<(Seq<char>, Seq<char>)>, cwd: Seq<char>, k: int) -> int {
    choose|i: int| is_first_alias_at(aliases, cwd, k, i)
}

/// The deepest level at or above `k` that an alias names, or the root.
pub open spec fn stop_level(aliases: Seq<(Seq<char>, Seq<char>)>, cwd: Seq<char>, k: int) -> int
    decreases k,
{
    if k <= 0 || alias_at(aliases, cwd, k) {
        k
    } else {
        stop_level(aliases, cwd, k - 1)
    }
}

/// What stands for the directory at level `k` of `cwd`: its alias, nothing
/// for the root, else its name, cut short unless it is the working
/// directory itself or the repository's.
pub open spec fn level_text(
    shrink_enabled: bool,
    shrink_len: nat,
    cwd: Seq<char>,
    aliases: Seq<(Seq<char>, Seq<char>)>,
    repo_dir: Option<Seq<char>>,
    k: int,
) -> Seq<char> {
    let names = components(cwd);
    if alias_at(aliases, cwd, k) {
        aliases[first_alias_at(aliases, cwd, k)].1
    } else if k <= 0 {
        Seq::empty()
    } else {
        let is_repo_dir = match repo_dir {
            Some(r) => same_dir(r, starts_with(cwd, '/'), names.take(k)),
            None => false,
        };
        if k != names.len() && shrink_enabled && !is_repo_dir {
            shrunk_name(names[k - 1], shrink_len)
        } else {
            names[k - 1]
        }
    }
}

/// `parts` joined by slashes.
pub open spec fn joined(parts: Seq<Seq<char>>) -> Seq<char>
    decreases parts.len(),
{
    if parts.len() == 0 {
        Seq::empty()
    } else if parts.len() == 1 {
        parts[0]
    } else {
        joined(parts.drop_last()) + seq!['/'] + parts.last()
    }
}

/// The working directory as the segment shows it: from the deepest directory
/// that an alias names (or the root) down to `cwd`, one text per level,
/// joined by slashes.
pub open spec fn shrunk_path(
    shrink_enabled: bool,
    shrink_len: nat,
    cwd: Seq<char>,
    aliases: Seq<(Seq<char>, Seq<char>)>,
    repo_dir: Option<Seq<char>>,
) -> Seq<char> {
    let n = components(cwd).len() as int;
    let top = stop_level(aliases, cwd, n);
    joined(
        Seq::new(
            (n - top + 1) as nat,
            |t: int| level_text(shrink_enabled, shrink_len, cwd, aliases, repo_dir, top + t),
        ),
    )
}

proof fn lemma_stop_level_skips(aliases: Seq<(Seq<char>, Seq<char>)>, cwd: Seq<char>, k: int, n: int)
    requires
        0 <= k <= n,
        forall|j: int| k < j <= n ==> !#[trigger] alias_at(aliases, cwd, j),
    ensures
        stop_level(aliases, cwd, n) == stop_level(aliases, cwd, k),
    decreases n - k,
{
    if k < n {
        lemma_stop_level_skips(aliases, cwd, k, n - 1);
    }
}

proof fn lemma_first_alias_at(aliases: Seq<(Seq<char>, Seq<char>)>, cwd: Seq<char>, k: int, i: int)
    requires
        is_first_alias_at(aliases, cwd, k, i),
    ensures
        alias_at(aliases, cwd, k),
        first_alias_at(aliases, cwd, k) == i,
{
    assert(same_dir(aliases[i].0, starts_with(cwd, '/'), components(cwd).take(k)));
    let f = first_alias_at(aliases, cwd, k);
    assert(is_first_alias_at(aliases, cwd, k, f));
    if f < i {
        assert(!same_dir(aliases[f].0, starts_with(cwd, '/'), components(cwd).take(k)));
    } else if i < f {
        assert(!same_dir(aliases[i].0, starts_with(cwd, '/'), components(cwd).take(k)));
    }
}

/// The first alias, in order, that names the directory of the first `k`
/// names of the working directory.
fn find_alias(
    aliases: &Vec<PathAlias>,
    dirs: &Vec<Dir>,
    cwd: Ghost<Seq<char>>,
    absolute: bool,
    names: &Vec<String>,
    k: usize,
) -> (r: Option<usize>)
    requires
        dirs@.len() == aliases@.len(),
        forall|i: int|
            0 <= i < dirs@.len() ==> (#[trigger] dirs@[i]).absolute == starts_with(
                aliases@[i].path@,
                '/',
            ) && texts(dirs@[i].names@) == components(aliases@[i].path@),
        absolute == starts_with(cwd@, '/'),
        texts(names@) == components(cwd@),
        k <= names@.len(),
    ensures
        match r {
            Some(i) => is_first_alias_at(alias_views(aliases@), cwd@, k as int, i as int),
            None => !alias_at(alias_views(aliases@), cwd@, k as int),
        },
{
    let mut i: usize = 0;
    while i < dirs.len()
        invariant
            i <= dirs@.len() == aliases@.len(),
            forall|i: int|
                0 <= i < dirs@.len() ==> (#[trigger] dirs@[i]).absolute == starts_with(
                    aliases@[i].path@,
                    '/',
                ) && texts(dirs@[i].names@) == components(aliases@[i].path@),
            absolute == starts_with(cwd@, '/'),
            texts(names@) == components(cwd@),
            k <= names@.len(),
            forall|j: int|
                0 <= j < i ==> !same_dir(
                    (#[trigger] aliases@[j]).path@,
                    starts_with(cwd@, '/'),
                    components(cwd@).take(k as int),
                ),
        decreases dirs@.len() - i,
    {
        if is_ancestor(&dirs[i], absolute, names, k) {
            return Some(i);
        }
        i = i + 1;
    }
    None
}

/// The working directory as the segment shows it. Walking up from `cwd`, the
/// first directory that an alias names is replaced by the alias and ends the
/// walk; the names between it and `cwd` are cut to `shrink_len` characters
/// where shrinking is enabled, except for the repository's directory; the
/// name of `cwd` itself is kept whole.
pub fn shrink_path(
    shrink_enabled: bool,
    shrink_len: usize,
    cwd: &str,
    aliases: &Vec<PathAlias>,
    repo_dir: &Option<String>,
) -> (r: String)
    ensures
        r@ == shrunk_path(
            shrink_enabled,
            shrink_len as nat,
            cwd@,
            alias_views(aliases@),
            match repo_dir {
                Some(d) => Some(d@),
                None => None,
            },
        ),
{
    let ghost repo_view = match repo_dir {
        Some(d) => Some(d@),
        None => None,
    };
    let ghost views = alias_views(aliases@);
    let cwd_dir = to_dir(cwd);
    let absolute = cwd_dir.absolute;
    let names = &cwd_dir.names;
    let n = names.len();
    let repo = match repo_dir {
        Some(d) => Some(to_dir(d.as_str())),
        None => None,
    };
    let mut dirs: Vec<Dir> = Vec::new();
    let mut a: usize = 0;
    while a < aliases.len()
        invariant
            a <= aliases@.len(),
            dirs@.len() == a,
            forall|i: int|
                0 <= i < a ==> (#[trigger] dirs@[i]).absolute == starts_with(
                    aliases@[i].path@,
                    '/',
                ) && texts(dirs@[i].names@) == components(aliases@[i].path@),
        decreases aliases@.len() - a,
    {
        dirs.push(to_dir(aliases[a].path.as_str()));
        a = a + 1;
    }
    // The text of each level, from `cwd` upwards.
    let mut reversed: Vec<String> = Vec::new();
    let mut k: usize = n;
    loop
        invariant_except_break
            reversed@.len() == n - k,
        invariant
            views == alias_views(aliases@),
            k <= n == names@.len(),
            texts(names@) == components(cwd@),
            absolute == starts_with(cwd@, '/'),
            dirs@.len() == aliases@.len(),
            forall|i: int|
                0 <= i < dirs@.len() ==> (#[trigger] dirs@[i]).absolute == starts_with(
                    aliases@[i].path@,
                    '/',
                ) && texts(dirs@[i].names@) == components(aliases@[i].path@),
            repo_view == match repo_dir {
                Some(d) => Some(d@),
                None => None::<Seq<char>>,
            },
            repo is Some <==> repo_dir is Some,
            repo matches Some(d) ==> d.absolute == starts_with(repo_view.unwrap(), '/') && texts(
                d.names@,
            ) == components(repo_view.unwrap()),
            forall|t: int|
                0 <= t < n - k ==> (#[trigger] reversed@[t])@ == level_text(
                    shrink_enabled,
                    shrink_len as nat,
                    cwd@,
                    views,
                    repo_view,
                    n - t,
                ),
            forall|j: int| k < j <= n ==> !#[trigger] alias_at(views, cwd@, j),
        ensures
            k <= n,
            reversed@.len() == n - k + 1,
            stop_level(views, cwd@, n as int) == k,
            forall|t: int|
                0 <= t <= n - k ==> (#[trigger] reversed@[t])@ == level_text(
                    shrink_enabled,
                    shrink_len as nat,
                    cwd@,
                    views,
                    repo_view,
                    n - t,
                ),
        decreases k,
    {
        match find_alias(aliases, &dirs, Ghost(cwd@), absolute, names, k) {
            Some(i) => {
                proof {
                    lemma_first_alias_at(views, cwd@, k as int, i as int);
                    lemma_stop_level_skips(views, cwd@, k as int, n as int);
                }
                reversed.push(aliases[i].alias.clone());
                break ;
            },
            None => {},
        }
        if k == 0 {
            proof {
                lemma_stop_level_skips(views, cwd@, 0, n as int);
            }
            reversed.push(String::new());
            break ;
        }
        let name = &names[k - 1];
        assert(name@ == components(cwd@)[k - 1]) by {
            assert(texts(names@)[k - 1] == name@);
        }
        let is_repo_dir = match &repo {
            Some(d) => is_ancestor(d, absolute, names, k),
            None => false,
        };
        let text = if k != n && shrink_enabled && !is_repo_dir {
            shrink_file_name(name.as_str(), shrink_len)
        } else {
            name.clone()
        };
        reversed.push(text);
        k = k - 1;
    }
    // The texts from the top level down, joined by slashes.
    let ghost top = k as int;
    let ghost parts = Seq::new(
        (n - top + 1) as nat,
        |t: int| level_text(shrink_enabled, shrink_len as nat, cwd@, views, repo_view, top + t),
    );
    let count = reversed.len();
    let mut result = String::new();
    let mut t: usize = 0;
    while t < count
        invariant
            t <= count == reversed@.len() == parts.len(),
            parts == Seq::new(
                (n - top + 1) as nat,
                |t: int|
                    level_text(shrink_enabled, shrink_len as nat, cwd@, views, repo_view, top + t),
            ),
            top == n - count + 1,
            forall|u: int|
                0 <= u < count ==> (#[trigger] reversed@[u])@ == level_text(
                    shrink_enabled,
                    shrink_len as nat,
                    cwd@,
                    views,
                    repo_view,
                    n - u,
                ),
            result@ == joined(parts.take(t as int)),
        decreases count - t,
    {
        let part = &reversed[count - 1 - t];
        assert(part@ == parts[t as int]);
        let ghost before = result@;
        if t > 0 {
            proof {
                reveal_strlit("/");
            }
            result.append("/");
        }
        result.append(part.as_str());
        proof {
            let next = parts.take(t + 1);
            assert(next.drop_last() =~= parts.take(t as int));
            if t == 0 {
                assert(result@ =~= joined(next));
            } else {
                assert(result@ =~= joined(next));
            }
        }
        t = t + 1;
    }
    assert(parts.take(count as int) =~= parts);
    result
}

/// The directory segment: the working directory shrunk as configured, with
/// the home directory and the configured aliases replaced, in the normal
/// style where the directory exists and the error style where it does not.
pub fn build_segment(
    config: &DirectoryConfig,
    cwd: &str,
    home_dir: Option<String>,
    repo_dir: &Option<String>,
    cwd_exists: bool,
) -> (r: Segment)
    ensures
        r.style == if cwd_exists {
            config.normal.style
        } else {
            config.error.style
        },
        r.content@ == shrunk_path(
            config.shrink.enabled,
            config.shrink.max_len as nat,
            cwd@,
            expanded_aliases(
                config.aliases@,
                match home_dir {
                    Some(h) => Some(h@),
                    None => None,
                },
                config.home@,
            ),
            match repo_dir {
                Some(d) => Some(d@),
                None => None,
            },
        ),
{
    let aliases = path_aliases(&config.aliases, home_dir, &config.home);
    let content = shrink_path(
        config.shrink.enabled,
        config.shrink.max_len,
        cwd,
        &aliases,
        repo_dir,
    );
    let style = if cwd_exists {
        config.normal.style
    } else {
        config.error.style
    };
    Segment { style, content }
}

} // verus!
