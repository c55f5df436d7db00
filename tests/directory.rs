use std::path::PathBuf;

use almel::configs::directory::DirectoryConfigAlias;
use almel::segments::directory::{
    expand_tilde, path_aliases, path_components, shrink_file_name, shrink_path, PathAlias,
};

fn alias(path: &str, alias: &str) -> PathAlias {
    PathAlias { path: path.to_string(), alias: alias.to_string() }
}

fn home_alias() -> Vec<PathAlias> {
    vec![alias("/home/test", "~")]
}

#[test]
fn test_shrink_file_name() {
    assert_eq!(shrink_file_name("abc", 1), "a");
    assert_eq!(shrink_file_name("abc", 2), "ab");
    assert_eq!(shrink_file_name("abc", 5), "abc");

    assert_eq!(shrink_file_name(".abc", 1), ".a");
    assert_eq!(shrink_file_name(".abc", 2), ".ab");
    assert_eq!(shrink_file_name(".abc", 5), ".abc");
}

#[test]
fn test_shrink_path() {
    let home = home_alias();
    let repo = |p: &str| Some(p.to_string());

    // at home, without shrinking
    assert_eq!(shrink_path(false, 1, "/home/test", &home, &None), "~");
    // inside of home, without shrinking
    assert_eq!(shrink_path(false, 1, "/home/test/abc/.def", &home, &None), "~/abc/.def");
    // outside of home, without shrinking
    assert_eq!(shrink_path(false, 1, "/abc/.def", &home, &None), "/abc/.def");
    // at home, with shrinking
    assert_eq!(shrink_path(true, 1, "/home/test", &home, &None), "~");
    // inside of home, with shrinking (len = 1)
    assert_eq!(shrink_path(true, 1, "/home/test/abc/.def", &home, &None), "~/a/.def");
    // outside of home, with shrinking (len = 1)
    assert_eq!(shrink_path(true, 1, "/abc/.def", &home, &None), "/a/.def");
    // inside of home, with shrinking (len = 2)
    assert_eq!(shrink_path(true, 2, "/home/test/abc/.def/g/h", &home, &None), "~/ab/.de/g/h");
    // outside of home, with shrinking (len = 2)
    assert_eq!(shrink_path(true, 2, "/abc/.def/g/h", &home, &None), "/ab/.de/g/h");
    // inside of home, inside of git repo
    assert_eq!(
        shrink_path(
            true,
            1,
            "/home/test/repos/repo/ab/.cd/ef",
            &home,
            &repo("/home/test/repos/repo")
        ),
        "~/r/repo/a/.c/ef"
    );
    // outside of home, inside of git repo
    assert_eq!(
        shrink_path(true, 1, "/repos/repo/ab/.cd/ef", &home, &repo("/repos/repo")),
        "/r/repo/a/.c/ef"
    );
    // at home, at git repo
    assert_eq!(shrink_path(true, 1, "/home/test", &home, &repo("/home/test")), "~");
    // alias
    let aliases = vec![alias("/home/test/repos", "@git"), alias("/home/test", "~")];
    assert_eq!(
        shrink_path(true, 1, "/home/test/repos/abc", &aliases, &repo("/home/test/repos/abc")),
        "@git/abc"
    );
}

#[test]
fn shrink_path_edges() {
    assert_eq!(shrink_path(true, 1, "/", &home_alias(), &None), "");
    assert_eq!(shrink_path(true, 1, "/home/test/", &home_alias(), &None), "~");
    assert_eq!(shrink_path(true, 1, "//usr//local/", &vec![], &None), "/u/local");
    assert_eq!(shrink_path(true, 0, "/usr/local/bin", &vec![], &None), "///bin");
    let both = vec![alias("/home/test", "first"), alias("/home/test/", "second")];
    assert_eq!(shrink_path(true, 1, "/home/test/x", &both, &None), "first/x");
}

#[test]
fn test_expand_tilde() {
    let home = Some("/home/test".to_string());

    assert_eq!(PathBuf::from(expand_tilde("~", &home)), PathBuf::from("/home/test"));
    assert_eq!(PathBuf::from(expand_tilde("~/", &home)), PathBuf::from("/home/test"));
    assert_eq!(PathBuf::from(expand_tilde("/root/test", &home)), PathBuf::from("/root/test"));
    assert_eq!(PathBuf::from(expand_tilde("~/abc", &home)), PathBuf::from("/home/test/abc"));
}

#[test]
fn expand_tilde_edges() {
    assert_eq!(expand_tilde("~/abc", &None), "~/abc");
    assert_eq!(expand_tilde("~abc", &Some("/h".to_string())), "~abc");
    assert_eq!(expand_tilde("~//etc", &Some("/h".to_string())), "/etc");
    assert_eq!(expand_tilde("~/x", &Some("/h/".to_string())), "/h/x");
}

#[test]
fn path_aliases_expand_and_add_home() {
    let config = vec![
        DirectoryConfigAlias { path: "~/repos".to_string(), alias: "@git".to_string() },
        DirectoryConfigAlias { path: "/srv".to_string(), alias: "@srv".to_string() },
    ];
    let aliases = path_aliases(&config, Some("/home/test".to_string()), &"~".to_string());
    assert_eq!(aliases.len(), 3);
    assert_eq!(aliases[0].path, "/home/test/repos");
    assert_eq!(aliases[0].alias, "@git");
    assert_eq!(aliases[1].path, "/srv");
    assert_eq!(aliases[2].path, "/home/test");
    assert_eq!(aliases[2].alias, "~");
    let aliases = path_aliases(&config, None, &"~".to_string());
    assert_eq!(aliases.len(), 2);
    assert_eq!(aliases[0].path, "~/repos");
}

#[test]
fn components_drop_empty_names() {
    assert_eq!(path_components("/a//b/"), vec!["a".to_string(), "b".to_string()]);
    assert!(path_components("/").is_empty());
    assert_eq!(path_components("rel/x"), vec!["rel".to_string(), "x".to_string()]);
}
