use seal::path::{child_path, directory_of, name_of, normalize, parent_of, resolve_against};
use seal::text::{join_pair, ends_with, replace_text, starts_with, str_eq};

#[test]
fn normalize_keeps_a_plain_path() {
    assert_eq!(normalize("src/lib/util.luau"), "src/lib/util.luau");
}

#[test]
fn normalize_drops_empty_and_dot_segments() {
    assert_eq!(normalize("src//lib/./util.luau"), "src/lib/util.luau");
    assert_eq!(normalize("./"), ".");
    assert_eq!(normalize("."), ".");
}

#[test]
fn normalize_resolves_parent_segments() {
    assert_eq!(normalize("src/app/../lib/c.luau"), "src/lib/c.luau");
    assert_eq!(normalize("a/b/../../c"), "c");
    assert_eq!(normalize("a/.."), ".");
}

#[test]
fn normalize_keeps_leading_parents_of_a_relative_path() {
    assert_eq!(normalize("../../x"), "../../x");
    assert_eq!(normalize("a/../../x"), "../x");
}

#[test]
fn normalize_stops_at_the_root() {
    assert_eq!(normalize("/.."), "/");
    assert_eq!(normalize("/a/../../b"), "/b");
    assert_eq!(normalize("/"), "/");
}

#[test]
fn normalize_reads_backslashes_as_separators() {
    assert_eq!(normalize("src\\lib\\..\\main.luau"), "src/main.luau");
}

#[test]
fn normalize_is_idempotent_on_samples() {
    for p in ["a/b/../c", "/x/./y//z", "../..", "", "./q", "C:\\dir\\..\\f.luau"] {
        let once = normalize(p);
        assert_eq!(normalize(&once), once);
    }
}

#[test]
fn resolve_against_joins_and_normalizes() {
    assert_eq!(resolve_against("src/app/", "./util"), "src/app/util");
    assert_eq!(resolve_against("src/app/", "../lib/c"), "src/lib/c");
    assert_eq!(resolve_against("/srv/scripts/", "../../etc/x"), "/etc/x");
    assert_eq!(resolve_against("", "./c"), "c");
    assert_eq!(resolve_against("", "./"), ".");
}

#[test]
fn resolve_against_keeps_the_base_absolute() {
    assert_eq!(resolve_against("/", "../../a"), "/a");
    assert_eq!(resolve_against("rel/", "/abs"), "rel/abs");
}

#[test]
fn parent_of_splits_at_the_last_separator() {
    assert_eq!(parent_of("src/main.luau"), Some("src".to_string()));
    assert_eq!(parent_of("/main.luau"), Some("/".to_string()));
    assert_eq!(parent_of("main.luau"), Some("".to_string()));
    assert_eq!(parent_of("a\\b\\c.luau"), Some("a\\b".to_string()));
}

#[test]
fn parent_of_refuses_a_path_without_a_name() {
    assert_eq!(parent_of(""), None);
    assert_eq!(parent_of("/"), None);
    assert_eq!(parent_of("src/"), None);
}

#[test]
fn directory_of_keeps_the_separator() {
    assert_eq!(directory_of("src/main.luau"), Some("src/".to_string()));
    assert_eq!(directory_of("main.luau"), Some("".to_string()));
    assert_eq!(directory_of("src/"), None);
}

#[test]
fn name_of_is_what_follows_the_last_separator() {
    assert_eq!(name_of("src/main.luau"), "main.luau");
    assert_eq!(name_of("main.luau"), "main.luau");
    assert_eq!(name_of("src/"), "");
}

#[test]
fn child_path_of_plain_dot_and_root() {
    assert_eq!(child_path("src/lib", "init.luau"), "src/lib/init.luau");
    assert_eq!(child_path(".", "init.luau"), "init.luau");
    assert_eq!(child_path("/", "init.luau"), "/init.luau");
}

#[test]
fn child_path_agrees_with_resolving_through_the_directory() {
    for (dir, rel) in [("src/", "./lib"), ("", "./"), ("/", "./"), ("a/b/", "../c")] {
        let through = format!("{}/init.luau", rel);
        assert_eq!(
            resolve_against(dir, &through),
            child_path(&resolve_against(dir, rel), "init.luau")
        );
    }
}

#[test]
fn string_helpers() {
    assert!(str_eq("abc", "abc"));
    assert!(!str_eq("abc", "abd"));
    assert!(!str_eq("abc", "ab"));
    assert!(starts_with("./x", "./"));
    assert!(!starts_with(".", "./"));
    assert!(starts_with("anything", ""));
    assert!(ends_with("main.luau", ".luau"));
    assert!(!ends_with("luau", ".luau"));
    assert_eq!(join_pair("ab", "cd"), "abcd");
}

#[test]
fn replace_text_replaces_every_occurrence() {
    assert_eq!(replace_text("_G.error and _G.error", "_G.error", "error"), "error and error");
    assert_eq!(replace_text("aaa", "aa", "b"), "ba");
    assert_eq!(replace_text("abc", "", "x"), "abc");
    assert_eq!(replace_text("abc", "abcd", "x"), "abc");
    assert_eq!(replace_text("héllo wörld", "ö", "o"), "héllo world");
}
