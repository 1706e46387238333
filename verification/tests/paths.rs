use boxunbox::package::LinkType;
use boxunbox::path::ComponentPath;
use boxunbox::pattern::{matches_any, Pattern};
use boxunbox::plan::PlannedLink;
use boxunbox::utils::{replace_home_with_tilde, vec_string_compare};

fn path(s: &str) -> ComponentPath {
    ComponentPath::from_components(
        std::path::Path::new(s)
            .components()
            .map(|c| c.as_os_str().to_string_lossy().into_owned())
            .collect(),
    )
}

#[test]
fn test_make_relative_dest() {
    let pl = PlannedLink {
        src: path("/path/to/package/file"),
        dest: path("/path/to/target/file"),
        ty: LinkType::SymlinkRelative,
    };

    // the path to the package file, relative to the directory of the
    // destination
    let expected_src = path("../package/file");
    let actual_src = pl.get_src_relative_to_dest();

    assert_eq!(Some(expected_src), actual_src);
}

#[test]
fn relative_path_needs_absolute_ends_and_a_directory() {
    let relative_src = PlannedLink {
        src: path("package/file"),
        dest: path("/target/file"),
        ty: LinkType::SymlinkRelative,
    };
    let relative_dest = PlannedLink {
        src: path("/package/file"),
        dest: path("target/file"),
        ty: LinkType::SymlinkRelative,
    };
    let no_directory = PlannedLink {
        src: path("/package/file"),
        dest: path("/"),
        ty: LinkType::SymlinkRelative,
    };

    assert_eq!(relative_src.get_src_relative_to_dest(), None);
    assert_eq!(relative_dest.get_src_relative_to_dest(), None);
    assert_eq!(no_directory.get_src_relative_to_dest(), None);
}

#[test]
fn relative_from_exact_values() {
    assert_eq!(path("/foo/bar").relative_from(&path("/foo/bar/baz")), Some(path("..")));
    assert_eq!(path("/foo/bar/baz").relative_from(&path("/foo/bar")), Some(path("baz")));
    assert_eq!(
        path("/foo/bar/quux").relative_from(&path("/foo/bar/baz")),
        Some(path("../quux"))
    );
    assert_eq!(path("/foo/bar").relative_from(&path("/baz")), Some(path("../foo/bar")));
    assert_eq!(path("/a").relative_from(&path("/x/y/z")), Some(path("../../../a")));
    assert_eq!(path("/a/b").relative_from(&path("/a/b")), Some(ComponentPath::new()));
    assert_eq!(path("/a/b").relative_from(&path("/")), Some(path("a/b")));
}

#[test]
fn relative_from_fails_where_the_base_goes_up() {
    assert_eq!(path("a").relative_from(&path("/b")), None);
    assert_eq!(path("/a/b").relative_from(&path("/a/../c")), None);
}

#[test]
fn relative_link_round_trip() {
    let cases = [
        ("/path/to/package/file", "/path/to/target/file"),
        ("/pkg/a/b/c.txt", "/home/me/a/b/c.txt"),
        ("/pkg/file", "/pkg/deep/er/link"),
        ("/a/b/c", "/a/b/c/d"),
        ("/a", "/b"),
    ];
    for (src, dest) in cases {
        let pl = PlannedLink {
            src: path(src),
            dest: path(dest),
            ty: LinkType::SymlinkRelative,
        };
        let relative = pl.get_src_relative_to_dest().expect("relative path");
        let dir = pl.dest.parent().expect("directory of the destination");

        let resolved = dir.join(&relative).clean();

        assert_eq!(resolved, pl.src, "from {dest} to {src}");
    }
}

#[test]
fn clean_exact_values() {
    assert_eq!(path("/a/b/../c").clean(), path("/a/c"));
    assert_eq!(path("/..").clean(), path("/"));
    assert_eq!(path("a/..").clean(), path("."));
    assert_eq!(path("../a").clean(), path("../a"));
    assert_eq!(path("./a/./b").clean(), path("a/b"));
    assert_eq!(ComponentPath::new().clean(), path("."));
    assert_eq!(path("/a/b").clean(), path("/a/b"));
}

#[test]
fn path_queries() {
    let p = path("/a/b/c.txt");

    assert!(p.is_absolute());
    assert!(!path("a/b").is_absolute());
    assert_eq!(p.len(), 4);
    assert!(p.starts_with(&path("/a")));
    assert!(p.starts_with(&p));
    assert!(p.starts_with(&ComponentPath::new()));
    assert!(!p.starts_with(&path("/a/bb")));
    assert!(!p.starts_with(&path("/a/b/c.txt/d")));
    assert!(!path("/ab").starts_with(&path("/a")));
    assert!(p.equals(&path("/a/b/c.txt")));
    assert!(!p.equals(&path("/a/b")));
    assert_eq!(p.clone(), p);
}

#[test]
fn path_parts() {
    let p = path("/a/b/c.txt");

    assert_eq!(p.strip_prefix(&path("/a")), Some(path("b/c.txt")));
    assert_eq!(p.strip_prefix(&p), Some(ComponentPath::new()));
    assert_eq!(p.strip_prefix(&path("/b")), None);
    assert_eq!(p.parent(), Some(path("/a/b")));
    assert_eq!(path("/").parent(), None);
    assert_eq!(ComponentPath::new().parent(), None);
    assert_eq!(path("a").parent(), Some(ComponentPath::new()));
    assert_eq!(p.file_name().map(String::as_str), Some("c.txt"));
    assert_eq!(path("/").file_name(), None);
    assert_eq!(path("/a/..").file_name(), None);
    assert_eq!(path(".").file_name(), None);
    assert_eq!(p.skip(2), path("b/c.txt"));
    assert_eq!(p.take(2), path("/a"));
}

#[test]
fn path_building() {
    let p = path("/a/b");

    assert_eq!(p.join(&path("c/d")), path("/a/b/c/d"));
    assert_eq!(p.join(&path("/c")), path("/c"));
    assert_eq!(p.join(&ComponentPath::new()), p);
    assert_eq!(p.with_file_name("x".to_string()), path("/a/x"));
    assert_eq!(path("/").with_file_name("x".to_string()), path("/x"));
    let mut q = ComponentPath::new();
    q.push("a".to_string());
    q.push("b".to_string());
    assert_eq!(q, path("a/b"));
}

#[test]
fn path_written_out() {
    assert_eq!(path("/a/b/c.txt").to_string(), "/a/b/c.txt");
    assert_eq!(path("a/b").to_string(), "a/b");
    assert_eq!(path("/").to_string(), "/");
    assert_eq!(path("/a").to_string(), "/a");
    assert_eq!(ComponentPath::new().to_string(), "");
    assert_eq!(path("../a").to_string(), "../a");
}

#[test]
fn home_is_written_as_tilde() {
    let home = path("/home/me");

    assert_eq!(replace_home_with_tilde(&path("/home/me/pkg/a"), &home), "~/pkg/a");
    assert_eq!(replace_home_with_tilde(&path("/home/me"), &home), "~/");
    assert_eq!(replace_home_with_tilde(&path("/home/you/pkg"), &home), "/home/you/pkg");
    assert_eq!(replace_home_with_tilde(&path("/home/mean"), &home), "/home/mean");
}

#[test]
fn string_lists_are_compared_in_order() {
    let list = |items: &[&str]| items.iter().map(|s| s.to_string()).collect::<Vec<String>>();

    assert!(vec_string_compare(&list(&["a", "b"]), &list(&["a", "b"])));
    assert!(vec_string_compare(&list(&[]), &list(&[])));
    assert!(!vec_string_compare(&list(&["a", "b"]), &list(&["b", "a"])));
    assert!(!vec_string_compare(&list(&["a"]), &list(&["a", "b"])));
    assert!(!vec_string_compare(&list(&["a", "b"]), &list(&["a", "c"])));
}

#[test]
fn patterns_compile_or_are_turned_down() {
    let good = Pattern::new("^a.c$").expect("pattern");

    assert_eq!(good.as_str(), "^a.c$");
    assert!(good.is_match("abc"));
    assert!(!good.is_match("abcd"));
    assert!(Pattern::new("").expect("pattern").is_match("anything"));
    assert!(good.same_source(&good.clone()));
    assert!(!good.same_source(&Pattern::new("^a.c").expect("pattern")));

    let bad = Pattern::new("foo(bar").expect_err("unclosed group");
    assert_eq!(bad.pattern, "foo(bar");
}

#[test]
fn any_pattern_of_a_list_may_match() {
    let patterns = vec![
        Pattern::new("^a$").expect("pattern"),
        Pattern::new("b").expect("pattern"),
    ];

    assert!(matches_any(&patterns, "a"));
    assert!(matches_any(&patterns, "abc"));
    assert!(!matches_any(&patterns, "ac"));
    assert!(!matches_any(&Vec::new(), "a"));
}
