use boxunbox::expand::parse_path_components_with_braces;

#[test]
fn test_parses_path_with_braces() {
    let expected = vec!["${within/braces}", "file"];
    let actual = parse_path_components_with_braces("${within/braces}/file");

    assert_eq!(expected, actual);
}

#[test]
fn test_parses_path_with_braces_but_no_dollar_sign() {
    let expected = vec!["{within", "braces}", "file"];
    let actual = parse_path_components_with_braces("{within/braces}/file");

    assert_eq!(expected, actual);
}

#[test]
fn empty_components_are_kept() {
    assert_eq!(parse_path_components_with_braces(""), vec![""]);
    assert_eq!(parse_path_components_with_braces("/"), vec!["", ""]);
    assert_eq!(parse_path_components_with_braces("/a//b/"), vec!["", "a", "", "b", ""]);
    assert_eq!(parse_path_components_with_braces("~/a"), vec!["~", "a"]);
}

#[test]
fn braces_are_counted_per_component() {
    assert_eq!(
        parse_path_components_with_braces("${A:-${B:-~/x/y}}/z"),
        vec!["${A:-${B:-~/x/y}}", "z"]
    );
    assert_eq!(
        parse_path_components_with_braces("$HOME/{a/b}"),
        vec!["$HOME", "{a", "b}"]
    );
    assert_eq!(
        parse_path_components_with_braces("a{$b/c}/d"),
        vec!["a{$b", "c}", "d"]
    );
    assert_eq!(
        parse_path_components_with_braces("${a/b/c"),
        vec!["${a/b/c"]
    );
    assert_eq!(
        parse_path_components_with_braces("$}x/y"),
        vec!["$}x", "y"]
    );
}
