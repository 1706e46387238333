use boxunbox::cli::{BoxUnboxCli, ExistingFileStrategy};
use boxunbox::error::PlanningError;
use boxunbox::package::error::ConfigRead;
use boxunbox::package::{ConfigLookup, LinkType, PackageConfig};
use boxunbox::path::ComponentPath;
use boxunbox::pattern::Pattern;
use boxunbox::plan::{plan, PackageEntry, PlanWalk, PlannedLink, UnboxPlan};

const TEST_PACKAGE_FILE_TAILS: [&str; 6] = [
    "folder1/nested1.txt",
    "folder1/test_ignore2.txt",
    "folder2/nested2.txt",
    "folder2/nested2 again.txt",
    "test.txt",
    "test_ignore.txt",
];

const TEST_TARGET: &str = "/path/to/test/target";

const TEST_PACKAGE: &str = "/tmp/pkg";

fn path(s: &str) -> ComponentPath {
    ComponentPath::from_components(
        std::path::Path::new(s)
            .components()
            .map(|c| c.as_os_str().to_string_lossy().into_owned())
            .collect(),
    )
}

fn file(tail: &str) -> Result<PackageEntry, String> {
    Ok(PackageEntry::File(path(TEST_PACKAGE).join(&path(tail))))
}

fn dir(tail: &str) -> Result<PackageEntry, String> {
    let full = path(TEST_PACKAGE).join(&path(tail));
    let missing = full.join(&path(".bub.toml"));
    Ok(PackageEntry::Dir(full, ConfigLookup::Absent(missing)))
}

fn dir_with(tail: &str, lookup: ConfigLookup) -> Result<PackageEntry, String> {
    Ok(PackageEntry::Dir(path(TEST_PACKAGE).join(&path(tail)), lookup))
}

/// The entries of the test package below its root, as a sorted depth-first
/// walk yields them.  The package holds a saved default configuration.
fn tmp_tree() -> Vec<Result<PackageEntry, String>> {
    vec![
        file(".bub.toml"),
        dir("folder1"),
        file("folder1/nested1.txt"),
        file("folder1/test_ignore2.txt"),
        dir("folder2"),
        file("folder2/nested2 again.txt"),
        file("folder2/nested2.txt"),
        file("test.txt"),
        file("test_ignore.txt"),
    ]
}

/// What reading the saved default configuration of the test package gives.
fn saved_default() -> ConfigLookup {
    ConfigLookup::Current(PackageConfig::new(ComponentPath::new(), path(TEST_TARGET)))
}

fn expected_link(tail: &str, target: &ComponentPath) -> PlannedLink {
    PlannedLink {
        src: path(TEST_PACKAGE).join(&path(tail)),
        dest: target.join(&path(tail)),
        ty: LinkType::SymlinkAbsolute,
    }
}

fn component_matches(link: &PlannedLink, pattern: &Pattern) -> bool {
    link.src.components.iter().any(|c| pattern.is_match(c))
}

fn check_plan(expected_plan: &UnboxPlan, actual_plan: &UnboxPlan) {
    assert_eq!(
        expected_plan.create_dirs, actual_plan.create_dirs,
        "unboxing plans disagree on create_dirs"
    );
    assert_eq!(
        expected_plan.efs, actual_plan.efs,
        "unboxing plan has unexpected file strategy"
    );
    assert_eq!(
        expected_plan.links.len(),
        actual_plan.links.len(),
        "unboxing plan has unexpected length"
    );
    for pl in &actual_plan.links {
        assert!(
            expected_plan.links.contains(pl),
            "unboxing plan contains unexpected planned link: {pl:?}"
        );
    }
}

#[test]
fn test_plan_empty_unboxing() {
    let package_path = path(TEST_PACKAGE);
    let cli = BoxUnboxCli::new(package_path.clone());
    let config = PackageConfig::new(package_path, path(TEST_TARGET));

    let actual_result = UnboxPlan::plan_unboxing(config, &cli, Vec::new());

    assert!(
        actual_result.is_err(),
        "unexpectedly planned unboxing succesfully"
    );

    match actual_result.unwrap_err() {
        PlanningError::EmptyPlan => {}
        err => panic!("unboxing plan failed with unexpected error {err:?}"),
    }
}

#[test]
fn test_plan_unboxing() {
    let package_path = path(TEST_PACKAGE);
    let cli = BoxUnboxCli::new(package_path.clone());
    let config = PackageConfig::init(package_path, &cli, saved_default())
        .expect("failed to create test package config");

    let expected_target = path(TEST_TARGET);
    let expected_plan = UnboxPlan::from_links(
        TEST_PACKAGE_FILE_TAILS
            .iter()
            .map(|tail| expected_link(tail, &expected_target))
            .collect(),
    );
    let actual_plan = UnboxPlan::plan_unboxing(config, &cli, tmp_tree()).expect("plan");

    check_plan(&expected_plan, &actual_plan);
}

#[test]
fn test_plan_unboxing_nested_config() {
    const TEST_NESTED_PACKAGE: &str = "folder1";

    let package_path = path(TEST_PACKAGE);
    let cli = BoxUnboxCli::new(package_path.clone());
    let config = PackageConfig::init(package_path.clone(), &cli, saved_default())
        .expect("failed to create test package config");

    // make nested config
    let expected_nested_target = path("/some/other/test/target");
    let expected_nested_package = package_path.join(&path(TEST_NESTED_PACKAGE));
    let mut nested_config = PackageConfig::new_with_target(
        expected_nested_package.clone(),
        expected_nested_target.clone(),
    );
    nested_config
        .exclude_pats
        .push(Pattern::new("^test_ignore.*").expect("test Regex should compile"));

    let items = vec![
        file(".bub.toml"),
        dir_with("folder1", ConfigLookup::Current(nested_config)),
        file("folder1/.bub.toml"),
        file("folder1/nested1.txt"),
        file("folder1/test_ignore2.txt"),
        dir("folder2"),
        file("folder2/nested2 again.txt"),
        file("folder2/nested2.txt"),
        file("test.txt"),
        file("test_ignore.txt"),
    ];

    let expected_target = path(TEST_TARGET);
    let expected_plan = UnboxPlan::from_links(
        TEST_PACKAGE_FILE_TAILS
            .into_iter()
            .filter(|tail| !tail.ends_with("test_ignore2.txt"))
            .map(|tail| {
                if tail.starts_with(TEST_NESTED_PACKAGE) {
                    expected_link(tail, &expected_nested_target)
                } else {
                    expected_link(tail, &expected_target)
                }
            })
            .collect(),
    );
    let actual_plan = UnboxPlan::plan_unboxing(config, &cli, items).expect("plan");

    check_plan(&expected_plan, &actual_plan);

    for pl in &actual_plan.links {
        if pl.src.starts_with(&expected_nested_package) {
            assert!(
                pl.dest.starts_with(&expected_nested_target),
                "nested planned link has unexpected target '{:?}'",
                pl.dest
            );
        }
    }
}

#[test]
fn test_plan_unboxing_include_file() {
    let package_path = path(TEST_PACKAGE);
    let test_regex = Pattern::new("^nested").expect("test regex should compile");
    let mut cli = BoxUnboxCli::new(package_path.clone());
    cli.include_pats.push(test_regex.clone());
    let config = PackageConfig::init(package_path, &cli, saved_default())
        .expect("failed to create test package config");

    let expected_target = path(TEST_TARGET);
    let expected_plan = UnboxPlan::from_links(
        TEST_PACKAGE_FILE_TAILS
            .iter()
            .map(|tail| expected_link(tail, &expected_target))
            .filter(|pl| component_matches(pl, &test_regex))
            .collect(),
    );
    let actual_plan = UnboxPlan::plan_unboxing(config, &cli, tmp_tree()).expect("plan");

    check_plan(&expected_plan, &actual_plan);
    assert_eq!(actual_plan.links.len(), 3);

    for pl in &actual_plan.links {
        assert!(
            component_matches(pl, &test_regex),
            "unboxing plan contains excluded link {pl:?}"
        );
    }
}

#[test]
fn test_plan_unboxing_include_overlaps_exclude() {
    let package_path = path(TEST_PACKAGE);
    let test_include_regex =
        Pattern::new("^folder1$").expect("test include regex should compile");
    let test_exclude_regex = Pattern::new("ignore").expect("test exclude regex should compile");
    let mut cli = BoxUnboxCli::new(package_path.clone());
    cli.include_pats.push(test_include_regex.clone());
    cli.exclude_pats.push(test_exclude_regex.clone());
    let config = PackageConfig::init(package_path, &cli, saved_default())
        .expect("failed to create test package config");

    let expected_target = path(TEST_TARGET);
    let expected_plan = UnboxPlan::from_links(
        TEST_PACKAGE_FILE_TAILS
            .iter()
            .map(|tail| expected_link(tail, &expected_target))
            .filter(|pl| {
                component_matches(pl, &test_include_regex)
                    && !component_matches(pl, &test_exclude_regex)
            })
            .collect(),
    );
    let actual_plan = UnboxPlan::plan_unboxing(config, &cli, tmp_tree()).expect("plan");

    check_plan(&expected_plan, &actual_plan);
    assert_eq!(actual_plan.links.len(), 1);

    for pl in &actual_plan.links {
        // at least one component is taken in and no component is left out
        assert!(
            component_matches(pl, &test_include_regex)
                && !component_matches(pl, &test_exclude_regex),
            "unboxing plan contains excluded link {pl:?}"
        );
    }
}

#[test]
fn test_plan_unboxing_include_dir() {
    let package_path = path(TEST_PACKAGE);
    let test_regex = Pattern::new("^folder1$").expect("test regex should compile");
    let mut cli = BoxUnboxCli::new(package_path.clone());
    cli.include_pats.push(test_regex.clone());
    let config = PackageConfig::init(package_path, &cli, saved_default())
        .expect("failed to create test package config");

    let expected_target = path(TEST_TARGET);
    let expected_plan = UnboxPlan::from_links(
        TEST_PACKAGE_FILE_TAILS
            .iter()
            .map(|tail| expected_link(tail, &expected_target))
            .filter(|pl| component_matches(pl, &test_regex))
            .collect(),
    );
    let actual_plan = UnboxPlan::plan_unboxing(config, &cli, tmp_tree()).expect("plan");

    check_plan(&expected_plan, &actual_plan);
    assert_eq!(actual_plan.links.len(), 2);

    for pl in &actual_plan.links {
        assert!(
            component_matches(pl, &test_regex),
            "unboxing plan contains excluded link {pl:?}"
        );
    }
}

#[test]
fn test_plan_unboxing_exclude_dir() {
    let package_path = path(TEST_PACKAGE);
    let test_regex = Pattern::new("^folder1$").expect("test regex should compile");
    let mut cli = BoxUnboxCli::new(package_path.clone());
    cli.exclude_pats.push(test_regex.clone());
    let config = PackageConfig::init(package_path, &cli, saved_default())
        .expect("failed to create test package config");

    let expected_target = path(TEST_TARGET);
    let expected_plan = UnboxPlan::from_links(
        TEST_PACKAGE_FILE_TAILS
            .iter()
            .map(|tail| expected_link(tail, &expected_target))
            .filter(|pl| !component_matches(pl, &test_regex))
            .collect(),
    );
    let actual_plan = UnboxPlan::plan_unboxing(config, &cli, tmp_tree()).expect("plan");

    check_plan(&expected_plan, &actual_plan);
    assert_eq!(actual_plan.links.len(), 4);

    for pl in &actual_plan.links {
        assert!(
            !component_matches(pl, &test_regex),
            "unboxing plan contains excluded link {pl:?}"
        );
    }
}

#[test]
fn test_plan_unbox_root() {
    let package_path = path(TEST_PACKAGE);
    let mut cli = BoxUnboxCli::new(package_path.clone());
    // just override with the command line
    cli.link_root = true;
    let config = PackageConfig::init(package_path.clone(), &cli, saved_default())
        .expect("failed to create test package config");

    let expected_target = path(TEST_TARGET);
    let expected_plan = UnboxPlan::from_links(vec![PlannedLink {
        src: package_path,
        dest: expected_target,
        ty: LinkType::SymlinkAbsolute,
    }]);
    let actual_plan = UnboxPlan::plan_unboxing(config, &cli, tmp_tree()).expect("plan");

    check_plan(&expected_plan, &actual_plan);
}

#[test]
fn link_root_ignores_the_package_contents() {
    let package_path = path(TEST_PACKAGE);
    let mut config = PackageConfig::new(package_path.clone(), path("/T"));
    config.link_root = true;
    config.link_type = LinkType::HardLink;
    let cli = BoxUnboxCli::new(package_path.clone());

    let empty = UnboxPlan::plan_unboxing(config.clone(), &cli, Vec::new()).expect("plan");
    let broken = UnboxPlan::plan_unboxing(
        config,
        &cli,
        vec![file("a.txt"), Err("unreadable".to_string())],
    )
    .expect("plan");

    let expected = vec![PlannedLink {
        src: package_path,
        dest: path("/T"),
        ty: LinkType::HardLink,
    }];
    assert_eq!(empty.links, expected);
    assert_eq!(broken.links, expected);
}

fn bare_config(target: &str) -> PackageConfig {
    let mut config = PackageConfig::new(path(TEST_PACKAGE), path(target));
    config.exclude_pats.clear();
    config
}

#[test]
fn scenario_two_files_no_patterns() {
    let cli = BoxUnboxCli::new(path(TEST_PACKAGE));
    let items = vec![file("a.txt"), dir("sub"), file("sub/b.txt")];

    let plan = UnboxPlan::plan_unboxing(bare_config("/T"), &cli, items).expect("plan");

    assert_eq!(
        plan.links,
        vec![
            PlannedLink {
                src: path("/tmp/pkg/a.txt"),
                dest: path("/T/a.txt"),
                ty: LinkType::SymlinkAbsolute,
            },
            PlannedLink {
                src: path("/tmp/pkg/sub/b.txt"),
                dest: path("/T/sub/b.txt"),
                ty: LinkType::SymlinkAbsolute,
            },
        ]
    );
    assert_eq!(plan.efs, ExistingFileStrategy::ThrowError);
    assert!(plan.create_dirs);
}

#[test]
fn scenario_excluded_sub_directory() {
    let mut cli = BoxUnboxCli::new(path(TEST_PACKAGE));
    cli.exclude_pats
        .push(Pattern::new("^sub$").expect("pattern"));
    let mut config = bare_config("/T");
    config.merge_with_cli(&cli);
    let items = vec![file("a.txt"), dir("sub"), file("sub/b.txt")];

    let plan = UnboxPlan::plan_unboxing(config, &cli, items).expect("plan");

    assert_eq!(
        plan.links,
        vec![PlannedLink {
            src: path("/tmp/pkg/a.txt"),
            dest: path("/T/a.txt"),
            ty: LinkType::SymlinkAbsolute,
        }]
    );
}

#[test]
fn excluded_directory_configuration_is_not_read() {
    let mut config = bare_config("/T");
    config
        .exclude_pats
        .push(Pattern::new("^sub$").expect("pattern"));
    let cli = BoxUnboxCli::new(path(TEST_PACKAGE));
    let unreadable = ConfigLookup::Unreadable(ConfigRead::Toml("bad".to_string()));
    let items = vec![
        file("a.txt"),
        dir_with("sub", unreadable),
        file("sub/b.txt"),
        dir("sub/deeper"),
        file("sub/deeper/c.txt"),
        file("z.txt"),
    ];

    let plan = UnboxPlan::plan_unboxing(config, &cli, items).expect("plan");

    let sources: Vec<ComponentPath> = plan.links.iter().map(|pl| pl.src.clone()).collect();
    assert_eq!(sources, vec![path("/tmp/pkg/a.txt"), path("/tmp/pkg/z.txt")]);
}

#[test]
fn unreadable_nested_configuration_fails_the_plan() {
    let cli = BoxUnboxCli::new(path(TEST_PACKAGE));
    let unreadable = ConfigLookup::Unreadable(ConfigRead::Toml("bad".to_string()));
    let items = vec![file("a.txt"), dir_with("sub", unreadable), file("sub/b.txt")];

    let result = UnboxPlan::plan_unboxing(bare_config("/T"), &cli, items);

    match result {
        Err(PlanningError::ConfigParse(ConfigRead::Toml(reason))) => assert_eq!(reason, "bad"),
        other => panic!("unexpected result {other:?}"),
    }
}

#[test]
fn unreadable_entry_fails_the_plan() {
    let cli = BoxUnboxCli::new(path(TEST_PACKAGE));
    let items = vec![file("a.txt"), Err("permission denied".to_string()), file("b.txt")];

    let result = UnboxPlan::plan_unboxing(bare_config("/T"), &cli, items);

    match result {
        Err(PlanningError::Walkdir(reason)) => assert_eq!(reason, "permission denied"),
        other => panic!("unexpected result {other:?}"),
    }
}

#[test]
fn unselected_directory_is_still_entered() {
    // `sub` itself matches no pattern, yet the file below it does, and the
    // configuration of `sub` still applies to it.
    let mut config = bare_config("/T");
    config
        .include_pats
        .push(Pattern::new("^wanted").expect("pattern"));
    let cli = BoxUnboxCli::new(path(TEST_PACKAGE));
    let mut nested = PackageConfig::new_with_target(ComponentPath::new(), path("/N"));
    nested.exclude_pats.clear();
    nested.link_type = LinkType::HardLink;
    let items = vec![
        file("other.txt"),
        dir_with("sub", ConfigLookup::Current(nested)),
        file("sub/other.txt"),
        file("sub/wanted.txt"),
        file("wanted.txt"),
    ];

    let plan = UnboxPlan::plan_unboxing(config, &cli, items).expect("plan");

    assert_eq!(
        plan.links,
        vec![
            PlannedLink {
                src: path("/tmp/pkg/sub/wanted.txt"),
                dest: path("/N/sub/wanted.txt"),
                ty: LinkType::HardLink,
            },
            PlannedLink {
                src: path("/tmp/pkg/wanted.txt"),
                dest: path("/T/wanted.txt"),
                ty: LinkType::SymlinkAbsolute,
            },
        ]
    );
}

#[test]
fn nested_patterns_stop_at_the_nested_directory() {
    let cli = BoxUnboxCli::new(path(TEST_PACKAGE));
    let mut nested = PackageConfig::new_with_target(ComponentPath::new(), path("/N"));
    nested.exclude_pats.clear();
    nested
        .exclude_pats
        .push(Pattern::new("^skip").expect("pattern"));
    let items = vec![
        dir_with("a", ConfigLookup::Current(nested)),
        file("a/keep.txt"),
        file("a/skip.txt"),
        dir("b"),
        file("b/skip.txt"),
        file("skip.txt"),
    ];

    let plan = UnboxPlan::plan_unboxing(bare_config("/T"), &cli, items).expect("plan");

    let dests: Vec<ComponentPath> = plan.links.iter().map(|pl| pl.dest.clone()).collect();
    assert_eq!(
        dests,
        vec![
            path("/N/a/keep.txt"),
            path("/T/b/skip.txt"),
            path("/T/skip.txt"),
        ]
    );
}

#[test]
fn walk_tells_the_walker_what_to_leave_out() {
    let mut config = bare_config("/T");
    config
        .exclude_pats
        .push(Pattern::new("^sub$").expect("pattern"));
    let cli = BoxUnboxCli::new(path(TEST_PACKAGE));
    let walk = PlanWalk::new(config);

    assert!(!walk.enters(&path("/tmp/pkg")));
    assert!(walk.enters(&path("/tmp/pkg/other")));
    assert!(!walk.enters(&path("/tmp/pkg/sub")));

    let sub = PackageEntry::Dir(
        path("/tmp/pkg/sub"),
        ConfigLookup::Absent(path("/tmp/pkg/sub/.bub.toml")),
    );
    let walk = walk.visit(&cli, sub).expect("visit");
    assert!(!walk.enters(&path("/tmp/pkg/sub/inner")));

    let walk = walk
        .visit(&cli, PackageEntry::File(path("/tmp/pkg/sub/inner/a.txt")))
        .expect("visit");
    assert_eq!(walk.link_count(), 0);
    let walk = walk
        .visit(&cli, PackageEntry::File(path("/tmp/pkg/z.txt")))
        .expect("visit");
    assert_eq!(walk.link_count(), 1);

    let plan = walk.finish(&cli).expect("plan");
    assert_eq!(plan.links[0].dest, path("/T/z.txt"));
}

#[test]
fn settings_of_the_run_are_kept_on_the_plan() {
    let mut cli = BoxUnboxCli::new(path(TEST_PACKAGE));
    cli.existing_file_strategy = ExistingFileStrategy::Move;
    cli.no_create_dirs = true;

    let plan =
        UnboxPlan::plan_unboxing(bare_config("/T"), &cli, vec![file("a.txt")]).expect("plan");

    assert_eq!(plan.efs, ExistingFileStrategy::Move);
    assert!(!plan.create_dirs);
}

#[test]
fn plan_resolves_the_root_configuration_first() {
    let mut cli = BoxUnboxCli::new(path(TEST_PACKAGE));
    cli.link_type = Some(LinkType::HardLink);
    let missing = ConfigLookup::Absent(path("/tmp/pkg/.bub.toml"));
    let unreadable = ConfigLookup::Unreadable(ConfigRead::Toml("bad".to_string()));

    let by_default = plan(
        path(TEST_PACKAGE),
        &cli,
        missing,
        path("/home/me"),
        vec![file(".gitignore"), file("a.txt")],
    )
    .expect("plan");
    let as_saved = plan(
        path(TEST_PACKAGE),
        &cli,
        saved_default(),
        path("/home/me"),
        vec![file("a.txt")],
    )
    .expect("plan");
    let failed = plan(
        path(TEST_PACKAGE),
        &cli,
        unreadable,
        path("/home/me"),
        vec![file("a.txt")],
    );

    assert_eq!(
        by_default.links,
        vec![PlannedLink {
            src: path("/tmp/pkg/a.txt"),
            dest: path("/home/me/a.txt"),
            ty: LinkType::HardLink,
        }]
    );
    assert_eq!(
        as_saved.links,
        vec![PlannedLink {
            src: path("/tmp/pkg/a.txt"),
            dest: path("/path/to/test/target/a.txt"),
            ty: LinkType::HardLink,
        }]
    );
    assert!(matches!(
        failed,
        Err(PlanningError::ConfigParse(ConfigRead::Toml(reason))) if reason == "bad"
    ));
}
