use boxunbox::cli::{BoxUnboxCli, ColorOverride, ExistingFileStrategy};
use boxunbox::package::error::ConfigRead;
use boxunbox::package::{
    default_exclude_pats, ConfigLookup, LinkType, OldPackageConfig, PackageConfig,
};
use boxunbox::path::ComponentPath;
use boxunbox::pattern::Pattern;
use boxunbox::rc::BoxUnboxRc;
use boxunbox::utils::vec_string_compare;

const TEST_TARGET: &str = "/path/to/test/target";

const TEST_PACKAGE: &str = "/tmp/pkg";

fn path(s: &str) -> ComponentPath {
    ComponentPath::from_components(
        std::path::Path::new(s)
            .components()
            .map(|c| c.as_os_str().to_string_lossy().into_owned())
            .collect(),
    )
}

fn sources(patterns: &[Pattern]) -> Vec<String> {
    patterns.iter().map(|p| p.as_str().to_string()).collect()
}

fn saved_default() -> ConfigLookup {
    ConfigLookup::Current(PackageConfig::new(ComponentPath::new(), path(TEST_TARGET)))
}

#[test]
fn test_try_from_package() {
    let package_path = path(TEST_PACKAGE);
    let cli = BoxUnboxCli::new(package_path.clone());
    let conf = PackageConfig::init(package_path.clone(), &cli, saved_default())
        .expect("failed to create package config from package");

    assert_eq!(conf.package, package_path);
    assert_eq!(conf.target, path(TEST_TARGET));
    let expected_exclude_pats = default_exclude_pats();
    assert!(vec_string_compare(
        &sources(&conf.exclude_pats),
        &sources(&expected_exclude_pats)
    ));
    assert!(conf.include_pats.is_empty());
    assert!(!conf.link_root);
    assert_eq!(conf.link_type, LinkType::SymlinkAbsolute);
}

#[test]
fn test_try_from_os_package() {
    let package_path = path(TEST_PACKAGE);

    let general = PackageConfig::path_to_read(&package_path, "linux", false);
    let for_os = PackageConfig::path_to_read(&package_path, "linux", true);

    assert_eq!(general, path("/tmp/pkg/.bub.toml"));
    assert_eq!(for_os, path("/tmp/pkg/.bub.linux.toml"));
    assert_eq!(PackageConfig::serde_os_file_name("macos"), ".bub.macos.toml");
}

#[test]
fn test_save_to_package() {
    let conf = PackageConfig::new(path(TEST_PACKAGE), path(TEST_TARGET));

    let saved = conf.for_saving(&path("/home/me"));

    assert_eq!(saved, conf);
    assert_eq!(conf.disk_path(), path("/tmp/pkg/.bub.toml"));
}

#[test]
fn test_save_to_package_with_home_target() {
    let home = path("/home/me");
    let conf = PackageConfig::new_with_target(
        path("/home/me/dots/pkg"),
        home.join(&path("path/to/test/target")),
    );

    let saved = conf.for_saving(&home);

    assert_eq!(saved.package, path("~/dots/pkg"));
    assert_eq!(saved.target, path("~/path/to/test/target"));
    assert_eq!(sources(&saved.exclude_pats), sources(&conf.exclude_pats));
    assert_eq!(saved.link_type, conf.link_type);
    assert_eq!(conf.for_saving(&path("/home/me/dots/pkg")).package, path("~"));
}

#[test]
fn test_save_to_os_package() {
    let conf = PackageConfig::new(path(TEST_PACKAGE), path(TEST_TARGET));

    assert_eq!(conf.os_disk_path("linux"), path("/tmp/pkg/.bub.linux.toml"));
}

#[test]
fn configurations_are_equal_whatever_the_order_of_their_patterns() {
    let mut left = PackageConfig::new(path(TEST_PACKAGE), path(TEST_TARGET));
    let mut right = PackageConfig::new(path(TEST_PACKAGE), path(TEST_TARGET));
    left.exclude_pats.push(Pattern::new("a").expect("pattern"));
    left.exclude_pats.push(Pattern::new("b").expect("pattern"));
    right.exclude_pats.push(Pattern::new("b").expect("pattern"));
    right.exclude_pats.push(Pattern::new("a").expect("pattern"));

    assert_eq!(left, right);

    right.exclude_pats.push(Pattern::new("a").expect("pattern"));
    assert_ne!(left, right);

    let mut other_target = PackageConfig::new(path(TEST_PACKAGE), path("/elsewhere"));
    other_target.exclude_pats = left.exclude_pats.clone();
    assert_ne!(left, other_target);

    let mut other_type = left.clone();
    assert_eq!(left, other_type);
    other_type.link_type = LinkType::HardLink;
    assert_ne!(left, other_type);
}

#[test]
fn run_commands_settings() {
    let conf = PackageConfig::new(path(TEST_PACKAGE), path(TEST_TARGET));

    assert_eq!(BoxUnboxRc::from_config(&conf).target, path(TEST_TARGET));
    assert_eq!(BoxUnboxRc::new(path("/home/me")).target, path("/home/me"));
    assert_eq!(BoxUnboxRc::rc_file_name(), ".unboxrc.ron");
}

#[test]
fn test_init() {
    let package_path = path(TEST_PACKAGE);
    let mut cli = BoxUnboxCli::new(package_path.clone());
    // change EVERY value from the default for a comprehensive test
    cli.link_root = true;
    cli.link_type = Some(LinkType::HardLink);
    let test_exclude_regex = Pattern::new("^test$").expect("failed to compile test exclude regex");
    let test_include_regex =
        Pattern::new("^nested").expect("failed to compile test include regex");
    cli.exclude_pats = vec![test_exclude_regex];
    cli.include_pats = vec![test_include_regex.clone()];
    let expected_target = path("/path/to/test/target");
    cli.target = Some(expected_target.clone());

    let conf = PackageConfig::init(package_path.clone(), &cli, saved_default())
        .expect("failed to create package config from package");

    assert_eq!(conf.package, package_path);
    assert_eq!(conf.target, expected_target);
    let expected_exclude_pats = default_exclude_pats()
        .into_iter()
        .chain(cli.exclude_pats.clone())
        .collect::<Vec<Pattern>>();
    let expected_include_pats = vec![test_include_regex];
    assert!(vec_string_compare(
        &sources(&conf.exclude_pats),
        &sources(&expected_exclude_pats)
    ));
    assert!(vec_string_compare(
        &sources(&conf.include_pats),
        &sources(&expected_include_pats)
    ));
    assert!(conf.link_root);
    assert_eq!(conf.link_type, LinkType::HardLink);
}

#[test]
fn test_from_old_package() {
    let package_path = path(TEST_PACKAGE);
    let old_config = OldPackageConfig::new(path(TEST_TARGET));
    let expected = PackageConfig::new(package_path.clone(), path(TEST_TARGET));
    let actual = PackageConfig::from_old_package(package_path, old_config);

    assert_eq!(expected, actual);
}

#[test]
fn test_from_old_package_file() {
    let package_path = path(TEST_PACKAGE);
    let target_path = path("/tmp/target");
    let actual_old_config = OldPackageConfig::new(target_path.clone());
    let expected_config = PackageConfig::new_with_target(package_path.clone(), target_path);
    let actual_config = PackageConfig::from_old_package(package_path, actual_old_config);

    assert_eq!(expected_config, actual_config);
}

#[test]
fn default_configuration_values() {
    let conf = PackageConfig::new(path(TEST_PACKAGE), path("/home/me"));

    assert_eq!(conf.package, path(TEST_PACKAGE));
    assert_eq!(conf.target, path("/home/me"));
    assert_eq!(
        sources(&conf.exclude_pats),
        vec![
            "\\.unboxrc.*$",
            "\\.bub\\.toml$",
            "^\\.git.*$",
            "^(README|LICEN[CS]E|COPYING).*$",
        ]
    );
    assert!(conf.include_pats.is_empty());
    assert!(!conf.link_root);
    assert_eq!(conf.link_type, LinkType::SymlinkAbsolute);
    assert_eq!(LinkType::default(), LinkType::SymlinkAbsolute);
    assert_eq!(ExistingFileStrategy::default(), ExistingFileStrategy::ThrowError);
    assert_eq!(ColorOverride::default(), ColorOverride::Auto);
}

#[test]
fn merge_appends_lists_and_keeps_scalars_that_are_not_overridden() {
    let mut conf = PackageConfig::new(path(TEST_PACKAGE), path("/home/me"));
    conf.link_root = true;
    conf.link_type = LinkType::SymlinkRelative;
    conf.include_pats.push(Pattern::new("a").expect("pattern"));
    let mut cli = BoxUnboxCli::new(path(TEST_PACKAGE));
    cli.exclude_pats.push(Pattern::new("x").expect("pattern"));
    cli.include_pats.push(Pattern::new("b").expect("pattern"));

    conf.merge_with_cli(&cli);

    assert_eq!(conf.package, path(TEST_PACKAGE));
    assert_eq!(conf.target, path("/home/me"));
    assert_eq!(sources(&conf.exclude_pats).len(), 5);
    assert_eq!(sources(&conf.exclude_pats)[4], "x");
    assert_eq!(sources(&conf.include_pats), vec!["a", "b"]);
    assert!(conf.link_root);
    assert_eq!(conf.link_type, LinkType::SymlinkRelative);
}

#[test]
fn merge_overrides_scalars_that_the_command_line_names() {
    let mut conf = PackageConfig::new(path(TEST_PACKAGE), path("/home/me"));
    let mut cli = BoxUnboxCli::new(path(TEST_PACKAGE));
    cli.link_root = true;
    cli.link_type = Some(LinkType::HardLink);
    cli.target = Some(path("/elsewhere"));

    conf.merge_with_cli(&cli);

    assert_eq!(conf.target, path("/elsewhere"));
    assert!(conf.link_root);
    assert_eq!(conf.link_type, LinkType::HardLink);
}

#[test]
fn old_configuration_is_converted() {
    let mut old = OldPackageConfig::new(path("/t"));
    old.ignore_pats = vec![
        Pattern::new("^mine$").expect("pattern"),
        Pattern::new("^\\.git.*$").expect("pattern"),
        Pattern::new("^mine$").expect("pattern"),
    ];
    old.link_root = true;
    old.use_relative_links = true;

    let conf = PackageConfig::from_old_package(path(TEST_PACKAGE), old);

    assert_eq!(
        sources(&conf.exclude_pats),
        vec![
            "^mine$",
            "^\\.git.*$",
            "\\.unboxrc.*$",
            "\\.bub\\.toml$",
            "^(README|LICEN[CS]E|COPYING).*$",
        ]
    );
    assert!(conf.include_pats.is_empty());
    assert!(conf.link_root);
    assert_eq!(conf.link_type, LinkType::SymlinkRelative);
    assert_eq!(conf.target, path("/t"));
}

#[test]
fn old_switches_choose_the_link_type() {
    let link_type = |relative: bool, hard: bool| {
        let mut old = OldPackageConfig::new(path("/t"));
        old.use_relative_links = relative;
        old.use_hard_links = hard;
        PackageConfig::from_old_package(path(TEST_PACKAGE), old).link_type
    };

    assert_eq!(link_type(false, false), LinkType::SymlinkAbsolute);
    assert_eq!(link_type(true, false), LinkType::SymlinkRelative);
    assert_eq!(link_type(false, true), LinkType::HardLink);
    assert_eq!(link_type(true, true), LinkType::HardLink);
}

#[test]
fn init_places_the_configuration_at_the_package() {
    let cli = BoxUnboxCli::new(path(TEST_PACKAGE));
    let read = PackageConfig::new_with_target(path("/somewhere/else"), path("/t"));

    let conf = PackageConfig::init(path(TEST_PACKAGE), &cli, ConfigLookup::Current(read))
        .expect("config");

    assert_eq!(conf.package, path(TEST_PACKAGE));
    assert_eq!(conf.target, path("/t"));
}

#[test]
fn init_converts_an_old_configuration() {
    let mut cli = BoxUnboxCli::new(path(TEST_PACKAGE));
    cli.exclude_pats.push(Pattern::new("x").expect("pattern"));
    let mut old = OldPackageConfig::new(path("/t"));
    old.use_hard_links = true;

    let conf =
        PackageConfig::init(path(TEST_PACKAGE), &cli, ConfigLookup::Old(old)).expect("config");

    assert_eq!(conf.package, path(TEST_PACKAGE));
    assert_eq!(conf.link_type, LinkType::HardLink);
    assert_eq!(sources(&conf.exclude_pats).len(), 5);
    assert_eq!(sources(&conf.exclude_pats)[4], "x");
}

#[test]
fn init_tells_missing_from_unreadable() {
    let cli = BoxUnboxCli::new(path(TEST_PACKAGE));
    let looked_for = path("/tmp/pkg/.bub.toml");

    let absent = PackageConfig::init(
        path(TEST_PACKAGE),
        &cli,
        ConfigLookup::Absent(looked_for.clone()),
    );
    let old_unreadable = PackageConfig::init(
        path(TEST_PACKAGE),
        &cli,
        ConfigLookup::OldUnreadable(looked_for.clone(), ConfigRead::Ron("bad".to_string())),
    );
    let unreadable = PackageConfig::init(
        path(TEST_PACKAGE),
        &cli,
        ConfigLookup::Unreadable(ConfigRead::Io {
            source: "denied".to_string(),
            path: looked_for.clone(),
        }),
    );

    assert!(matches!(absent, Err(ConfigRead::FileNotFound(p)) if p == looked_for));
    assert!(matches!(old_unreadable, Err(ConfigRead::FileNotFound(p)) if p == looked_for));
    assert!(
        matches!(unreadable, Err(ConfigRead::Io { source, path }) if source == "denied" && path == looked_for)
    );
}

#[test]
fn resolve_falls_back_to_defaults_for_a_missing_configuration() {
    let mut cli = BoxUnboxCli::new(path(TEST_PACKAGE));
    cli.link_type = Some(LinkType::SymlinkRelative);
    let looked_for = path("/tmp/pkg/.bub.toml");

    let conf = PackageConfig::resolve(
        path(TEST_PACKAGE),
        &cli,
        ConfigLookup::Absent(looked_for),
        path("/home/me"),
    )
    .expect("config");

    assert_eq!(conf.package, path(TEST_PACKAGE));
    assert_eq!(conf.target, path("/home/me"));
    assert_eq!(conf.link_type, LinkType::SymlinkRelative);
    assert_eq!(sources(&conf.exclude_pats).len(), 4);
}

#[test]
fn resolve_keeps_what_was_read_and_fails_on_what_could_not_be() {
    let cli = BoxUnboxCli::new(path(TEST_PACKAGE));
    let read = PackageConfig::new_with_target(ComponentPath::new(), path("/t"));

    let found = PackageConfig::resolve(
        path(TEST_PACKAGE),
        &cli,
        ConfigLookup::Current(read),
        path("/home/me"),
    )
    .expect("config");
    let failed = PackageConfig::resolve(
        path(TEST_PACKAGE),
        &cli,
        ConfigLookup::Unreadable(ConfigRead::Toml("bad".to_string())),
        path("/home/me"),
    );

    assert_eq!(found.target, path("/t"));
    assert!(matches!(failed, Err(ConfigRead::Toml(reason)) if reason == "bad"));
}

#[test]
fn configuration_file_paths() {
    let conf = PackageConfig::new(path(TEST_PACKAGE), path("/home/me"));

    assert_eq!(PackageConfig::serde_file_name(), ".bub.toml");
    assert_eq!(OldPackageConfig::rc_file_name(), ".unboxrc.ron");
    assert_eq!(conf.disk_path(), path("/tmp/pkg/.bub.toml"));
}

#[test]
fn labels() {
    assert_eq!(LinkType::SymlinkAbsolute.as_str(), "absolute symlink");
    assert_eq!(LinkType::SymlinkRelative.as_str(), "relative symlink");
    assert_eq!(LinkType::HardLink.as_str(), "hard link");
    assert_eq!(ExistingFileStrategy::ThrowError.as_str(), "error");
    assert_eq!(ExistingFileStrategy::Ignore.as_str(), "ignore");
    assert_eq!(ExistingFileStrategy::Move.as_str(), "move");
    assert_eq!(ExistingFileStrategy::Overwrite.as_str(), "overwrite");
    assert_eq!(ExistingFileStrategy::Adopt.as_str(), "adopt");
    assert_eq!(ColorOverride::Always.as_str(), "always");
    assert_eq!(ColorOverride::Auto.as_str(), "auto");
    assert_eq!(ColorOverride::Never.as_str(), "never");
}

#[test]
fn reads_are_put_together() {
    let missing = path("/tmp/pkg/.bub.toml");
    let current = || PackageConfig::new_with_target(ComponentPath::new(), path("/t"));
    let not_found = || Err(ConfigRead::FileNotFound(missing.clone()));

    let found = ConfigLookup::from_reads(Ok(current()), None);
    let old = ConfigLookup::from_reads(not_found(), Some(Ok(OldPackageConfig::new(path("/o")))));
    let absent = ConfigLookup::from_reads(
        not_found(),
        Some(Err(ConfigRead::FileNotFound(path("/tmp/pkg/.unboxrc.ron")))),
    );
    let unread = ConfigLookup::from_reads(not_found(), None);
    let old_unreadable =
        ConfigLookup::from_reads(not_found(), Some(Err(ConfigRead::Ron("bad".to_string()))));
    let unreadable = ConfigLookup::from_reads(Err(ConfigRead::Toml("bad".to_string())), None);

    assert!(matches!(found, ConfigLookup::Current(c) if c.target == path("/t")));
    assert!(matches!(old, ConfigLookup::Old(c) if c.target == path("/o")));
    assert!(matches!(absent, ConfigLookup::Absent(p) if p == missing));
    assert!(matches!(unread, ConfigLookup::Absent(p) if p == missing));
    assert!(
        matches!(old_unreadable, ConfigLookup::OldUnreadable(p, ConfigRead::Ron(r)) if p == missing && r == "bad")
    );
    assert!(matches!(unreadable, ConfigLookup::Unreadable(ConfigRead::Toml(r)) if r == "bad"));
}

#[test]
fn old_configuration_file_paths() {
    let package = path(TEST_PACKAGE);

    assert_eq!(OldPackageConfig::os_rc_file_name("linux"), ".unboxrc.linux.ron");
    assert_eq!(
        OldPackageConfig::path_to_read(&package, "linux", true, true),
        Some(path("/tmp/pkg/.unboxrc.linux.ron"))
    );
    assert_eq!(
        OldPackageConfig::path_to_read(&package, "linux", false, true),
        Some(path("/tmp/pkg/.unboxrc.ron"))
    );
    assert_eq!(OldPackageConfig::path_to_read(&package, "linux", false, false), None);
}
