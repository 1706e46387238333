//! Package configurations: what a directory says about how to link it, and
//! how the command line overrides that.

use crate::cli::{BoxUnboxCli, CliView};
use crate::package::error::ConfigRead;
use crate::path::{ComponentPath, PathView};
use crate::pattern::{
    clone_patterns, extend_patterns, patterns_view, regex_compiles, Pattern,
};
use crate::utils::{tilde_path, with_tilde};
use vstd::prelude::*;
use vstd::string::StringExecFns;

pub mod equality;
pub mod error;

verus! {

/// What type of link to create.
#[derive(Clone, Copy, Debug, PartialEq, Eq, Structural, PartialOrd, Ord, Hash)]
pub enum LinkType {
    /// A symbolic link that holds the absolute path of its source.
    SymlinkAbsolute,
    /// A symbolic link that holds the path of its source relative to the
    /// directory the link is in.
    SymlinkRelative,
    /// A hard link.
    HardLink,
}

impl Default for LinkType {
    fn default() -> (r: LinkType)
        ensures
            r == LinkType::SymlinkAbsolute,
    {
        LinkType::SymlinkAbsolute
    }
}

impl LinkType {
    /// The words that name this type of link.
    pub open spec fn label(self) -> Seq<char> {
        match self {
            LinkType::SymlinkAbsolute => "absolute symlink"@,
            LinkType::SymlinkRelative => "relative symlink"@,
            LinkType::HardLink => "hard link"@,
        }
    }

    /// The words that name this type of link.
    pub fn as_str(&self) -> (s: &'static str)
        ensures
            s@ == self.label(),
    {
        match self {
            LinkType::SymlinkAbsolute => "absolute symlink",
            LinkType::SymlinkRelative => "relative symlink",
            LinkType::HardLink => "hard link",
        }
    }

    /// The link type that the two switches of an old configuration ask for:
    /// hard links win over relative ones.
    pub open spec fn from_switches(use_relative_links: bool, use_hard_links: bool) -> LinkType {
        if use_hard_links {
            LinkType::HardLink
        } else if use_relative_links {
            LinkType::SymlinkRelative
        } else {
            LinkType::SymlinkAbsolute
        }
    }
}

/// `kept` with `source` added at the end if it compiles.
pub open spec fn keep_compiling(kept: Seq<Seq<char>>, source: Seq<char>) -> Seq<Seq<char>> {
    if regex_compiles(source) {
        kept.push(source)
    } else {
        kept
    }
}

/// The names a package leaves out unless told otherwise: its own
/// configuration files, what belongs to git, and readme and licence files.
pub open spec fn default_exclude() -> Seq<Seq<char>> {
    keep_compiling(
        keep_compiling(
            keep_compiling(
                keep_compiling(Seq::empty(), "\\.unboxrc.*$"@),
                "\\.bub\\.toml$"@,
            ),
            "^\\.git.*$"@,
        ),
        "^(README|LICEN[CS]E|COPYING).*$"@,
    )
}

/// `s` without the entries that occurred before in it.
pub open spec fn dedup(s: Seq<Seq<char>>) -> Seq<Seq<char>>
    decreases s.len(),
{
    if s.len() == 0 {
        Seq::empty()
    } else {
        let before = dedup(s.drop_last());
        if before.contains(s.last()) {
            before
        } else {
            before.push(s.last())
        }
    }
}

/// Adds `source` to `patterns` if it compiles.
fn push_if_compiling(patterns: &mut Vec<Pattern>, source: &str)
    ensures
        patterns_view(final(patterns)@) == keep_compiling(patterns_view(old(patterns)@), source@),
{
    match Pattern::new(source) {
        Ok(p) => {
            patterns.push(p);
            assert(patterns_view(patterns@) =~= patterns_view(old(patterns)@).push(source@));
        },
        Err(_) => {},
    }
}

/// The patterns for the names a package leaves out unless told otherwise.
pub fn default_exclude_pats() -> (r: Vec<Pattern>)
    ensures
        patterns_view(r@) == default_exclude(),
{
    let mut out: Vec<Pattern> = Vec::new();
    assert(patterns_view(out@) =~= Seq::empty());
    push_if_compiling(&mut out, "\\.unboxrc.*$");
    push_if_compiling(&mut out, "\\.bub\\.toml$");
    push_if_compiling(&mut out, "^\\.git.*$");
    push_if_compiling(&mut out, "^(README|LICEN[CS]E|COPYING).*$");
    out
}

/// Whether `patterns` holds one with the source text of `wanted`.
fn holds_source(patterns: &Vec<Pattern>, wanted: &Pattern) -> (b: bool)
    ensures
        b == patterns_view(patterns@).contains(wanted@),
{
    let n: usize = patterns.len();
    let mut i: usize = 0;
    while i < n
        invariant
            i <= n,
            n == patterns@.len(),
            forall|j: int| 0 <= j < i ==> patterns_view(patterns@)[j] != wanted@,
        decreases n - i,
    {
        if patterns[i].same_source(wanted) {
            assert(patterns_view(patterns@)[i as int] == wanted@);
            return true;
        }
        i = i + 1;
    }
    false
}

/// A package configuration in the old format, kept so that packages that
/// still carry one can be read.
#[derive(Debug)]
pub struct OldPackageConfig {
    pub target: ComponentPath,
    pub ignore_pats: Vec<Pattern>,
    pub link_root: bool,
    pub no_create_dirs: bool,
    pub use_relative_links: bool,
    pub use_hard_links: bool,
}

/// The mathematical value of an [`OldPackageConfig`].
pub struct OldConfigView {
    pub target: PathView,
    pub ignore: Seq<Seq<char>>,
    pub link_root: bool,
    pub no_create_dirs: bool,
    pub use_relative_links: bool,
    pub use_hard_links: bool,
}

impl View for OldPackageConfig {
    type V = OldConfigView;

    open spec fn view(&self) -> OldConfigView {
        OldConfigView {
            target: self.target@,
            ignore: patterns_view(self.ignore_pats@),
            link_root: self.link_root,
            no_create_dirs: self.no_create_dirs,
            use_relative_links: self.use_relative_links,
            use_hard_links: self.use_hard_links,
        }
    }
}

impl OldPackageConfig {
    /// The old configuration that says nothing of its own about `target`'s
    /// package.
    pub fn new(target: ComponentPath) -> (r: OldPackageConfig)
        ensures
            r@ == (OldConfigView {
                target: target@,
                ignore: default_exclude(),
                link_root: false,
                no_create_dirs: false,
                use_relative_links: false,
                use_hard_links: false,
            }),
    {
        OldPackageConfig {
            target,
            ignore_pats: default_exclude_pats(),
            link_root: false,
            no_create_dirs: false,
            use_relative_links: false,
            use_hard_links: false,
        }
    }

    /// The name of the file an old configuration is kept in.
    pub fn rc_file_name() -> (s: &'static str)
        ensures
            s@ == ".unboxrc.ron"@,
    {
        ".unboxrc.ron"
    }

    /// The name of the file an old configuration for the operating system
    /// `os` is kept in.
    pub fn os_rc_file_name(os: &str) -> (s: String)
        ensures
            s@ == ".unboxrc."@ + os@ + ".ron"@,
    {
        let mut s = ".unboxrc.".to_owned();
        s.append(os);
        s.append(".ron");
        s
    }

    /// The path of the old configuration file to read for the directory
    /// `package`: the one for the operating system `os` if it exists, else
    /// the general one if that exists, else none.
    pub fn path_to_read(
        package: &ComponentPath,
        os: &str,
        os_file_exists: bool,
        file_exists: bool,
    ) -> (r: Option<ComponentPath>)
        ensures
            r is Some <==> os_file_exists || file_exists,
            r matches Some(p) ==> p@ == package@.push(
                if os_file_exists {
                    ".unboxrc."@ + os@ + ".ron"@
                } else {
                    ".unboxrc.ron"@
                },
            ),
    {
        if os_file_exists {
            let mut r = package.clone();
            r.push(OldPackageConfig::os_rc_file_name(os));
            Some(r)
        } else if file_exists {
            let mut r = package.clone();
            r.push(OldPackageConfig::rc_file_name().to_owned());
            Some(r)
        } else {
            None
        }
    }
}

/// A package configuration.
#[derive(Debug)]
pub struct PackageConfig {
    /// The package this configuration is for: the directory its file is in,
    /// and the scope it applies to.
    pub package: ComponentPath,
    /// The directory the package's entries are linked into.
    pub target: ComponentPath,
    /// Patterns for the names to leave out.
    pub exclude_pats: Vec<Pattern>,
    /// Patterns for the paths to take in; none means all.
    pub include_pats: Vec<Pattern>,
    /// Link the package directory itself, with one link.
    pub link_root: bool,
    /// What type of link to create.
    pub link_type: LinkType,
}

/// The mathematical value of a [`PackageConfig`].
pub struct ConfigView {
    pub package: PathView,
    pub target: PathView,
    pub exclude_sources: Seq<Seq<char>>,
    pub include_sources: Seq<Seq<char>>,
    pub link_root: bool,
    pub link_type: LinkType,
}

impl View for PackageConfig {
    type V = ConfigView;

    open spec fn view(&self) -> ConfigView {
        ConfigView {
            package: self.package@,
            target: self.target@,
            exclude_sources: patterns_view(self.exclude_pats@),
            include_sources: patterns_view(self.include_pats@),
            link_root: self.link_root,
            link_type: self.link_type,
        }
    }
}

/// What reading a directory's configuration came to.
#[derive(Debug)]
pub enum ConfigLookup {
    /// A configuration in the current format was read.
    Current(PackageConfig),
    /// There is none in the current format, and one in the old format was
    /// read.
    Old(OldPackageConfig),
    /// There is none in either format.  The path is where the current one
    /// was looked for.
    Absent(ComponentPath),
    /// There is none in the current format at the path, and the one in the
    /// old format could not be read.
    OldUnreadable(ComponentPath, ConfigRead),
    /// The one in the current format could not be read.
    Unreadable(ConfigRead),
}

/// What the two attempts to read a directory's configuration come to
/// together.  `old` is the attempt at the old format, made only where there
/// is no configuration in the current format.
pub open spec fn looked_up(
    current: Result<PackageConfig, ConfigRead>,
    old: Option<Result<OldPackageConfig, ConfigRead>>,
) -> ConfigLookup {
    match current {
        Ok(config) => ConfigLookup::Current(config),
        Err(ConfigRead::FileNotFound(missing)) => match old {
            Some(Ok(config)) => ConfigLookup::Old(config),
            Some(Err(ConfigRead::FileNotFound(_))) => ConfigLookup::Absent(missing),
            Some(Err(reason)) => ConfigLookup::OldUnreadable(missing, reason),
            None => ConfigLookup::Absent(missing),
        },
        Err(reason) => ConfigLookup::Unreadable(reason),
    }
}

impl ConfigLookup {
    /// Puts the two attempts to read a directory's configuration together.
    /// A configuration in the current format wins.  Where there is none, one
    /// in the old format stands in; if that one cannot be read, the directory
    /// counts as having none, and the reason is kept.  A configuration in the
    /// current format that is there and cannot be read is a failure.
    pub fn from_reads(
        current: Result<PackageConfig, ConfigRead>,
        old: Option<Result<OldPackageConfig, ConfigRead>>,
    ) -> (r: ConfigLookup)
        ensures
            r == looked_up(current, old),
    {
        match current {
            Ok(config) => ConfigLookup::Current(config),
            Err(ConfigRead::FileNotFound(missing)) => match old {
                Some(Ok(config)) => ConfigLookup::Old(config),
                Some(Err(ConfigRead::FileNotFound(_))) => ConfigLookup::Absent(missing),
                Some(Err(reason)) => ConfigLookup::OldUnreadable(missing, reason),
                None => ConfigLookup::Absent(missing),
            },
            Err(reason) => ConfigLookup::Unreadable(reason),
        }
    }
}

/// The name of the configuration file for the operating system `os`.
pub open spec fn os_file_name(os: Seq<char>) -> Seq<char> {
    ".bub."@ + os + ".toml"@
}

/// The configuration with default values for `package`, linking into
/// `target`.
pub open spec fn default_config(package: PathView, target: PathView) -> ConfigView {
    ConfigView {
        package,
        target,
        exclude_sources: default_exclude(),
        include_sources: Seq::empty(),
        link_root: false,
        link_type: LinkType::SymlinkAbsolute,
    }
}

/// `config` overridden by `cli`: the command line's patterns follow the
/// configuration's own, its switch for linking the root can only turn that
/// on, and its link type and target replace the configuration's where the
/// command line names one.
pub open spec fn merged(config: ConfigView, cli: CliView) -> ConfigView {
    ConfigView {
        package: config.package,
        target: match cli.target {
            Some(t) => t,
            None => config.target,
        },
        exclude_sources: config.exclude_sources + cli.exclude_sources,
        include_sources: config.include_sources + cli.include_sources,
        link_root: config.link_root || cli.link_root,
        link_type: match cli.link_type {
            Some(t) => t,
            None => config.link_type,
        },
    }
}

/// The configuration in the current format that says what `old` said, for
/// `package`.
pub open spec fn converted(package: PathView, old: OldConfigView) -> ConfigView {
    ConfigView {
        package,
        target: old.target,
        exclude_sources: dedup(old.ignore + default_exclude()),
        include_sources: Seq::empty(),
        link_root: old.link_root,
        link_type: LinkType::from_switches(old.use_relative_links, old.use_hard_links),
    }
}

/// `config` as the configuration of `package`.
pub open spec fn placed(config: ConfigView, package: PathView) -> ConfigView {
    ConfigView { package, ..config }
}

/// What [`PackageConfig::init`] makes of a lookup.
pub open spec fn initialized(package: PathView, cli: CliView, lookup: ConfigLookup) -> Result<
    ConfigView,
    ConfigRead,
> {
    match lookup {
        ConfigLookup::Current(config) => Ok(merged(placed(config@, package), cli)),
        ConfigLookup::Old(old) => Ok(merged(converted(package, old@), cli)),
        ConfigLookup::Absent(path) => Err(ConfigRead::FileNotFound(path)),
        ConfigLookup::OldUnreadable(path, _) => Err(ConfigRead::FileNotFound(path)),
        ConfigLookup::Unreadable(reason) => Err(reason),
    }
}

impl PackageConfig {
    /// The name of the file a configuration is kept in.
    pub fn serde_file_name() -> (s: &'static str)
        ensures
            s@ == ".bub.toml"@,
    {
        ".bub.toml"
    }

    /// The configuration with default values for `package`, linking into
    /// `home`, the user's home directory.
    pub fn new(package: ComponentPath, home: ComponentPath) -> (r: PackageConfig)
        ensures
            r@ == default_config(package@, home@),
    {
        PackageConfig::new_with_target(package, home)
    }

    /// The configuration with default values for `package`, linking into
    /// `target`.
    pub fn new_with_target(package: ComponentPath, target: ComponentPath) -> (r: PackageConfig)
        ensures
            r@ == default_config(package@, target@),
    {
        let r = PackageConfig {
            package,
            target,
            exclude_pats: default_exclude_pats(),
            include_pats: Vec::new(),
            link_root: false,
            link_type: LinkType::SymlinkAbsolute,
        };
        assert(r@.include_sources =~= Seq::empty());
        r
    }

    /// Lets the command line override this configuration.
    pub fn merge_with_cli(&mut self, cli: &BoxUnboxCli)
        ensures
            final(self)@ == merged(old(self)@, cli@),
    {
        extend_patterns(&mut self.exclude_pats, &cli.exclude_pats);
        extend_patterns(&mut self.include_pats, &cli.include_pats);
        self.link_root = self.link_root || cli.link_root;
        match cli.link_type {
            Some(link_type) => {
                self.link_type = link_type;
            },
            None => {},
        }
        match &cli.target {
            Some(target) => {
                self.target = target.clone();
            },
            None => {},
        }
    }

    /// The configuration in the current format that says what `value` said.
    /// Patterns that occur twice are kept once, where they first occur.
    pub fn from_old_package(package: ComponentPath, value: OldPackageConfig) -> (r: PackageConfig)
        ensures
            r@ == converted(package@, value@),
    {
        let defaults = default_exclude_pats();
        let mut all = value.ignore_pats;
        extend_patterns(&mut all, &defaults);
        let ghost sources = patterns_view(all@);
        let n: usize = all.len();
        let mut exclude_pats: Vec<Pattern> = Vec::new();
        let mut i: usize = 0;
        assert(sources.take(0) =~= Seq::empty());
        assert(patterns_view(exclude_pats@) =~= Seq::empty());
        while i < n
            invariant
                i <= n,
                n == all@.len(),
                sources == patterns_view(all@),
                patterns_view(exclude_pats@) == dedup(sources.take(i as int)),
            decreases n - i,
        {
            let ghost before = patterns_view(exclude_pats@);
            assert(sources.take(i + 1).drop_last() =~= sources.take(i as int));
            assert(sources.take(i + 1).last() == all@[i as int]@);
            if !holds_source(&exclude_pats, &all[i]) {
                exclude_pats.push(all[i].clone());
                assert(patterns_view(exclude_pats@) =~= before.push(all@[i as int]@));
            }
            i = i + 1;
        }
        assert(sources.take(n as int) =~= sources);
        let link_type = if value.use_hard_links {
            LinkType::HardLink
        } else if value.use_relative_links {
            LinkType::SymlinkRelative
        } else {
            LinkType::SymlinkAbsolute
        };
        let r = PackageConfig {
            package,
            target: value.target,
            exclude_pats,
            include_pats: Vec::new(),
            link_root: value.link_root,
            link_type,
        };
        assert(r@.include_sources =~= Seq::empty());
        r
    }

    /// The effective configuration of the directory `package`, from what
    /// reading its configuration came to.  A configuration that was read is
    /// placed at `package` and overridden by the command line.  A missing one
    /// is told apart from one that could not be read: it comes back as
    /// [`ConfigRead::FileNotFound`], every other failure as it is.
    pub fn init(package: ComponentPath, cli: &BoxUnboxCli, lookup: ConfigLookup) -> (r: Result<
        PackageConfig,
        ConfigRead,
    >)
        ensures
            r is Ok <==> initialized(package@, cli@, lookup) is Ok,
            r matches Ok(config) ==> Ok::<ConfigView, ConfigRead>(config@) == initialized(
                package@,
                cli@,
                lookup,
            ),
            r matches Err(e) ==> Err::<ConfigView, ConfigRead>(e) == initialized(
                package@,
                cli@,
                lookup,
            ),
    {
        match lookup {
            ConfigLookup::Current(config) => {
                let mut config = config;
                config.package = package;
                config.merge_with_cli(cli);
                Ok(config)
            },
            ConfigLookup::Old(old) => {
                let mut config = PackageConfig::from_old_package(package, old);
                config.merge_with_cli(cli);
                Ok(config)
            },
            ConfigLookup::Absent(path) => Err(ConfigRead::FileNotFound(path)),
            ConfigLookup::OldUnreadable(path, _) => Err(ConfigRead::FileNotFound(path)),
            ConfigLookup::Unreadable(reason) => Err(reason),
        }
    }

    /// The effective configuration of the package a run starts from.  As
    /// [`PackageConfig::init`], but a missing configuration gives the default
    /// one, linking into `home`, overridden by the command line.
    pub fn resolve(
        package: ComponentPath,
        cli: &BoxUnboxCli,
        lookup: ConfigLookup,
        home: ComponentPath,
    ) -> (r: Result<PackageConfig, ConfigRead>)
        ensures
            match initialized(package@, cli@, lookup) {
                Ok(config) => r matches Ok(c) && c@ == config,
                Err(ConfigRead::FileNotFound(_)) => r matches Ok(c) && c@ == merged(
                    default_config(package@, home@),
                    cli@,
                ),
                Err(e) => r == Err::<PackageConfig, ConfigRead>(e),
            },
    {
        let fallback = package.clone();
        match PackageConfig::init(package, cli, lookup) {
            Ok(config) => Ok(config),
            Err(ConfigRead::FileNotFound(_)) => {
                let mut config = PackageConfig::new(fallback, home);
                config.merge_with_cli(cli);
                Ok(config)
            },
            Err(e) => Err(e),
        }
    }

    /// The name of the file a configuration for the operating system `os`
    /// is kept in.
    pub fn serde_os_file_name(os: &str) -> (s: String)
        ensures
            s@ == os_file_name(os@),
    {
        let mut s = ".bub.".to_owned();
        s.append(os);
        s.append(".toml");
        s
    }

    /// The path of this package's configuration file.
    pub fn disk_path(&self) -> (r: ComponentPath)
        ensures
            r@ == self@.package.push(".bub.toml"@),
    {
        let mut r = self.package.clone();
        r.push(PackageConfig::serde_file_name().to_owned());
        r
    }

    /// The path of this package's configuration file for the operating
    /// system `os`.
    pub fn os_disk_path(&self, os: &str) -> (r: ComponentPath)
        ensures
            r@ == self@.package.push(os_file_name(os@)),
    {
        let mut r = self.package.clone();
        r.push(PackageConfig::serde_os_file_name(os));
        r
    }

    /// The path of the configuration file to read for this package's
    /// directory: the one for the operating system `os` if it exists, else
    /// the general one.
    pub fn path_to_read(package: &ComponentPath, os: &str, os_file_exists: bool) -> (r:
        ComponentPath)
        ensures
            r@ == package@.push(
                if os_file_exists {
                    os_file_name(os@)
                } else {
                    ".bub.toml"@
                },
            ),
    {
        let mut r = package.clone();
        if os_file_exists {
            r.push(PackageConfig::serde_os_file_name(os));
        } else {
            r.push(PackageConfig::serde_file_name().to_owned());
        }
        r
    }

    /// This configuration as it is written to disk: package and target are
    /// written with `~` in place of `home`, the user's home directory, where
    /// they are inside it.
    pub fn for_saving(&self, home: &ComponentPath) -> (r: PackageConfig)
        ensures
            r@ == (ConfigView {
                package: tilde_path(self@.package, home@),
                target: tilde_path(self@.target, home@),
                ..self@
            }),
    {
        let mut r = self.clone();
        r.package = with_tilde(&self.package, home);
        r.target = with_tilde(&self.target, home);
        r
    }
}

impl Clone for PackageConfig {
    fn clone(&self) -> (r: PackageConfig)
        ensures
            r@ == self@,
    {
        PackageConfig {
            package: self.package.clone(),
            target: self.target.clone(),
            exclude_pats: clone_patterns(&self.exclude_pats),
            include_pats: clone_patterns(&self.include_pats),
            link_root: self.link_root,
            link_type: self.link_type,
        }
    }
}

} // verus!
