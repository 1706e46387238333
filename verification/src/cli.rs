//! What the command line can say about a run.

use crate::package::LinkType;
use crate::path::{ComponentPath, PathView};
use crate::pattern::{patterns_view, Pattern};
use vstd::prelude::*;

verus! {

/// Override the color setting.  The default is [`ColorOverride::Auto`].
#[derive(Copy, Clone, Debug, PartialEq, Eq, Structural)]
pub enum ColorOverride {
    /// Always display color.
    Always,
    /// Decide from the terminal whether to use color.
    Auto,
    /// Never display color.
    Never,
}

/// What to do if something already exists where a link should go.  The
/// default is [`ExistingFileStrategy::ThrowError`].
#[derive(Copy, Clone, Debug, PartialEq, Eq, Structural)]
pub enum ExistingFileStrategy {
    /// Copy the existing file over the package's file, then put the link in
    /// its place.
    Adopt,
    /// Leave the existing file alone and go on with the next link.
    Ignore,
    /// Rename the existing file to `<name>.bak`, then create the link.
    Move,
    /// Remove the existing file, then create the link.
    Overwrite,
    /// Stop the whole run.
    ThrowError,
}

impl Default for ColorOverride {
    fn default() -> (r: ColorOverride)
        ensures
            r == ColorOverride::Auto,
    {
        ColorOverride::Auto
    }
}

impl Default for ExistingFileStrategy {
    fn default() -> (r: ExistingFileStrategy)
        ensures
            r == ExistingFileStrategy::ThrowError,
    {
        ExistingFileStrategy::ThrowError
    }
}

impl ColorOverride {
    /// The word the command line uses for this setting.
    pub open spec fn label(self) -> Seq<char> {
        match self {
            ColorOverride::Always => "always"@,
            ColorOverride::Auto => "auto"@,
            ColorOverride::Never => "never"@,
        }
    }

    /// The word the command line uses for this setting.
    pub fn as_str(&self) -> (s: &'static str)
        ensures
            s@ == self.label(),
    {
        match self {
            ColorOverride::Always => "always",
            ColorOverride::Auto => "auto",
            ColorOverride::Never => "never",
        }
    }
}

impl ExistingFileStrategy {
    /// The word the command line uses for this strategy.
    pub open spec fn label(self) -> Seq<char> {
        match self {
            ExistingFileStrategy::ThrowError => "error"@,
            ExistingFileStrategy::Ignore => "ignore"@,
            ExistingFileStrategy::Move => "move"@,
            ExistingFileStrategy::Overwrite => "overwrite"@,
            ExistingFileStrategy::Adopt => "adopt"@,
        }
    }

    /// The word the command line uses for this strategy.
    pub fn as_str(&self) -> (s: &'static str)
        ensures
            s@ == self.label(),
    {
        match self {
            ExistingFileStrategy::ThrowError => "error",
            ExistingFileStrategy::Ignore => "ignore",
            ExistingFileStrategy::Move => "move",
            ExistingFileStrategy::Overwrite => "overwrite",
            ExistingFileStrategy::Adopt => "adopt",
        }
    }
}

/// The settings of one run, as given on the command line.  Those that
/// override a package's configuration do so in
/// [`PackageConfig::merge_with_cli`](crate::package::PackageConfig::merge_with_cli).
#[derive(Debug)]
pub struct BoxUnboxCli {
    /// The packages to unbox.
    pub packages: Vec<ComponentPath>,
    /// When to show color.
    pub color_override: ColorOverride,
    /// Show the plan without carrying it out.
    pub dry_run: bool,
    /// Further patterns for names to leave out.
    pub exclude_pats: Vec<Pattern>,
    /// Further patterns for paths to take in.
    pub include_pats: Vec<Pattern>,
    /// What to do if something exists where a link should go.
    pub existing_file_strategy: ExistingFileStrategy,
    /// Link the package directory itself.  `false` leaves the choice to the
    /// package's configuration.
    pub link_root: bool,
    /// The type of link to create, if the command line names one.
    pub link_type: Option<LinkType>,
    /// Save the merged configuration to the package.
    pub save_config: bool,
    /// Save the merged configuration as one for this operating system.
    pub save_os_config: bool,
    /// The directory to unbox into, if the command line names one.
    pub target: Option<ComponentPath>,
    /// Do not create missing directories in the target.
    pub no_create_dirs: bool,
}

/// The part of the command line that configuration and planning read.
pub struct CliView {
    pub exclude_sources: Seq<Seq<char>>,
    pub include_sources: Seq<Seq<char>>,
    pub existing_file_strategy: ExistingFileStrategy,
    pub link_root: bool,
    pub link_type: Option<LinkType>,
    pub target: Option<PathView>,
    pub no_create_dirs: bool,
}

impl View for BoxUnboxCli {
    type V = CliView;

    open spec fn view(&self) -> CliView {
        CliView {
            exclude_sources: patterns_view(self.exclude_pats@),
            include_sources: patterns_view(self.include_pats@),
            existing_file_strategy: self.existing_file_strategy,
            link_root: self.link_root,
            link_type: self.link_type,
            target: match self.target {
                Some(t) => Some(t@),
                None => None,
            },
            no_create_dirs: self.no_create_dirs,
        }
    }
}

impl BoxUnboxCli {
    /// A command line that names `package` and nothing else.
    pub fn new(package: ComponentPath) -> (r: BoxUnboxCli)
        ensures
            r.packages@ == seq![package],
            r.color_override == ColorOverride::Auto,
            !r.dry_run,
            !r.save_config,
            !r.save_os_config,
            r@ == (CliView {
                exclude_sources: Seq::empty(),
                include_sources: Seq::empty(),
                existing_file_strategy: ExistingFileStrategy::ThrowError,
                link_root: false,
                link_type: None,
                target: None,
                no_create_dirs: false,
            }),
    {
        let mut packages: Vec<ComponentPath> = Vec::new();
        packages.push(package);
        let r = BoxUnboxCli {
            packages,
            color_override: ColorOverride::Auto,
            dry_run: false,
            exclude_pats: Vec::new(),
            include_pats: Vec::new(),
            existing_file_strategy: ExistingFileStrategy::ThrowError,
            link_root: false,
            link_type: None,
            save_config: false,
            save_os_config: false,
            target: None,
            no_create_dirs: false,
        };
        assert(r@.exclude_sources =~= Seq::empty());
        assert(r@.include_sources =~= Seq::empty());
        r
    }
}

} // verus!
