//! What a plan looks like when it is shown, before any color is put on it.

use crate::cli::ExistingFileStrategy;
use crate::execute::relative_source;
use crate::package::{ConfigView, LinkType, PackageConfig};
use crate::path::{rendered, strip_prefix, ComponentPath, PathView};
use crate::plan::{LinkView, PlannedLink, UnboxPlan};
use crate::utils::{home_as_tilde, replace_home_with_tilde};
use vstd::prelude::*;

verus! {

/// One link of a plan, written out.
#[derive(Debug)]
pub struct DisplayLine {
    /// Where the link goes, as shown.
    pub dest: String,
    /// What the link refers to, as shown.
    pub src: String,
    /// What type of link it is.
    pub ty: LinkType,
    /// Where the link goes.  Lines are shown in the order of these.
    pub path: ComponentPath,
}

/// The mathematical value of a [`DisplayLine`].
pub struct LineView {
    pub dest: Seq<char>,
    pub src: Seq<char>,
    pub ty: LinkType,
    pub path: PathView,
}

impl View for DisplayLine {
    type V = LineView;

    open spec fn view(&self) -> LineView {
        LineView { dest: self.dest@, src: self.src@, ty: self.ty, path: self.path@ }
    }
}

/// The values of a run of lines.
pub open spec fn lines_view(v: Seq<DisplayLine>) -> Seq<LineView> {
    Seq::new(v.len(), |i: int| v[i]@)
}

/// A plan, written out.
#[derive(Debug)]
pub struct DisplayPlan {
    /// The package, with `~` for the home directory.
    pub package: String,
    /// The target, with `~` for the home directory.
    pub target: String,
    /// One line for each link, in the order of the plan.
    pub lines: Vec<DisplayLine>,
    /// What happens to a file that is in the way.
    pub efs_verb: &'static str,
    /// Whether missing directories are created.
    pub create_dirs: bool,
}

/// How `p` is shown in a plan: without `prefix` where it has it in front;
/// else, and always where the package directory itself is linked, with `~`
/// for the home directory.
pub open spec fn shown_path(link_root: bool, p: PathView, prefix: PathView, home: PathView) -> Seq<
    char,
> {
    if link_root {
        home_as_tilde(p, home)
    } else {
        match strip_prefix(p, prefix) {
            Some(tail) => rendered(tail),
            None => home_as_tilde(p, home),
        }
    }
}

/// How `link` is shown in the plan of the package of `root`.  A relative
/// link shows the relative path it will hold, where there is one.
pub open spec fn shown_link(root: ConfigView, home: PathView, link: LinkView) -> LineView {
    LineView {
        dest: shown_path(root.link_root, link.dest, root.target, home),
        src: if link.ty == LinkType::SymlinkRelative && relative_source(link) is Some {
            rendered(relative_source(link)->0)
        } else {
            shown_path(root.link_root, link.src, root.package, home)
        },
        ty: link.ty,
        path: link.dest,
    }
}

impl ExistingFileStrategy {
    /// What happens under this strategy to a file that is in the way.
    pub open spec fn verb(self) -> Seq<char> {
        match self {
            ExistingFileStrategy::Adopt => "be adopted"@,
            ExistingFileStrategy::Ignore => "be ignored"@,
            ExistingFileStrategy::Move => "be moved to <target_file>.bak"@,
            ExistingFileStrategy::Overwrite => "be overwritten"@,
            ExistingFileStrategy::ThrowError => "throw an error"@,
        }
    }

    /// What happens under this strategy to a file that is in the way.
    pub fn as_verb(&self) -> (s: &'static str)
        ensures
            s@ == self.verb(),
    {
        match self {
            ExistingFileStrategy::Adopt => "be adopted",
            ExistingFileStrategy::Ignore => "be ignored",
            ExistingFileStrategy::Move => "be moved to <target_file>.bak",
            ExistingFileStrategy::Overwrite => "be overwritten",
            ExistingFileStrategy::ThrowError => "throw an error",
        }
    }
}

/// Writes `p` out as a plan shows it.
fn show_path(link_root: bool, p: &ComponentPath, prefix: &ComponentPath, home: &ComponentPath) -> (s:
    String)
    ensures
        s@ == shown_path(link_root, p@, prefix@, home@),
{
    if link_root {
        return replace_home_with_tilde(p, home);
    }
    match p.strip_prefix(prefix) {
        Some(tail) => tail.to_string(),
        None => replace_home_with_tilde(p, home),
    }
}

impl PlannedLink {
    /// This link as the plan of the package of `root_config` shows it.
    pub fn display(&self, root_config: &PackageConfig, home: &ComponentPath) -> (line: DisplayLine)
        ensures
            line@ == shown_link(root_config@, home@, self@),
    {
        let link_root = root_config.link_root;
        let dest = show_path(link_root, &self.dest, &root_config.target, home);
        let relative = match self.ty {
            LinkType::SymlinkRelative => self.get_src_relative_to_dest(),
            _ => None,
        };
        let src = match relative {
            Some(path) => path.to_string(),
            None => show_path(link_root, &self.src, &root_config.package, home),
        };
        DisplayLine { dest, src, ty: self.ty, path: self.dest.clone() }
    }
}

impl UnboxPlan {
    /// This plan as it is shown for the package of `root_config`, with `~`
    /// for `home`, the user's home directory.
    pub fn display(&self, root_config: &PackageConfig, home: &ComponentPath) -> (shown: DisplayPlan)
        ensures
            shown.package@ == home_as_tilde(root_config@.package, home@),
            shown.target@ == home_as_tilde(root_config@.target, home@),
            lines_view(shown.lines@).len() == self@.links.len(),
            forall|i: int|
                0 <= i < self@.links.len() ==> #[trigger] lines_view(shown.lines@)[i] == shown_link(
                    root_config@,
                    home@,
                    self@.links[i],
                ),
            shown.efs_verb@ == self@.efs.verb(),
            shown.create_dirs == self@.create_dirs,
    {
        let n: usize = self.links.len();
        let mut lines: Vec<DisplayLine> = Vec::new();
        let mut i: usize = 0;
        while i < n
            invariant
                i <= n,
                n == self.links@.len(),
                lines@.len() == i,
                forall|j: int|
                    0 <= j < i ==> (#[trigger] lines@[j])@ == shown_link(
                        root_config@,
                        home@,
                        self@.links[j],
                    ),
            decreases n - i,
        {
            lines.push(self.links[i].display(root_config, home));
            i = i + 1;
        }
        DisplayPlan {
            package: replace_home_with_tilde(&root_config.package, home),
            target: replace_home_with_tilde(&root_config.target, home),
            lines,
            efs_verb: self.efs.as_verb(),
            create_dirs: self.create_dirs,
        }
    }
}

} // verus!
