//! Planning: from a package's entries to the links to create.
//!
//! The caller walks the package tree depth first, in sorted order, and hands
//! each entry to a [`PlanWalk`].  The walk keeps the stack of configurations
//! that apply where the walker stands: patterns count from every
//! configuration on the stack, target and link type from the top one alone.

use crate::cli::{BoxUnboxCli, CliView, ExistingFileStrategy};
use crate::error::PlanningError;
use crate::package::error::ConfigRead;
use crate::package::{
    default_config, initialized, merged, ConfigLookup, ConfigView, LinkType, PackageConfig,
};
use crate::path::{join, starts_with, ComponentPath, PathView};
use crate::pattern::{any_match, matches_any};
use vstd::prelude::*;

verus! {

/// One link to create: `dest` will refer to `src`.
#[derive(Debug, PartialEq, Eq, PartialOrd, Ord)]
pub struct PlannedLink {
    /// The entry of the package.
    pub src: ComponentPath,
    /// Where the link goes.
    pub dest: ComponentPath,
    /// What type of link to create.
    pub ty: LinkType,
}

/// The mathematical value of a [`PlannedLink`].
pub struct LinkView {
    pub src: PathView,
    pub dest: PathView,
    pub ty: LinkType,
}

impl View for PlannedLink {
    type V = LinkView;

    open spec fn view(&self) -> LinkView {
        LinkView { src: self.src@, dest: self.dest@, ty: self.ty }
    }
}

impl Clone for PlannedLink {
    fn clone(&self) -> (r: PlannedLink)
        ensures
            r@ == self@,
    {
        PlannedLink { src: self.src.clone(), dest: self.dest.clone(), ty: self.ty }
    }
}

/// The values of a run of links.
pub open spec fn links_view(v: Seq<PlannedLink>) -> Seq<LinkView> {
    Seq::new(v.len(), |i: int| v[i]@)
}

/// The values of a run of configurations.
pub open spec fn configs_view(v: Seq<PackageConfig>) -> Seq<ConfigView> {
    Seq::new(v.len(), |i: int| v[i]@)
}

/// The values of a run of paths.
pub open spec fn paths_view(v: Seq<ComponentPath>) -> Seq<PathView> {
    Seq::new(v.len(), |i: int| v[i]@)
}

/// The links to create, and how to go about it.
#[derive(Debug)]
pub struct UnboxPlan {
    /// The links, in the order in which the walk found them.
    pub links: Vec<PlannedLink>,
    /// What to do if something exists where a link should go.
    pub efs: ExistingFileStrategy,
    /// Whether to create the directories that a destination lacks.
    pub create_dirs: bool,
}

/// The mathematical value of an [`UnboxPlan`].
pub struct PlanView {
    pub links: Seq<LinkView>,
    pub efs: ExistingFileStrategy,
    pub create_dirs: bool,
}

impl View for UnboxPlan {
    type V = PlanView;

    open spec fn view(&self) -> PlanView {
        PlanView { links: links_view(self.links@), efs: self.efs, create_dirs: self.create_dirs }
    }
}

/// One entry of a package, as the walker found it.
#[derive(Debug)]
pub enum PackageEntry {
    /// Anything that is not a directory.
    File(ComponentPath),
    /// A directory, with what reading its configuration came to.  The
    /// lookup is not looked at for a directory that [`PlanWalk::enters`]
    /// turns down.
    Dir(ComponentPath, ConfigLookup),
}

impl PackageEntry {
    /// The path of the entry.
    pub open spec fn spec_path(self) -> PathView {
        match self {
            PackageEntry::File(path) => path@,
            PackageEntry::Dir(path, _) => path@,
        }
    }

    /// The path of the entry.
    pub fn path(&self) -> (p: &ComponentPath)
        ensures
            p@ == self.spec_path(),
    {
        match self {
            PackageEntry::File(path) => path,
            PackageEntry::Dir(path, _) => path,
        }
    }
}

/// Where a walk stands.
pub struct WalkView {
    /// The package the walk started from.
    pub root: PathView,
    /// The configurations that apply, the root's first.
    pub stack: Seq<ConfigView>,
    /// The directories whose subtrees are left out.
    pub pruned: Seq<PathView>,
    /// The links found so far.
    pub links: Seq<LinkView>,
}

/// Whether `path` is inside one of the `pruned` directories, or is one.
pub open spec fn is_pruned(pruned: Seq<PathView>, path: PathView) -> bool {
    exists|i: int| 0 <= i < pruned.len() && starts_with(path, #[trigger] pruned[i])
}

/// The stack as it applies at `path`: configurations are taken off the top
/// while `path` is outside the top one's package.  The root's configuration
/// stays.
pub open spec fn corrected(stack: Seq<ConfigView>, path: PathView) -> Seq<ConfigView>
    decreases stack.len(),
{
    if stack.len() > 1 && !starts_with(path, stack.last().package) {
        corrected(stack.drop_last(), path)
    } else {
        stack
    }
}

/// Whether a pattern for names to leave out, of any configuration on the
/// stack, matches `name`.
pub open spec fn excluded(stack: Seq<ConfigView>, name: Seq<char>) -> bool {
    exists|i: int| 0 <= i < stack.len() && any_match((#[trigger] stack[i]).exclude_sources, name)
}

/// Whether any configuration on the stack has a pattern for paths to take
/// in.
pub open spec fn selective(stack: Seq<ConfigView>) -> bool {
    exists|i: int| 0 <= i < stack.len() && (#[trigger] stack[i]).include_sources.len() > 0
}

/// Whether a pattern for paths to take in, of the configuration `config`,
/// matches a component of `path`.
pub open spec fn selects(config: ConfigView, path: PathView) -> bool {
    exists|k: int| 0 <= k < path.len() && any_match(config.include_sources, #[trigger] path[k])
}

/// Whether `path` is taken in: the stack has no pattern for that at all, or
/// one of them matches one of the path's components.
pub open spec fn included(stack: Seq<ConfigView>, path: PathView) -> bool {
    !selective(stack) || exists|i: int| 0 <= i < stack.len() && selects(#[trigger] stack[i], path)
}

/// Whether the walk looks at the entry at `path` at all: it is not the root
/// itself and not inside a pruned directory.
pub open spec fn looked_at(walk: WalkView, path: PathView) -> bool {
    path != walk.root && !is_pruned(walk.pruned, path)
}

/// Whether the entry at `path` passes the patterns for names to leave out.
pub open spec fn admitted(walk: WalkView, path: PathView) -> bool {
    looked_at(walk, path) && !excluded(corrected(walk.stack, path), path.last())
}

/// The link for the file at `path`, given the stack that applies there: from
/// the file to the same place below the top configuration's target that the
/// file has below the root package, with the top configuration's link type.
pub open spec fn link_for(root: PathView, stack: Seq<ConfigView>, path: PathView) -> LinkView {
    LinkView {
        src: path,
        dest: join(stack.last().target, path.skip(root.len() as int)),
        ty: stack.last().link_type,
    }
}

/// Where the walk stands after `entry`.
pub open spec fn step(walk: WalkView, cli: CliView, entry: PackageEntry) -> Result<
    WalkView,
    PlanningError,
> {
    let path = entry.spec_path();
    let stack = corrected(walk.stack, path);
    if !looked_at(walk, path) {
        Ok(walk)
    } else if excluded(stack, path.last()) {
        match entry {
            PackageEntry::Dir(_, _) => Ok(
                WalkView { stack, pruned: walk.pruned.push(path), ..walk },
            ),
            PackageEntry::File(_) => Ok(WalkView { stack, ..walk }),
        }
    } else {
        match entry {
            PackageEntry::Dir(_, lookup) => match initialized(path, cli, lookup) {
                Ok(config) => Ok(WalkView { stack: stack.push(config), ..walk }),
                Err(ConfigRead::FileNotFound(_)) => Ok(WalkView { stack, ..walk }),
                Err(reason) => Err(PlanningError::ConfigParse(reason)),
            },
            PackageEntry::File(_) => if included(stack, path) {
                Ok(
                    WalkView {
                        stack,
                        links: walk.links.push(link_for(walk.root, stack, path)),
                        ..walk
                    },
                )
            } else {
                Ok(WalkView { stack, ..walk })
            },
        }
    }
}

/// Where the walk stands after all of `items`, or the first failure among
/// them.
pub open spec fn walk_from(
    walk: WalkView,
    cli: CliView,
    items: Seq<Result<PackageEntry, String>>,
) -> Result<WalkView, PlanningError>
    decreases items.len(),
{
    if items.len() == 0 {
        Ok(walk)
    } else {
        match items[0] {
            Err(reason) => Err(PlanningError::Walkdir(reason)),
            Ok(entry) => match step(walk, cli, entry) {
                Ok(next) => walk_from(next, cli, items.drop_first()),
                Err(e) => Err(e),
            },
        }
    }
}

/// Where a walk of the package of `root` starts.
pub open spec fn start(root: ConfigView) -> WalkView {
    WalkView { root: root.package, stack: seq![root], pruned: Seq::empty(), links: Seq::empty() }
}

/// The plan that links the package directory itself.
pub open spec fn root_plan(root: ConfigView, cli: CliView) -> PlanView {
    PlanView {
        links: seq![LinkView { src: root.package, dest: root.target, ty: root.link_type }],
        efs: cli.existing_file_strategy,
        create_dirs: !cli.no_create_dirs,
    }
}

/// The plan for the package of `root` whose entries, below the root, are
/// `items`.
pub open spec fn planned(
    root: ConfigView,
    cli: CliView,
    items: Seq<Result<PackageEntry, String>>,
) -> Result<PlanView, PlanningError> {
    if root.link_root {
        Ok(root_plan(root, cli))
    } else {
        match walk_from(start(root), cli, items) {
            Err(e) => Err(e),
            Ok(end) => if end.links.len() == 0 {
                Err(PlanningError::EmptyPlan)
            } else {
                Ok(
                    PlanView {
                        links: end.links,
                        efs: cli.existing_file_strategy,
                        create_dirs: !cli.no_create_dirs,
                    },
                )
            },
        }
    }
}

/// The plan for the package at `package`, from what reading its
/// configuration came to.
pub open spec fn planned_from(
    package: PathView,
    cli: CliView,
    lookup: ConfigLookup,
    home: PathView,
    items: Seq<Result<PackageEntry, String>>,
) -> Result<PlanView, PlanningError> {
    match initialized(package, cli, lookup) {
        Ok(root) => planned(root, cli, items),
        Err(ConfigRead::FileNotFound(_)) => planned(
            merged(default_config(package, home), cli),
            cli,
            items,
        ),
        Err(reason) => Err(PlanningError::ConfigParse(reason)),
    }
}

/// Every entry of `items` is inside the package `root`.
pub open spec fn all_inside(root: PathView, items: Seq<Result<PackageEntry, String>>) -> bool {
    forall|i: int|
        0 <= i < items.len() ==> ((#[trigger] items[i]) matches Ok(entry) ==> starts_with(
            entry.spec_path(),
            root,
        ))
}

/// Whether `path` is inside one of the `pruned` directories, or is one.
fn under_any(pruned: &Vec<ComponentPath>, path: &ComponentPath) -> (b: bool)
    ensures
        b == is_pruned(paths_view(pruned@), path@),
{
    let n: usize = pruned.len();
    let mut i: usize = 0;
    while i < n
        invariant
            i <= n,
            n == pruned@.len(),
            forall|j: int| 0 <= j < i ==> !starts_with(path@, #[trigger] paths_view(pruned@)[j]),
        decreases n - i,
    {
        if path.starts_with(&pruned[i]) {
            assert(starts_with(path@, paths_view(pruned@)[i as int]));
            return true;
        }
        i = i + 1;
    }
    false
}

/// A walk over a package, entry by entry.
pub struct PlanWalk {
    root_config: PackageConfig,
    nested: Vec<PackageConfig>,
    pruned: Vec<ComponentPath>,
    links: Vec<PlannedLink>,
}

impl View for PlanWalk {
    type V = WalkView;

    closed spec fn view(&self) -> WalkView {
        WalkView {
            root: self.root_config@.package,
            stack: seq![self.root_config@] + configs_view(self.nested@),
            pruned: paths_view(self.pruned@),
            links: links_view(self.links@),
        }
    }
}

/// Whether a pattern of `config` for paths to take in matches a component of
/// `path`.
fn selected_by(config: &PackageConfig, path: &ComponentPath) -> (b: bool)
    ensures
        b == selects(config@, path@),
{
    let n: usize = path.components.len();
    let mut k: usize = 0;
    while k < n
        invariant
            k <= n,
            n == path.components@.len(),
            forall|j: int|
                0 <= j < k ==> !any_match(config@.include_sources, #[trigger] path@[j]),
        decreases n - k,
    {
        if matches_any(&config.include_pats, path.components[k].as_str()) {
            assert(any_match(config@.include_sources, path@[k as int]));
            return true;
        }
        k = k + 1;
    }
    false
}

impl PlanWalk {
    /// The walk of the package of `root_config`, before its first entry.
    pub fn new(root_config: PackageConfig) -> (r: PlanWalk)
        ensures
            r@ == start(root_config@),
    {
        let r = PlanWalk { root_config, nested: Vec::new(), pruned: Vec::new(), links: Vec::new() };
        assert(r@.stack =~= seq![root_config@]);
        assert(r@.pruned =~= Seq::empty());
        assert(r@.links =~= Seq::empty());
        r
    }

    /// How many nested configurations of the stack, above the root's, apply
    /// at `path`.
    fn depth_at(&self, path: &ComponentPath) -> (above: usize)
        ensures
            above <= self.nested@.len(),
            corrected(self@.stack, path@) == self@.stack.take(above + 1),
    {
        let ghost stack = self@.stack;
        let mut above: usize = self.nested.len();
        assert(stack.take(above + 1) =~= stack);
        loop
            invariant
                above <= self.nested@.len(),
                stack == self@.stack,
                corrected(stack, path@) == corrected(stack.take(above + 1), path@),
            ensures
                above <= self.nested@.len(),
                corrected(stack, path@) == stack.take(above + 1),
            decreases above,
        {
            let ghost here = stack.take(above + 1);
            if above == 0 {
                break;
            }
            assert(here.last() == self.nested@[above - 1]@);
            if path.starts_with(&self.nested[above - 1].package) {
                break;
            }
            assert(here.drop_last() =~= stack.take(above as int));
            above = above - 1;
        }
        above
    }

    /// Whether a pattern for names to leave out, of the root's configuration
    /// or of one of the first `above` nested ones, matches `name`.
    fn excluded_within(&self, above: usize, name: &str) -> (b: bool)
        requires
            above <= self.nested@.len(),
        ensures
            b == excluded(self@.stack.take(above + 1), name@),
    {
        let ghost stack = self@.stack.take(above + 1);
        if matches_any(&self.root_config.exclude_pats, name) {
            assert(any_match(stack[0].exclude_sources, name@));
            return true;
        }
        let mut i: usize = 0;
        while i < above
            invariant
                i <= above <= self.nested@.len(),
                stack == self@.stack.take(above + 1),
                forall|j: int|
                    0 <= j < i + 1 ==> !any_match((#[trigger] stack[j]).exclude_sources, name@),
            decreases above - i,
        {
            if matches_any(&self.nested[i].exclude_pats, name) {
                assert(any_match(stack[i + 1].exclude_sources, name@));
                return true;
            }
            i = i + 1;
        }
        false
    }

    /// Whether `path` is taken in by the stack as it is.
    fn included_here(&self, path: &ComponentPath) -> (b: bool)
        ensures
            b == included(self@.stack, path@),
    {
        let ghost stack = self@.stack;
        let mut selective_so_far = self.root_config.include_pats.len() > 0;
        assert(selective_so_far == (stack[0].include_sources.len() > 0));
        if selective_so_far && selected_by(&self.root_config, path) {
            assert(selects(stack[0], path@));
            return true;
        }
        assert(!selects(stack[0], path@));
        let n: usize = self.nested.len();
        let mut i: usize = 0;
        while i < n
            invariant
                i <= n,
                n == self.nested@.len(),
                stack == self@.stack,
                selective_so_far == exists|j: int|
                    0 <= j < i + 1 && (#[trigger] stack[j]).include_sources.len() > 0,
                forall|j: int| 0 <= j < i + 1 ==> !selects(#[trigger] stack[j], path@),
            decreases n - i,
        {
            let config = &self.nested[i];
            assert(config@ == stack[i + 1]);
            if config.include_pats.len() > 0 {
                assert(stack[i + 1].include_sources.len() > 0);
                selective_so_far = true;
                if selected_by(config, path) {
                    assert(selects(stack[i + 1], path@));
                    return true;
                }
            } else {
                assert(!selects(stack[i + 1], path@));
            }
            i = i + 1;
        }
        !selective_so_far
    }

    /// Whether the walk goes into the directory at `path`.  If not, the
    /// walker leaves the directory's subtree out, and the directory's
    /// configuration need not be read.
    pub fn enters(&self, path: &ComponentPath) -> (b: bool)
        requires
            starts_with(path@, self@.root),
        ensures
            b == admitted(self@, path@),
    {
        if path.equals(&self.root_config.package) || under_any(&self.pruned, path) {
            return false;
        }
        let above = self.depth_at(path);
        let n: usize = path.components.len();
        assert(n > 0) by {
            if n == 0 {
                assert(path@ =~= self@.root);
            }
        }
        !self.excluded_within(above, path.components[n - 1].as_str())
    }

    /// Takes the walk one entry further.  A configuration that cannot be
    /// read ends the walk: there is the failure then, and no walk to go on
    /// with or to get a plan from.
    pub fn visit(self, cli: &BoxUnboxCli, entry: PackageEntry) -> (r: Result<
        PlanWalk,
        PlanningError,
    >)
        requires
            starts_with(entry.spec_path(), self@.root),
        ensures
            match step(self@, cli@, entry) {
                Ok(next) => r matches Ok(walk) && walk@ == next,
                Err(e) => r matches Err(failure) && failure == e,
            },
    {
        let mut walk = self;
        let ghost before = walk@;
        let ghost path = entry.spec_path();
        if entry.path().equals(&walk.root_config.package) || under_any(
            &walk.pruned,
            entry.path(),
        ) {
            return Ok(walk);
        }
        let above = walk.depth_at(entry.path());
        walk.nested.truncate(above);
        assert(walk@.stack =~= corrected(before.stack, path));
        let n: usize = entry.path().components.len();
        assert(n > 0) by {
            if n == 0 {
                assert(path =~= before.root);
            }
        }
        assert(walk@.stack.take(above + 1) =~= walk@.stack);
        if walk.excluded_within(above, entry.path().components[n - 1].as_str()) {
            match entry {
                PackageEntry::Dir(dir, _) => {
                    walk.pruned.push(dir);
                    assert(walk@.pruned =~= before.pruned.push(path));
                },
                PackageEntry::File(_) => {},
            }
            return Ok(walk);
        }
        match entry {
            PackageEntry::Dir(dir, lookup) => {
                match PackageConfig::init(dir, cli, lookup) {
                    Ok(config) => {
                        walk.nested.push(config);
                        assert(walk@.stack =~= corrected(before.stack, path).push(config@));
                        Ok(walk)
                    },
                    Err(ConfigRead::FileNotFound(_)) => Ok(walk),
                    Err(reason) => Err(PlanningError::ConfigParse(reason)),
                }
            },
            PackageEntry::File(file) => {
                if walk.included_here(&file) {
                    let top = if above == 0 {
                        &walk.root_config
                    } else {
                        &walk.nested[above - 1]
                    };
                    assert(top@ == corrected(before.stack, path).last());
                    let tail = file.skip(walk.root_config.package.len());
                    let dest = top.target.join(&tail);
                    let ty = top.link_type;
                    walk.links.push(PlannedLink { src: file, dest, ty });
                    assert(walk@.links =~= before.links.push(
                        link_for(before.root, corrected(before.stack, path), path),
                    ));
                }
                Ok(walk)
            },
        }
    }

    /// The number of links found so far.
    pub fn link_count(&self) -> (n: usize)
        ensures
            n == self@.links.len(),
    {
        self.links.len()
    }

    /// Ends the walk: the plan with the links found, or
    /// [`PlanningError::EmptyPlan`] if there are none.
    pub fn finish(self, cli: &BoxUnboxCli) -> (r: Result<UnboxPlan, PlanningError>)
        ensures
            self@.links.len() == 0 ==> r == Err::<UnboxPlan, PlanningError>(
                PlanningError::EmptyPlan,
            ),
            self@.links.len() > 0 ==> (r matches Ok(plan) && plan@ == (PlanView {
                links: self@.links,
                efs: cli@.existing_file_strategy,
                create_dirs: !cli@.no_create_dirs,
            })),
    {
        if self.links.len() == 0 {
            Err(PlanningError::EmptyPlan)
        } else {
            Ok(
                UnboxPlan {
                    links: self.links,
                    efs: cli.existing_file_strategy,
                    create_dirs: !cli.no_create_dirs,
                },
            )
        }
    }
}

/// Plans the unboxing of the package at `package`.
///
/// `lookup` is what reading the package's own configuration came to; where
/// there is none, the default one applies, which links into `home`.  The
/// command line overrides either.  `items` is what a sorted depth-first walk
/// of the package yields below the package directory itself.  What the
/// command line says about files in the way and about missing directories is
/// kept on the plan for the run.
pub fn plan(
    package: ComponentPath,
    cli: &BoxUnboxCli,
    lookup: ConfigLookup,
    home: ComponentPath,
    items: Vec<Result<PackageEntry, String>>,
) -> (r: Result<UnboxPlan, PlanningError>)
    requires
        all_inside(package@, items@),
    ensures
        match planned_from(package@, cli@, lookup, home@, items@) {
            Ok(plan) => r matches Ok(p) && p@ == plan,
            Err(e) => r == Err::<UnboxPlan, PlanningError>(e),
        },
{
    match PackageConfig::resolve(package, cli, lookup, home) {
        Ok(root_config) => UnboxPlan::plan_unboxing(root_config, cli, items),
        Err(reason) => Err(PlanningError::ConfigParse(reason)),
    }
}

impl UnboxPlan {
    /// A plan for `links`, with the default strategy, that creates missing
    /// directories.
    pub fn from_links(links: Vec<PlannedLink>) -> (r: UnboxPlan)
        ensures
            r@ == (PlanView {
                links: links_view(links@),
                efs: ExistingFileStrategy::ThrowError,
                create_dirs: true,
            }),
    {
        UnboxPlan { links, efs: ExistingFileStrategy::ThrowError, create_dirs: true }
    }

    /// Plans the unboxing of the package of `root_config`, which the command
    /// line has been merged into already.  `items` is what a sorted
    /// depth-first walk of the package yields below the package directory
    /// itself, each entry or the failure to read it.
    ///
    /// With `link_root`, the plan is the one link from the target to the
    /// package, and `items` is not looked at.  Otherwise every file that the
    /// patterns let through gets a link.  The first entry that could not be
    /// read, or configuration inside the package that could not be, fails the
    /// planning, and so does a walk that finds nothing to link.
    #[verifier::loop_isolation(false)]
    pub fn plan_unboxing(
        root_config: PackageConfig,
        cli: &BoxUnboxCli,
        items: Vec<Result<PackageEntry, String>>,
    ) -> (r: Result<UnboxPlan, PlanningError>)
        requires
            all_inside(root_config@.package, items@),
        ensures
            match planned(root_config@, cli@, items@) {
                Ok(plan) => r matches Ok(p) && p@ == plan,
                Err(e) => r == Err::<UnboxPlan, PlanningError>(e),
            },
    {
        if root_config.link_root {
            let mut links: Vec<PlannedLink> = Vec::new();
            links.push(
                PlannedLink {
                    src: root_config.package,
                    dest: root_config.target,
                    ty: root_config.link_type,
                },
            );
            let plan = UnboxPlan {
                links,
                efs: cli.existing_file_strategy,
                create_dirs: !cli.no_create_dirs,
            };
            assert(plan@.links =~= root_plan(root_config@, cli@).links);
            return Ok(plan);
        }
        let ghost all = items@;
        let ghost first = start(root_config@);
        let mut walk = PlanWalk::new(root_config);
        assert(all.skip(0) =~= all);
        for item in it: items
            invariant
                it.seq() == all,
                all_inside(first.root, all),
                walk@.root == first.root,
                walk_from(first, cli@, all) == walk_from(walk@, cli@, all.skip(it.index() as int)),
        {
            let ghost rest = all.skip(it.index() as int);
            assert(rest[0] == all[it.index() as int]);
            assert(rest.drop_first() =~= all.skip(it.index() + 1));
            match item {
                Err(reason) => {
                    return Err(PlanningError::Walkdir(reason));
                },
                Ok(entry) => {
                    walk = match walk.visit(cli, entry) {
                        Ok(next) => next,
                        Err(e) => {
                            return Err(e);
                        },
                    };
                },
            }
        }
        assert(all.skip(all.len() as int) =~= Seq::empty());
        walk.finish(cli)
    }
}

} // verus!
