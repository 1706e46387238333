//! What holds of every plan.

use crate::cli::CliView;
use crate::error::PlanningError;
use crate::package::ConfigView;
use crate::path::{join, starts_with, PathView};
use crate::pattern::any_match;
use crate::plan::{
    admitted, corrected, excluded, included, is_pruned, link_for, looked_at, planned, root_plan,
    selective, selects, start, step, walk_from, LinkView, PackageEntry, PlanView, WalkView,
};
use vstd::prelude::*;

verus! {

/// With `link_root` the plan is the one link from the target to the package,
/// whatever the package holds, be it nothing at all.
pub proof fn lemma_link_root_plans_one_link(
    root: ConfigView,
    cli: CliView,
    items: Seq<Result<PackageEntry, String>>,
)
    requires
        root.link_root,
    ensures
        planned(root, cli, items) == Ok::<PlanView, PlanningError>(root_plan(root, cli)),
        root_plan(root, cli).links.len() == 1,
        root_plan(root, cli).links[0] == (LinkView {
            src: root.package,
            dest: root.target,
            ty: root.link_type,
        }),
        planned(root, cli, Seq::empty()) == planned(root, cli, items),
{
}

/// A plan holds at least one link.
pub proof fn lemma_plan_is_never_empty(
    root: ConfigView,
    cli: CliView,
    items: Seq<Result<PackageEntry, String>>,
)
    requires
        planned(root, cli, items) is Ok,
    ensures
        planned(root, cli, items)->Ok_0.links.len() > 0,
{
}

/// Every entry of `items` was read, lies inside `root` without being `root`
/// itself, and, if a directory, has no configuration of its own.
pub open spec fn plain_listing(root: PathView, items: Seq<Result<PackageEntry, String>>) -> bool {
    forall|i: int|
        0 <= i < items.len() ==> match #[trigger] items[i] {
            Ok(PackageEntry::File(path)) => starts_with(path@, root) && path@ != root,
            Ok(PackageEntry::Dir(path, lookup)) => starts_with(path@, root) && path@ != root
                && lookup is Absent,
            Err(_) => false,
        }
}

/// One link for each file of `items`, in order: from the file to the same
/// place below the target of `root` that it has below the package of `root`.
pub open spec fn file_links(root: ConfigView, items: Seq<Result<PackageEntry, String>>) -> Seq<
    LinkView,
>
    decreases items.len(),
{
    if items.len() == 0 {
        Seq::empty()
    } else {
        let rest = file_links(root, items.drop_first());
        match items[0] {
            Ok(PackageEntry::File(path)) => seq![
                LinkView {
                    src: path@,
                    dest: join(root.target, path@.skip(root.package.len() as int)),
                    ty: root.link_type,
                },
            ] + rest,
            _ => rest,
        }
    }
}

/// The number of files among `items`.
pub open spec fn file_count(items: Seq<Result<PackageEntry, String>>) -> nat
    decreases items.len(),
{
    if items.len() == 0 {
        0
    } else {
        let rest = file_count(items.drop_first());
        match items[0] {
            Ok(PackageEntry::File(_)) => 1 + rest,
            _ => rest,
        }
    }
}

/// There is one link in `file_links` for each file.
pub proof fn lemma_file_links_len(root: ConfigView, items: Seq<Result<PackageEntry, String>>)
    ensures
        file_links(root, items).len() == file_count(items),
    decreases items.len(),
{
    if items.len() > 0 {
        lemma_file_links_len(root, items.drop_first());
    }
}

/// Without patterns and without nested configurations, a walk that stands at
/// the root's configuration alone adds one link for each file and changes
/// nothing else.
pub proof fn lemma_plain_walk(
    walk: WalkView,
    root: ConfigView,
    cli: CliView,
    items: Seq<Result<PackageEntry, String>>,
)
    requires
        walk.root == root.package,
        walk.stack == seq![root],
        walk.pruned.len() == 0,
        root.exclude_sources.len() == 0,
        root.include_sources.len() == 0,
        plain_listing(root.package, items),
    ensures
        walk_from(walk, cli, items) == Ok::<WalkView, PlanningError>(
            WalkView { links: walk.links + file_links(root, items), ..walk },
        ),
    decreases items.len(),
{
    if items.len() == 0 {
        assert(walk.links + file_links(root, items) =~= walk.links);
    } else {
        let first = items[0];
        let rest = items.drop_first();
        assert(plain_listing(root.package, rest)) by {
            assert forall|i: int| 0 <= i < rest.len() implies match #[trigger] rest[i] {
                Ok(PackageEntry::File(path)) => starts_with(path@, root.package) && path@
                    != root.package,
                Ok(PackageEntry::Dir(path, lookup)) => starts_with(path@, root.package) && path@
                    != root.package && lookup is Absent,
                Err(_) => false,
            } by {
                assert(rest[i] == items[i + 1]);
            }
        }
        let entry = first->Ok_0;
        let path = entry.spec_path();
        assert(corrected(walk.stack, path) == walk.stack);
        assert(!excluded(walk.stack, path.last()));
        assert(!selective(walk.stack));
        assert(!is_pruned(walk.pruned, path));
        let next = step(walk, cli, entry)->Ok_0;
        match entry {
            PackageEntry::File(_) => {
                let link = link_for(walk.root, walk.stack, path);
                assert(next == WalkView { links: walk.links.push(link), ..walk });
                lemma_plain_walk(next, root, cli, rest);
                assert(walk.links.push(link) + file_links(root, rest) =~= walk.links + file_links(
                    root,
                    items,
                ));
            },
            PackageEntry::Dir(_, lookup) => {
                assert(next == walk);
                lemma_plain_walk(next, root, cli, rest);
            },
        }
    }
}

/// Without nested configurations and without patterns, the plan has exactly
/// one link for each entry that is not a directory, in the order of the walk,
/// and each link goes to the place below the target that its file has below
/// the package.
pub proof fn lemma_plain_package_links_every_file(
    root: ConfigView,
    cli: CliView,
    items: Seq<Result<PackageEntry, String>>,
)
    requires
        !root.link_root,
        root.exclude_sources.len() == 0,
        root.include_sources.len() == 0,
        plain_listing(root.package, items),
    ensures
        file_links(root, items).len() == file_count(items),
        file_count(items) == 0 ==> planned(root, cli, items) == Err::<PlanView, PlanningError>(
            PlanningError::EmptyPlan,
        ),
        file_count(items) > 0 ==> planned(root, cli, items) == Ok::<PlanView, PlanningError>(
            PlanView {
                links: file_links(root, items),
                efs: cli.existing_file_strategy,
                create_dirs: !cli.no_create_dirs,
            },
        ),
{
    lemma_file_links_len(root, items);
    lemma_plain_walk(start(root), root, cli, items);
    assert(start(root).links + file_links(root, items) =~= file_links(root, items));
}

/// A directory whose name a pattern for names to leave out matches is
/// pruned: the walk notes it, adds no link, and reads no configuration.
pub proof fn lemma_excluded_dir_is_pruned(walk: WalkView, cli: CliView, entry: PackageEntry)
    requires
        entry is Dir,
        looked_at(walk, entry.spec_path()),
        excluded(corrected(walk.stack, entry.spec_path()), entry.spec_path().last()),
    ensures
        step(walk, cli, entry) == Ok::<WalkView, PlanningError>(
            WalkView {
                stack: corrected(walk.stack, entry.spec_path()),
                pruned: walk.pruned.push(entry.spec_path()),
                ..walk
            },
        ),
        is_pruned(step(walk, cli, entry)->Ok_0.pruned, entry.spec_path()),
{
    let path = entry.spec_path();
    let pruned = walk.pruned.push(path);
    assert(pruned[pruned.len() - 1] == path);
    assert(starts_with(path, path)) by {
        assert(path.subrange(0, path.len() as int) =~= path);
    }
}

/// An entry inside a pruned directory changes nothing, whatever it is.
pub proof fn lemma_pruned_entry_is_skipped(walk: WalkView, cli: CliView, entry: PackageEntry)
    requires
        is_pruned(walk.pruned, entry.spec_path()),
    ensures
        step(walk, cli, entry) == Ok::<WalkView, PlanningError>(walk),
{
}

/// If `path` starts with `mid` and `mid` with `base`, then `path` starts with
/// `base`.
pub proof fn lemma_starts_with_transitive(path: PathView, mid: PathView, base: PathView)
    requires
        starts_with(path, mid),
        starts_with(mid, base),
    ensures
        starts_with(path, base),
{
    assert(path.subrange(0, base.len() as int) =~= mid.subrange(0, base.len() as int)) by {
        assert forall|i: int| 0 <= i < base.len() implies path[i] == mid[i] by {
            assert(path.subrange(0, mid.len() as int)[i] == mid[i]);
        }
    }
}

/// One step keeps the pruned directories, and a link that it adds is for the
/// entry itself, which is then in no pruned directory.
pub proof fn lemma_step_respects_pruned(walk: WalkView, cli: CliView, entry: PackageEntry)
    requires
        step(walk, cli, entry) is Ok,
    ensures
        ({
            let next = step(walk, cli, entry)->Ok_0;
            &&& next.root == walk.root
            &&& forall|d: PathView| is_pruned(walk.pruned, d) ==> is_pruned(next.pruned, d)
            &&& forall|l: LinkView| #[trigger]
                next.links.contains(l) ==> walk.links.contains(l) || (l.src == entry.spec_path()
                    && !is_pruned(walk.pruned, entry.spec_path()))
        }),
{
    let next = step(walk, cli, entry)->Ok_0;
    let path = entry.spec_path();
    assert forall|d: PathView| is_pruned(walk.pruned, d) implies is_pruned(next.pruned, d) by {
        let i = choose|i: int| 0 <= i < walk.pruned.len() && starts_with(d, walk.pruned[i]);
        if next.pruned != walk.pruned {
            assert(next.pruned == walk.pruned.push(path));
            assert(next.pruned[i] == walk.pruned[i]);
        }
    }
    assert forall|l: LinkView| #[trigger] next.links.contains(l) implies walk.links.contains(l)
        || (l.src == path && !is_pruned(walk.pruned, path)) by {
        if next.links != walk.links {
            let stack = corrected(walk.stack, path);
            let link = link_for(walk.root, stack, path);
            assert(next.links == walk.links.push(link));
            let i = choose|i: int| 0 <= i < next.links.len() && next.links[i] == l;
            if i < walk.links.len() {
                assert(walk.links[i] == l);
            } else {
                assert(l == link);
            }
        }
    }
}

/// Once a directory is pruned, the walk adds no link inside it: whatever the
/// plan holds there at the end, it held before.
pub proof fn lemma_pruned_subtree_gains_no_link(
    walk: WalkView,
    cli: CliView,
    items: Seq<Result<PackageEntry, String>>,
    dir: PathView,
)
    requires
        is_pruned(walk.pruned, dir),
        walk_from(walk, cli, items) is Ok,
    ensures
        forall|l: LinkView| #[trigger]
            walk_from(walk, cli, items)->Ok_0.links.contains(l) && starts_with(l.src, dir)
                ==> walk.links.contains(l),
    decreases items.len(),
{
    if items.len() > 0 {
        let entry = items[0]->Ok_0;
        let next = step(walk, cli, entry)->Ok_0;
        let end = walk_from(walk, cli, items)->Ok_0;
        lemma_step_respects_pruned(walk, cli, entry);
        lemma_pruned_subtree_gains_no_link(next, cli, items.drop_first(), dir);
        assert forall|l: LinkView| #[trigger] end.links.contains(l) && starts_with(
            l.src,
            dir,
        ) implies walk.links.contains(l) by {
            assert(next.links.contains(l));
            if !walk.links.contains(l) {
                assert(l.src == entry.spec_path());
                let i = choose|i: int| 0 <= i < walk.pruned.len() && starts_with(dir, walk.pruned[i]);
                lemma_starts_with_transitive(l.src, dir, walk.pruned[i]);
                assert(is_pruned(walk.pruned, l.src));
            }
        }
    }
}

/// Leaving out a directory leaves out its subtree.  When the walk comes to a
/// directory whose name matches a pattern for names to leave out, then
/// whatever follows, the links inside that directory at the end are those
/// that were there before.  A walk that comes to a directory before it comes
/// to anything inside it therefore plans no link inside a directory that is
/// left out.
pub proof fn lemma_excluded_dir_prunes_subtree(
    walk: WalkView,
    cli: CliView,
    entry: PackageEntry,
    items: Seq<Result<PackageEntry, String>>,
)
    requires
        entry is Dir,
        looked_at(walk, entry.spec_path()),
        excluded(corrected(walk.stack, entry.spec_path()), entry.spec_path().last()),
        walk_from(walk, cli, seq![Ok(entry)] + items) is Ok,
    ensures
        forall|l: LinkView| #[trigger]
            walk_from(walk, cli, seq![Ok(entry)] + items)->Ok_0.links.contains(l) && starts_with(
                l.src,
                entry.spec_path(),
            ) ==> walk.links.contains(l),
{
    let all = seq![Ok::<PackageEntry, String>(entry)] + items;
    assert(all[0] == Ok::<PackageEntry, String>(entry));
    assert(all.drop_first() =~= items);
    lemma_excluded_dir_is_pruned(walk, cli, entry);
    let next = step(walk, cli, entry)->Ok_0;
    lemma_pruned_subtree_gains_no_link(next, cli, items, entry.spec_path());
}

/// Walking `first` and then `rest` is walking them all.
pub proof fn lemma_walk_from_concat(
    walk: WalkView,
    cli: CliView,
    first: Seq<Result<PackageEntry, String>>,
    rest: Seq<Result<PackageEntry, String>>,
)
    ensures
        walk_from(walk, cli, first + rest) == match walk_from(walk, cli, first) {
            Ok(mid) => walk_from(mid, cli, rest),
            Err(e) => Err(e),
        },
    decreases first.len(),
{
    if first.len() == 0 {
        assert(first + rest =~= rest);
    } else {
        assert((first + rest)[0] == first[0]);
        assert((first + rest).drop_first() =~= first.drop_first() + rest);
        match first[0] {
            Ok(entry) => match step(walk, cli, entry) {
                Ok(next) => lemma_walk_from_concat(next, cli, first.drop_first(), rest),
                Err(_) => {},
            },
            Err(_) => {},
        }
    }
}

/// The walk is one of the package of `root`: the configuration of `root` is
/// at the bottom of the stack.
pub open spec fn rooted(walk: WalkView, root: ConfigView) -> bool {
    walk.stack.len() > 0 && walk.stack[0] == root && walk.root == root.package
}

/// The configuration of the root stays at the bottom of the stack, whatever
/// the walk comes to.
pub proof fn lemma_walk_stays_rooted(
    walk: WalkView,
    root: ConfigView,
    cli: CliView,
    items: Seq<Result<PackageEntry, String>>,
)
    requires
        rooted(walk, root),
        walk_from(walk, cli, items) is Ok,
    ensures
        rooted(walk_from(walk, cli, items)->Ok_0, root),
    decreases items.len(),
{
    if items.len() > 0 {
        let entry = items[0]->Ok_0;
        let next = step(walk, cli, entry)->Ok_0;
        lemma_top_config_encloses(walk.stack, entry.spec_path());
        let kept = corrected(walk.stack, entry.spec_path());
        assert(kept[0] == walk.stack[0]);
        assert(next.stack == walk.stack || next.stack == kept || (next.stack.len() == kept.len()
            + 1 && next.stack[0] == kept[0]));
        lemma_walk_stays_rooted(next, root, cli, items.drop_first());
    }
}

/// Every link that a walk adds is for one of the entries it came to.
pub proof fn lemma_links_come_from_entries(
    walk: WalkView,
    cli: CliView,
    items: Seq<Result<PackageEntry, String>>,
)
    requires
        walk_from(walk, cli, items) is Ok,
    ensures
        forall|l: LinkView| #[trigger]
            walk_from(walk, cli, items)->Ok_0.links.contains(l) ==> walk.links.contains(l) || (
            exists|j: int|
                0 <= j < items.len() && (#[trigger] items[j]) is Ok && items[j]->Ok_0.spec_path()
                    == l.src),
    decreases items.len(),
{
    if items.len() > 0 {
        let entry = items[0]->Ok_0;
        let next = step(walk, cli, entry)->Ok_0;
        let rest = items.drop_first();
        let end = walk_from(walk, cli, items)->Ok_0;
        lemma_step_respects_pruned(walk, cli, entry);
        lemma_links_come_from_entries(next, cli, rest);
        assert forall|l: LinkView| #[trigger] end.links.contains(l) implies walk.links.contains(l)
            || (exists|j: int|
            0 <= j < items.len() && (#[trigger] items[j]) is Ok && items[j]->Ok_0.spec_path()
                == l.src) by {
            if next.links.contains(l) {
                if !walk.links.contains(l) {
                    assert(items[0] is Ok && items[0]->Ok_0.spec_path() == l.src);
                }
            } else {
                let j = choose|j: int|
                    0 <= j < rest.len() && (#[trigger] rest[j]) is Ok && rest[j]->Ok_0.spec_path()
                        == l.src;
                assert(items[j + 1] == rest[j]);
            }
        }
    }
}

/// No link is planned inside a directory that is left out.  Let the walk of
/// the package of `root` come to the directory `dir` after `before` and
/// before `after`, with nothing inside `dir` among `before`, as it is when a
/// directory is listed ahead of what it holds.  If a pattern of `root` for
/// names to leave out matches the name of `dir`, no link of the plan has its
/// source inside `dir`.
pub proof fn lemma_no_link_inside_excluded_dir(
    root: ConfigView,
    cli: CliView,
    before: Seq<Result<PackageEntry, String>>,
    dir: PackageEntry,
    after: Seq<Result<PackageEntry, String>>,
)
    requires
        !root.link_root,
        dir is Dir,
        dir.spec_path() != root.package,
        any_match(root.exclude_sources, dir.spec_path().last()),
        forall|j: int|
            0 <= j < before.len() && (#[trigger] before[j]) is Ok ==> !starts_with(
                before[j]->Ok_0.spec_path(),
                dir.spec_path(),
            ),
        planned(root, cli, before + seq![Ok(dir)] + after) is Ok,
    ensures
        forall|l: LinkView| #[trigger]
            planned(root, cli, before + seq![Ok(dir)] + after)->Ok_0.links.contains(l)
                ==> !starts_with(l.src, dir.spec_path()),
{
    let path = dir.spec_path();
    let tail = seq![Ok::<PackageEntry, String>(dir)] + after;
    let all = before + seq![Ok::<PackageEntry, String>(dir)] + after;
    assert(all =~= before + tail);
    lemma_walk_from_concat(start(root), cli, before, tail);
    let mid = walk_from(start(root), cli, before)->Ok_0;
    let end = walk_from(mid, cli, tail)->Ok_0;
    assert(planned(root, cli, all)->Ok_0.links == end.links);
    lemma_walk_stays_rooted(start(root), root, cli, before);
    lemma_links_come_from_entries(start(root), cli, before);
    // Nothing that was planned before the walk came to `dir` is inside it.
    assert forall|l: LinkView| #[trigger] mid.links.contains(l) implies !starts_with(
        l.src,
        path,
    ) by {
        assert(!start(root).links.contains(l));
    }
    // And nothing inside it is planned from then on.
    assert(tail[0] == Ok::<PackageEntry, String>(dir));
    assert(tail.drop_first() =~= after);
    assert(starts_with(path, path)) by {
        assert(path.subrange(0, path.len() as int) =~= path);
    }
    if is_pruned(mid.pruned, path) {
        lemma_pruned_subtree_gains_no_link(mid, cli, tail, path);
    } else {
        lemma_top_config_encloses(mid.stack, path);
        let kept = corrected(mid.stack, path);
        assert(kept[0] == root);
        assert(excluded(kept, path.last()));
        lemma_excluded_dir_prunes_subtree(mid, cli, dir, after);
    }
}

/// `a` comes before `b` where names are put in order: at the first place
/// where they differ, `a` has the smaller character, or `a` has ended.
pub open spec fn name_less(a: Seq<char>, b: Seq<char>) -> bool
    decreases a.len(),
{
    if b.len() == 0 {
        false
    } else if a.len() == 0 {
        true
    } else if a[0] == b[0] {
        name_less(a.drop_first(), b.drop_first())
    } else {
        (a[0] as u32) < (b[0] as u32)
    }
}

/// `p` comes before `q` in a sorted depth-first walk: at the first place
/// where they differ, `p` has the name that comes first, or `p` has ended, as
/// a directory comes before what it holds.
pub open spec fn path_less(p: PathView, q: PathView) -> bool
    decreases p.len(),
{
    if q.len() == 0 {
        false
    } else if p.len() == 0 {
        true
    } else if p[0] == q[0] {
        path_less(p.drop_first(), q.drop_first())
    } else {
        name_less(p[0], q[0])
    }
}

/// The entries come as a sorted depth-first walk yields them.
pub open spec fn in_walk_order(items: Seq<Result<PackageEntry, String>>) -> bool {
    forall|i: int, j: int|
        0 <= i < j < items.len() && (#[trigger] items[i]) is Ok && (#[trigger] items[j]) is Ok
            ==> path_less(items[i]->Ok_0.spec_path(), items[j]->Ok_0.spec_path())
}

/// What is inside a directory does not come before the directory.
pub proof fn lemma_dir_comes_first(path: PathView, dir: PathView)
    requires
        starts_with(path, dir),
    ensures
        !path_less(path, dir),
    decreases dir.len(),
{
    if dir.len() > 0 {
        assert(path.subrange(0, dir.len() as int)[0] == dir[0]);
        assert(path.drop_first().subrange(0, dir.len() - 1) =~= dir.drop_first()) by {
            assert forall|k: int| 0 <= k < dir.len() - 1 implies path.drop_first().subrange(
                0,
                dir.len() - 1,
            )[k] == dir.drop_first()[k] by {
                assert(path.subrange(0, dir.len() as int)[k + 1] == dir[k + 1]);
            }
        }
        lemma_dir_comes_first(path.drop_first(), dir.drop_first());
    }
}

/// In a sorted depth-first walk, leaving out a directory leaves out its
/// subtree.  If a pattern of `root` for names to leave out matches the name
/// of the directory at place `i` of the walk, no link of the plan has its
/// source inside that directory.
pub proof fn lemma_sorted_walk_prunes_excluded_dir(
    root: ConfigView,
    cli: CliView,
    items: Seq<Result<PackageEntry, String>>,
    i: int,
)
    requires
        !root.link_root,
        in_walk_order(items),
        0 <= i < items.len(),
        items[i] is Ok,
        items[i]->Ok_0 is Dir,
        items[i]->Ok_0.spec_path() != root.package,
        any_match(root.exclude_sources, items[i]->Ok_0.spec_path().last()),
        planned(root, cli, items) is Ok,
    ensures
        forall|l: LinkView| #[trigger]
            planned(root, cli, items)->Ok_0.links.contains(l) ==> !starts_with(
                l.src,
                items[i]->Ok_0.spec_path(),
            ),
{
    let dir = items[i]->Ok_0;
    let before = items.take(i);
    let after = items.skip(i + 1);
    assert(items =~= before + seq![Ok::<PackageEntry, String>(dir)] + after);
    assert forall|j: int| 0 <= j < before.len() && (#[trigger] before[j]) is Ok implies !starts_with(
        before[j]->Ok_0.spec_path(),
        dir.spec_path(),
    ) by {
        assert(before[j] == items[j]);
        if starts_with(items[j]->Ok_0.spec_path(), dir.spec_path()) {
            lemma_dir_comes_first(items[j]->Ok_0.spec_path(), dir.spec_path());
            assert(path_less(items[j]->Ok_0.spec_path(), items[i]->Ok_0.spec_path()));
        }
    }
    lemma_no_link_inside_excluded_dir(root, cli, before, dir, after);
}

/// Patterns for paths to take in never prune.  A directory that the patterns
/// for names to leave out let through is gone into, and its configuration
/// read, whether or not a pattern for paths to take in matches it.
pub proof fn lemma_unselected_dir_is_entered(walk: WalkView, cli: CliView, entry: PackageEntry)
    requires
        entry is Dir,
        admitted(walk, entry.spec_path()),
        step(walk, cli, entry) is Ok,
    ensures
        step(walk, cli, entry)->Ok_0.pruned == walk.pruned,
        step(walk, cli, entry)->Ok_0.links == walk.links,
        !is_pruned(step(walk, cli, entry)->Ok_0.pruned, entry.spec_path()),
{
}

/// A file is planned if it is inside no pruned directory, no pattern for
/// names to leave out matches its name, and a pattern for paths to take in
/// matches one of its components, such as the name of a directory above it.
pub proof fn lemma_file_below_selected_dir_is_planned(
    walk: WalkView,
    cli: CliView,
    entry: PackageEntry,
    i: int,
    k: int,
)
    requires
        entry is File,
        admitted(walk, entry.spec_path()),
        0 <= i < corrected(walk.stack, entry.spec_path()).len(),
        0 <= k < entry.spec_path().len(),
        any_match(
            corrected(walk.stack, entry.spec_path())[i].include_sources,
            entry.spec_path()[k],
        ),
    ensures
        step(walk, cli, entry) == Ok::<WalkView, PlanningError>(
            WalkView {
                stack: corrected(walk.stack, entry.spec_path()),
                links: walk.links.push(
                    link_for(
                        walk.root,
                        corrected(walk.stack, entry.spec_path()),
                        entry.spec_path(),
                    ),
                ),
                ..walk
            },
        ),
{
    let path = entry.spec_path();
    let stack = corrected(walk.stack, path);
    assert(selects(stack[i], path));
    assert(included(stack, path));
}

/// The configuration that gives a link its target and type is the nearest
/// one around the file: what is left of the stack at `path` is a leading part
/// of the stack, never empty, and its top is the root's configuration or one
/// whose package `path` is inside.
pub proof fn lemma_top_config_encloses(stack: Seq<ConfigView>, path: PathView)
    requires
        stack.len() > 0,
    ensures
        0 < corrected(stack, path).len() <= stack.len(),
        corrected(stack, path) == stack.take(corrected(stack, path).len() as int),
        corrected(stack, path).len() == 1 || starts_with(
            path,
            corrected(stack, path).last().package,
        ),
    decreases stack.len(),
{
    if stack.len() > 1 && !starts_with(path, stack.last().package) {
        lemma_top_config_encloses(stack.drop_last(), path);
        let kept = corrected(stack.drop_last(), path);
        assert(stack.drop_last().take(kept.len() as int) =~= stack.take(kept.len() as int));
    } else {
        assert(stack.take(stack.len() as int) =~= stack);
    }
}

/// A nested configuration's target and link type apply to the files inside
/// its directory and to no others.  With the configuration `nested` on top of
/// the root's, a file that is planned gets target and link type from `nested`
/// if it is inside the package of `nested`, and from the root's configuration
/// if it is not.
pub proof fn lemma_nested_config_scope(
    walk: WalkView,
    root: ConfigView,
    nested: ConfigView,
    cli: CliView,
    entry: PackageEntry,
)
    requires
        entry is File,
        walk.stack == seq![root, nested],
        admitted(walk, entry.spec_path()),
        included(corrected(walk.stack, entry.spec_path()), entry.spec_path()),
    ensures
        step(walk, cli, entry) is Ok,
        step(walk, cli, entry)->Ok_0.links.len() == walk.links.len() + 1,
        ({
            let path = entry.spec_path();
            let link = step(walk, cli, entry)->Ok_0.links.last();
            let tail = path.skip(walk.root.len() as int);
            &&& link.src == path
            &&& starts_with(path, nested.package) ==> link.dest == join(nested.target, tail)
                && link.ty == nested.link_type
            &&& !starts_with(path, nested.package) ==> link.dest == join(root.target, tail)
                && link.ty == root.link_type
        }),
{
    let path = entry.spec_path();
    if starts_with(path, nested.package) {
        assert(corrected(walk.stack, path) == walk.stack);
    } else {
        assert(walk.stack.drop_last() =~= seq![root]);
        assert(corrected(seq![root], path) == seq![root]);
        assert(corrected(walk.stack, path) == seq![root]);
    }
}

} // verus!
