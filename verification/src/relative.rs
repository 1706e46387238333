//! Relative paths: how to get from one directory to a file, and back.

use crate::path::{
    current_name, is_normal_name, is_plain_absolute, parent_name, root_name, ComponentPath,
    PathView,
};
use vstd::prelude::*;

verus! {

/// The number of leading components that `a` and `b` share.
pub open spec fn common_prefix_len(a: PathView, b: PathView) -> nat
    decreases a.len(),
{
    if a.len() > 0 && b.len() > 0 && a[0] == b[0] {
        1 + common_prefix_len(a.drop_first(), b.drop_first())
    } else {
        0
    }
}

/// `n` times the component `..`.
pub open spec fn parents(n: nat) -> PathView {
    Seq::new(n, |i: int| parent_name())
}

/// The way from the directory `base` to `path`: one `..` for every component
/// of `base` that `path` does not share, then what `path` has beyond the
/// shared part.
pub open spec fn relative_from(path: PathView, base: PathView) -> PathView {
    let shared = common_prefix_len(path, base);
    parents((base.len() - shared) as nat) + path.skip(shared as int)
}

/// One step of lexical cleaning: what the components kept so far become when
/// `c` follows them.
pub open spec fn clean_step(kept: PathView, c: Seq<char>) -> PathView {
    if c == current_name() {
        kept
    } else if c == parent_name() {
        if kept.len() == 0 || kept.last() == parent_name() || kept.last() == current_name() {
            kept.push(c)
        } else if kept.last() == root_name() {
            kept
        } else {
            kept.drop_last()
        }
    } else {
        kept.push(c)
    }
}

/// The components kept after all of `rest` has followed `kept`.
pub open spec fn clean_from(kept: PathView, rest: PathView) -> PathView
    decreases rest.len(),
{
    if rest.len() == 0 {
        kept
    } else {
        clean_from(clean_step(kept, rest[0]), rest.drop_first())
    }
}

/// `p` cleaned lexically: no `.`, and no `..` that a name before it cancels
/// or that follows the root.  The empty result is written `.`.
pub open spec fn lexical_clean(p: PathView) -> PathView {
    let kept = clean_from(Seq::empty(), p);
    if kept.len() == 0 {
        seq![current_name()]
    } else {
        kept
    }
}

/// Every component is one that a path can hold as such: the root in first
/// place, `.`, `..` or an ordinary name.
pub open spec fn is_component_wise(p: PathView) -> bool {
    forall|i: int|
        0 <= i < p.len() ==> {
            ||| (i == 0 && p[i] == root_name())
            ||| #[trigger] p[i] == current_name()
            ||| p[i] == parent_name()
            ||| is_normal_name(p[i])
        }
}

/// What `pathdiff::diff_paths` returns for the paths made of the components
/// `path` and `base`.
pub uninterp spec fn diff_paths_result(path: Seq<Seq<char>>, base: Seq<Seq<char>>) -> Option<
    Seq<Seq<char>>,
>;

/// What `path_clean::clean` returns for the path made of the components
/// `path`.
pub uninterp spec fn path_clean_result(path: Seq<Seq<char>>) -> Seq<Seq<char>>;

/// Calls `pathdiff::diff_paths` on the two paths.
///
/// Trusted: the result is a function of the components alone.  For two paths
/// that are the root followed by ordinary names, `diff_paths` skips the
/// components both share, emits one `..` for each further component of
/// `base`, and then the further components of `path`; it does not fail there.
#[verifier::external_body]
fn diff_paths(path: &ComponentPath, base: &ComponentPath) -> (r: Option<ComponentPath>)
    ensures
        r is Some <==> diff_paths_result(path@, base@) is Some,
        r matches Some(d) ==> Some(d@) == diff_paths_result(path@, base@),
        is_plain_absolute(path@) && is_plain_absolute(base@) ==> r is Some && r->0@
            == relative_from(path@, base@),
{
    let p: std::path::PathBuf = path.components.iter().collect();
    let b: std::path::PathBuf = base.components.iter().collect();
    pathdiff::diff_paths(p, b).map(
        |d|
            ComponentPath {
                components: d.components().map(
                    |c| c.as_os_str().to_string_lossy().into_owned(),
                ).collect(),
            },
    )
}

/// Calls `path_clean::clean` on the path.
///
/// Trusted: the result is a function of the components alone.  Where every
/// component is the root in first place, `.`, `..` or an ordinary name,
/// `clean` drops each `.`, lets each `..` cancel the name before it, drops a
/// `..` that follows the root, keeps a `..` that has nothing to cancel, and
/// writes the empty result as `.`.
#[verifier::external_body]
fn clean_path(path: &ComponentPath) -> (r: ComponentPath)
    ensures
        r@ == path_clean_result(path@),
        is_component_wise(path@) ==> r@ == lexical_clean(path@),
{
    let p: std::path::PathBuf = path.components.iter().collect();
    ComponentPath {
        components: path_clean::clean(p).components().map(
            |c| c.as_os_str().to_string_lossy().into_owned(),
        ).collect(),
    }
}

impl ComponentPath {
    /// The way from the directory `base` to this path, if there is one.
    pub fn relative_from(&self, base: &ComponentPath) -> (r: Option<ComponentPath>)
        ensures
            r is Some <==> diff_paths_result(self@, base@) is Some,
            r matches Some(d) ==> Some(d@) == diff_paths_result(self@, base@),
            is_plain_absolute(self@) && is_plain_absolute(base@) ==> r is Some && r->0@
                == relative_from(self@, base@),
    {
        diff_paths(self, base)
    }

    /// This path cleaned lexically.
    pub fn clean(&self) -> (r: ComponentPath)
        ensures
            r@ == path_clean_result(self@),
            is_component_wise(self@) ==> r@ == lexical_clean(self@),
    {
        clean_path(self)
    }
}

/// Cleaning a run of components is cleaning its first part and then, from
/// what that kept, the second.
pub proof fn lemma_clean_from_concat(kept: PathView, a: PathView, b: PathView)
    ensures
        clean_from(kept, a + b) == clean_from(clean_from(kept, a), b),
    decreases a.len(),
{
    if a.len() == 0 {
        assert(a + b =~= b);
    } else {
        assert((a + b)[0] == a[0]);
        assert((a + b).drop_first() =~= a.drop_first() + b);
        lemma_clean_from_concat(clean_step(kept, a[0]), a.drop_first(), b);
    }
}

/// Ordinary names are kept as they come.
pub proof fn lemma_clean_from_names(kept: PathView, names: PathView)
    requires
        forall|i: int| 0 <= i < names.len() ==> is_normal_name(#[trigger] names[i]),
    ensures
        clean_from(kept, names) == kept + names,
    decreases names.len(),
{
    if names.len() == 0 {
        assert(kept + names =~= kept);
    } else {
        let first = names[0];
        assert(is_normal_name(first));
        assert(clean_step(kept, first) == kept.push(first));
        assert forall|i: int| 0 <= i < names.drop_first().len() implies is_normal_name(
            #[trigger] names.drop_first()[i],
        ) by {
            assert(names.drop_first()[i] == names[i + 1]);
        }
        lemma_clean_from_names(kept.push(first), names.drop_first());
        assert(kept.push(first) + names.drop_first() =~= kept + names);
    }
}

/// Each `..` cancels one ordinary name at the end of what was kept.
pub proof fn lemma_clean_from_parents(kept: PathView, n: nat)
    requires
        n <= kept.len(),
        forall|i: int| kept.len() - n <= i < kept.len() ==> is_normal_name(#[trigger] kept[i]),
    ensures
        clean_from(kept, parents(n)) == kept.take(kept.len() - n),
    decreases n,
{
    if n == 0 {
        assert(kept.take(kept.len() as int) =~= kept);
    } else {
        let ups = parents(n);
        assert(ups[0] == parent_name());
        assert(ups.drop_first() =~= parents((n - 1) as nat));
        let last = kept.last();
        assert(is_normal_name(last));
        assert(last != root_name()) by {
            assert(root_name()[0] == '/');
            if last == root_name() {
                assert(last.contains('/'));
            }
        }
        assert(clean_step(kept, parent_name()) == kept.drop_last());
        lemma_clean_from_parents(kept.drop_last(), (n - 1) as nat);
        assert(kept.drop_last().take(kept.len() - n) =~= kept.take(kept.len() - n));
    }
}

/// The shared part is a prefix of both paths.
pub proof fn lemma_common_prefix(a: PathView, b: PathView)
    ensures
        common_prefix_len(a, b) <= a.len(),
        common_prefix_len(a, b) <= b.len(),
        a.take(common_prefix_len(a, b) as int) == b.take(common_prefix_len(a, b) as int),
    decreases a.len(),
{
    let k = common_prefix_len(a, b);
    if a.len() > 0 && b.len() > 0 && a[0] == b[0] {
        lemma_common_prefix(a.drop_first(), b.drop_first());
        let k1 = common_prefix_len(a.drop_first(), b.drop_first());
        assert(a.take(k as int) =~= seq![a[0]] + a.drop_first().take(k1 as int));
        assert(b.take(k as int) =~= seq![b[0]] + b.drop_first().take(k1 as int));
    } else {
        assert(a.take(0) =~= b.take(0));
    }
}

/// A relative link finds its source again.  Where `src` and the directory
/// `dir` are both the root followed by ordinary names, following the relative
/// path from `dir` to `src`, component by component from `dir`, ends at `src`
/// exactly.
pub proof fn lemma_relative_round_trip(src: PathView, dir: PathView)
    requires
        is_plain_absolute(src),
        is_plain_absolute(dir),
    ensures
        lexical_clean(dir + relative_from(src, dir)) == src,
{
    let shared = common_prefix_len(src, dir);
    lemma_common_prefix(src, dir);
    assert(shared >= 1) by {
        assert(src[0] == dir[0]);
    }
    let ups = parents((dir.len() - shared) as nat);
    let rest = src.skip(shared as int);
    let empty = Seq::<Seq<char>>::empty();

    // The root stays, and the names of `dir` are kept one by one.
    assert(clean_from(empty, dir) == dir) by {
        assert(dir[0] == root_name());
        assert(root_name()[0] == '/' && current_name()[0] == '.');
        assert(root_name().len() == 1 && parent_name().len() == 2);
        assert(clean_step(empty, dir[0]) =~= seq![root_name()]);
        assert forall|i: int| 0 <= i < dir.drop_first().len() implies is_normal_name(
            #[trigger] dir.drop_first()[i],
        ) by {
            assert(dir.drop_first()[i] == dir[i + 1]);
        }
        lemma_clean_from_names(seq![root_name()], dir.drop_first());
        assert(seq![root_name()] + dir.drop_first() =~= dir);
    }
    // Each `..` then cancels one name that `src` does not share.
    assert(clean_from(dir, ups) == dir.take(shared as int)) by {
        lemma_clean_from_parents(dir, (dir.len() - shared) as nat);
    }
    // What `src` has beyond the shared part follows.
    assert(clean_from(dir.take(shared as int), rest) == src) by {
        assert forall|i: int| 0 <= i < rest.len() implies is_normal_name(#[trigger] rest[i]) by {
            assert(rest[i] == src[shared + i]);
        }
        lemma_clean_from_names(dir.take(shared as int), rest);
        assert(src.take(shared as int) + rest =~= src);
    }
    lemma_clean_from_concat(empty, dir, ups + rest);
    lemma_clean_from_concat(dir, ups, rest);
    assert(dir + (ups + rest) =~= dir + relative_from(src, dir));
}

} // verus!
