//! Small helpers for showing paths and comparing lists.

use crate::path::{join, rendered, starts_with, strings_view, ComponentPath, PathView};
use vstd::prelude::*;

verus! {

/// `p` with `~` in place of `home` where `p` is inside it.
pub open spec fn tilde_path(p: PathView, home: PathView) -> PathView {
    if starts_with(p, home) {
        join(seq!["~"@], p.skip(home.len() as int))
    } else {
        p
    }
}

/// `p` as a user reads it: with `~` in place of the home directory where `p`
/// is inside it, and `~/` for the home directory itself.
pub open spec fn home_as_tilde(p: PathView, home: PathView) -> Seq<char> {
    if starts_with(p, home) && p.len() == home.len() {
        "~/"@
    } else {
        rendered(tilde_path(p, home))
    }
}

/// `p` with `~` in place of `home`, the user's home directory, where `p` is
/// inside it.
pub fn with_tilde(p: &ComponentPath, home: &ComponentPath) -> (r: ComponentPath)
    ensures
        r@ == tilde_path(p@, home@),
{
    match p.strip_prefix(home) {
        Some(tail) => {
            let mut tilde = ComponentPath::new();
            tilde.push("~".to_owned());
            assert(tilde@ =~= seq!["~"@]);
            tilde.join(&tail)
        },
        None => p.clone(),
    }
}

/// Writes `p` out, with `~` in place of `home`, the user's home directory, if
/// `p` is inside it.
pub fn replace_home_with_tilde(p: &ComponentPath, home: &ComponentPath) -> (s: String)
    ensures
        s@ == home_as_tilde(p@, home@),
{
    if p.len() == home.len() && p.starts_with(home) {
        "~/".to_owned()
    } else {
        with_tilde(p, home).to_string()
    }
}

/// Whether `left` and `right` hold the same strings in the same order.
pub fn vec_string_compare(left: &[String], right: &[String]) -> (b: bool)
    ensures
        b == (strings_view(left@) == strings_view(right@)),
{
    if left.len() != right.len() {
        assert(strings_view(left@).len() != strings_view(right@).len());
        return false;
    }
    let n: usize = left.len();
    let mut i: usize = 0;
    while i < n
        invariant
            i <= n,
            n == left@.len(),
            n == right@.len(),
            forall|j: int| 0 <= j < i ==> left@[j]@ == right@[j]@,
        decreases n - i,
    {
        if left[i] != right[i] {
            assert(strings_view(left@)[i as int] != strings_view(right@)[i as int]);
            return false;
        }
        i = i + 1;
    }
    assert(strings_view(left@) =~= strings_view(right@));
    true
}

} // verus!
