//! When two package configurations say the same.

use crate::package::{ConfigView, PackageConfig};
use crate::pattern::{patterns_view, Pattern};
use vstd::prelude::*;
use vstd::std_specs::cmp::PartialEqSpecImpl;

verus! {

/// Every entry of `a` occurs in `b`, and both have the same length.
pub open spec fn same_entries(a: Seq<Seq<char>>, b: Seq<Seq<char>>) -> bool {
    a.len() == b.len() && forall|i: int| 0 <= i < a.len() ==> b.contains(#[trigger] a[i])
}

/// Both configurations are for the same package and target, ask for the same
/// links, and hold the same patterns.  The order of the patterns does not
/// matter; how many there are does.
pub open spec fn same_settings(a: ConfigView, b: ConfigView) -> bool {
    &&& a.package == b.package
    &&& a.target == b.target
    &&& same_entries(a.exclude_sources, b.exclude_sources)
    &&& same_entries(a.include_sources, b.include_sources)
    &&& a.link_root == b.link_root
    &&& a.link_type == b.link_type
}

/// Whether `patterns` holds one with the source text of `wanted`.
fn holds(patterns: &Vec<Pattern>, wanted: &Pattern) -> (b: bool)
    ensures
        b == patterns_view(patterns@).contains(wanted@),
{
    let n: usize = patterns.len();
    let mut i: usize = 0;
    while i < n
        invariant
            i <= n,
            n == patterns@.len(),
            forall|j: int| 0 <= j < i ==> patterns_view(patterns@)[j] != wanted@,
        decreases n - i,
    {
        if patterns[i].same_source(wanted) {
            assert(patterns_view(patterns@)[i as int] == wanted@);
            return true;
        }
        i = i + 1;
    }
    false
}

/// Whether both lists have the same length and every pattern of `a` occurs in
/// `b`.
fn holds_all(a: &Vec<Pattern>, b: &Vec<Pattern>) -> (r: bool)
    ensures
        r == same_entries(patterns_view(a@), patterns_view(b@)),
{
    if a.len() != b.len() {
        return false;
    }
    let n: usize = a.len();
    let mut i: usize = 0;
    while i < n
        invariant
            i <= n,
            n == a@.len(),
            n == b@.len(),
            forall|j: int|
                0 <= j < i ==> patterns_view(b@).contains(#[trigger] patterns_view(a@)[j]),
        decreases n - i,
    {
        if !holds(b, &a[i]) {
            assert(!patterns_view(b@).contains(patterns_view(a@)[i as int]));
            return false;
        }
        i = i + 1;
    }
    true
}

impl PartialEq for PackageConfig {
    fn eq(&self, other: &PackageConfig) -> (r: bool) {
        self.package.equals(&other.package) && self.target.equals(&other.target) && holds_all(
            &self.exclude_pats,
            &other.exclude_pats,
        ) && holds_all(&self.include_pats, &other.include_pats) && self.link_root
            == other.link_root && self.link_type == other.link_type
    }
}

impl PartialEqSpecImpl for PackageConfig {
    open spec fn obeys_eq_spec() -> bool {
        true
    }

    open spec fn eq_spec(&self, other: &PackageConfig) -> bool {
        same_settings(self@, other@)
    }
}

} // verus!
