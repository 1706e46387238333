//! Splitting a path that may hold environment variables into components.
//!
//! A variable is written `$NAME` or `${NAME}`, and inside the braces a
//! fallback may follow, which may itself be a path: `${NAME:-~/some/dir}`.
//! A separator inside such braces does not end the component.

use crate::path::strings_view;
use vstd::prelude::*;
use vstd::string::StrSliceExecFns;

verus! {

/// Where the splitting stands.
pub struct Scan {
    /// The components that have ended.
    pub done: Seq<Seq<char>>,
    /// The component that is being read.
    pub current: Seq<char>,
    /// Whether the component being read holds a `$`.
    pub envvar: bool,
    /// How many braces are open.  The count stops at 255.
    pub depth: nat,
}

/// Where the splitting stands before the first character.
pub open spec fn scan_start() -> Scan {
    Scan { done: Seq::empty(), current: Seq::empty(), envvar: false, depth: 0 }
}

/// Where the splitting stands after the character `c`.  A separator outside
/// braces ends the component.  Every other character belongs to it; a `$`
/// marks it as holding a variable, and from then on its braces are counted.
pub open spec fn scan_char(st: Scan, c: char) -> Scan {
    if c == '/' && st.depth == 0 {
        Scan { done: st.done.push(st.current), current: Seq::empty(), envvar: false, depth: 0 }
    } else {
        Scan {
            done: st.done,
            current: st.current.push(c),
            envvar: st.envvar || c == '$',
            depth: if c == '{' && st.envvar && st.depth < 255 {
                st.depth + 1
            } else if c == '}' && st.envvar && st.depth > 0 {
                (st.depth - 1) as nat
            } else {
                st.depth
            },
        }
    }
}

/// Where the splitting stands after all of `s`.
pub open spec fn scan(s: Seq<char>) -> Scan
    decreases s.len(),
{
    if s.len() == 0 {
        scan_start()
    } else {
        scan_char(scan(s.drop_last()), s.last())
    }
}

/// The components of `s`: what stands between separators that are outside
/// the braces of a variable.
pub open spec fn components_with_braces(s: Seq<char>) -> Seq<Seq<char>> {
    scan(s).done.push(scan(s).current)
}

/// Splits `s` into its components, keeping together what stands inside the
/// braces of a variable.  Empty components are kept.
pub fn parse_path_components_with_braces(s: &str) -> (components: Vec<String>)
    ensures
        strings_view(components@) == components_with_braces(s@),
{
    let n: usize = s.unicode_len();
    let mut brace_depth: u8 = 0;
    let mut components: Vec<String> = Vec::new();
    let mut comp_is_envvar = false;
    let mut start: usize = 0;
    let mut i: usize = 0;
    assert(s@.take(0) =~= Seq::empty());
    assert(strings_view(components@) =~= scan(s@.take(0)).done);
    assert(s@.subrange(0, 0) =~= scan(s@.take(0)).current);
    for c in it: s.chars()
        invariant
            it.seq() == s@,
            n == s@.len(),
            i == it.index(),
            start <= i,
            strings_view(components@) == scan(s@.take(i as int)).done,
            s@.subrange(start as int, i as int) == scan(s@.take(i as int)).current,
            comp_is_envvar == scan(s@.take(i as int)).envvar,
            brace_depth == scan(s@.take(i as int)).depth,
    {
        let ghost before = scan(s@.take(i as int));
        assert(s@.take(i + 1).drop_last() =~= s@.take(i as int));
        assert(s@.take(i + 1).last() == c);
        assert(scan(s@.take(i + 1)) == scan_char(before, c));
        if c == '/' && brace_depth == 0 {
            let ghost done = strings_view(components@);
            let piece = s.substring_char(start, i);
            components.push(piece.to_owned());
            assert(strings_view(components@) =~= done.push(before.current));
            comp_is_envvar = false;
            start = i + 1;
            assert(s@.subrange(start as int, i + 1) =~= Seq::empty());
        } else {
            if c == '$' {
                comp_is_envvar = true;
            } else if c == '{' && comp_is_envvar {
                if brace_depth < 255 {
                    brace_depth = brace_depth + 1;
                }
            } else if c == '}' && comp_is_envvar {
                if brace_depth > 0 {
                    brace_depth = brace_depth - 1;
                }
            }
            assert(s@.subrange(start as int, i + 1) =~= before.current.push(c));
        }
        i = i + 1;
    }
    assert(s@.take(n as int) =~= s@);
    let ghost done = strings_view(components@);
    let piece = s.substring_char(start, n);
    components.push(piece.to_owned());
    assert(strings_view(components@) =~= done.push(scan(s@).current));
    components
}

} // verus!
