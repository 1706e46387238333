//! Paths held as their sequence of components.
//!
//! A path is the list of its component strings in order, the way
//! `std::path::Path::components` yields them on a Unix-like system: an
//! absolute path begins with the root component `/`, and every other
//! component is a name, `.` or `..`.  The operations here are the lexical ones
//! the planner needs; none of them looks at a filesystem.

use vstd::prelude::*;
use vstd::string::{StrSliceExecFns, StringExecFns};

verus! {

/// The mathematical value of a path: its components, each a string.
pub type PathView = Seq<Seq<char>>;

/// The root component, `/`.
pub open spec fn root_name() -> Seq<char> {
    seq!['/']
}

/// The component that stands for the directory itself, `.`.
pub open spec fn current_name() -> Seq<char> {
    seq!['.']
}

/// The component that stands for the parent directory, `..`.
pub open spec fn parent_name() -> Seq<char> {
    seq!['.', '.']
}

/// An ordinary file or directory name: not empty, without a separator, and
/// neither `.` nor `..`.
pub open spec fn is_normal_name(c: Seq<char>) -> bool {
    &&& c.len() > 0
    &&& !c.contains('/')
    &&& c != current_name()
    &&& c != parent_name()
}

/// The path starts at the root.
pub open spec fn is_absolute(p: PathView) -> bool {
    p.len() > 0 && p[0] == root_name()
}

/// The root followed by ordinary names only.
pub open spec fn is_plain_absolute(p: PathView) -> bool {
    &&& is_absolute(p)
    &&& forall|i: int| 1 <= i < p.len() ==> is_normal_name(#[trigger] p[i])
}

/// `base` is a leading run of whole components of `p`.
pub open spec fn starts_with(p: PathView, base: PathView) -> bool {
    base.len() <= p.len() && p.subrange(0, base.len() as int) == base
}

/// What is left of `p` after `base`, if `p` starts with it.
pub open spec fn strip_prefix(p: PathView, base: PathView) -> Option<PathView> {
    if starts_with(p, base) {
        Some(p.skip(base.len() as int))
    } else {
        None
    }
}

/// `tail` appended to `p`; an absolute `tail` replaces `p`.
pub open spec fn join(p: PathView, tail: PathView) -> PathView {
    if is_absolute(tail) {
        tail
    } else {
        p + tail
    }
}

/// The path without its last component; nothing for the empty path and for
/// one that ends in the root.
pub open spec fn parent(p: PathView) -> Option<PathView> {
    if p.len() > 0 && p.last() != root_name() {
        Some(p.drop_last())
    } else {
        None
    }
}

/// The last component, if it is an ordinary name.
pub open spec fn file_name(p: PathView) -> Option<Seq<char>> {
    if p.len() > 0 && p.last() != root_name() && p.last() != current_name() && p.last()
        != parent_name() {
        Some(p.last())
    } else {
        None
    }
}

/// `p` with its file name replaced by `name`, or with `name` appended where
/// `p` has no file name.
pub open spec fn with_file_name(p: PathView, name: Seq<char>) -> PathView {
    if file_name(p) is Some {
        p.drop_last().push(name)
    } else {
        p.push(name)
    }
}

/// The path written out: the components in order, with a separator between
/// two of them unless the first of the two is the root.
pub open spec fn rendered(p: PathView) -> Seq<char>
    decreases p.len(),
{
    if p.len() == 0 {
        Seq::empty()
    } else if p.len() == 1 {
        p[0]
    } else if p[p.len() - 2] == root_name() {
        rendered(p.drop_last()) + p.last()
    } else {
        rendered(p.drop_last()) + seq!['/'] + p.last()
    }
}

/// The views of a run of strings.
pub open spec fn strings_view(v: Seq<String>) -> PathView {
    Seq::new(v.len(), |i: int| v[i]@)
}

/// A path as the list of its components.
#[derive(Debug, PartialEq, Eq, PartialOrd, Ord, Hash)]
pub struct ComponentPath {
    /// The components, outermost first.
    pub components: Vec<String>,
}

impl View for ComponentPath {
    type V = PathView;

    open spec fn view(&self) -> PathView {
        strings_view(self.components@)
    }
}

/// Whether `s` is the single character `c`.
fn is_one_char(s: &String, c: char) -> (b: bool)
    ensures
        b == (s@ == seq![c]),
{
    let t = s.as_str();
    if t.unicode_len() == 1 {
        let found = t.get_char(0);
        assert(found == c ==> s@ =~= seq![c]);
        found == c
    } else {
        false
    }
}

/// Whether `s` is the root component.
pub fn is_root_component(s: &String) -> (b: bool)
    ensures
        b == (s@ == root_name()),
{
    is_one_char(s, '/')
}

/// Whether `s` is the component `.`.
pub fn is_current_component(s: &String) -> (b: bool)
    ensures
        b == (s@ == current_name()),
{
    is_one_char(s, '.')
}

/// Whether `s` is the component `..`.
pub fn is_parent_component(s: &String) -> (b: bool)
    ensures
        b == (s@ == parent_name()),
{
    let t = s.as_str();
    if t.unicode_len() == 2 {
        let first = t.get_char(0);
        let second = t.get_char(1);
        assert(first == '.' && second == '.' ==> s@ =~= parent_name());
        first == '.' && second == '.'
    } else {
        false
    }
}

impl ComponentPath {
    /// The empty path.
    pub fn new() -> (r: ComponentPath)
        ensures
            r@ == Seq::<Seq<char>>::empty(),
    {
        let r = ComponentPath { components: Vec::new() };
        assert(r@ =~= Seq::<Seq<char>>::empty());
        r
    }

    /// The path made of `components`, in order.
    pub fn from_components(components: Vec<String>) -> (r: ComponentPath)
        ensures
            r@ == strings_view(components@),
            r.components == components,
    {
        ComponentPath { components }
    }

    /// The number of components.
    pub fn len(&self) -> (n: usize)
        ensures
            n == self@.len(),
    {
        self.components.len()
    }

    /// Adds one component at the end.
    pub fn push(&mut self, component: String)
        ensures
            final(self)@ == old(self)@.push(component@),
    {
        self.components.push(component);
        assert(self@ =~= old(self)@.push(component@));
    }

    /// The path written out.
    pub fn to_string(&self) -> (s: String)
        ensures
            s@ == rendered(self@),
    {
        let n: usize = self.components.len();
        let mut out = String::new();
        let mut i: usize = 0;
        assert(self@.take(0) =~= Seq::empty());
        while i < n
            invariant
                i <= n,
                n == self.components@.len(),
                out@ == rendered(self@.take(i as int)),
            decreases n - i,
        {
            let ghost upto = self@.take(i + 1);
            assert(upto.drop_last() =~= self@.take(i as int));
            assert(upto.last() == self@[i as int]);
            if i > 0 {
                assert(upto[upto.len() - 2] == self@[i - 1]);
                if !is_root_component(&self.components[i - 1]) {
                    proof {
                        reveal_strlit("/");
                    }
                    assert("/"@ =~= seq!['/']);
                    out.append("/");
                }
            }
            out.append(self.components[i].as_str());
            assert(out@ =~= rendered(upto));
            i = i + 1;
        }
        assert(self@.take(n as int) =~= self@);
        out
    }

    /// Whether both paths have the same components.
    pub fn equals(&self, other: &ComponentPath) -> (b: bool)
        ensures
            b == (self@ == other@),
    {
        if self.components.len() != other.components.len() {
            assert(self@.len() != other@.len());
            return false;
        }
        let n: usize = self.components.len();
        let mut i: usize = 0;
        while i < n
            invariant
                i <= n,
                n == self.components@.len(),
                n == other.components@.len(),
                forall|j: int| 0 <= j < i ==> self@[j] == other@[j],
            decreases n - i,
        {
            if self.components[i] != other.components[i] {
                assert(self@[i as int] != other@[i as int]);
                return false;
            }
            i = i + 1;
        }
        assert(self@ =~= other@);
        true
    }

    /// Whether the path starts at the root.
    pub fn is_absolute(&self) -> (b: bool)
        ensures
            b == is_absolute(self@),
    {
        self.components.len() > 0 && is_root_component(&self.components[0])
    }

    /// Whether `base` is a leading run of whole components of this path.
    pub fn starts_with(&self, base: &ComponentPath) -> (b: bool)
        ensures
            b == starts_with(self@, base@),
    {
        let n: usize = base.components.len();
        if n > self.components.len() {
            return false;
        }
        let mut i: usize = 0;
        while i < n
            invariant
                i <= n,
                n == base.components@.len(),
                n <= self.components@.len(),
                forall|j: int| 0 <= j < i ==> self@[j] == base@[j],
            decreases n - i,
        {
            if self.components[i] != base.components[i] {
                assert(self@.subrange(0, n as int)[i as int] != base@[i as int]);
                return false;
            }
            i = i + 1;
        }
        assert(self@.subrange(0, n as int) =~= base@);
        true
    }

    /// The components from index `from` on, as a path of their own.
    pub fn skip(&self, from: usize) -> (r: ComponentPath)
        requires
            from <= self@.len(),
        ensures
            r@ == self@.skip(from as int),
    {
        let n: usize = self.components.len();
        let mut out: Vec<String> = Vec::new();
        let mut i: usize = from;
        while i < n
            invariant
                from <= i <= n,
                n == self.components@.len(),
                out@.len() == i - from,
                forall|j: int| 0 <= j < out@.len() ==> out@[j]@ == self@[from + j],
            decreases n - i,
        {
            out.push(self.components[i].clone());
            i = i + 1;
        }
        let r = ComponentPath { components: out };
        assert(r@ =~= self@.skip(from as int));
        r
    }

    /// The first `count` components, as a path of their own.
    pub fn take(&self, count: usize) -> (r: ComponentPath)
        requires
            count <= self@.len(),
        ensures
            r@ == self@.take(count as int),
    {
        let mut out: Vec<String> = Vec::new();
        let mut i: usize = 0;
        while i < count
            invariant
                i <= count,
                count <= self.components@.len(),
                out@.len() == i,
                forall|j: int| 0 <= j < out@.len() ==> out@[j]@ == self@[j],
            decreases count - i,
        {
            out.push(self.components[i].clone());
            i = i + 1;
        }
        let r = ComponentPath { components: out };
        assert(r@ =~= self@.take(count as int));
        r
    }

    /// What is left after `base`, if the path starts with it.
    pub fn strip_prefix(&self, base: &ComponentPath) -> (r: Option<ComponentPath>)
        ensures
            r is Some <==> starts_with(self@, base@),
            r matches Some(tail) ==> Some(tail@) == strip_prefix(self@, base@),
    {
        if self.starts_with(base) {
            Some(self.skip(base.components.len()))
        } else {
            None
        }
    }

    /// `tail` appended to this path; an absolute `tail` replaces it.
    pub fn join(&self, tail: &ComponentPath) -> (r: ComponentPath)
        ensures
            r@ == join(self@, tail@),
    {
        if tail.is_absolute() {
            tail.clone()
        } else {
            let mut out = self.clone();
            let n: usize = tail.components.len();
            let mut i: usize = 0;
            while i < n
                invariant
                    i <= n,
                    n == tail.components@.len(),
                    out@ == self@ + tail@.take(i as int),
                decreases n - i,
            {
                out.push(tail.components[i].clone());
                assert(tail@.take(i as int).push(tail@[i as int]) =~= tail@.take(i + 1));
                assert(out@ =~= self@ + tail@.take(i + 1));
                i = i + 1;
            }
            assert(tail@.take(n as int) =~= tail@);
            out
        }
    }

    /// The path without its last component.
    pub fn parent(&self) -> (r: Option<ComponentPath>)
        ensures
            r is Some <==> parent(self@) is Some,
            r matches Some(p) ==> Some(p@) == parent(self@),
    {
        let n: usize = self.components.len();
        if n == 0 || is_root_component(&self.components[n - 1]) {
            None
        } else {
            let p = self.take(n - 1);
            assert(self@.take(n - 1) =~= self@.drop_last());
            Some(p)
        }
    }

    /// The last component, if it is an ordinary name.
    pub fn file_name(&self) -> (r: Option<&String>)
        ensures
            r is Some <==> file_name(self@) is Some,
            r matches Some(name) ==> Some(name@) == file_name(self@),
    {
        let n: usize = self.components.len();
        if n == 0 {
            return None;
        }
        let last = &self.components[n - 1];
        if is_root_component(last) || is_current_component(last) || is_parent_component(last) {
            None
        } else {
            Some(last)
        }
    }

    /// This path with its file name replaced by `name`.
    pub fn with_file_name(&self, name: String) -> (r: ComponentPath)
        ensures
            r@ == with_file_name(self@, name@),
    {
        let n: usize = self.components.len();
        let mut out = match self.file_name() {
            Some(_) => {
                assert(self@.take(n - 1) =~= self@.drop_last());
                self.take(n - 1)
            },
            None => self.clone(),
        };
        out.push(name);
        out
    }
}

impl Clone for ComponentPath {
    fn clone(&self) -> (r: ComponentPath)
        ensures
            r@ == self@,
    {
        let r = self.skip(0);
        assert(self@.skip(0) =~= self@);
        r
    }
}

} // verus!
