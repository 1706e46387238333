//! Regular-expression patterns that select entries by name.

use vstd::prelude::*;

verus! {

/// Whether `regex::Regex::new` accepts `pattern`.
pub uninterp spec fn regex_compiles(pattern: Seq<char>) -> bool;

/// Whether the regular expression compiled from `pattern` finds a match
/// anywhere in `text`, as `regex::Regex::is_match` reports it.
pub uninterp spec fn regex_is_match(pattern: Seq<char>, text: Seq<char>) -> bool;

/// Compiles `pattern` with `regex::Regex::new` and searches `text` with
/// `regex::Regex::is_match`.
///
/// Trusted: the result is `None` exactly when compilation fails, which depends
/// on the pattern alone, and otherwise holds what `is_match` returned.  Both
/// outside functions are deterministic in the two strings and do not panic.
/// The pattern is compiled anew on every call.
#[verifier::external_body]
fn try_match(pattern: &str, text: &str) -> (r: Option<bool>)
    ensures
        r == (if regex_compiles(pattern@) {
            Some(regex_is_match(pattern@, text@))
        } else {
            None
        }),
{
    match regex::Regex::new(pattern) {
        Ok(re) => Some(re.is_match(text)),
        Err(_) => None,
    }
}

/// The reason a pattern was turned down.
#[derive(Debug)]
pub struct PatternError {
    /// The text that does not compile.
    pub pattern: String,
}

/// A regular expression known to compile, kept as its source text.
#[derive(Debug)]
pub struct Pattern {
    source: String,
}

impl View for Pattern {
    type V = Seq<char>;

    closed spec fn view(&self) -> Seq<char> {
        self.source@
    }
}

impl Pattern {
    #[verifier::type_invariant]
    spec fn compiles(&self) -> bool {
        regex_compiles(self.source@)
    }

    /// Accepts `source` if and only if it compiles.
    pub fn new(source: &str) -> (r: Result<Pattern, PatternError>)
        ensures
            r is Ok <==> regex_compiles(source@),
            r matches Ok(p) ==> p@ == source@,
            r matches Err(e) ==> e.pattern@ == source@,
    {
        match try_match(source, "") {
            Some(_) => Ok(Pattern { source: source.to_owned() }),
            None => Err(PatternError { pattern: source.to_owned() }),
        }
    }

    /// The source text.
    pub fn as_str(&self) -> (s: &str)
        ensures
            s@ == self@,
    {
        self.source.as_str()
    }

    /// Whether both patterns have the same source text.
    pub fn same_source(&self, other: &Pattern) -> (b: bool)
        ensures
            b == (self@ == other@),
    {
        self.source == other.source
    }

    /// Whether the pattern matches anywhere in `text`.
    pub fn is_match(&self, text: &str) -> (b: bool)
        ensures
            b == regex_is_match(self@, text@),
    {
        proof {
            use_type_invariant(self);
        }
        match try_match(self.source.as_str(), text) {
            Some(b) => b,
            None => false,
        }
    }
}

/// The source texts of a run of patterns.
pub open spec fn patterns_view(v: Seq<Pattern>) -> Seq<Seq<char>> {
    Seq::new(v.len(), |i: int| v[i]@)
}

/// Whether some pattern of `patterns` matches `text`.
pub open spec fn any_match(patterns: Seq<Seq<char>>, text: Seq<char>) -> bool {
    exists|i: int| 0 <= i < patterns.len() && regex_is_match(#[trigger] patterns[i], text)
}

/// Whether some pattern of `patterns` matches `text`.
pub fn matches_any(patterns: &Vec<Pattern>, text: &str) -> (b: bool)
    ensures
        b == any_match(patterns_view(patterns@), text@),
{
    let n: usize = patterns.len();
    let mut i: usize = 0;
    while i < n
        invariant
            i <= n,
            n == patterns@.len(),
            forall|j: int| 0 <= j < i ==> !regex_is_match(#[trigger] patterns_view(patterns@)[j], text@),
        decreases n - i,
    {
        if patterns[i].is_match(text) {
            assert(regex_is_match(patterns_view(patterns@)[i as int], text@));
            return true;
        }
        i = i + 1;
    }
    false
}

/// A copy of every pattern of `patterns`, in order.
pub fn clone_patterns(patterns: &Vec<Pattern>) -> (r: Vec<Pattern>)
    ensures
        patterns_view(r@) == patterns_view(patterns@),
{
    let n: usize = patterns.len();
    let mut out: Vec<Pattern> = Vec::new();
    let mut i: usize = 0;
    while i < n
        invariant
            i <= n,
            n == patterns@.len(),
            out@.len() == i,
            forall|j: int| 0 <= j < i ==> out@[j]@ == patterns@[j]@,
        decreases n - i,
    {
        out.push(patterns[i].clone());
        i = i + 1;
    }
    assert(patterns_view(out@) =~= patterns_view(patterns@));
    out
}

/// Appends a copy of every pattern of `more` to `patterns`.
pub fn extend_patterns(patterns: &mut Vec<Pattern>, more: &Vec<Pattern>)
    ensures
        patterns_view(final(patterns)@) == patterns_view(old(patterns)@) + patterns_view(more@),
{
    let n: usize = more.len();
    let mut i: usize = 0;
    while i < n
        invariant
            i <= n,
            n == more@.len(),
            patterns_view(patterns@) == patterns_view(old(patterns)@) + patterns_view(more@).take(
                i as int,
            ),
        decreases n - i,
    {
        let ghost before = patterns_view(patterns@);
        patterns.push(more[i].clone());
        assert(patterns_view(patterns@) =~= before.push(more@[i as int]@));
        assert(patterns_view(more@).take(i + 1) =~= patterns_view(more@).take(i as int).push(
            more@[i as int]@,
        ));
        i = i + 1;
    }
    assert(patterns_view(more@).take(n as int) =~= patterns_view(more@));
}

impl Clone for Pattern {
    fn clone(&self) -> (r: Pattern)
        ensures
            r@ == self@,
    {
        proof {
            use_type_invariant(self);
        }
        Pattern { source: self.source.clone() }
    }
}

} // verus!
