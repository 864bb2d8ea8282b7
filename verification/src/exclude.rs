//! The exclusion filter: glob patterns for libraries that every target
//! system is taken to provide, tested against the file names of staged
//! libraries.
//!
//! Pattern syntax and matching belong to the `glob` crate. This module
//! gives both a name, so that the rest of the library can say exactly which
//! entries a set of patterns suppresses, and keeps a set of patterns that
//! are known to compile.

use vstd::prelude::*;

verus! {

/// A compiled pattern of the `glob` crate. Opaque here.
#[verifier::external_type_specification]
#[verifier::external_body]
pub struct ExPattern(glob::Pattern);

/// The syntax error that the `glob` crate reports for a pattern. Opaque here.
#[verifier::external_type_specification]
#[verifier::external_body]
pub struct ExPatternError(glob::PatternError);

/// Whether `glob::Pattern::new` compiles `pattern`, as opposed to reporting a
/// syntax error. It parses the pattern's characters and reads nothing else.
pub uninterp spec fn glob_accepts(pattern: Seq<char>) -> bool;

/// Whether the compiled form of `pattern` matches all of `text` under
/// `glob::Pattern::matches`, that is with the default options of the crate:
/// case-sensitive, with no special treatment of separators or leading dots.
/// Meaningful for patterns that `glob_accepts`, and for the Unix targets that
/// bundles are built on: there `/` is the only separator that the crate
/// knows.
pub uninterp spec fn glob_matches(pattern: Seq<char>, text: Seq<char>) -> bool;

/// `glob::Pattern::new` succeeds exactly on the patterns that `glob_accepts`
/// names. Nothing is claimed about the compiled pattern or the error.
pub assume_specification[ glob::Pattern::new ](pattern: &str) -> (compiled: Result<
    glob::Pattern,
    glob::PatternError,
>)
    ensures
        compiled is Ok == glob_accepts(pattern@),
;

/// Compiles `pattern` with `glob::Pattern::new` and tests `name` against it
/// with `glob::Pattern::matches`. The result is the one that `glob_matches`
/// names: it depends on the two texts alone.
#[verifier::external_body]
fn pattern_matches(pattern: &str, name: &str) -> (matched: bool)
    requires
        glob_accepts(pattern@),
    ensures
        matched == glob_matches(pattern@, name@),
{
    match glob::Pattern::new(pattern) {
        Ok(compiled) => compiled.matches(name),
        Err(_) => false,
    }
}

/// Every pattern of the list compiles.
pub open spec fn all_accepted(patterns: Seq<Seq<char>>) -> bool {
    forall|i: int| 0 <= i < patterns.len() ==> glob_accepts(#[trigger] patterns[i])
}

/// A name is excluded when at least one pattern matches it.
pub open spec fn excluded(patterns: Seq<Seq<char>>, name: Seq<char>) -> bool {
    exists|i: int| 0 <= i < patterns.len() && glob_matches(#[trigger] patterns[i], name)
}

/// A pattern of a configured list that does not compile.
#[derive(Debug, Clone, Copy, PartialEq, Eq)]
pub struct InvalidPattern {
    /// Position of the first such pattern in the list.
    pub index: usize,
}

/// A set of exclusion patterns, each of which compiles.
#[derive(Debug)]
pub struct ExclusionSet {
    patterns: Vec<String>,
}

impl View for ExclusionSet {
    type V = Seq<Seq<char>>;

    closed spec fn view(&self) -> Seq<Seq<char>> {
        self.patterns.deep_view()
    }
}

impl ExclusionSet {
    #[verifier::type_invariant]
    spec fn compiles(self) -> bool {
        all_accepted(self.patterns.deep_view())
    }

    /// The set without patterns, which excludes nothing.
    pub fn empty() -> (set: ExclusionSet)
        ensures
            set@ == Seq::<Seq<char>>::empty(),
    {
        let patterns: Vec<String> = Vec::new();
        assert(patterns.deep_view() =~= Seq::<Seq<char>>::empty());
        ExclusionSet { patterns }
    }

    /// Checks every pattern of `patterns`. The set holds them in the order
    /// given; the first pattern that does not compile is reported instead.
    pub fn new(patterns: Vec<String>) -> (checked: Result<ExclusionSet, InvalidPattern>)
        ensures
            checked is Ok <==> all_accepted(patterns.deep_view()),
            checked matches Ok(set) ==> set@ == patterns.deep_view(),
            checked matches Err(fault) ==> {
                &&& fault.index < patterns.len()
                &&& !glob_accepts(patterns[fault.index as int]@)
                &&& all_accepted(patterns.deep_view().take(fault.index as int))
            },
    {
        let ghost texts = patterns.deep_view();
        let mut index: usize = 0;
        while index < patterns.len()
            invariant
                index <= patterns.len(),
                texts == patterns.deep_view(),
                all_accepted(texts.take(index as int)),
            decreases patterns.len() - index,
        {
            assert(texts[index as int] == patterns[index as int]@);
            match glob::Pattern::new(patterns[index].as_str()) {
                Ok(_) => {},
                Err(_) => {
                    return Err(InvalidPattern { index });
                },
            }
            assert forall|i: int| 0 <= i < index + 1 implies glob_accepts(
                #[trigger] texts.take(index + 1)[i],
            ) by {
                if i < index {
                    assert(texts.take(index as int)[i] == texts[i]);
                }
            }
            index += 1;
        }
        assert(texts.take(index as int) == texts);
        Ok(ExclusionSet { patterns })
    }

    /// The number of patterns.
    pub fn len(&self) -> (count: usize)
        ensures
            count == self@.len(),
    {
        self.patterns.len()
    }

    /// The text of the pattern at `index`.
    pub fn pattern(&self, index: usize) -> (text: &str)
        requires
            index < self@.len(),
        ensures
            text@ == self@[index as int],
    {
        self.patterns[index].as_str()
    }

    /// Whether some pattern of the set matches `name`.
    pub fn excludes(&self, name: &str) -> (hit: bool)
        ensures
            hit == excluded(self@, name@),
    {
        proof {
            use_type_invariant(self);
        }
        let mut index: usize = 0;
        while index < self.patterns.len()
            invariant
                index <= self.patterns.len(),
                all_accepted(self.patterns.deep_view()),
                forall|i: int| 0 <= i < index ==> !glob_matches(#[trigger] self@[i], name@),
            decreases self.patterns.len() - index,
        {
            assert(self@[index as int] == self.patterns[index as int]@);
            if pattern_matches(self.patterns[index].as_str(), name) {
                return true;
            }
            index += 1;
        }
        false
    }
}

/// Exclusion does not depend on the order of the patterns: two lists that
/// hold the same patterns the same number of times exclude the same names.
pub proof fn lemma_exclusion_ignores_order(
    first: Seq<Seq<char>>,
    second: Seq<Seq<char>>,
    name: Seq<char>,
)
    requires
        first.to_multiset() == second.to_multiset(),
    ensures
        excluded(first, name) == excluded(second, name),
{
    lemma_exclusion_covers(first, second, name);
    lemma_exclusion_covers(second, first, name);
}

/// Every name that `first` excludes is excluded by any list that holds all
/// the patterns of `first`.
proof fn lemma_exclusion_covers(first: Seq<Seq<char>>, second: Seq<Seq<char>>, name: Seq<char>)
    requires
        first.to_multiset() == second.to_multiset(),
    ensures
        excluded(first, name) ==> excluded(second, name),
{
    if excluded(first, name) {
        let i = choose|i: int| 0 <= i < first.len() && glob_matches(#[trigger] first[i], name);
        first.to_multiset_ensures();
        second.to_multiset_ensures();
        assert(first.contains(first[i]));
        assert(second.to_multiset().count(first[i]) > 0);
        assert(second.contains(first[i]));
        let j = choose|j: int| 0 <= j < second.len() && second[j] == first[i];
        assert(glob_matches(second[j], name));
    }
}

} // verus!
