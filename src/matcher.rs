//! Decides whether a process image name is on the denylist: exact,
//! case-sensitive membership first, then the optional pattern set.
use vstd::prelude::*;
use ahash::AHashSet;
use regex::{Error as RegexError, RegexSet};

use crate::config::views;
use crate::error::Error;

verus! {

#[verifier::external_type_specification]
#[verifier::external_body]
#[verifier::reject_recursive_types(T)]
#[verifier::reject_recursive_types(S)]
pub struct ExAHashSet<T, S>(AHashSet<T, S>);

#[verifier::external_type_specification]
#[verifier::external_body]
pub struct ExRandomState(ahash::RandomState);

#[verifier::external_type_specification]
#[verifier::external_body]
pub struct ExRegexSet(RegexSet);

#[verifier::external_type_specification]
#[verifier::external_body]
pub struct ExRegexError(RegexError);

/// The names that a hash set of names holds.
pub uninterp spec fn name_set_contents(s: AHashSet<String>) -> Set<Seq<char>>;

/// The patterns that a pattern set was compiled from, in order.
pub uninterp spec fn regex_set_patterns(s: RegexSet) -> Seq<Seq<char>>;

/// The texts in which a pattern set finds a match.
pub uninterp spec fn matched_texts(s: RegexSet) -> Set<Seq<char>>;

/// Whether `RegexSet::new` accepts these patterns.
pub uninterp spec fn patterns_compile(patterns: Seq<Seq<char>>) -> bool;

/// Whether a pattern set compiled from `patterns` by `RegexSet::new` (default
/// options) matches somewhere in `text`.
pub uninterp spec fn patterns_match(patterns: Seq<Seq<char>>, text: Seq<char>) -> bool;

/// Relies on `FromIterator` for `ahash::AHashSet`: the set holds exactly the
/// given names.
#[verifier::external_body]
fn collect_names(names: Vec<String>) -> (r: AHashSet<String>)
    ensures
        name_set_contents(r) == views(names@).to_set(),
{
    names.into_iter().collect()
}

/// Relies on `HashSet::contains`, reached through `AHashSet`'s `Deref`:
/// membership by string equality.
#[verifier::external_body]
fn contains_name(set: &AHashSet<String>, name: &str) -> (r: bool)
    ensures
        r == name_set_contents(*set).contains(name@),
{
    set.contains(name)
}

/// Relies on `regex::RegexSet::new`: it fails exactly on patterns that do
/// not compile, the set keeps the patterns it was given, in order (as
/// `RegexSet::patterns` returns them), and, built with default options, it
/// matches what a set of these patterns matches.
#[verifier::external_body]
fn compile_patterns(patterns: &Vec<String>) -> (r: Result<RegexSet, RegexError>)
    ensures
        r is Ok <==> patterns_compile(views(patterns@)),
        r is Ok ==> regex_set_patterns(r->Ok_0) == views(patterns@),
        r is Ok ==> forall|t: Seq<char>|
            #[trigger] matched_texts(r->Ok_0).contains(t) == patterns_match(views(patterns@), t),
{
    RegexSet::new(patterns)
}

/// Relies on `regex::RegexSet::is_match`: whether any pattern of the set
/// matches somewhere in `text`.
#[verifier::external_body]
fn set_is_match(set: &RegexSet, text: &str) -> (r: bool)
    ensures
        r == matched_texts(*set).contains(text@),
{
    set.is_match(text)
}

/// Whether `name` is on a denylist of exact names `exact` and patterns
/// `patterns`; an empty pattern list turns pattern matching off.
pub open spec fn spec_matches(
    exact: Set<Seq<char>>,
    patterns: Seq<Seq<char>>,
    name: Seq<char>,
) -> bool {
    exact.contains(name) || (patterns.len() > 0 && patterns_match(patterns, name))
}

/// A denylist ready for lookups. It is read-only once built.
pub struct Matcher {
    exact: AHashSet<String>,
    patterns: Option<RegexSet>,
}

impl Matcher {
    /// The exact names on the denylist.
    pub closed spec fn exact_names(&self) -> Set<Seq<char>> {
        name_set_contents(self.exact)
    }

    /// The patterns on the denylist, in order; empty when there are none.
    pub closed spec fn pattern_list(&self) -> Seq<Seq<char>> {
        match self.patterns {
            Some(s) => regex_set_patterns(s),
            None => Seq::empty(),
        }
    }

    /// A compiled pattern set is kept only when there are patterns, and it
    /// matches what a default set of its patterns matches.
    #[verifier::type_invariant]
    spec fn inv(&self) -> bool {
        self.patterns is Some ==> {
            let s = self.patterns->Some_0;
            &&& regex_set_patterns(s).len() > 0
            &&& forall|t: Seq<char>|
                #[trigger] matched_texts(s).contains(t) == patterns_match(regex_set_patterns(s), t)
        }
    }

    /// Builds the denylist from exact names and patterns. It fails with
    /// `InvalidPattern` exactly when some pattern does not compile.
    pub fn new(names: Vec<String>, patterns: &Vec<String>) -> (r: Result<Matcher, Error>)
        ensures
            r is Ok <==> (patterns@.len() == 0 || patterns_compile(views(patterns@))),
            r is Err ==> r->Err_0 == Error::InvalidPattern,
            r is Ok ==> r->Ok_0.exact_names() == views(names@).to_set()
                && r->Ok_0.pattern_list() == views(patterns@),
    {
        let exact = collect_names(names);
        if patterns.len() == 0 {
            return Ok(Matcher { exact, patterns: None });
        }
        match compile_patterns(patterns) {
            Ok(set) => Ok(Matcher { exact, patterns: Some(set) }),
            Err(_) => Err(Error::InvalidPattern),
        }
    }

    /// Whether `name` is one of the exact names.
    pub fn is_listed(&self, name: &str) -> (r: bool)
        ensures
            r == self.exact_names().contains(name@),
    {
        contains_name(&self.exact, name)
    }

    /// Whether a process with image name `name` is to be throttled: it is
    /// one of the exact names, or some pattern matches it.
    pub fn matches(&self, name: &str) -> (r: bool)
        ensures
            r == spec_matches(self.exact_names(), self.pattern_list(), name@),
    {
        proof {
            use_type_invariant(self);
        }
        if self.is_listed(name) {
            return true;
        }
        match &self.patterns {
            Some(set) => set_is_match(set, name),
            None => false,
        }
    }
}

/// Every exact name on the denylist matches; a name that is neither an
/// exact name nor matched by a pattern does not.
pub proof fn lemma_denylist_decides(
    names: Seq<Seq<char>>,
    patterns: Seq<Seq<char>>,
    name: Seq<char>,
)
    ensures
        names.contains(name) ==> spec_matches(names.to_set(), patterns, name),
        !names.contains(name) && !patterns_match(patterns, name) ==> !spec_matches(
            names.to_set(),
            patterns,
            name,
        ),
{
}

/// With no patterns, the denylist is exactly the set of exact names: an
/// empty pattern set matches nothing.
pub proof fn lemma_no_patterns_exact_only(names: Seq<Seq<char>>, name: Seq<char>)
    ensures
        spec_matches(names.to_set(), Seq::empty(), name) == names.contains(name),
{
}

} // verus!
