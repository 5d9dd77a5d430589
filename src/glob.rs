//! Compiled sets of glob patterns.
//!
//! Compiling and matching are done by the `globset` crate. Whether a list of
//! patterns compiles, and whether a compiled set matches a path, are named
//! here rather than restated: both depend on the patterns, the case mode and
//! the path alone.

use vstd::prelude::*;
use crate::text::views_of;

verus! {

#[verifier::external_type_specification]
#[verifier::external_body]
pub struct ExGlobSet(globset::GlobSet);

/// Whether `globset` accepts every pattern of the list under the case mode.
pub uninterp spec fn glob_set_builds(patterns: Seq<Seq<char>>, case_sensitive: bool) -> bool;

/// Whether the set compiled from the patterns matches the path, that is,
/// whether any one of the patterns matches it.
pub uninterp spec fn glob_set_matches(patterns: Seq<Seq<char>>, case_sensitive: bool, path: Seq<char>) -> bool;

/// A list of glob patterns compiled under one case mode.
pub struct GlobPatterns {
    patterns: Vec<String>,
    case_sensitive: bool,
    set: globset::GlobSet,
}

impl GlobPatterns {
    #[verifier::type_invariant]
    spec fn builds(&self) -> bool {
        glob_set_builds(views_of(self.patterns@), self.case_sensitive)
    }
}

impl View for GlobPatterns {
    type V = (Seq<Seq<char>>, bool);

    closed spec fn view(&self) -> (Seq<Seq<char>>, bool) {
        (views_of(self.patterns@), self.case_sensitive)
    }
}

/// Relies on `globset::GlobBuilder::build` (case-insensitive unless
/// `case_sensitive`) for each pattern and on `GlobSetBuilder::build`: the
/// set is produced exactly when every pattern and the whole set compile.
#[verifier::external_body]
fn build_glob_set(patterns: &Vec<String>, case_sensitive: bool) -> (r: Option<globset::GlobSet>)
    ensures
        (r is Some) == glob_set_builds(views_of(patterns@), case_sensitive),
{
    let mut builder = globset::GlobSetBuilder::new();
    for p in patterns.iter() {
        builder.add(globset::GlobBuilder::new(p).case_insensitive(!case_sensitive).build().ok()?);
    }
    builder.build().ok()
}

impl GlobPatterns {
    /// Compiles the patterns, or returns `None` when one of them is invalid.
    pub fn compile(patterns: &Vec<String>, case_sensitive: bool) -> (r: Option<GlobPatterns>)
        ensures
            (r is Some) == glob_set_builds(views_of(patterns@), case_sensitive),
            r matches Some(g) ==> g@ == (views_of(patterns@), case_sensitive),
    {
        match build_glob_set(patterns, case_sensitive) {
            Some(set) => Some(GlobPatterns {
                patterns: crate::text::copy_strings(patterns),
                case_sensitive,
                set,
            }),
            None => None,
        }
    }

    /// Relies on `globset::GlobSet::is_match`: true when any pattern of the
    /// set matches the path. The set is the one compiled from `self@`, as
    /// `compile` is the only way to make a value of this type.
    #[verifier::external_body]
    pub(crate) fn is_match(&self, path: &str) -> (r: bool)
        ensures
            r == glob_set_matches(self@.0, self@.1, path@),
    {
        self.set.is_match(path)
    }

    /// A second compiled set with the same patterns and case mode.
    pub fn duplicate(&self) -> (r: GlobPatterns)
        ensures
            r@ == self@,
    {
        proof {
            use_type_invariant(self);
        }
        GlobPatterns::compile(&self.patterns, self.case_sensitive).unwrap()
    }
}

} // verus!
