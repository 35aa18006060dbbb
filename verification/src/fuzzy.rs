//! The fuzzy name scorer, behind a trusted boundary.
//!
//! Matching itself is done by the `fuzzy_matcher` crate's skim
//! scorer.  Its verdict is a pure function of the candidate and the
//! pattern; this module gives that function a name,
//! [`fuzzy_match_of`], so that every contract above can speak of it
//! exactly without restating the scoring algorithm.

use fuzzy_matcher::FuzzyMatcher;
use fuzzy_matcher::skim::SkimMatcherV2;
use vstd::prelude::*;

verus! {

/// Whether the skim fuzzy scorer accepts candidate `name` for the
/// pattern `query`, under the scorer's default configuration.
pub uninterp spec fn fuzzy_match_of(name: Seq<char>, query: Seq<char>) -> bool;

#[verifier::external_type_specification]
#[verifier::external_body]
pub struct ExSkimMatcherV2(SkimMatcherV2);

/// Relies on `SkimMatcherV2::default`: a scorer with the default
/// (smart-case) configuration.  Every scorer this crate holds is
/// built here, so [`fuzzy_matches`] may treat the verdict as a
/// function of candidate and pattern alone.
#[verifier::external_body]
pub(crate) fn matcher_new() -> SkimMatcherV2 {
    SkimMatcherV2::default()
}

/// Relies on `SkimMatcherV2::fuzzy_match`: a deterministic score for
/// a candidate against a pattern, `None` when they do not match, and
/// a sure match (score zero) for an empty pattern.
#[verifier::external_body]
pub(crate) fn fuzzy_matches(m: &SkimMatcherV2, name: &str, query: &str) -> (r: bool)
    ensures
        r == fuzzy_match_of(name@, query@),
        query@.len() == 0 ==> r,
{
    m.fuzzy_match(name, query).is_some()
}

} // verus!
