//! Regex-backed matchers and the event filtering engine.
//!
//! A `Filter` is one compiled pattern; an `EventFilters` composes an
//! optional inclusion matcher (the candidate must match) and an optional
//! exclusion matcher (the candidate must not match) into a single
//! accept/reject decision. An absent matcher imposes no constraint.

use vstd::prelude::*;

verus! {

/// Whether `pattern` is accepted by the regex compiler: valid syntax and
/// within the compiler's default size limit. A pure function of the
/// pattern text.
pub uninterp spec fn pattern_valid(pattern: Seq<char>) -> bool;

/// Whether the regex denoted by `pattern` matches anywhere in `text`.
/// A pure function of the pattern and the haystack.
pub uninterp spec fn pattern_matches(pattern: Seq<char>, text: Seq<char>) -> bool;

/// The pattern a compiled `regex::Regex` was built from.
pub uninterp spec fn regex_pattern(re: regex::Regex) -> Seq<char>;

#[verifier::external_type_specification]
#[verifier::external_body]
pub struct ExRegex(regex::Regex);

/// Relies on `regex::Regex::new`: compilation succeeds exactly when the
/// pattern is valid (including the default size limit), and the compiled
/// regex denotes that pattern.
#[verifier::external_body]
pub(crate) fn regex_new(pattern: &str) -> (r: Option<regex::Regex>)
    ensures
        r is Some <==> pattern_valid(pattern@),
        r matches Some(re) ==> regex_pattern(re) == pattern@,
{
    regex::Regex::new(pattern).ok()
}

/// Relies on `regex::Regex::is_match`: returns whether the regex matches
/// anywhere in the haystack, a pure function of pattern and haystack.
#[verifier::external_body]
pub(crate) fn regex_is_match(re: &regex::Regex, text: &str) -> (r: bool)
    ensures
        r == pattern_matches(regex_pattern(*re), text@),
{
    re.is_match(text)
}

/// Construction-time failure: an invalid filter pattern or missing
/// required configuration, reported before any event is processed.
#[derive(Clone, Copy, PartialEq, Eq, Structural, Debug)]
pub enum ConfigurationError {
    InvalidPattern,
    MissingConfig,
}

/// A normal control-flow outcome of filtering: the candidate is not to be
/// forwarded. Never an error of the library itself.
#[derive(Clone, Copy, PartialEq, Eq, Structural, Debug)]
pub enum Rejected {
    /// An inclusion matcher is present and the candidate does not match it.
    MissedInclusion,
    /// An exclusion matcher is present and the candidate matches it.
    MatchedExclusion,
}

/// One compiled pattern, immutable once built.
pub struct Filter {
    regex: regex::Regex,
}

impl Filter {
    /// The pattern this filter was built from.
    pub closed spec fn pattern(self) -> Seq<char> {
        regex_pattern(self.regex)
    }

    /// Compile `pattern`; fails fast with a `ConfigurationError` exactly
    /// when the pattern is invalid.
    pub fn new(pattern: &str) -> (r: Result<Filter, ConfigurationError>)
        ensures
            r is Ok <==> pattern_valid(pattern@),
            r matches Ok(f) ==> f.pattern() == pattern@,
            r is Err ==> r == Err::<Filter, ConfigurationError>(ConfigurationError::InvalidPattern),
    {
        match regex_new(pattern) {
            Some(re) => Ok(Filter { regex: re }),
            None => Err(ConfigurationError::InvalidPattern),
        }
    }

    /// Whether this filter's pattern matches anywhere in `text`.
    pub fn is_match(&self, text: &str) -> (r: bool)
        ensures
            r == pattern_matches(self.pattern(), text@),
    {
        regex_is_match(&self.regex, text)
    }
}

/// A pair of optional matchers: the inclusion side must match and the
/// exclusion side must not. Either, both, or neither may be present;
/// absence means "no constraint from that side", never "reject everything".
///
/// Role vocabularies map onto the two sides: for target filters the
/// additive matcher is the inclusion side and the subtractive matcher the
/// exclusion side; for message and field-key filters the negative matcher
/// is the inclusion side and the positive matcher the exclusion side.
pub struct EventFilters {
    pub inclusion: Option<Filter>,
    pub exclusion: Option<Filter>,
}

impl EventFilters {
    /// Whether `candidate` passes both matchers.
    pub open spec fn accepts(self, candidate: Seq<char>) -> bool {
        &&& (self.inclusion matches Some(f) ==> pattern_matches(f.pattern(), candidate))
        &&& (self.exclusion matches Some(f) ==> !pattern_matches(f.pattern(), candidate))
    }

    /// Whether the inclusion side rejects `candidate`.
    pub open spec fn inclusion_rejects(self, candidate: Seq<char>) -> bool {
        self.inclusion matches Some(f) && !pattern_matches(f.pattern(), candidate)
    }

    /// Whether the exclusion side rejects `candidate`.
    pub open spec fn exclusion_rejects(self, candidate: Seq<char>) -> bool {
        self.exclusion matches Some(f) && pattern_matches(f.pattern(), candidate)
    }

    pub fn new(inclusion: Option<Filter>, exclusion: Option<Filter>) -> (r: EventFilters)
        ensures
            r.inclusion == inclusion,
            r.exclusion == exclusion,
    {
        EventFilters { inclusion, exclusion }
    }

    /// Evaluate `candidate`: `Ok` exactly when both matchers pass, the
    /// inclusion side checked first.
    pub fn process(&self, candidate: &str) -> (r: Result<(), Rejected>)
        ensures
            r == self.process_result(candidate@),
            r is Ok <==> self.accepts(candidate@),
            r == Err::<(), Rejected>(Rejected::MissedInclusion) <==> self.inclusion_rejects(
                candidate@,
            ),
            r == Err::<(), Rejected>(Rejected::MatchedExclusion) <==> !self.inclusion_rejects(
                candidate@,
            ) && self.exclusion_rejects(candidate@),
    {
        match &self.inclusion {
            Some(f) => {
                if !f.is_match(candidate) {
                    return Err(Rejected::MissedInclusion);
                }
            },
            None => {},
        }
        match &self.exclusion {
            Some(f) => {
                if f.is_match(candidate) {
                    return Err(Rejected::MatchedExclusion);
                }
            },
            None => {},
        }
        Ok(())
    }

    /// Evaluate `candidate` against an optional `EventFilters`; absence of
    /// the whole filter set imposes no constraint.
    pub fn process_opt(filters: &Option<EventFilters>, candidate: &str) -> (r: Result<
        (),
        Rejected,
    >)
        ensures
            r == opt_process_result(*filters, candidate@),
            r is Ok <==> opt_accepts(*filters, candidate@),
    {
        match filters {
            Some(ef) => ef.process(candidate),
            None => Ok(()),
        }
    }

    /// The exact result `process` returns for `candidate`.
    pub open spec fn process_result(self, candidate: Seq<char>) -> Result<(), Rejected> {
        if self.inclusion_rejects(candidate) {
            Err(Rejected::MissedInclusion)
        } else if self.exclusion_rejects(candidate) {
            Err(Rejected::MatchedExclusion)
        } else {
            Ok(())
        }
    }
}

/// Whether `candidate` passes an optional filter set.
pub open spec fn opt_accepts(filters: Option<EventFilters>, candidate: Seq<char>) -> bool {
    filters matches Some(ef) ==> ef.accepts(candidate)
}

/// The exact result `process_opt` returns for `candidate`.
pub open spec fn opt_process_result(
    filters: Option<EventFilters>,
    candidate: Seq<char>,
) -> Result<(), Rejected> {
    match filters {
        Some(ef) => ef.process_result(candidate),
        None => Ok(()),
    }
}

/// With only an inclusion matcher configured, a candidate is accepted
/// exactly when it matches that matcher's pattern.
pub proof fn lemma_inclusion_only_accepts_matches(ef: EventFilters, f: Filter, s: Seq<char>)
    requires
        ef.inclusion == Some(f),
        ef.exclusion is None,
    ensures
        ef.accepts(s) <==> pattern_matches(f.pattern(), s),
{
}

/// With only an exclusion matcher configured, a candidate is accepted
/// exactly when it does not match that matcher's pattern.
pub proof fn lemma_exclusion_only_accepts_non_matches(ef: EventFilters, f: Filter, s: Seq<char>)
    requires
        ef.inclusion is None,
        ef.exclusion == Some(f),
    ensures
        ef.accepts(s) <==> !pattern_matches(f.pattern(), s),
{
}

/// With neither matcher configured, every candidate is accepted.
pub proof fn lemma_absent_matchers_accept_all(ef: EventFilters, s: Seq<char>)
    requires
        ef.inclusion is None,
        ef.exclusion is None,
    ensures
        ef.accepts(s),
{
}

} // verus!
