//! Compiled textual filters.
//!
//! A filter field holds the source text of a regular expression. It is
//! compiled once, when a configuration is resolved; matching later is a pure
//! function of the source text and the haystack, which is what the contracts
//! here speak about.

use vstd::prelude::*;

verus! {

#[verifier::external_type_specification]
#[verifier::external_body]
pub struct ExRegex(regex::Regex);

#[verifier::external_type_specification]
#[verifier::external_body]
pub struct ExRegexError(regex::Error);

/// Whether the regular-expression engine accepts `pattern` as a valid
/// pattern (within its default size limit). Decided by the pattern alone.
pub uninterp spec fn regex_compiles(pattern: Seq<char>) -> bool;

/// Whether the regular expression `pattern` matches anywhere in `text`.
/// Decided by the pattern and the text alone.
pub uninterp spec fn regex_matches(pattern: Seq<char>, text: Seq<char>) -> bool;

/// A compiled filter, kept beside the source text it was compiled from so
/// that every later match can be stated over that text.
///
/// The fields are private: the only constructor is `compile`, which
/// guarantees that `regex` really is the compilation of `source`.
#[derive(Debug)]
pub struct CompiledFilter {
    source: String,
    regex: regex::Regex,
}

impl CompiledFilter {
    /// The pattern this filter was compiled from.
    pub closed spec fn source_view(&self) -> Seq<char> {
        self.source@
    }

    /// Relies on regex::Regex::new: it returns `Ok` exactly on the patterns
    /// it documents as valid, deciding from the pattern alone.
    #[verifier::external_body]
    pub(crate) fn compile(pattern: &str) -> (r: Result<CompiledFilter, regex::Error>)
        ensures
            r is Ok <==> regex_compiles(pattern@),
            r matches Ok(f) ==> f.source_view() == pattern@,
    {
        match regex::Regex::new(pattern) {
            Ok(regex) => Ok(CompiledFilter { source: pattern.to_owned(), regex }),
            Err(e) => Err(e),
        }
    }

    /// Relies on regex::Regex::is_match: true iff the expression matches
    /// anywhere in `text`, decided by the pattern and the text alone.
    #[verifier::external_body]
    pub(crate) fn matches(&self, text: &str) -> (r: bool)
        ensures
            r == regex_matches(self.source_view(), text@),
    {
        self.regex.is_match(text)
    }
}

} // verus!
