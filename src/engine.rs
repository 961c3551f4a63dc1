//! The boundary with the `regex` engine, which compiles a finished pattern.
use vstd::prelude::*;

verus! {

/// A compiled matcher of the `regex` engine.
#[verifier::external_type_specification]
#[verifier::external_body]
pub struct ExRegex(regex::Regex);

/// The error the `regex` engine reports for a pattern it will not compile.
#[verifier::external_type_specification]
#[verifier::external_body]
pub struct ExError(regex::Error);

/// Whether the `regex` engine compiles the pattern `p` (with its default
/// settings). For one build of the program this depends on the pattern
/// alone; the size limit is measured with the target's type sizes, so the
/// answer for a very large pattern may differ between targets.
pub uninterp spec fn engine_accepts(p: Seq<char>) -> bool;

/// The pattern text that a compiled matcher was built from, the text that
/// `regex::Regex::as_str` gives back.
pub uninterp spec fn pattern_of(r: regex::Regex) -> Seq<char>;

/// Relies on `regex::Regex::new`: it compiles the pattern, and returns an
/// error exactly when the pattern is not valid syntax or exceeds the default
/// size limit, both of which are decided by the pattern alone. A matcher it
/// returns keeps the pattern it was given.
#[verifier::external_body]
pub(crate) fn compile(pattern: &str) -> (r: Result<regex::Regex, regex::Error>)
    ensures
        r is Ok <==> engine_accepts(pattern@),
        r is Ok ==> pattern_of(r->Ok_0) == pattern@,
{
    regex::Regex::new(pattern)
}

} // verus!
