//! Name-matching patterns: a thin verified layer over the `regex` crate.
//!
//! Compilation and matching are the regular-expression engine's work and
//! are trusted; everything built on them speaks of the two names
//! `pattern_compiles` and `pattern_matches`.

use vstd::prelude::*;
use vstd::string::StringExecFns;

verus! {

/// Whether `pattern`, read as a regular expression, compiles. This is
/// the success of `regex::Regex::new`, which is a function of the
/// pattern string alone.
pub uninterp spec fn pattern_compiles(pattern: Seq<char>) -> bool;

/// Whether the regular expression `pattern` matches anywhere in `text`.
/// This is the result of `regex::Regex::is_match`, which is a function
/// of the expression's pattern and the text alone.
pub uninterp spec fn pattern_matches(pattern: Seq<char>, text: Seq<char>) -> bool;

#[verifier::external_type_specification]
#[verifier::external_body]
pub struct ExRegex(regex::Regex);

/// A compiled name-matching pattern, kept beside the text it was
/// compiled from. `compile` is the only way to build one, so the
/// compiled expression always belongs to the stored source text.
pub struct Pattern {
    re: regex::Regex,
    source: String,
}

/// A rejected pattern: the text of the error that the regular
/// expression engine reported for it.
#[derive(Debug)]
pub struct PatternError {
    pub message: String,
}

impl View for Pattern {
    type V = Seq<char>;

    closed spec fn view(&self) -> Seq<char> {
        self.source@
    }
}

impl Pattern {
    /// Relies on `regex::Regex::new`: it returns `Err` exactly on the
    /// pattern strings it rejects, a property of the pattern alone.
    #[verifier::external_body]
    fn compile_regex(pattern: &str) -> (r: Result<regex::Regex, String>)
        ensures
            r is Ok <==> pattern_compiles(pattern@),
    {
        regex::Regex::new(pattern).map_err(|e| e.to_string())
    }

    /// Compile a pattern; succeeds exactly on the patterns the regular
    /// expression engine accepts.
    pub fn compile(pattern: &str) -> (r: Result<Pattern, PatternError>)
        ensures
            r is Ok <==> pattern_compiles(pattern@),
            r matches Ok(p) ==> p@ == pattern@,
    {
        match Self::compile_regex(pattern) {
            Ok(re) => Ok(Pattern { re, source: String::from_str(pattern) }),
            Err(message) => Err(PatternError { message }),
        }
    }

    /// Relies on `regex::Regex::is_match`: true exactly when the
    /// expression matches anywhere in `text`; the result is a function
    /// of the expression's pattern and the text alone.
    #[verifier::external_body]
    pub(crate) fn is_match(&self, text: &str) -> (r: bool)
        ensures
            r == pattern_matches(self@, text@),
    {
        self.re.is_match(text)
    }

    /// The pattern text this was compiled from.
    pub fn source(&self) -> (r: &str)
        ensures
            r@ == self@,
    {
        self.source.as_str()
    }
}

} // verus!
