use vstd::prelude::*;

use crate::error::InquisitorError;

verus! {

#[verifier::external_type_specification]
#[verifier::external_body]
pub struct ExRegex(regex::Regex);

#[verifier::external_type_specification]
#[verifier::external_body]
pub struct ExRegexError(regex::Error);

/// Whether `regex` accepts a pattern.
pub uninterp spec fn regex_compiles(pattern: Seq<char>) -> bool;

/// Whether the compiled `pattern` matches somewhere in `text`.
pub uninterp spec fn regex_finds(pattern: Seq<char>, text: Seq<char>) -> bool;

/// Relies on `regex::Regex::new`: whether it succeeds depends on the pattern
/// alone.
#[verifier::external_body]
fn compile_regex(pattern: &str) -> (r: Result<regex::Regex, regex::Error>)
    ensures
        r is Ok == regex_compiles(pattern@),
{
    regex::Regex::new(pattern)
}

/// A failure-body pattern: a regular expression, together with the text it
/// was compiled from.
pub struct FailurePattern {
    source: String,
    regex: regex::Regex,
}

impl View for FailurePattern {
    type V = Seq<char>;

    closed spec fn view(&self) -> Seq<char> {
        self.source@
    }
}

/// Relies on `regex::Regex::is_match`, applied to the regex that
/// `FailurePattern::new` compiled from the pattern's source: whether it
/// matches depends on that source and the text alone.
#[verifier::external_body]
fn pattern_is_match(pattern: &FailurePattern, text: &str) -> (r: bool)
    ensures
        r == regex_finds(pattern@, text@),
{
    pattern.regex.is_match(text)
}

impl FailurePattern {
    /// Compiles a failure-body pattern; fails where `source` is not a regular
    /// expression that `regex` accepts.
    pub fn new(source: &str) -> (r: Result<FailurePattern, InquisitorError>)
        ensures
            r is Ok <==> regex_compiles(source@),
            r matches Ok(p) ==> p@ == source@,
            r matches Err(e) ==> e == InquisitorError::InvalidFailurePattern,
    {
        match compile_regex(source) {
            Ok(regex) => Ok(FailurePattern { source: source.to_owned(), regex }),
            Err(_) => Err(InquisitorError::InvalidFailurePattern),
        }
    }

    /// The text the pattern was compiled from.
    pub fn as_str(&self) -> (r: &str)
        ensures
            r@ == self@,
    {
        self.source.as_str()
    }

    /// Whether the pattern matches somewhere in `text`.
    pub fn is_match(&self, text: &str) -> (r: bool)
        ensures
            r == regex_finds(self@, text@),
    {
        pattern_is_match(self, text)
    }
}

} // verus!
