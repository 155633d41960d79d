//! File name patterns: regular expressions, compiled and run by the `regex`
//! crate.

use regex::Regex;
use vstd::prelude::*;

verus! {

/// `regex::Regex`, a compiled regular expression. Nothing inside it is seen
/// here.
#[verifier::external_type_specification]
#[verifier::external_body]
pub struct ExRegex(regex::Regex);

/// `regex::Error`, the reason why a pattern was not compiled. Nothing inside
/// it is seen here.
#[verifier::external_type_specification]
#[verifier::external_body]
pub struct ExRegexError(regex::Error);

/// Whether `regex::Regex::new` accepts the pattern.
pub uninterp spec fn pattern_compiles(pattern: Seq<char>) -> bool;

/// Whether a regular expression compiled from `pattern` by `regex::Regex::new`
/// has a match somewhere in `text`.
pub uninterp spec fn pattern_matches(pattern: Seq<char>, text: Seq<char>) -> bool;

/// A compiled file name pattern, kept together with the text it was compiled
/// from. The only way to make one is [`NamePattern::compile`].
pub struct NamePattern {
    source: String,
    compiled: Regex,
}

impl NamePattern {
    /// The text that the pattern was compiled from.
    pub closed spec fn source(&self) -> Seq<char> {
        self.source@
    }

    /// `regex::Regex::new`: compiles the pattern with the crate's default
    /// options. Nothing is claimed about which patterns are accepted, only
    /// that it depends on the pattern alone; an accepted pattern is kept
    /// beside its compiled form.
    #[verifier::external_body]
    pub(crate) fn compile(pattern: &str) -> (r: Result<NamePattern, regex::Error>)
        ensures
            r is Ok <==> pattern_compiles(pattern@),
            r matches Ok(p) ==> p.source() == pattern@,
    {
        match Regex::new(pattern) {
            Ok(compiled) => Ok(NamePattern { source: pattern.to_owned(), compiled }),
            Err(error) => Err(error),
        }
    }

    /// `regex::Regex::is_match`: whether the expression has a match anywhere in
    /// `text`. Nothing is claimed about which texts match, only that it
    /// depends on the pattern and the text alone.
    #[verifier::external_body]
    pub(crate) fn is_match(&self, text: &str) -> (b: bool)
        ensures
            b == pattern_matches(self.source(), text@),
    {
        self.compiled.is_match(text)
    }
}

} // verus!
