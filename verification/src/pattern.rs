//! Compiled patterns: the regular-expression engine behind the matchers.
//!
//! The engine itself is taken on trust. This module declares its types,
//! names what its functions return, and states the few facts about them
//! that the rest of the crate builds on.

use crate::text::contains_seq;
use vstd::prelude::*;
use vstd::string::*;

verus! {

/// A compiled regular expression. Proofs see nothing of its inside.
#[verifier::external_type_specification]
#[verifier::external_body]
pub struct ExRegex(regex::Regex);

/// The error of the regular-expression engine. Proofs see nothing of its
/// inside.
#[verifier::external_type_specification]
#[verifier::external_body]
pub struct ExRegexError(regex::Error);

/// What compiling `pattern` gives, with case-insensitive matching switched on
/// or off for the whole pattern and every other setting at its default: the
/// compiled expression, or the engine's error. It depends on the pattern and
/// the switch alone.
pub uninterp spec fn regex_build(pattern: Seq<char>, case_insensitive: bool) -> Result<
    regex::Regex,
    regex::Error,
>;

/// Whether `re` matches somewhere in `haystack`. It depends on the two alone.
pub uninterp spec fn regex_is_match(re: regex::Regex, haystack: Seq<char>) -> bool;

/// `re` finds `text` itself: it matches exactly the haystacks in which `text`
/// occurs.
pub open spec fn finds_literal(re: regex::Regex, text: Seq<char>) -> bool {
    forall|haystack: Seq<char>| #[trigger]
        regex_is_match(re, haystack) == contains_seq(haystack, text)
}

/// The engine's description of `error`, as its `Display` impl writes it.
pub uninterp spec fn regex_error_text(error: regex::Error) -> Seq<char>;

/// The characters that have a meaning of their own in a pattern.
pub open spec fn is_meta_character(c: char) -> bool {
    c == '\\' || c == '.' || c == '+' || c == '*' || c == '?' || c == '(' || c == ')' || c == '|'
        || c == '[' || c == ']' || c == '{' || c == '}' || c == '^' || c == '$' || c == '#' || c
        == '&' || c == '-' || c == '~'
}

/// `text` with a backslash put in front of each meta character, so that as
/// a pattern it stands for `text` itself.
pub open spec fn escaped(text: Seq<char>) -> Seq<char>
    decreases text.len(),
{
    if text.len() == 0 {
        Seq::empty()
    } else if is_meta_character(text.last()) {
        escaped(text.drop_last()).push('\\').push(text.last())
    } else {
        escaped(text.drop_last()).push(text.last())
    }
}

/// Trusted: `regex::escape` copies its argument character by character and
/// puts a backslash in front of each meta character.
#[verifier::external_body]
pub(crate) fn escape(text: &str) -> (quoted: String)
    ensures
        quoted@ == escaped(text@),
{
    regex::escape(text)
}

/// Trusted: `Regex::is_match` returns whether the expression matches
/// somewhere in the haystack; the answer depends on the two alone.
#[verifier::external_body]
pub(crate) fn is_match(re: &regex::Regex, haystack: &str) -> (found: bool)
    ensures
        found == regex_is_match(*re, haystack@),
{
    re.is_match(haystack)
}

/// Trusted: a `RegexBuilder` made for `pattern`, with `case_insensitive` set
/// as given and nothing else changed, builds the expression that
/// [`regex_build`] names, or fails with the error that it names. Where the
/// pattern is an escaped text and case matters, the expression built is a
/// literal: it matches where that text occurs, and nowhere else.
#[verifier::external_body]
pub(crate) fn build(pattern: &str, case_insensitive: bool) -> (built: Result<
    regex::Regex,
    regex::Error,
>)
    ensures
        built == regex_build(pattern@, case_insensitive),
        !case_insensitive ==> forall|text: Seq<char>|
            pattern@ == #[trigger] escaped(text) && built is Ok ==> finds_literal(
                built->Ok_0,
                text,
            ),
{
    regex::RegexBuilder::new(pattern).case_insensitive(case_insensitive).build()
}

/// Trusted: formatting a `regex::Error` with `Display` gives the text that
/// [`regex_error_text`] names.
#[verifier::external_body]
pub(crate) fn error_text(error: &regex::Error) -> (message: String)
    ensures
        message@ == regex_error_text(*error),
{
    error.to_string()
}

/// A pattern that could not be compiled.
#[derive(Debug, Clone, PartialEq, Eq)]
pub struct PatternError {
    pattern: String,
    message: String,
}

impl PatternError {
    /// The pattern that was refused.
    pub closed spec fn spec_pattern(&self) -> Seq<char> {
        self.pattern@
    }

    /// The engine's reason for refusing it.
    pub closed spec fn spec_message(&self) -> Seq<char> {
        self.message@
    }

    /// The error that reports that `pattern` was refused with `error`.
    pub(crate) fn new(pattern: &str, error: &regex::Error) -> (e: PatternError)
        ensures
            e.spec_pattern() == pattern@,
            e.spec_message() == regex_error_text(*error),
    {
        PatternError { pattern: pattern.to_owned(), message: error_text(error) }
    }

    /// The pattern that was refused.
    pub fn pattern(&self) -> (p: &str)
        ensures
            p@ == self.spec_pattern(),
    {
        self.pattern.as_str()
    }

    /// The engine's reason for refusing it.
    pub fn message(&self) -> (m: &str)
        ensures
            m@ == self.spec_message(),
    {
        self.message.as_str()
    }
}

} // verus!
