//! The matcher algebra: boolean predicates over text.

use crate::pattern::{
    build, escape, escaped, is_match, regex_build, regex_error_text, regex_is_match, PatternError,
};
use crate::text::{contains_seq, is_line, lowercase};
use vstd::prelude::*;
use vstd::string::*;

verus! {

/// A predicate over a line of text: a compiled pattern, or a combination of
/// other matchers. A matcher never changes once it is built.
#[derive(Debug)]
pub enum Matcher {
    /// Holds where the pattern matches somewhere in the text.
    Pattern(regex::Regex),
    /// Holds where both hold.
    And(Box<Matcher>, Box<Matcher>),
    /// Holds where at least one holds.
    Or(Box<Matcher>, Box<Matcher>),
    /// Holds where the inner matcher does not.
    Not(Box<Matcher>),
}

/// What opens the pattern of a whole-word matcher: the flag for
/// case-insensitive matching, then a word boundary.
pub open spec fn word_prefix() -> Seq<char> {
    seq!['(', '?', 'i', ')', '\\', 'b']
}

/// What closes the pattern of a whole-word matcher: a word boundary.
pub open spec fn word_suffix() -> Seq<char> {
    seq!['\\', 'b']
}

/// The pattern that finds `text` as a whole word, whatever its case: the
/// lowercase form of `text`, taken literally, between two word boundaries.
pub open spec fn word_source(text: Seq<char>) -> Seq<char> {
    word_prefix() + escaped(lowercase(text)) + word_suffix()
}

/// The pattern that finds `text` itself: `text` taken literally.
pub open spec fn text_source(text: Seq<char>) -> Seq<char> {
    escaped(text)
}

/// `error` reports that `source` did not compile, with the engine's reason.
pub open spec fn refused(source: Seq<char>, case_insensitive: bool, error: PatternError) -> bool {
    &&& regex_build(source, case_insensitive) matches Err(e)
    &&& error.spec_pattern() == source
    &&& error.spec_message() == regex_error_text(e)
}

/// The matcher that holds where both `a` and `b` hold.
pub open spec fn both(a: Matcher, b: Matcher) -> Matcher {
    Matcher::And(Box::new(a), Box::new(b))
}

/// The matcher that holds where `a` or `b` holds.
pub open spec fn either(a: Matcher, b: Matcher) -> Matcher {
    Matcher::Or(Box::new(a), Box::new(b))
}

/// The matcher that holds where `a` does not.
pub open spec fn negation(a: Matcher) -> Matcher {
    Matcher::Not(Box::new(a))
}

/// Builds the pattern of a whole-word matcher for `text`.
fn word_pattern(text: &str) -> (source: String)
    ensures
        source@ == word_source(text@),
{
    let lowered = text.to_lowercase();
    let quoted = escape(lowered.as_str());
    let mut source = String::from_str("(?i)\\b");
    source.append(quoted.as_str());
    source.append("\\b");
    proof {
        reveal_strlit("(?i)\\b");
        reveal_strlit("\\b");
        assert("(?i)\\b"@ =~= word_prefix());
        assert("\\b"@ =~= word_suffix());
    }
    source
}

/// Compiles `source` and throws the result away, keeping only whether it
/// compiled and, if not, why.
fn try_compile(source: &str, case_insensitive: bool) -> (r: Result<(), PatternError>)
    ensures
        r is Ok <==> regex_build(source@, case_insensitive) is Ok,
        r matches Err(error) ==> refused(source@, case_insensitive, error),
{
    match build(source, case_insensitive) {
        Ok(_) => Ok(()),
        Err(e) => Err(PatternError::new(source, &e)),
    }
}

impl Matcher {
    /// The meaning of a matcher: whether it holds of `text`.
    pub open spec fn accepts(&self, text: Seq<char>) -> bool
        decreases self,
    {
        match self {
            Matcher::Pattern(re) => regex_is_match(*re, text),
            Matcher::And(a, b) => a.accepts(text) && b.accepts(text),
            Matcher::Or(a, b) => a.accepts(text) || b.accepts(text),
            Matcher::Not(inner) => !inner.accepts(text),
        }
    }

    /// The pattern matcher that `source` compiles to. Meaningful only where
    /// `source` compiles.
    pub open spec fn compiled(source: Seq<char>, case_insensitive: bool) -> Matcher {
        Matcher::Pattern(regex_build(source, case_insensitive)->Ok_0)
    }

    /// The whole-word matcher for `text` can be built.
    pub open spec fn word_compiles(text: Seq<char>) -> bool {
        regex_build(word_source(text), true) is Ok
    }

    /// The literal matcher for `text` can be built.
    pub open spec fn text_compiles(text: Seq<char>) -> bool {
        regex_build(text_source(text), false) is Ok
    }

    /// A matcher that holds where `text` occurs as a whole word, in any case.
    ///
    /// The pattern engine refuses patterns that compile to more than it
    /// allows; `text` must be one whose pattern it takes. [`Matcher::try_word`]
    /// makes that test.
    pub fn word(text: &str) -> (m: Matcher)
        requires
            Matcher::word_compiles(text@),
        ensures
            m == Matcher::compiled(word_source(text@), true),
    {
        let source = word_pattern(text);
        Matcher::Pattern(build(source.as_str(), true).unwrap())
    }

    /// As [`Matcher::word`], for every `text`: fails where the pattern
    /// engine refuses the pattern.
    pub fn try_word(text: &str) -> (r: Result<Matcher, PatternError>)
        ensures
            match r {
                Ok(m) => Matcher::word_compiles(text@) && m == Matcher::compiled(
                    word_source(text@),
                    true,
                ),
                Err(error) => refused(word_source(text@), true, error),
            },
    {
        let source = word_pattern(text);
        match try_compile(source.as_str(), true) {
            Ok(_) => Ok(Matcher::word(text)),
            Err(error) => Err(error),
        }
    }

    /// A matcher that holds where `text` occurs as it is written, case and
    /// all, whatever stands around it, and nowhere else.
    ///
    /// `text` must be one whose pattern the engine takes;
    /// [`Matcher::try_text`] makes that test.
    pub fn text(text: &str) -> (m: Matcher)
        requires
            Matcher::text_compiles(text@),
        ensures
            m == Matcher::compiled(text_source(text@), false),
            forall|line: Seq<char>| #[trigger] m.accepts(line) == contains_seq(line, text@),
    {
        let source = escape(text);
        Matcher::Pattern(build(source.as_str(), false).unwrap())
    }

    /// As [`Matcher::text`], for every `text`: fails where the pattern
    /// engine refuses the pattern.
    pub fn try_text(text: &str) -> (r: Result<Matcher, PatternError>)
        ensures
            match r {
                Ok(m) => {
                    &&& Matcher::text_compiles(text@)
                    &&& m == Matcher::compiled(text_source(text@), false)
                    &&& forall|line: Seq<char>| #[trigger]
                        m.accepts(line) == contains_seq(line, text@)
                },
                Err(error) => refused(text_source(text@), false, error),
            },
    {
        let source = escape(text);
        match try_compile(source.as_str(), false) {
            Ok(_) => Ok(Matcher::text(text)),
            Err(error) => Err(error),
        }
    }

    /// A matcher from a pattern written in the engine's own syntax, matched
    /// as the pattern says. Fails exactly where the pattern does not compile.
    pub fn regex(pattern: &str) -> (r: Result<Matcher, PatternError>)
        ensures
            match r {
                Ok(m) => regex_build(pattern@, false) is Ok && m == Matcher::compiled(
                    pattern@,
                    false,
                ),
                Err(error) => refused(pattern@, false, error),
            },
    {
        match build(pattern, false) {
            Ok(re) => Ok(Matcher::Pattern(re)),
            Err(e) => Err(PatternError::new(pattern, &e)),
        }
    }

    /// Holds where `self` and `other` both hold.
    pub fn and_m(self, other: Matcher) -> (m: Matcher)
        ensures
            m == both(self, other),
    {
        Matcher::And(Box::new(self), Box::new(other))
    }

    /// Holds where `self` holds and `other` occurs as a whole word.
    ///
    /// `other` must be a word that [`Matcher::word`] takes;
    /// [`Matcher::try_and`] makes that test.
    pub fn and(self, other: &str) -> (m: Matcher)
        requires
            Matcher::word_compiles(other@),
        ensures
            m == both(self, Matcher::compiled(word_source(other@), true)),
    {
        Matcher::And(Box::new(self), Box::new(Matcher::word(other)))
    }

    /// As [`Matcher::and`], for every `other`: fails, and drops `self`,
    /// where the pattern engine refuses the word's pattern.
    pub fn try_and(self, other: &str) -> (r: Result<Matcher, PatternError>)
        ensures
            match r {
                Ok(m) => Matcher::word_compiles(other@) && m == both(
                    self,
                    Matcher::compiled(word_source(other@), true),
                ),
                Err(error) => refused(word_source(other@), true, error),
            },
    {
        let source = word_pattern(other);
        match try_compile(source.as_str(), true) {
            Ok(_) => Ok(self.and(other)),
            Err(error) => Err(error),
        }
    }

    /// Holds where `self` or `other` holds.
    pub fn or_m(self, other: Matcher) -> (m: Matcher)
        ensures
            m == either(self, other),
    {
        Matcher::Or(Box::new(self), Box::new(other))
    }

    /// Holds where `self` holds or `other` occurs as a whole word.
    ///
    /// `other` must be a word that [`Matcher::word`] takes;
    /// [`Matcher::try_or`] makes that test.
    pub fn or(self, other: &str) -> (m: Matcher)
        requires
            Matcher::word_compiles(other@),
        ensures
            m == either(self, Matcher::compiled(word_source(other@), true)),
    {
        Matcher::Or(Box::new(self), Box::new(Matcher::word(other)))
    }

    /// As [`Matcher::or`], for every `other`: fails, and drops `self`,
    /// where the pattern engine refuses the word's pattern.
    pub fn try_or(self, other: &str) -> (r: Result<Matcher, PatternError>)
        ensures
            match r {
                Ok(m) => Matcher::word_compiles(other@) && m == either(
                    self,
                    Matcher::compiled(word_source(other@), true),
                ),
                Err(error) => refused(word_source(other@), true, error),
            },
    {
        let source = word_pattern(other);
        match try_compile(source.as_str(), true) {
            Ok(_) => Ok(self.or(other)),
            Err(error) => Err(error),
        }
    }

    /// Holds where `self` does not.
    pub fn not(self) -> (m: Matcher)
        ensures
            m == negation(self),
    {
        Matcher::Not(Box::new(self))
    }

    /// Whether the matcher holds of the line `against`. The answer depends
    /// on the matcher and the line alone: asking again gives it again.
    pub fn matches(&self, against: &str) -> (holds: bool)
        requires
            is_line(against@),
        ensures
            holds == self.accepts(against@),
        decreases self,
    {
        match self {
            Matcher::Pattern(re) => is_match(re, against),
            Matcher::Or(a, b) => a.matches(against) || b.matches(against),
            Matcher::And(a, b) => a.matches(against) && b.matches(against),
            Matcher::Not(inner) => !inner.matches(against),
        }
    }
}

/// A conjunction holds exactly where both of its parts hold, and a
/// disjunction exactly where at least one of them does.
pub proof fn lemma_and_or(a: Matcher, b: Matcher, text: Seq<char>)
    ensures
        both(a, b).accepts(text) == (a.accepts(text) && b.accepts(text)),
        either(a, b).accepts(text) == (a.accepts(text) || b.accepts(text)),
{
}

/// Negating a matcher twice gives a matcher that holds exactly where the
/// first one does.
pub proof fn lemma_double_negation(a: Matcher, text: Seq<char>)
    ensures
        negation(negation(a)).accepts(text) == a.accepts(text),
{
    reveal_with_fuel(Matcher::accepts, 2);
}

/// Grouping does not matter: conjunctions and disjunctions of three
/// matchers hold on the same texts however they are nested.
pub proof fn lemma_associative(a: Matcher, b: Matcher, c: Matcher, text: Seq<char>)
    ensures
        both(both(a, b), c).accepts(text) == both(a, both(b, c)).accepts(text),
        either(either(a, b), c).accepts(text) == either(a, either(b, c)).accepts(text),
{
    reveal_with_fuel(Matcher::accepts, 2);
}

} // verus!
