//! Rules: what a dispatch table is made of.
//!
//! A rule answers a line of text or declines it. A static rule pairs a
//! matcher with a fixed response; a dynamic rule asks a computation.

use crate::matcher::Matcher;
use crate::text::is_line;
use vstd::prelude::*;

verus! {

/// A computed answer as the contracts see it: the text, or nothing.
pub open spec fn reply_view(reply: Option<String>) -> Option<Seq<char>> {
    match reply {
        Some(text) => Some(text@),
        None => None,
    }
}

/// A computation that may answer a line of text.
///
/// A computation may look at more than the line (the time of day, say), so
/// what it answers is described by a relation, not by a function.
pub trait DynResponder {
    /// Whether the computation may answer `to` with `out`. Unless an
    /// implementation says more, every answer is possible.
    open spec fn may_respond(&self, to: Seq<char>, out: Option<Seq<char>>) -> bool {
        true
    }

    /// Answers `to`, or declines with `None`.
    fn respond(&self, to: &str) -> (out: Option<String>)
        ensures
            self.may_respond(to@, reply_view(out)),
    ;
}

/// A boxed computation answers as the computation in the box does. With
/// this, a table can hold computations of different types behind
/// `Box<dyn DynResponder>`.
impl<T: DynResponder + ?Sized> DynResponder for Box<T> {
    open spec fn may_respond(&self, to: Seq<char>, out: Option<Seq<char>>) -> bool {
        (**self).may_respond(to, out)
    }

    fn respond(&self, to: &str) -> (out: Option<String>) {
        (**self).respond(to)
    }
}

/// A computation given as a function from the line to an answer.
pub struct FnResponder<F: Fn(String) -> Option<String>> {
    f: F,
}

impl<F: Fn(String) -> Option<String>> FnResponder<F> {
    /// The function can be called on every line.
    #[verifier::type_invariant]
    spec fn total(self) -> bool {
        forall|line: String| call_requires(self.f, (line,))
    }

    /// The function inside.
    pub closed spec fn function(&self) -> F {
        self.f
    }

    /// Wraps `f`, which must accept every line.
    pub fn new(f: F) -> (responder: FnResponder<F>)
        requires
            forall|line: String| call_requires(f, (line,)),
        ensures
            responder.function() == f,
    {
        FnResponder { f }
    }
}

impl<F: Fn(String) -> Option<String>> DynResponder for FnResponder<F> {
    /// The answers that the function may return when it is called on `to`.
    open spec fn may_respond(&self, to: Seq<char>, out: Option<Seq<char>>) -> bool {
        exists|line: String, reply: Option<String>|
            line@ == to && reply_view(reply) == out && call_ensures(
                self.function(),
                (line,),
                reply,
            )
    }

    fn respond(&self, to: &str) -> (out: Option<String>) {
        proof {
            use_type_invariant(self);
        }
        let line = to.to_owned();
        let out = (self.f)(line);
        assert(call_ensures(self.function(), (line,), out));
        out
    }
}

/// One rule of a dispatch table. `D` is the type of the computations that
/// its dynamic rules hold.
pub enum Rule<D: DynResponder> {
    /// Answers `response` to every line that `matcher` holds of.
    Static { matcher: Matcher, response: String },
    /// Answers what the computation answers.
    Dynamic(D),
}

/// A rule whose computation, if it has one, is of any type, kept in a box.
pub type Responder = Rule<Box<dyn DynResponder>>;

impl<D: DynResponder> Rule<D> {
    /// Whether the rule may answer `to` with `out`. A static rule has one
    /// answer to each line; a dynamic rule has those of its computation.
    pub open spec fn may_respond(&self, to: Seq<char>, out: Option<Seq<char>>) -> bool {
        match self {
            Rule::Static { matcher, response } => out == if matcher.accepts(to) {
                Some(response@)
            } else {
                None
            },
            Rule::Dynamic(computation) => computation.may_respond(to, out),
        }
    }

    /// The rule cannot answer `query`: all it may do is decline.
    pub open spec fn silent(&self, query: Seq<char>) -> bool {
        forall|text: Seq<char>| !self.may_respond(query, Some(text))
    }

    /// The rule cannot decline `query`: it answers.
    pub open spec fn fires(&self, query: Seq<char>) -> bool {
        !self.may_respond(query, None)
    }

    /// Answers the line `to`, or declines with `None`.
    ///
    /// A static rule answers its response where its matcher holds of `to`,
    /// and declines otherwise. A dynamic rule hands `to` to its computation
    /// and passes the answer on.
    pub fn respond(&self, to: &str) -> (out: Option<String>)
        requires
            is_line(to@),
        ensures
            self.may_respond(to@, reply_view(out)),
    {
        match self {
            Rule::Static { matcher, response } => {
                if matcher.matches(to) {
                    Some(response.clone())
                } else {
                    None
                }
            },
            Rule::Dynamic(computation) => computation.respond(to),
        }
    }
}

/// A static rule fires on the lines that its matcher holds of, is silent on
/// all others, and has one answer: its response.
pub proof fn lemma_static_rule<D: DynResponder>(
    matcher: Matcher,
    response: String,
    query: Seq<char>,
)
    ensures
        (Rule::<D>::Static { matcher, response }).fires(query) == matcher.accepts(query),
        (Rule::<D>::Static { matcher, response }).silent(query) == !matcher.accepts(query),
        forall|text: Seq<char>|
            (Rule::<D>::Static { matcher, response }).may_respond(query, Some(text)) ==> text
                == response@,
{
    let rule = Rule::<D>::Static { matcher, response };
    if matcher.accepts(query) {
        assert(rule.may_respond(query, Some(response@)));
    }
}

/// A dynamic rule answers exactly as its computation may.
pub proof fn lemma_dynamic_rule<D: DynResponder>(
    computation: D,
    query: Seq<char>,
    out: Option<Seq<char>>,
)
    ensures
        Rule::Dynamic(computation).may_respond(query, out) == computation.may_respond(
            query,
            out,
        ),
{
}

/// A wrapped function may answer a line with exactly what the function may
/// return when it is called on that line.
pub proof fn lemma_fn_responder<F: Fn(String) -> Option<String>>(
    responder: FnResponder<F>,
    to: Seq<char>,
    out: Option<Seq<char>>,
)
    ensures
        responder.may_respond(to, out) <==> exists|line: String, reply: Option<String>|
            line@ == to && reply_view(reply) == out && call_ensures(
                responder.function(),
                (line,),
                reply,
            ),
{
}

} // verus!
