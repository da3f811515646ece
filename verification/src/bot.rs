//! The dispatch table: an ordered list of rules, and the answer of the first
//! rule that fires.

use crate::matcher::Matcher;
use crate::responder::{reply_view, DynResponder, Rule};
use crate::text::{contains, contains_seq, is_line, lowercase};
use vstd::prelude::*;
use vstd::string::*;

verus! {

/// The result of asking the table about one line.
#[derive(Debug, Clone, PartialEq, Eq)]
pub enum Response {
    /// The line asks to end the session.
    Exit,
    /// A rule fired; this is its answer.
    Text(String),
    /// No rule fired.
    Failed,
}

/// A [`Response`] as the contracts see it.
pub enum ResponseView {
    Exit,
    Text(Seq<char>),
    Failed,
}

impl View for Response {
    type V = ResponseView;

    open spec fn view(&self) -> ResponseView {
        match self {
            Response::Exit => ResponseView::Exit,
            Response::Text(text) => ResponseView::Text(text@),
            Response::Failed => ResponseView::Failed,
        }
    }
}

impl Response {
    /// What the rules' reply amounts to: the answer, or `Failed` where
    /// there is none.
    pub open spec fn of_reply(reply: Option<Seq<char>>) -> ResponseView {
        match reply {
            Some(text) => ResponseView::Text(text),
            None => ResponseView::Failed,
        }
    }

    /// Turns the reply of the rules into a response.
    pub fn from_reply(reply: Option<String>) -> (response: Response)
        ensures
            response@ == Response::of_reply(reply_view(reply)),
    {
        match reply {
            Some(text) => Response::Text(text),
            None => Response::Failed,
        }
    }
}

/// The word that ends a session.
pub open spec fn exit_keyword() -> Seq<char> {
    seq!['e', 'x', 'i', 't']
}

/// The line asks to end the session: its lowercase form holds the exit
/// keyword somewhere, inside a longer word too.
pub open spec fn is_exit(query: Seq<char>) -> bool {
    contains_seq(lowercase(query), exit_keyword())
}

/// Whether `lowered`, a line already in lowercase, holds the exit keyword.
pub fn has_exit_keyword(lowered: &str) -> (found: bool)
    ensures
        found == contains_seq(lowered@, exit_keyword()),
{
    proof {
        reveal_strlit("exit");
        assert("exit"@ =~= exit_keyword());
    }
    contains(lowered, "exit")
}

/// Each of the first `n` rules may decline `query`.
pub open spec fn declined<D: DynResponder>(
    rules: Seq<Rule<D>>,
    n: int,
    query: Seq<char>,
) -> bool {
    forall|j: int| 0 <= j < n ==> (#[trigger] rules[j]).may_respond(query, None)
}

/// Whether `rules`, tried in order, may end with `reply`: the answer of a
/// rule before which every rule declined, or nothing where every rule
/// declined.
pub open spec fn may_reply<D: DynResponder>(
    rules: Seq<Rule<D>>,
    query: Seq<char>,
    reply: Option<Seq<char>>,
) -> bool {
    match reply {
        Some(text) => exists|i: int|
            0 <= i < rules.len() && declined(rules, i, query) && (#[trigger] rules[i]).may_respond(
                query,
                Some(text),
            ),
        None => declined(rules, rules.len() as int, query),
    }
}

/// Whether a table of `rules` may give `outcome` for `query`.
///
/// A line that asks to end the session gives `Exit` and nothing else. Any
/// other line gives what the rules reply.
pub open spec fn may_yield<D: DynResponder>(
    rules: Seq<Rule<D>>,
    query: Seq<char>,
    outcome: ResponseView,
) -> bool {
    if is_exit(query) {
        outcome is Exit
    } else {
        match outcome {
            ResponseView::Exit => false,
            ResponseView::Text(text) => may_reply(rules, query, Some(text)),
            ResponseView::Failed => may_reply(rules, query, None),
        }
    }
}

/// A dispatch table: rules in the order in which they are tried. `D` is the
/// type of the computations that its dynamic rules hold.
pub struct Table<D: DynResponder> {
    name: String,
    responders: Vec<Rule<D>>,
}

/// A table whose computations are of any type, each kept in a box.
pub type Bot = Table<Box<dyn DynResponder>>;

impl<D: DynResponder> Table<D> {
    /// The name the table was made with.
    pub closed spec fn spec_name(&self) -> Seq<char> {
        self.name@
    }

    /// The rules, first tried first.
    pub closed spec fn rules(&self) -> Seq<Rule<D>> {
        self.responders@
    }

    /// A table with no rules.
    pub fn new(name: String) -> (bot: Table<D>)
        ensures
            bot.spec_name() == name@,
            bot.rules() == Seq::<Rule<D>>::empty(),
    {
        Table { name, responders: Vec::new() }
    }

    /// The name the table was made with.
    pub fn name(&self) -> (name: &str)
        ensures
            name@ == self.spec_name(),
    {
        self.name.as_str()
    }

    /// How many rules the table holds.
    pub fn len(&self) -> (n: usize)
        ensures
            n == self.rules().len(),
    {
        self.responders.len()
    }

    /// Tries the rules in order on the line `query` and returns the first
    /// answer; `None` where every rule declines. The rules after the one
    /// that answers are not asked.
    pub fn first_reply(&self, query: &str) -> (reply: Option<String>)
        requires
            is_line(query@),
        ensures
            may_reply(self.rules(), query@, reply_view(reply)),
    {
        let mut i: usize = 0;
        while i < self.responders.len()
            invariant
                i <= self.responders.len(),
                is_line(query@),
                declined(self.responders@, i as int, query@),
            decreases self.responders.len() - i,
        {
            let reply = self.responders[i].respond(query);
            if reply.is_some() {
                return reply;
            }
            i += 1;
        }
        None
    }

    /// Answers the line `query`.
    ///
    /// A line that holds the exit keyword gives `Exit`, whatever the rules
    /// are. Otherwise the rules are tried in order, and the first answer is
    /// returned; `Failed` where none answers.
    pub fn respond(&self, query: &str) -> (response: Response)
        requires
            is_line(query@),
        ensures
            may_yield(self.rules(), query@, response@),
    {
        let lowered = query.to_lowercase();
        if has_exit_keyword(lowered.as_str()) {
            return Response::Exit;
        }
        let reply = self.first_reply(query);
        Response::from_reply(reply)
    }

    /// Appends a rule that answers `response` where `matcher` holds.
    pub fn add_responder(self, matcher: Matcher, response: &str) -> (bot: Table<D>)
        ensures
            bot.spec_name() == self.spec_name(),
            bot.rules().len() == self.rules().len() + 1,
            bot.rules().drop_last() == self.rules(),
            bot.rules().last() matches Rule::Static { matcher: m, response: r } && m
                == matcher && r@ == response@,
    {
        let mut bot = self;
        bot.responders.push(Rule::Static { matcher, response: response.to_owned() });
        bot
    }

    /// Appends a rule that answers what `responder` computes.
    pub fn add_dyn_responder(self, responder: D) -> (bot: Table<D>)
        ensures
            bot.spec_name() == self.spec_name(),
            bot.rules() == self.rules().push(Rule::Dynamic(responder)),
    {
        let mut bot = self;
        bot.responders.push(Rule::Dynamic(responder));
        bot
    }
}

/// The exit keyword comes first: a line that holds it gives `Exit` whatever
/// the rules are, and no other line does.
pub proof fn lemma_exit_overrides<D: DynResponder>(
    rules: Seq<Rule<D>>,
    query: Seq<char>,
    outcome: ResponseView,
)
    requires
        may_yield(rules, query, outcome),
    ensures
        is_exit(query) <==> outcome is Exit,
{
}

/// The first rule that fires gives the answer: where every rule before
/// rule `i` is silent and rule `i` cannot decline, the outcome is an answer
/// of rule `i`, whatever rules follow it.
pub proof fn lemma_first_match_wins<D: DynResponder>(
    rules: Seq<Rule<D>>,
    query: Seq<char>,
    i: int,
    outcome: ResponseView,
)
    requires
        !is_exit(query),
        0 <= i < rules.len(),
        forall|j: int| 0 <= j < i ==> (#[trigger] rules[j]).silent(query),
        rules[i].fires(query),
        may_yield(rules, query, outcome),
    ensures
        outcome matches ResponseView::Text(text) && rules[i].may_respond(query, Some(text)),
{
    match outcome {
        ResponseView::Exit => {},
        ResponseView::Text(text) => {
            let k = choose|k: int|
                0 <= k < rules.len() && declined(rules, k, query) && (#[trigger] rules[k]).may_respond(
                    query,
                    Some(text),
                );
            if k < i {
                assert(rules[k].silent(query));
            } else if k > i {
                assert(rules[i].may_respond(query, None));
            }
        },
        ResponseView::Failed => {
            assert(rules[i].may_respond(query, None));
        },
    }
}

/// First match wins among static rules: where rule `i` is a static rule
/// whose matcher holds of the line, and every rule before it is silent, the
/// outcome is the response of rule `i`.
pub proof fn lemma_first_static_match_wins<D: DynResponder>(
    rules: Seq<Rule<D>>,
    query: Seq<char>,
    i: int,
    outcome: ResponseView,
)
    requires
        !is_exit(query),
        0 <= i < rules.len(),
        forall|j: int| 0 <= j < i ==> (#[trigger] rules[j]).silent(query),
        rules[i] matches Rule::Static { matcher, .. } && matcher.accepts(query),
        may_yield(rules, query, outcome),
    ensures
        rules[i] matches Rule::Static { response, .. } && outcome == ResponseView::Text(
            response@,
        ),
{
    lemma_first_match_wins(rules, query, i, outcome);
}

/// No match: where every rule is silent, the outcome is `Failed`; and
/// `Failed` is given only where no rule fires.
pub proof fn lemma_no_match<D: DynResponder>(
    rules: Seq<Rule<D>>,
    query: Seq<char>,
    outcome: ResponseView,
)
    requires
        !is_exit(query),
        may_yield(rules, query, outcome),
    ensures
        (forall|j: int| 0 <= j < rules.len() ==> (#[trigger] rules[j]).silent(query)) ==> outcome
            is Failed,
        outcome is Failed ==> forall|j: int|
            0 <= j < rules.len() ==> !(#[trigger] rules[j]).fires(query),
{
    if forall|j: int| 0 <= j < rules.len() ==> (#[trigger] rules[j]).silent(query) {
        if let ResponseView::Text(text) = outcome {
            let k = choose|k: int|
                0 <= k < rules.len() && declined(rules, k, query) && (#[trigger] rules[k]).may_respond(
                    query,
                    Some(text),
                );
            assert(rules[k].silent(query));
        }
    }
}

/// A table of static rules has one outcome for each line.
pub proof fn lemma_static_table_is_deterministic<D: DynResponder>(
    rules: Seq<Rule<D>>,
    query: Seq<char>,
    first: ResponseView,
    second: ResponseView,
)
    requires
        forall|j: int| 0 <= j < rules.len() ==> (#[trigger] rules[j]) is Static,
        may_yield(rules, query, first),
        may_yield(rules, query, second),
    ensures
        first == second,
{
    if !is_exit(query) {
        if let ResponseView::Text(text) = first {
            let k = choose|k: int|
                0 <= k < rules.len() && declined(rules, k, query) && (#[trigger] rules[k]).may_respond(
                    query,
                    Some(text),
                );
            assert(rules[k] is Static);
            assert forall|j: int| 0 <= j < k implies (#[trigger] rules[j]).silent(query) by {
                assert(rules[j] is Static);
                assert(rules[j].may_respond(query, None));
            }
            lemma_first_match_wins(rules, query, k, second);
        } else if let ResponseView::Text(text) = second {
            let k = choose|k: int|
                0 <= k < rules.len() && declined(rules, k, query) && (#[trigger] rules[k]).may_respond(
                    query,
                    Some(text),
                );
            assert(rules[k] is Static);
            assert(rules[k].may_respond(query, None));
        }
    }
}

/// A table that holds one rule passes the rule's answer on: the answer
/// where the rule answers, `Failed` where it declines.
pub proof fn lemma_single_rule_passes_on<D: DynResponder>(
    rules: Seq<Rule<D>>,
    query: Seq<char>,
    reply: Option<Seq<char>>,
)
    requires
        !is_exit(query),
        rules.len() == 1,
    ensures
        may_yield(rules, query, Response::of_reply(reply)) <==> rules[0].may_respond(query, reply),
{
    if rules[0].may_respond(query, reply) {
        assert(declined(rules, 0, query));
    }
    if may_yield(rules, query, Response::of_reply(reply)) && reply is None {
        assert(rules[0].may_respond(query, None));
    }
}

} // verus!
