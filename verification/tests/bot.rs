use chatbot::bot::has_exit_keyword;
use std::cell::Cell;
use std::rc::Rc;
use chatbot::{Bot, DynResponder, FnResponder, Matcher, Responder, Response, Rule, Table};

struct Answer;

impl DynResponder for Answer {
    fn respond(&self, to: &str) -> Option<String> {
        if to.contains("answer") {
            Some("42".to_string())
        } else {
            None
        }
    }
}

struct Echo;

impl DynResponder for Echo {
    fn respond(&self, to: &str) -> Option<String> {
        Some(to.to_string())
    }
}

fn text(s: &str) -> Response {
    Response::Text(s.to_string())
}

#[test]
fn new_table_is_empty() {
    let bot = Bot::new("Ada".to_string());
    assert_eq!(bot.name(), "Ada");
    assert_eq!(bot.len(), 0);
    assert_eq!(bot.respond("anything"), Response::Failed);
    assert_eq!(bot.first_reply("anything"), None);
}

#[test]
fn rules_are_appended() {
    let bot = Bot::new("Ada".to_string())
        .add_responder(Matcher::word("one"), "1")
        .add_dyn_responder(Box::new(Answer))
        .add_responder(Matcher::word("two"), "2");
    assert_eq!(bot.name(), "Ada");
    assert_eq!(bot.len(), 3);
    assert_eq!(bot.respond("one"), text("1"));
    assert_eq!(bot.respond("two"), text("2"));
    assert_eq!(bot.respond("the answer"), text("42"));
}

#[test]
fn first_match_wins() {
    let bot = Bot::new("Ada".to_string())
        .add_responder(Matcher::word("help"), "How can I help?")
        .add_responder(Matcher::regex("").unwrap(), "I am listening.");
    assert_eq!(bot.respond("help me"), text("How can I help?"));
    assert_eq!(bot.respond("something else"), text("I am listening."));
}

#[test]
fn order_decides_between_overlapping_rules() {
    let essay_first = Bot::new("Ada".to_string())
        .add_responder(Matcher::word("write").and("essay"), "I don't like essays.")
        .add_responder(Matcher::word("write"), "I'm illiterate.");
    assert_eq!(essay_first.respond("write an essay"), text("I don't like essays."));
    assert_eq!(essay_first.respond("write a poem"), text("I'm illiterate."));
    let write_first = Bot::new("Ada".to_string())
        .add_responder(Matcher::word("write"), "I'm illiterate.")
        .add_responder(Matcher::word("write").and("essay"), "I don't like essays.");
    assert_eq!(write_first.respond("write an essay"), text("I'm illiterate."));
}

#[test]
fn exit_precedes_every_rule() {
    let bot = Bot::new("Ada".to_string())
        .add_responder(Matcher::word("please"), "So polite!")
        .add_dyn_responder(Box::new(Echo));
    assert_eq!(bot.respond("please exit now"), Response::Exit);
    assert_eq!(bot.respond("please stay"), text("So polite!"));
}

#[test]
fn exit_is_found_in_any_case_and_inside_words() {
    let bot = Bot::new("Ada".to_string()).add_responder(Matcher::word("sign"), "A sign.");
    assert_eq!(bot.respond("EXIT"), Response::Exit);
    assert_eq!(bot.respond("Exit"), Response::Exit);
    assert_eq!(bot.respond("the exit sign"), Response::Exit);
    assert_eq!(bot.respond("exiting"), Response::Exit);
    assert_eq!(bot.respond("a sign"), text("A sign."));
    assert_eq!(bot.respond("ex it"), Response::Failed);
}

#[test]
fn exit_keyword_is_a_substring_test() {
    assert!(has_exit_keyword("please exit now"));
    assert!(has_exit_keyword("exit"));
    assert!(has_exit_keyword("sexiti"));
    assert!(!has_exit_keyword("exi t"));
    assert!(!has_exit_keyword("EXIT"));
    assert!(!has_exit_keyword(""));
}

#[test]
fn no_match_fails() {
    let bot = Bot::new("Ada".to_string())
        .add_responder(Matcher::word("hello"), "Hi.")
        .add_dyn_responder(Box::new(Answer));
    assert_eq!(bot.respond("zzyzzy"), Response::Failed);
}

#[test]
fn dynamic_responder_answers_when_it_applies() {
    let bot = Bot::new("Ada".to_string()).add_dyn_responder(Box::new(Answer));
    assert_eq!(bot.respond("what is the answer"), text("42"));
    assert_eq!(bot.respond("unrelated"), Response::Failed);
}

#[test]
fn dynamic_and_static_rules_share_one_order() {
    let dynamic_first = Bot::new("Ada".to_string())
        .add_dyn_responder(Box::new(Answer))
        .add_responder(Matcher::word("answer"), "static");
    assert_eq!(dynamic_first.respond("the answer"), text("42"));
    let static_first = Bot::new("Ada".to_string())
        .add_responder(Matcher::word("answer"), "static")
        .add_dyn_responder(Box::new(Answer));
    assert_eq!(static_first.respond("the answer"), text("static"));
}

#[test]
fn closure_responder_answers_when_it_applies() {
    let answer = FnResponder::new(|line: String| {
        if line.contains("answer") {
            Some("42".to_string())
        } else {
            None
        }
    });
    let bot = Table::new("Ada".to_string())
        .add_responder(Matcher::word("hello"), "hi")
        .add_dyn_responder(answer);
    assert_eq!(bot.respond("what is the answer"), text("42"));
    assert_eq!(bot.respond("hello there"), text("hi"));
    assert_eq!(bot.respond("unrelated"), Response::Failed);
}

#[test]
fn boxed_closures_of_different_kinds_share_a_table() {
    let shout = FnResponder::new(|line: String| {
        if line.ends_with('!') {
            Some(line.to_uppercase())
        } else {
            None
        }
    });
    let bot = Bot::new("Ada".to_string())
        .add_dyn_responder(Box::new(shout))
        .add_dyn_responder(Box::new(Answer));
    assert_eq!(bot.respond("hey!"), text("HEY!"));
    assert_eq!(bot.respond("the answer"), text("42"));
    assert_eq!(bot.respond("nothing"), Response::Failed);
}

#[test]
fn rules_after_the_first_answer_are_not_asked() {
    let asked = Rc::new(Cell::new(0));
    let counter = asked.clone();
    let counting = FnResponder::new(move |_line: String| {
        counter.set(counter.get() + 1);
        None
    });
    let bot = Table::new("Ada".to_string())
        .add_responder(Matcher::word("stop"), "stopped")
        .add_dyn_responder(counting);
    assert_eq!(bot.respond("stop here"), text("stopped"));
    assert_eq!(asked.get(), 0);
    assert_eq!(bot.respond("go on"), Response::Failed);
    assert_eq!(asked.get(), 1);
    assert_eq!(bot.respond("exit"), Response::Exit);
    assert_eq!(asked.get(), 1);
}

#[test]
fn first_reply_is_the_answer_of_the_first_rule_that_fires() {
    let bot = Bot::new("Ada".to_string())
        .add_responder(Matcher::word("a"), "first")
        .add_responder(Matcher::word("b"), "second");
    assert_eq!(bot.first_reply("a b"), Some("first".to_string()));
    assert_eq!(bot.first_reply("b"), Some("second".to_string()));
    assert_eq!(bot.first_reply("c"), None);
    assert_eq!(bot.first_reply("exit a"), Some("first".to_string()));
}

#[test]
fn response_from_reply() {
    assert_eq!(Response::from_reply(Some("x".to_string())), text("x"));
    assert_eq!(Response::from_reply(None), Response::Failed);
}

#[test]
fn static_rule_answers_where_its_matcher_holds() {
    let rule: Responder = Responder::Static {
        matcher: Matcher::word("cat"),
        response: "meow".to_string(),
    };
    assert_eq!(rule.respond("a cat"), Some("meow".to_string()));
    assert_eq!(rule.respond("a dog"), None);
}

#[test]
fn dynamic_rule_passes_the_answer_on() {
    let rule: Responder = Responder::Dynamic(Box::new(Answer));
    assert_eq!(rule.respond("the answer"), Some("42".to_string()));
    assert_eq!(rule.respond("a dog"), None);
    let echo: Rule<Echo> = Rule::Dynamic(Echo);
    assert_eq!(echo.respond("a dog"), Some("a dog".to_string()));
}

#[test]
fn responding_is_repeatable() {
    let bot = Bot::new("Ada".to_string())
        .add_responder(Matcher::word("who").or("what").and("you"), "I'm a cool chatbot.")
        .add_responder(Matcher::word("huh").or("what"), "Didn't you hear?");
    for line in ["who are you", "what?", "huh", "nothing", "exit"] {
        assert_eq!(bot.respond(line), bot.respond(line));
    }
    assert_eq!(bot.respond("who are you"), text("I'm a cool chatbot."));
    assert_eq!(bot.respond("what?"), text("Didn't you hear?"));
}
