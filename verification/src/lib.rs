//! A small rule-matching engine for line-oriented text.
//!
//! A [`Matcher`] is a boolean predicate over text, built from compiled
//! patterns and combined with AND, OR and NOT. A [`Bot`] holds an ordered
//! table of rules; it answers a line of text with the response of the first
//! rule that fires.

pub mod bot;
pub mod matcher;
pub mod pattern;
pub mod responder;
pub mod text;

pub use bot::{Bot, Response, Table};
pub use matcher::Matcher;
pub use pattern::PatternError;
pub use responder::{DynResponder, FnResponder, Responder, Rule};
