//! A tree-house visitor list: names are normalized, looked up in an
//! append-only registry, and each lookup decides what to say and whether
//! the list grows.
mod names;
mod registry;
mod visitor;

pub use names::{lower_of, normalize_name, trim_of};
pub use registry::{
    after_repeats, first_match, first_match_from, is_first_match, is_listed,
    lemma_empty_name_ends_session, lemma_first_match_is_first, lemma_known_name_is_stable,
    lemma_unknown_name_is_admitted, next_registry, not_listed_line, probation_visitor, response,
    VisitorRegistry,
};
pub use visitor::{
    greeting_lines, no_alcohol_line, probation_line, refusal_line, texts, welcome_line,
    ActionView, Visitor, VisitorAction, VisitorView, DRINKING_AGE,
};
