//! One run of the search that a configuration asks for, on a text that the
//! caller has read.

use crate::config::{Config, ConfigView};
use crate::search::{
    matching_lines, matching_lines_ignoring_case, search, search_case_insensitive,
};
use vstd::prelude::*;

verus! {

/// The lines that a run with `config` finds in `contents`.
pub open spec fn selected_lines(config: ConfigView, contents: Seq<char>) -> Seq<Seq<char>> {
    if config.case_sensitive {
        matching_lines(config.query, contents)
    } else {
        matching_lines_ignoring_case(config.query, contents)
    }
}

/// Searches `contents`, the text of the file that `config` names, for the
/// query of `config`, with the kind of comparison that `config` asks for.
/// The lines come back in the order of the text, for the caller to print.
pub fn run<'a>(config: &Config, contents: &'a str) -> (matches: Vec<&'a str>)
    ensures
        matches.deep_view() == selected_lines(config@, contents@),
{
    if config.case_sensitive {
        search(config.query.as_str(), contents)
    } else {
        search_case_insensitive(config.query.as_str(), contents)
    }
}

} // verus!
