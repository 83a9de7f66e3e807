//! The search itself: which lines of a text contain a query.

use crate::strings::{contains, lowercase, split_lines};
use crate::subsequence::{
    is_subsequence, lemma_filter_by_narrower, lemma_filter_ends, lemma_filter_is_subsequence,
    lemma_filter_keeps_all, lemma_filter_next,
};
use crate::text::{is_substring, lemma_empty_is_substring, lines_of};
use vstd::prelude::*;

verus! {

/// The test that a line contains `query`, character for character.
pub open spec fn contains_query(query: Seq<char>) -> spec_fn(Seq<char>) -> bool {
    |line: Seq<char>| is_substring(query, line)
}

/// The test that a line contains `query` once both are in lowercase.
pub open spec fn contains_query_ignoring_case(query: Seq<char>) -> spec_fn(Seq<char>) -> bool {
    |line: Seq<char>| is_substring(lowercase(query), lowercase(line))
}

/// The lines of `contents` that contain `query`, in the order of the text.
pub open spec fn matching_lines(query: Seq<char>, contents: Seq<char>) -> Seq<Seq<char>> {
    lines_of(contents).filter(contains_query(query))
}

/// The lines of `contents` that contain `query` when letter case is left out
/// of account, in the order of the text and as the text spells them.
pub open spec fn matching_lines_ignoring_case(query: Seq<char>, contents: Seq<char>) -> Seq<
    Seq<char>,
> {
    lines_of(contents).filter(contains_query_ignoring_case(query))
}

/// A line of `contents` that contains `query` is among the lines that the
/// search for `query` finds in `contents`.
pub proof fn lemma_search_includes_line(query: Seq<char>, contents: Seq<char>, index: int)
    requires
        0 <= index < lines_of(contents).len(),
        is_substring(query, lines_of(contents)[index]),
    ensures
        matching_lines(query, contents).contains(lines_of(contents)[index]),
{
    lines_of(contents).lemma_filter_contains(contains_query(query), index);
}

/// A line of `contents` whose lowercase form contains that of `query` is
/// among the lines that the search ignoring case finds in `contents`.
pub proof fn lemma_search_ignoring_case_includes_line(
    query: Seq<char>,
    contents: Seq<char>,
    index: int,
)
    requires
        0 <= index < lines_of(contents).len(),
        is_substring(lowercase(query), lowercase(lines_of(contents)[index])),
    ensures
        matching_lines_ignoring_case(query, contents).contains(lines_of(contents)[index]),
{
    lines_of(contents).lemma_filter_contains(contains_query_ignoring_case(query), index);
}

/// The lines that a search finds are lines of the text, spelled as the text
/// spells them and in the order in which the text holds them: the search
/// adds no line, changes none and moves none.
pub proof fn lemma_search_keeps_order(query: Seq<char>, contents: Seq<char>)
    ensures
        is_subsequence(matching_lines(query, contents), lines_of(contents)),
        is_subsequence(matching_lines_ignoring_case(query, contents), lines_of(contents)),
{
    lemma_filter_is_subsequence(lines_of(contents), contains_query(query));
    lemma_filter_is_subsequence(lines_of(contents), contains_query_ignoring_case(query));
}

/// The search for the empty query finds every line of the text, in order.
pub proof fn lemma_empty_query_finds_every_line(contents: Seq<char>)
    ensures
        matching_lines(Seq::empty(), contents) == lines_of(contents),
{
    let lines = lines_of(contents);
    assert forall|i: int| 0 <= i < lines.len() implies contains_query(Seq::empty())(
        #[trigger] lines[i],
    ) by {
        lemma_empty_is_substring(lines[i]);
    }
    lemma_filter_keeps_all(lines, contains_query(Seq::empty()));
}

/// The search that ignores case finds every line that the plain search
/// finds, in the same order, and so at least as many, on every text in
/// which each line that contains `query` still contains it once both are
/// lowered. Lowering can break a match, since the lowercase form of a letter
/// may depend on the letters around it; texts on which it does are left out.
pub proof fn lemma_ignoring_case_finds_no_fewer(query: Seq<char>, contents: Seq<char>)
    requires
        forall|i: int|
            0 <= i < lines_of(contents).len() && is_substring(
                query,
                #[trigger] lines_of(contents)[i],
            ) ==> is_substring(lowercase(query), lowercase(lines_of(contents)[i])),
    ensures
        is_subsequence(
            matching_lines(query, contents),
            matching_lines_ignoring_case(query, contents),
        ),
        matching_lines(query, contents).len() <= matching_lines_ignoring_case(
            query,
            contents,
        ).len(),
{
    lemma_filter_by_narrower(
        lines_of(contents),
        contains_query(query),
        contains_query_ignoring_case(query),
    );
}

/// One step of a scan: `line` is appended to `matches` exactly when `needle`
/// occurs in `hay`. For a plain search `hay` is the line itself; for a search
/// that ignores case it is the line in lowercase, and `needle` the query in
/// lowercase.
pub fn keep_if_found<'a>(matches: &mut Vec<&'a str>, line: &'a str, hay: &str, needle: &str)
    ensures
        final(matches).deep_view() == if is_substring(needle@, hay@) {
            old(matches).deep_view().push(line@)
        } else {
            old(matches).deep_view()
        },
{
    if contains(hay, needle) {
        matches.push(line);
        assert(matches.deep_view() =~= old(matches).deep_view().push(line@));
    }
}

/// Every line of `contents` that contains `query`, in order. No line that
/// contains `query` is left out, the lines found keep the order and the
/// spelling that they have in `contents`, and an empty `query` finds every
/// line.
pub fn search<'a>(query: &str, contents: &'a str) -> (matches: Vec<&'a str>)
    ensures
        matches.deep_view() == matching_lines(query@, contents@),
        forall|i: int|
            0 <= i < lines_of(contents@).len() && is_substring(
                query@,
                #[trigger] lines_of(contents@)[i],
            ) ==> matches.deep_view().contains(lines_of(contents@)[i]),
        is_subsequence(matches.deep_view(), lines_of(contents@)),
        query@.len() == 0 ==> matches.deep_view() == lines_of(contents@),
{
    let lines = split_lines(contents);
    let mut matches: Vec<&'a str> = Vec::new();
    proof {
        lemma_filter_ends(lines_of(contents@), contains_query(query@));
    }
    for i in 0..lines.len()
        invariant
            lines.deep_view() == lines_of(contents@),
            matches.deep_view() == lines_of(contents@).take(i as int).filter(
                contains_query(query@),
            ),
    {
        let line = lines[i];
        proof {
            lemma_filter_next(lines_of(contents@), contains_query(query@), i as int);
        }
        keep_if_found(&mut matches, line, line, query);
    }
    proof {
        assert forall|i: int|
            0 <= i < lines_of(contents@).len() && is_substring(
                query@,
                #[trigger] lines_of(contents@)[i],
            ) implies matches.deep_view().contains(lines_of(contents@)[i]) by {
            lemma_search_includes_line(query@, contents@, i);
        }
        lemma_search_keeps_order(query@, contents@);
        if query@.len() == 0 {
            assert(query@ =~= Seq::<char>::empty());
            lemma_empty_query_finds_every_line(contents@);
        }
    }
    matches
}

/// Every line of `contents` whose lowercase form contains the lowercase
/// form of `query`, in order. No such line is left out, the lines found keep
/// the order and the spelling that they have in `contents`, and an empty
/// `query` finds every line.
pub fn search_case_insensitive<'a>(query: &str, contents: &'a str) -> (matches: Vec<&'a str>)
    ensures
        matches.deep_view() == matching_lines_ignoring_case(query@, contents@),
        forall|i: int|
            0 <= i < lines_of(contents@).len() && is_substring(
                lowercase(query@),
                lowercase(#[trigger] lines_of(contents@)[i]),
            ) ==> matches.deep_view().contains(lines_of(contents@)[i]),
        is_subsequence(matches.deep_view(), lines_of(contents@)),
        query@.len() == 0 ==> matches.deep_view() == lines_of(contents@),
{
    let needle = query.to_lowercase();
    let lines = split_lines(contents);
    let mut matches: Vec<&'a str> = Vec::new();
    proof {
        lemma_filter_ends(lines_of(contents@), contains_query_ignoring_case(query@));
    }
    for i in 0..lines.len()
        invariant
            lines.deep_view() == lines_of(contents@),
            needle@ == lowercase(query@),
            matches.deep_view() == lines_of(contents@).take(i as int).filter(
                contains_query_ignoring_case(query@),
            ),
    {
        let line = lines[i];
        let lowered = line.to_lowercase();
        proof {
            lemma_filter_next(lines_of(contents@), contains_query_ignoring_case(query@), i as int);
        }
        keep_if_found(&mut matches, line, lowered.as_str(), needle.as_str());
    }
    proof {
        let all = lines_of(contents@);
        assert forall|i: int|
            0 <= i < all.len() && is_substring(
                lowercase(query@),
                lowercase(#[trigger] all[i]),
            ) implies matches.deep_view().contains(all[i]) by {
            lemma_search_ignoring_case_includes_line(query@, contents@, i);
        }
        lemma_search_keeps_order(query@, contents@);
        if query@.len() == 0 {
            assert forall|i: int| 0 <= i < all.len() implies contains_query_ignoring_case(
                query@,
            )(#[trigger] all[i]) by {
                lemma_empty_is_substring(lowercase(all[i]));
                assert(needle@ =~= Seq::<char>::empty());
            }
            lemma_filter_keeps_all(all, contains_query_ignoring_case(query@));
        }
    }
    matches
}

} // verus!
