//! Relevance of a snippet for a query: the best fuzzy score over its
//! description, its tags joined by spaces, and its code.

use crate::snippet::{Snippet, SnippetView, texts};
use crate::text::{chars_of, join_chars, join_with, string_of};
use fuzzy_matcher::FuzzyMatcher;
use vstd::prelude::*;

verus! {

/// The score that the skim fuzzy matcher (default settings) gives `pattern`
/// inside `choice`; `None` where it does not match.
pub uninterp spec fn skim_score(choice: Seq<char>, pattern: Seq<char>) -> Option<i64>;

/// Relies on `fuzzy_matcher::skim::SkimMatcherV2::default().fuzzy_match`:
/// with fixed settings its result depends on the two texts alone.
#[verifier::external_body]
fn fuzzy_match(choice: &str, pattern: &str) -> (r: Option<i64>)
    ensures
        r == skim_score(choice@, pattern@),
{
    fuzzy_matcher::skim::SkimMatcherV2::default().fuzzy_match(choice, pattern)
}

/// The larger of two optional scores, where a missing score loses.
pub open spec fn max_score(a: Option<i64>, b: Option<i64>) -> Option<i64> {
    match (a, b) {
        (None, _) => b,
        (Some(_), None) => a,
        (Some(x), Some(y)) => Some(if x >= y { x } else { y }),
    }
}

/// The best of three optional field scores; `None` only where all are `None`.
pub open spec fn best_of(a: Option<i64>, b: Option<i64>, c: Option<i64>) -> Option<i64> {
    max_score(max_score(a, b), c)
}

/// The text that tags are matched against: the tags joined by single spaces.
pub open spec fn tags_text(tags: Seq<Seq<char>>) -> Seq<char> {
    join_with(tags, ' ')
}

/// The relevance of a snippet for a non-empty query.
pub open spec fn snippet_score(sn: SnippetView, q: Seq<char>) -> Option<i64> {
    best_of(
        skim_score(sn.description, q),
        skim_score(tags_text(sn.tags), q),
        skim_score(sn.code, q),
    )
}

/// The tags joined by single spaces.
pub fn join_tags(tags: &Vec<String>) -> (r: String)
    ensures
        r@ == tags_text(texts(tags@)),
{
    let mut pieces: Vec<Vec<char>> = Vec::new();
    let mut k: usize = 0;
    while k < tags.len()
        invariant
            k <= tags.len(),
            pieces@.len() == k,
            forall|j: int| 0 <= j < k ==> #[trigger] pieces@[j]@ == tags@[j]@,
        decreases tags.len() - k,
    {
        pieces.push(chars_of(tags[k].as_str()));
        k = k + 1;
    }
    let joined = join_chars(&pieces, ' ');
    assert(pieces@.map_values(|l: Vec<char>| l@) =~= texts(tags@));
    string_of(&joined)
}

/// The best of three optional field scores.
pub fn best_of_fields(a: Option<i64>, b: Option<i64>, c: Option<i64>) -> (r: Option<i64>)
    ensures
        r == best_of(a, b, c),
{
    let mut best = a;
    if let Some(s) = b {
        best = match best {
            Some(x) => Some(if x >= s { x } else { s }),
            None => Some(s),
        };
    }
    if let Some(s) = c {
        best = match best {
            Some(x) => Some(if x >= s { x } else { s }),
            None => Some(s),
        };
    }
    best
}

/// The relevance of `snippet` for `query`.
pub fn score(query: &str, snippet: &Snippet) -> (r: Option<i64>)
    ensures
        r == snippet_score(snippet@, query@),
{
    let d = fuzzy_match(snippet.description.as_str(), query);
    let joined = join_tags(&snippet.tags);
    let t = fuzzy_match(joined.as_str(), query);
    let c = fuzzy_match(snippet.code.as_str(), query);
    best_of_fields(d, t, c)
}

} // verus!
