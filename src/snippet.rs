//! The snippet record and its identifiers.

use vstd::prelude::*;

verus! {

/// A stored code snippet: an identifier, a short searchable description,
/// tags, and the code body.
#[derive(Debug, Clone)]
pub struct Snippet {
    /// Unique identifier, also the snippet's file name in the store.
    pub id: String,
    /// Short, searchable description.
    pub description: String,
    /// Tags used for filtering.
    pub tags: Vec<String>,
    /// The snippet body.
    pub code: String,
}

/// What a snippet holds, as plain character sequences.
pub struct SnippetView {
    pub id: Seq<char>,
    pub description: Seq<char>,
    pub tags: Seq<Seq<char>>,
    pub code: Seq<char>,
}

/// The views of a list of strings.
pub open spec fn texts(v: Seq<String>) -> Seq<Seq<char>> {
    v.map_values(|t: String| t@)
}

impl View for Snippet {
    type V = SnippetView;

    open spec fn view(&self) -> SnippetView {
        SnippetView {
            id: self.id@,
            description: self.description@,
            tags: texts(self.tags@),
            code: self.code@,
        }
    }
}

/// The views of a list of snippets.
pub open spec fn snippet_views(v: Seq<Snippet>) -> Seq<SnippetView> {
    v.map_values(|s: Snippet| s@)
}

pub open spec fn is_lower_hex_digit(c: char) -> bool {
    ('0' <= c && c <= '9') || ('a' <= c && c <= 'f')
}

/// The hyphenated lower-case text form of a UUID:
/// `xxxxxxxx-xxxx-xxxx-xxxx-xxxxxxxxxxxx`.
pub open spec fn is_hyphenated_uuid(s: Seq<char>) -> bool {
    &&& s.len() == 36
    &&& forall|i: int|
        0 <= i < 36 ==> if i == 8 || i == 13 || i == 18 || i == 23 {
            #[trigger] s[i] == '-'
        } else {
            is_lower_hex_digit(s[i])
        }
}

/// Relies on `uuid::Uuid::new_v4` and its `Display` impl, which writes the
/// hyphenated lower-case form (36 characters). The value itself is random.
#[verifier::external_body]
fn random_uuid_text() -> (r: String)
    ensures
        is_hyphenated_uuid(r@),
{
    uuid::Uuid::new_v4().to_string()
}

impl Snippet {
    /// A new snippet with a fresh random identifier.
    pub fn new(description: String, tags: Vec<String>, code: String) -> (r: Self)
        ensures
            is_hyphenated_uuid(r.id@),
            r.description == description,
            r.tags == tags,
            r.code == code,
    {
        Snippet { id: random_uuid_text(), description, tags, code }
    }
}

} // verus!
