//! A passive description of what the terminal should show for a search
//! state: the search bar, the visible list with its highlight, and the
//! preview.

use crate::search::{Mode, SearchState, SearchView, opt_text};
use crate::text::{chars_of, join_chars, join_with, lines, split_lines, string_of};
use vstd::prelude::*;
use vstd::string::*;

verus! {

/// How many lines the compact preview shows.
pub const COMPACT_LINES: usize = 10;

/// The search bar's title: the mode's annotation and the status message.
pub open spec fn title_text(mode: Mode, status: Option<Seq<char>>) -> Seq<char> {
    let head = match mode {
        Mode::ConfirmDelete => "Search"@ + " [confirm delete: y/n]"@,
        Mode::Normal => "Search"@,
    };
    match status {
        Some(msg) => head + seq![' ', '\u{2022}', ' '] + msg,
        None => head,
    }
}

/// The compact preview of `code`: its first lines, with an ellipsis line
/// when there are more.
pub open spec fn compact_text(code: Seq<char>) -> Seq<char> {
    let ls = lines(code);
    if ls.len() > COMPACT_LINES {
        join_with(ls.take(COMPACT_LINES as int), '\n') + seq!['\n', '\u{2026}']
    } else {
        join_with(ls, '\n')
    }
}

/// The preview text for a state.
pub open spec fn preview_text(s: SearchView) -> Seq<char> {
    match s.selected() {
        Some(sn) => if s.preview_full {
            sn.code
        } else {
            compact_text(sn.code)
        },
        None => "No snippet selected."@,
    }
}

/// The preview pane's title.
pub open spec fn preview_title_text(full: bool) -> Seq<char> {
    if full {
        "Preview (full)"@
    } else {
        "Preview (compact)"@
    }
}

/// What to draw for one state of the search.
pub struct RenderModel {
    /// Title of the search bar.
    pub title: String,
    /// Text in the search bar.
    pub query: String,
    /// Descriptions of the visible snippets, in display order.
    pub items: Vec<String>,
    /// The highlighted entry of `items`.
    pub highlight: Option<usize>,
    /// Title of the preview pane.
    pub preview_title: String,
    /// Text of the preview pane.
    pub preview: String,
    /// Lines of the preview scrolled past.
    pub preview_scroll: u16,
}

/// The compact preview of `code`.
pub fn compact_preview(code: &str) -> (r: String)
    ensures
        r@ == compact_text(code@),
{
    let chars = chars_of(code);
    let mut ls = split_lines(&chars);
    let ghost all = lines(code@);
    let long = ls.len() > COMPACT_LINES;
    if long {
        ls.truncate(COMPACT_LINES);
    }
    assert(ls@.map_values(|l: Vec<char>| l@) =~= if long {
        all.take(COMPACT_LINES as int)
    } else {
        all
    });
    let mut out = join_chars(&ls, '\n');
    if long {
        out.push('\n');
        out.push('\u{2026}');
    }
    assert(out@ =~= compact_text(code@));
    string_of(&out)
}

/// The search bar's title for `mode` and `status`.
pub fn title_for(mode: Mode, status: &Option<String>) -> (r: String)
    ensures
        r@ == title_text(mode, opt_text(*status)),
{
    let mut t = String::from_str("Search");
    if mode == Mode::ConfirmDelete {
        t.append(" [confirm delete: y/n]");
    }
    if let Some(msg) = status {
        t.append(" \u{2022} ");
        t.append(msg.as_str());
        proof {
            assert(" \u{2022} "@ =~= seq![' ', '\u{2022}', ' ']) by {
                reveal_strlit(" \u{2022} ");
            }
        }
    }
    t
}

impl SearchState {
    /// The description of what to draw for this state.
    pub fn render(&self) -> (r: RenderModel)
        requires
            self.wf(),
        ensures
            r.title@ == title_text(self@.mode, self@.status),
            r.query@ == self@.query,
            r.items@.len() == self@.visible.len(),
            forall|p: int|
                0 <= p < r.items@.len() ==> #[trigger] r.items@[p]@
                    == self@.corpus[self@.visible[p] as int].description,
            r.highlight == self@.selection,
            r.preview_title@ == preview_title_text(self@.preview_full),
            r.preview@ == preview_text(self@),
            r.preview_scroll == self@.scroll,
    {
        let corpus = self.corpus();
        let visible = self.visible();
        let mut items: Vec<String> = Vec::new();
        let mut p: usize = 0;
        while p < visible.len()
            invariant
                self.wf(),
                visible@ == self@.visible,
                crate::snippet::snippet_views(corpus@) == self@.corpus,
                p <= visible@.len(),
                items@.len() == p,
                forall|k: int|
                    0 <= k < p ==> #[trigger] items@[k]@ == self@.corpus[self@.visible[k] as int].description,
            decreases visible.len() - p,
        {
            let k = visible[p];
            items.push(corpus[k].description.clone());
            p = p + 1;
        }
        let preview = match self.selected_snippet() {
            Some(sn) => if self.preview_full() {
                sn.code.clone()
            } else {
                compact_preview(sn.code.as_str())
            },
            None => String::from_str("No snippet selected."),
        };
        let preview_title = if self.preview_full() {
            String::from_str("Preview (full)")
        } else {
            String::from_str("Preview (compact)")
        };
        RenderModel {
            title: title_for(self.mode(), self.status()),
            query: self.query().clone(),
            items,
            highlight: self.selection(),
            preview_title,
            preview,
            preview_scroll: self.preview_scroll(),
        }
    }
}

} // verus!
