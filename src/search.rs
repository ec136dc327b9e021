//! The interactive search state: the snippet corpus, the query, the ranked
//! visible order, the selection, the preview scroll, the delete-confirmation
//! mode, and the transitions between them.

use crate::rank::{
    is_ranking, lemma_positions_after_removal, lemma_ranking_after_removal, lemma_ranking_exists,
    positions, rank, ranking, ranks_before, without_index,
};
use crate::score::{score, skim_score, snippet_score, tags_text};
use crate::snippet::{Snippet, SnippetView, snippet_views};
use crate::text::{chars_of, lines, push_char, split_lines, string_of};
use vstd::prelude::*;
use vstd::string::*;

verus! {

/// The interaction mode: ordinary searching, or waiting for the user to
/// confirm or cancel a delete.
#[derive(Clone, Copy, Debug, PartialEq, Eq, Structural)]
pub enum Mode {
    Normal,
    ConfirmDelete,
}

/// A step through the visible list.
#[derive(Clone, Copy, Debug, PartialEq, Eq, Structural)]
pub enum Direction {
    Next,
    Previous,
}

/// The score of each snippet of `corpus` for the query `q`.
pub open spec fn scores_for(corpus: Seq<SnippetView>, q: Seq<char>) -> Seq<Option<i64>> {
    corpus.map_values(|sn: SnippetView| snippet_score(sn, q))
}

/// The visible order for query `q`: everything in corpus order when `q` is
/// empty, else the matching snippets ranked by score.
pub open spec fn visible_for(corpus: Seq<SnippetView>, q: Seq<char>) -> Seq<usize> {
    if q.len() == 0 {
        positions(corpus.len())
    } else {
        ranking(scores_for(corpus, q))
    }
}

/// The largest preview scroll offset for a code body: its last line index,
/// capped at the largest `u16`.
pub open spec fn scroll_limit(code: Seq<char>) -> u16 {
    let n = lines(code).len();
    if n <= 1 {
        0
    } else if n - 1 >= 65535 {
        65535
    } else {
        (n - 1) as u16
    }
}

/// The selection that a freshly built visible order gets.
pub open spec fn first_of(visible: Seq<usize>) -> Option<usize> {
    if visible.len() == 0 {
        None
    } else {
        Some(0)
    }
}

/// The abstract state of a search session.
pub struct SearchView {
    pub corpus: Seq<SnippetView>,
    pub query: Seq<char>,
    pub visible: Seq<usize>,
    pub selection: Option<usize>,
    pub mode: Mode,
    pub preview_full: bool,
    pub scroll: u16,
    pub status: Option<Seq<char>>,
}

impl SearchView {
    /// The state at the start of a session over `corpus`.
    pub open spec fn initial(corpus: Seq<SnippetView>) -> SearchView {
        SearchView {
            corpus,
            query: Seq::<char>::empty(),
            visible: positions(corpus.len()),
            selection: first_of(positions(corpus.len())),
            mode: Mode::Normal,
            preview_full: false,
            scroll: 0,
            status: None,
        }
    }

    /// The corpus position of the selected snippet.
    pub open spec fn selected_index(self) -> Option<int> {
        match self.selection {
            Some(p) => Some(self.visible[p as int] as int),
            None => None,
        }
    }

    /// The selected snippet.
    pub open spec fn selected(self) -> Option<SnippetView> {
        match self.selected_index() {
            Some(k) => Some(self.corpus[k]),
            None => None,
        }
    }

    /// The largest scroll offset for the current preview.
    pub open spec fn scroll_bound(self) -> u16 {
        match self.selected() {
            Some(sn) => scroll_limit(sn.code),
            None => 0,
        }
    }

    /// The state's invariant.
    pub open spec fn valid(self) -> bool {
        &&& self.corpus.len() <= usize::MAX
        &&& self.visible.len() <= usize::MAX
        &&& self.visible == visible_for(self.corpus, self.query)
        &&& self.query.len() > 0 ==> is_ranking(scores_for(self.corpus, self.query), self.visible)
        &&& forall|p: int| 0 <= p < self.visible.len() ==> #[trigger] self.visible[p] < self.corpus.len()
        &&& (self.selection is None <==> self.visible.len() == 0)
        &&& (self.selection matches Some(p) ==> p < self.visible.len())
        &&& self.scroll <= self.scroll_bound()
    }

    /// The query replaced by `q`, the visible order rebuilt for it, the first
    /// entry selected and the preview scrolled to its top.
    pub open spec fn with_query(self, q: Seq<char>) -> SearchView {
        SearchView {
            query: q,
            visible: visible_for(self.corpus, q),
            selection: first_of(visible_for(self.corpus, q)),
            scroll: 0,
            ..self
        }
    }

    /// One character added at the end of the query.
    pub open spec fn typed(self, c: char) -> SearchView {
        self.with_query(self.query.push(c))
    }

    /// The last character of the query removed; nothing changes on an empty
    /// query.
    pub open spec fn erased(self) -> SearchView {
        if self.query.len() == 0 {
            self
        } else {
            self.with_query(self.query.drop_last())
        }
    }

    /// The position that a step in direction `d` selects, wrapping around at
    /// both ends.
    pub open spec fn step_target(self, d: Direction) -> int {
        let n = self.visible.len() as int;
        let i = match self.selection {
            Some(p) => p as int,
            None => 0,
        };
        match d {
            Direction::Next => if i + 1 >= n { 0 } else { i + 1 },
            Direction::Previous => if i == 0 { n - 1 } else { i - 1 },
        }
    }

    /// The selection moved one step; nothing changes when nothing is visible.
    pub open spec fn moved(self, d: Direction) -> SearchView {
        if self.visible.len() == 0 {
            self
        } else {
            SearchView { selection: Some(self.step_target(d) as usize), scroll: 0, ..self }
        }
    }

    /// The preview scrolled by `delta` lines, kept within the selected
    /// snippet's lines; nothing changes when nothing is selected.
    pub open spec fn scrolled(self, delta: i32) -> SearchView {
        if self.selection is None {
            self
        } else {
            let t = self.scroll + delta;
            let b = self.scroll_bound();
            SearchView { scroll: if t < 0 { 0 } else if t > b { b } else { t as u16 }, ..self }
        }
    }

    /// The preview switched between compact and full, scrolled to its top.
    pub open spec fn toggled(self) -> SearchView {
        SearchView { preview_full: !self.preview_full, scroll: 0, ..self }
    }

    /// Waiting for the user to confirm a delete.
    pub open spec fn delete_requested(self) -> SearchView {
        SearchView {
            mode: Mode::ConfirmDelete,
            status: Some("Confirm delete? press 'y' or 'n'"@),
            ..self
        }
    }

    /// The pending delete dropped.
    pub open spec fn delete_canceled(self) -> SearchView {
        SearchView { mode: Mode::Normal, status: Some("Canceled delete."@), ..self }
    }

    /// The pending delete resolved with the store's outcome: on success the
    /// selected snippet leaves the corpus, the visible order is rebuilt for the
    /// same query and the selection keeps its position or moves to the new
    /// last one; on failure only the status changes.
    pub open spec fn delete_resolved(self, outcome: Result<(), Seq<char>>) -> SearchView {
        match self.selection {
            None => SearchView { mode: Mode::Normal, ..self },
            Some(p) => match outcome {
                Ok(_) => {
                    let corpus = self.corpus.remove(self.visible[p as int] as int);
                    let visible = visible_for(corpus, self.query);
                    SearchView {
                        corpus,
                        visible,
                        selection: if visible.len() == 0 {
                            None
                        } else if p < visible.len() {
                            Some(p)
                        } else {
                            Some((visible.len() - 1) as usize)
                        },
                        scroll: 0,
                        mode: Mode::Normal,
                        status: Some("Deleted snippet."@),
                        ..self
                    }
                },
                Err(e) => SearchView {
                    mode: Mode::Normal,
                    status: Some("Delete failed: "@ + e),
                    ..self
                },
            },
        }
    }
}

/// The visible order of `corpus` for `query`.
pub fn visible_order(corpus: &Vec<Snippet>, query: &str) -> (r: Vec<usize>)
    ensures
        r@ == visible_for(snippet_views(corpus@), query@),
        query@.len() > 0 ==> is_ranking(scores_for(snippet_views(corpus@), query@), r@),
        forall|p: int| 0 <= p < r@.len() ==> #[trigger] r@[p] < corpus@.len(),
{
    if query.is_empty() {
        let mut out: Vec<usize> = Vec::new();
        let mut i: usize = 0;
        while i < corpus.len()
            invariant
                i <= corpus.len(),
                out@ == positions(i as nat),
            decreases corpus.len() - i,
        {
            out.push(i);
            i = i + 1;
            assert(out@ =~= positions(i as nat));
        }
        out
    } else {
        let ghost views = snippet_views(corpus@);
        let mut scores: Vec<Option<i64>> = Vec::new();
        let mut i: usize = 0;
        while i < corpus.len()
            invariant
                i <= corpus.len(),
                views == snippet_views(corpus@),
                scores@ == scores_for(views, query@).take(i as int),
            decreases corpus.len() - i,
        {
            let s = score(query, &corpus[i]);
            scores.push(s);
            i = i + 1;
            assert(scores@ =~= scores_for(views, query@).take(i as int));
        }
        assert(scores@ =~= scores_for(views, query@));
        rank(&scores)
    }
}

/// One user action on the search state.
#[derive(Clone, Copy, Debug, PartialEq, Eq, Structural)]
pub enum Action {
    TypeChar(char),
    Backspace,
    MoveSelection(Direction),
    ScrollPreview(i32),
    TogglePreview,
    RequestDelete,
    Confirm,
    Cancel,
    Select,
    Quit,
    NoOp,
}

/// What the host has to do after an action.
#[derive(Debug)]
pub enum Effect {
    /// Render and wait for the next input.
    Continue,
    /// Ask the store to delete the snippet with this id, then hand the outcome
    /// to `SearchState::confirm_delete`.
    Delete(String),
    /// End the session, with the selected snippet's code or without one.
    Exit(Option<String>),
}

/// The abstract form of an `Effect`.
pub enum EffectView {
    Continue,
    Delete(Seq<char>),
    Exit(Option<Seq<char>>),
}

impl View for Effect {
    type V = EffectView;

    open spec fn view(&self) -> EffectView {
        match self {
            Effect::Continue => EffectView::Continue,
            Effect::Delete(id) => EffectView::Delete(id@),
            Effect::Exit(code) => EffectView::Exit(opt_text(*code)),
        }
    }
}

impl SearchView {
    /// The state after `a`. While a delete waits for confirmation only
    /// confirm and cancel are heard; a confirm with a snippet selected leaves
    /// the state as it is until the store has answered.
    pub open spec fn step(self, a: Action) -> SearchView {
        match self.mode {
            Mode::Normal => match a {
                Action::TypeChar(c) => self.typed(c),
                Action::Backspace => self.erased(),
                Action::MoveSelection(d) => self.moved(d),
                Action::ScrollPreview(delta) => self.scrolled(delta),
                Action::TogglePreview => self.toggled(),
                Action::RequestDelete => self.delete_requested(),
                _ => self,
            },
            Mode::ConfirmDelete => match a {
                Action::Confirm => if self.selection is None {
                    SearchView { mode: Mode::Normal, ..self }
                } else {
                    self
                },
                Action::Cancel => self.delete_canceled(),
                _ => self,
            },
        }
    }

    /// What the host has to do after `a`.
    pub open spec fn effect(self, a: Action) -> EffectView {
        match self.mode {
            Mode::Normal => match a {
                Action::Select => match self.selected() {
                    Some(sn) => EffectView::Exit(Some(sn.code)),
                    None => EffectView::Continue,
                },
                Action::Quit => EffectView::Exit(None),
                _ => EffectView::Continue,
            },
            Mode::ConfirmDelete => match a {
                Action::Confirm => match self.selected() {
                    Some(sn) => EffectView::Delete(sn.id),
                    None => EffectView::Continue,
                },
                _ => EffectView::Continue,
            },
        }
    }
}

/// The store's answer to a delete, as plain text.
pub open spec fn outcome_view(outcome: Result<(), String>) -> Result<(), Seq<char>> {
    match outcome {
        Ok(_) => Ok(()),
        Err(e) => Err(e@),
    }
}

/// The owned state of one search session.
pub struct SearchState {
    corpus: Vec<Snippet>,
    visible: Vec<usize>,
    selection: Option<usize>,
    query: String,
    mode: Mode,
    preview_full: bool,
    preview_scroll: u16,
    status: Option<String>,
}

/// The view of an optional text.
pub open spec fn opt_text(s: Option<String>) -> Option<Seq<char>> {
    match s {
        Some(t) => Some(t@),
        None => None,
    }
}

impl View for SearchState {
    type V = SearchView;

    closed spec fn view(&self) -> SearchView {
        SearchView {
            corpus: snippet_views(self.corpus@),
            query: self.query@,
            visible: self.visible@,
            selection: self.selection,
            mode: self.mode,
            preview_full: self.preview_full,
            scroll: self.preview_scroll,
            status: opt_text(self.status),
        }
    }
}

/// The largest preview scroll offset for `code`.
fn line_limit(code: &String) -> (r: u16)
    ensures
        r == scroll_limit(code@),
{
    let chars = chars_of(code.as_str());
    let ls = split_lines(&chars);
    let n = ls.len();
    if n <= 1 {
        0
    } else if n - 1 >= 65535 {
        65535
    } else {
        (n - 1) as u16
    }
}

impl SearchState {
    pub open spec fn wf(&self) -> bool {
        self@.valid()
    }

    /// A session over `snippets`: empty query, everything visible in corpus
    /// order, the first snippet selected.
    pub fn new(snippets: Vec<Snippet>) -> (r: SearchState)
        ensures
            r.wf(),
            r@ == SearchView::initial(snippet_views(snippets@)),
    {
        let empty = String::new();
        let visible = visible_order(&snippets, empty.as_str());
        let selection = if visible.len() == 0 { None } else { Some(0) };
        let r = SearchState {
            corpus: snippets,
            visible,
            selection,
            query: empty,
            mode: Mode::Normal,
            preview_full: false,
            preview_scroll: 0,
            status: None,
        };
        assert(r@ == SearchView::initial(snippet_views(snippets@)));
        r
    }

    /// Replaces the query and rebuilds the visible order for it.
    pub fn set_query(&mut self, q: String)
        requires
            old(self).wf(),
        ensures
            final(self).wf(),
            final(self)@ == old(self)@.with_query(q@),
    {
        let visible = visible_order(&self.corpus, q.as_str());
        self.query = q;
        self.visible = visible;
        self.selection = if self.visible.len() == 0 { None } else { Some(0) };
        self.preview_scroll = 0;
    }

    /// Adds `c` at the end of the query.
    pub fn append_char(&mut self, c: char)
        requires
            old(self).wf(),
        ensures
            final(self).wf(),
            final(self)@ == old(self)@.typed(c),
    {
        let mut q = self.query.clone();
        push_char(&mut q, c);
        self.set_query(q);
    }

    /// Removes the last character of the query, if there is one.
    pub fn backspace(&mut self)
        requires
            old(self).wf(),
        ensures
            final(self).wf(),
            final(self)@ == old(self)@.erased(),
    {
        if self.query.as_str().is_empty() {
            return;
        }
        let mut chars = chars_of(self.query.as_str());
        chars.pop();
        assert(chars@ =~= old(self)@.query.drop_last());
        let q = string_of(&chars);
        self.set_query(q);
    }

    /// Moves the selection one step, wrapping around at both ends.
    pub fn move_selection(&mut self, d: Direction)
        requires
            old(self).wf(),
        ensures
            final(self).wf(),
            final(self)@ == old(self)@.moved(d),
    {
        let n = self.visible.len();
        if n == 0 {
            return;
        }
        let i = match self.selection {
            Some(p) => p,
            None => 0,
        };
        let j = match d {
            Direction::Next => if i + 1 >= n { 0 } else { i + 1 },
            Direction::Previous => if i == 0 { n - 1 } else { i - 1 },
        };
        self.selection = Some(j);
        self.preview_scroll = 0;
    }

    /// Scrolls the preview by `delta` lines within the selected snippet.
    pub fn scroll_preview(&mut self, delta: i32)
        requires
            old(self).wf(),
        ensures
            final(self).wf(),
            final(self)@ == old(self)@.scrolled(delta),
    {
        if let Some(p) = self.selection {
            let b = line_limit(&self.corpus[self.visible[p]].code);
            let t: i64 = self.preview_scroll as i64 + delta as i64;
            self.preview_scroll = if t < 0 {
                0
            } else if t > b as i64 {
                b
            } else {
                t as u16
            };
        }
    }

    /// Switches the preview between compact and full.
    pub fn toggle_preview(&mut self)
        requires
            old(self).wf(),
        ensures
            final(self).wf(),
            final(self)@ == old(self)@.toggled(),
    {
        self.preview_full = !self.preview_full;
        self.preview_scroll = 0;
    }

    /// Enters the delete confirmation; nothing is removed yet.
    pub fn request_delete(&mut self)
        requires
            old(self).wf(),
        ensures
            final(self).wf(),
            final(self)@ == old(self)@.delete_requested(),
    {
        self.mode = Mode::ConfirmDelete;
        self.status = Some(String::from_str("Confirm delete? press 'y' or 'n'"));
    }

    /// Leaves the delete confirmation without removing anything.
    pub fn cancel_delete(&mut self)
        requires
            old(self).wf(),
        ensures
            final(self).wf(),
            final(self)@ == old(self)@.delete_canceled(),
    {
        self.mode = Mode::Normal;
        self.status = Some(String::from_str("Canceled delete."));
    }

    /// Resolves the pending delete of the selected snippet with the store's
    /// outcome.
    pub fn confirm_delete(&mut self, outcome: Result<(), String>)
        requires
            old(self).wf(),
        ensures
            final(self).wf(),
            final(self)@ == old(self)@.delete_resolved(outcome_view(outcome)),
    {
        let p = match self.selection {
            Some(p) => p,
            None => {
                self.mode = Mode::Normal;
                return;
            },
        };
        match outcome {
            Ok(_) => {
                let k = self.visible[p];
                let ghost before = self.corpus@;
                let _gone = self.corpus.remove(k);
                assert(snippet_views(self.corpus@) =~= snippet_views(before).remove(k as int));
                let visible = visible_order(&self.corpus, self.query.as_str());
                self.visible = visible;
                let n = self.visible.len();
                self.selection = if n == 0 {
                    None
                } else if p < n {
                    Some(p)
                } else {
                    Some(n - 1)
                };
                self.preview_scroll = 0;
                self.mode = Mode::Normal;
                self.status = Some(String::from_str("Deleted snippet."));
            },
            Err(e) => {
                let mut m = String::from_str("Delete failed: ");
                m.append(e.as_str());
                self.mode = Mode::Normal;
                self.status = Some(m);
            },
        }
    }
    /// Applies one action under the mode's gating and says what the host has
    /// to do next.
    pub fn apply(&mut self, a: Action) -> (r: Effect)
        requires
            old(self).wf(),
        ensures
            final(self).wf(),
            final(self)@ == old(self)@.step(a),
            r@ == old(self)@.effect(a),
    {
        match self.mode {
            Mode::Normal => match a {
                Action::TypeChar(c) => {
                    self.append_char(c);
                    Effect::Continue
                },
                Action::Backspace => {
                    self.backspace();
                    Effect::Continue
                },
                Action::MoveSelection(d) => {
                    self.move_selection(d);
                    Effect::Continue
                },
                Action::ScrollPreview(delta) => {
                    self.scroll_preview(delta);
                    Effect::Continue
                },
                Action::TogglePreview => {
                    self.toggle_preview();
                    Effect::Continue
                },
                Action::RequestDelete => {
                    self.request_delete();
                    Effect::Continue
                },
                Action::Select => match self.selection {
                    Some(p) => Effect::Exit(Some(self.corpus[self.visible[p]].code.clone())),
                    None => Effect::Continue,
                },
                Action::Quit => Effect::Exit(None),
                _ => Effect::Continue,
            },
            Mode::ConfirmDelete => match a {
                Action::Confirm => match self.selection {
                    Some(p) => Effect::Delete(self.corpus[self.visible[p]].id.clone()),
                    None => {
                        self.mode = Mode::Normal;
                        Effect::Continue
                    },
                },
                Action::Cancel => {
                    self.cancel_delete();
                    Effect::Continue
                },
                _ => Effect::Continue,
            },
        }
    }

    /// The selected snippet.
    pub fn selected_snippet(&self) -> (r: Option<&Snippet>)
        requires
            self.wf(),
        ensures
            match r {
                Some(sn) => self@.selected() == Some(sn@),
                None => self@.selected() is None,
            },
    {
        match self.selection {
            Some(p) => Some(&self.corpus[self.visible[p]]),
            None => None,
        }
    }

    /// The snippets of the session, in corpus order.
    pub fn corpus(&self) -> (r: &Vec<Snippet>)
        ensures
            snippet_views(r@) == self@.corpus,
    {
        &self.corpus
    }

    /// The corpus positions currently shown, in display order.
    pub fn visible(&self) -> (r: &Vec<usize>)
        ensures
            r@ == self@.visible,
    {
        &self.visible
    }

    /// The selected position in the visible order.
    pub fn selection(&self) -> (r: Option<usize>)
        ensures
            r == self@.selection,
    {
        self.selection
    }

    /// The current query.
    pub fn query(&self) -> (r: &String)
        ensures
            r@ == self@.query,
    {
        &self.query
    }

    /// The current mode.
    pub fn mode(&self) -> (r: Mode)
        ensures
            r == self@.mode,
    {
        self.mode
    }

    /// Whether the preview shows the whole code.
    pub fn preview_full(&self) -> (r: bool)
        ensures
            r == self@.preview_full,
    {
        self.preview_full
    }

    /// The preview's scroll offset in lines.
    pub fn preview_scroll(&self) -> (r: u16)
        ensures
            r == self@.scroll,
    {
        self.preview_scroll
    }

    /// The message about the last delete-related action.
    pub fn status(&self) -> (r: &Option<String>)
        ensures
            opt_text(*r) == self@.status,
    {
        &self.status
    }
}

/// Setting the same query twice leaves the state exactly as setting it once:
/// same visible order, selection and preview scroll.
pub proof fn lemma_set_query_idempotent(s: SearchView, q: Seq<char>)
    ensures
        s.with_query(q).with_query(q) == s.with_query(q),
{
}

/// With a non-empty query, snippets of equal score appear in the visible
/// order as they appear in the corpus.
pub proof fn lemma_equal_scores_keep_corpus_order(s: SearchView, p: int, q: int)
    requires
        s.valid(),
        s.query.len() > 0,
        0 <= p < q < s.visible.len(),
        snippet_score(s.corpus[s.visible[p] as int], s.query) == snippet_score(
            s.corpus[s.visible[q] as int],
            s.query,
        ),
    ensures
        s.visible[p] < s.visible[q],
{
    let scores = scores_for(s.corpus, s.query);
    assert(ranks_before(scores, s.visible[p] as int, s.visible[q] as int));
}

/// With a non-empty query, a snippet is visible exactly when it has a score;
/// a snippet that is not visible matches in none of its three fields.
pub proof fn lemma_visible_iff_scored(s: SearchView, k: int)
    requires
        s.valid(),
        s.query.len() > 0,
        0 <= k < s.corpus.len(),
    ensures
        s.visible.contains(k as usize) <==> snippet_score(s.corpus[k], s.query) is Some,
        !s.visible.contains(k as usize) ==> {
            &&& skim_score(s.corpus[k].description, s.query) is None
            &&& skim_score(tags_text(s.corpus[k].tags), s.query) is None
            &&& skim_score(s.corpus[k].code, s.query) is None
        },
{
    let scores = scores_for(s.corpus, s.query);
    assert(scores[k] == snippet_score(s.corpus[k], s.query));
    if s.visible.contains(k as usize) {
        let p = choose|p: int| 0 <= p < s.visible.len() && s.visible[p] == k as usize;
        assert(scores[s.visible[p] as int] is Some);
    }
}

/// Moving past the last visible entry wraps to the first, moving before the
/// first wraps to the last, and nothing moves when nothing is visible.
pub proof fn lemma_wrap_navigation(s: SearchView)
    requires
        s.valid(),
    ensures
        s.visible.len() == 0 ==> s.moved(Direction::Next) == s && s.moved(Direction::Previous) == s,
        s.visible.len() > 0 && s.selection == Some((s.visible.len() - 1) as usize) ==> s.moved(
            Direction::Next,
        ).selection == Some(0usize),
        s.selection == Some(0usize) ==> s.moved(Direction::Previous).selection == Some(
            (s.visible.len() - 1) as usize,
        ),
{
}

/// A successful delete of the selected snippet removes exactly that entry
/// from the corpus and from the visible order, which otherwise keeps its
/// order (with the positions after the deleted one moved down); every visible
/// entry afterwards stands for another of the old entries; the selection is `None` exactly when nothing is visible, and
/// otherwise keeps its position or moves to the new last one.
pub proof fn lemma_delete_resync(s: SearchView)
    requires
        s.valid(),
        s.selection is Some,
    ensures
        ({
            let t = s.delete_resolved(Ok(()));
            let k = s.selected_index()->0;
            let p = s.selection->0;
            &&& t.valid()
            &&& t.corpus.len() == s.corpus.len() - 1
            &&& t.corpus == s.corpus.remove(k)
            &&& t.visible == without_index(s.visible, k as usize)
            &&& forall|v: int|
                0 <= v < t.visible.len() ==> {
                    let j = if t.visible[v] < k { t.visible[v] as int } else { t.visible[v] + 1 };
                    &&& j != k
                    &&& 0 <= j < s.corpus.len()
                    &&& #[trigger] t.corpus[t.visible[v] as int] == s.corpus[j]
                }
            &&& (t.selection is None <==> t.visible.len() == 0)
            &&& (t.selection matches Some(r) ==> r < t.visible.len() && (r == p || (p
                >= t.visible.len() && r == t.visible.len() - 1)))
        }),
{
    let t = s.delete_resolved(Ok(()));
    let k = s.selected_index()->0;
    if t.query.len() > 0 {
        assert(scores_for(t.corpus, t.query) =~= scores_for(s.corpus, s.query).remove(k));
        lemma_ranking_after_removal(scores_for(s.corpus, s.query), k as usize);
        lemma_ranking_exists(scores_for(t.corpus, t.query));
    } else {
        lemma_positions_after_removal(s.corpus.len(), k as usize);
    }
}

/// While a delete waits for confirmation, typing a character changes
/// nothing: not the query, the visible order, or the corpus.
pub proof fn lemma_typing_ignored_while_confirming(s: SearchView, c: char)
    requires
        s.mode == Mode::ConfirmDelete,
    ensures
        s.step(Action::TypeChar(c)) == s,
        s.effect(Action::TypeChar(c)) == EffectView::Continue,
{
}

} // verus!
