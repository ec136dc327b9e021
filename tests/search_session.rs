use snipman::input::{dispatch, Key};
use snipman::rank::rank;
use snipman::score::{best_of_fields, join_tags, score};
use snipman::search::{Action, Direction, Effect, Mode, SearchState};
use snipman::snippet::Snippet;

fn snip(id: &str, description: &str, tags: &[&str], code: &str) -> Snippet {
    Snippet {
        id: id.to_string(),
        description: description.to_string(),
        tags: tags.iter().map(|t| t.to_string()).collect(),
        code: code.to_string(),
    }
}

fn sample() -> Vec<Snippet> {
    vec![
        snip("a", "read file", &["fs", "io"], "fs.readFile(...)"),
        snip("b", "http get", &["net"], "fetch(url)"),
        snip("c", "parse json", &["json"], "JSON.parse(s)"),
    ]
}

fn type_text(st: &mut SearchState, text: &str) {
    for c in text.chars() {
        st.apply(Action::TypeChar(c));
    }
}

#[test]
fn empty_query_shows_single_snippet() {
    let st = SearchState::new(vec![snip("a", "read file", &["fs", "io"], "fs.readFile(...)")]);
    assert_eq!(st.query(), "");
    assert_eq!(st.visible(), &vec![0usize]);
    assert_eq!(st.selection(), Some(0));
    assert_eq!(st.mode(), Mode::Normal);
    assert_eq!(st.preview_scroll(), 0);
}

#[test]
fn empty_corpus_has_no_selection() {
    let st = SearchState::new(Vec::new());
    assert!(st.visible().is_empty());
    assert_eq!(st.selection(), None);
    assert_eq!(st.render().preview, "No snippet selected.");
}

#[test]
fn unmatched_query_shows_nothing() {
    let mut st = SearchState::new(sample());
    st.set_query("zzz".to_string());
    assert!(st.visible().is_empty());
    assert_eq!(st.selection(), None);
    let model = st.render();
    assert_eq!(model.preview, "No snippet selected.");
    assert!(model.items.is_empty());
    assert_eq!(model.highlight, None);
}

#[test]
fn equal_scores_keep_corpus_order() {
    let corpus = vec![
        snip("x", "stdio helper", &["io"], "print"),
        snip("y", "stdio helper", &["io"], "print"),
    ];
    let mut st = SearchState::new(corpus);
    st.set_query("io".to_string());
    assert_eq!(st.visible(), &vec![0usize, 1]);
    assert_eq!(st.selection(), Some(0));
}

#[test]
fn visible_order_is_sorted_by_score_then_position() {
    let corpus = vec![
        snip("1", "iota", &[], "x"),
        snip("2", "nothing here", &[], "zzz"),
        snip("3", "io", &["io"], "io"),
        snip("4", "i o", &[], "radio"),
        snip("5", "iota", &[], "x"),
    ];
    let mut st = SearchState::new(corpus);
    st.set_query("io".to_string());
    let scores: Vec<Option<i64>> = st.corpus().iter().map(|s| score("io", s)).collect();
    let vis = st.visible().clone();
    for (k, s) in scores.iter().enumerate() {
        assert_eq!(vis.contains(&k), s.is_some());
    }
    for w in vis.windows(2) {
        let (a, b) = (scores[w[0]].unwrap(), scores[w[1]].unwrap());
        assert!(a > b || (a == b && w[0] < w[1]));
    }
    assert!(!vis.contains(&1));
}

#[test]
fn set_query_twice_is_idempotent() {
    let mut st = SearchState::new(sample());
    st.set_query("fi".to_string());
    let (v1, s1, p1) = (st.visible().clone(), st.selection(), st.preview_scroll());
    st.set_query("fi".to_string());
    assert_eq!(st.visible(), &v1);
    assert_eq!(st.selection(), s1);
    assert_eq!(st.preview_scroll(), p1);
}

#[test]
fn navigation_wraps_both_ways() {
    let mut st = SearchState::new(sample());
    st.move_selection(Direction::Previous);
    assert_eq!(st.selection(), Some(2));
    st.move_selection(Direction::Next);
    assert_eq!(st.selection(), Some(0));
    st.move_selection(Direction::Next);
    st.move_selection(Direction::Next);
    assert_eq!(st.selection(), Some(2));
    st.move_selection(Direction::Next);
    assert_eq!(st.selection(), Some(0));
}

#[test]
fn navigation_on_empty_list_does_nothing() {
    let mut st = SearchState::new(sample());
    st.set_query("zzz".to_string());
    st.move_selection(Direction::Next);
    assert_eq!(st.selection(), None);
    st.move_selection(Direction::Previous);
    assert_eq!(st.selection(), None);
}

#[test]
fn delete_request_then_confirm_removes_snippet() {
    let mut st = SearchState::new(sample());
    assert_eq!(st.selection(), Some(0));
    let eff = st.apply(dispatch(Key::Char('d'), st.mode()));
    assert!(matches!(eff, Effect::Continue));
    assert_eq!(st.mode(), Mode::ConfirmDelete);
    assert_eq!(st.status().as_deref(), Some("Confirm delete? press 'y' or 'n'"));
    let eff = st.apply(dispatch(Key::Char('y'), st.mode()));
    let id = match eff {
        Effect::Delete(id) => id,
        other => panic!("expected a delete, got {:?}", other),
    };
    assert_eq!(id, "a");
    assert_eq!(st.corpus().len(), 3);
    st.confirm_delete(Ok(()));
    assert_eq!(st.corpus().len(), 2);
    assert_eq!(st.mode(), Mode::Normal);
    assert_eq!(st.status().as_deref(), Some("Deleted snippet."));
    assert!(st.corpus().iter().all(|s| s.id != "a"));
    assert_eq!(st.visible(), &vec![0usize, 1]);
    assert_eq!(st.selection(), Some(0));
}

#[test]
fn delete_request_then_cancel_keeps_corpus() {
    let mut st = SearchState::new(sample());
    st.apply(dispatch(Key::Char('d'), st.mode()));
    let eff = st.apply(dispatch(Key::Char('n'), st.mode()));
    assert!(matches!(eff, Effect::Continue));
    assert_eq!(st.corpus().len(), 3);
    assert_eq!(st.mode(), Mode::Normal);
    assert_eq!(st.status().as_deref(), Some("Canceled delete."));
}

#[test]
fn escape_cancels_delete() {
    let mut st = SearchState::new(sample());
    st.apply(Action::RequestDelete);
    st.apply(dispatch(Key::Esc, st.mode()));
    assert_eq!(st.mode(), Mode::Normal);
    assert_eq!(st.corpus().len(), 3);
}

#[test]
fn deleting_last_entry_clamps_selection() {
    let mut st = SearchState::new(sample());
    st.move_selection(Direction::Previous);
    assert_eq!(st.selection(), Some(2));
    st.apply(Action::RequestDelete);
    match st.apply(Action::Confirm) {
        Effect::Delete(id) => assert_eq!(id, "c"),
        other => panic!("expected a delete, got {:?}", other),
    }
    st.confirm_delete(Ok(()));
    assert_eq!(st.corpus().len(), 2);
    assert_eq!(st.visible(), &vec![0usize, 1]);
    assert_eq!(st.selection(), Some(1));
}

#[test]
fn deleting_only_match_empties_selection() {
    let mut st = SearchState::new(sample());
    st.set_query("json".to_string());
    let vis = st.visible().clone();
    assert_eq!(vis, vec![2usize]);
    st.apply(Action::RequestDelete);
    st.apply(Action::Confirm);
    st.confirm_delete(Ok(()));
    assert_eq!(st.corpus().len(), 2);
    assert!(st.visible().is_empty());
    assert_eq!(st.selection(), None);
    assert_eq!(st.query(), "json");
}

#[test]
fn failed_delete_keeps_corpus_and_reports() {
    let mut st = SearchState::new(sample());
    st.apply(Action::RequestDelete);
    st.apply(Action::Confirm);
    st.confirm_delete(Err("permission denied".to_string()));
    assert_eq!(st.corpus().len(), 3);
    assert_eq!(st.mode(), Mode::Normal);
    assert_eq!(st.status().as_deref(), Some("Delete failed: permission denied"));
    assert_eq!(st.selection(), Some(0));
}

#[test]
fn confirm_without_selection_returns_to_normal() {
    let mut st = SearchState::new(sample());
    st.set_query("zzz".to_string());
    st.apply(Action::RequestDelete);
    let eff = st.apply(Action::Confirm);
    assert!(matches!(eff, Effect::Continue));
    assert_eq!(st.mode(), Mode::Normal);
    assert_eq!(st.corpus().len(), 3);
}

#[test]
fn typing_is_ignored_while_confirming() {
    let mut st = SearchState::new(sample());
    st.set_query("f".to_string());
    let vis = st.visible().clone();
    st.apply(Action::RequestDelete);
    let eff = st.apply(dispatch(Key::Char('x'), st.mode()));
    assert!(matches!(eff, Effect::Continue));
    assert_eq!(st.query(), "f");
    assert_eq!(st.visible(), &vis);
    assert_eq!(st.corpus().len(), 3);
    assert_eq!(st.mode(), Mode::ConfirmDelete);
}

#[test]
fn typing_and_backspace_edit_query() {
    let mut st = SearchState::new(sample());
    type_text(&mut st, "json");
    assert_eq!(st.query(), "json");
    assert_eq!(st.visible(), &vec![2usize]);
    st.apply(Action::Backspace);
    assert_eq!(st.query(), "jso");
    for _ in 0..3 {
        st.apply(Action::Backspace);
    }
    assert_eq!(st.query(), "");
    assert_eq!(st.visible(), &vec![0usize, 1, 2]);
}

#[test]
fn backspace_on_empty_query_changes_nothing() {
    let mut st = SearchState::new(sample());
    st.move_selection(Direction::Next);
    st.scroll_preview(5);
    st.backspace();
    assert_eq!(st.query(), "");
    assert_eq!(st.selection(), Some(1));
}

#[test]
fn select_and_quit_end_the_session() {
    let mut st = SearchState::new(sample());
    st.move_selection(Direction::Next);
    match st.apply(dispatch(Key::Enter, st.mode())) {
        Effect::Exit(Some(code)) => assert_eq!(code, "fetch(url)"),
        other => panic!("expected a selection, got {:?}", other),
    }
    match st.apply(dispatch(Key::Char('q'), st.mode())) {
        Effect::Exit(None) => {}
        other => panic!("expected a quit, got {:?}", other),
    }
    st.set_query("zzz".to_string());
    assert!(matches!(st.apply(Action::Select), Effect::Continue));
}

#[test]
fn preview_scroll_is_clamped() {
    let code: Vec<String> = (0..20).map(|i| format!("line {}", i)).collect();
    let mut st = SearchState::new(vec![
        snip("a", "long", &[], &code.join("\n")),
        snip("b", "short", &[], "one\ntwo\nthree\n"),
    ]);
    st.apply(dispatch(Key::PageDown, st.mode()));
    assert_eq!(st.preview_scroll(), 5);
    for _ in 0..5 {
        st.apply(Action::ScrollPreview(5));
    }
    assert_eq!(st.preview_scroll(), 19);
    st.apply(dispatch(Key::PageUp, st.mode()));
    assert_eq!(st.preview_scroll(), 14);
    st.apply(Action::MoveSelection(Direction::Next));
    assert_eq!(st.preview_scroll(), 0);
    st.apply(Action::ScrollPreview(5));
    assert_eq!(st.preview_scroll(), 2);
    st.apply(Action::ScrollPreview(-7));
    assert_eq!(st.preview_scroll(), 0);
}

#[test]
fn preview_compact_and_full() {
    let code: Vec<String> = (1..=12).map(|i| format!("l{}", i)).collect();
    let code = code.join("\r\n");
    let mut st = SearchState::new(vec![snip("a", "twelve lines", &["t"], &code)]);
    let model = st.render();
    assert_eq!(model.preview, "l1\nl2\nl3\nl4\nl5\nl6\nl7\nl8\nl9\nl10\n\u{2026}");
    assert_eq!(model.preview_title, "Preview (compact)");
    st.apply(dispatch(Key::Char('p'), st.mode()));
    let model = st.render();
    assert_eq!(model.preview, code);
    assert_eq!(model.preview_title, "Preview (full)");
}

#[test]
fn render_lists_descriptions_and_title() {
    let mut st = SearchState::new(sample());
    let model = st.render();
    assert_eq!(model.title, "Search");
    assert_eq!(model.items, vec!["read file", "http get", "parse json"]);
    assert_eq!(model.highlight, Some(0));
    assert_eq!(model.preview, "fs.readFile(...)");
    st.apply(Action::RequestDelete);
    let model = st.render();
    assert_eq!(
        model.title,
        "Search [confirm delete: y/n] \u{2022} Confirm delete? press 'y' or 'n'"
    );
    st.apply(Action::Cancel);
    assert_eq!(st.render().title, "Search \u{2022} Canceled delete.");
    type_text(&mut st, "ab");
    assert_eq!(st.render().query, "ab");
}

#[test]
fn dispatch_maps_keys_per_mode() {
    assert_eq!(dispatch(Key::Char('q'), Mode::Normal), Action::Quit);
    assert_eq!(dispatch(Key::Char('p'), Mode::Normal), Action::TogglePreview);
    assert_eq!(dispatch(Key::Char('d'), Mode::Normal), Action::RequestDelete);
    assert_eq!(dispatch(Key::Char('a'), Mode::Normal), Action::TypeChar('a'));
    assert_eq!(dispatch(Key::Enter, Mode::Normal), Action::Select);
    assert_eq!(dispatch(Key::Backspace, Mode::Normal), Action::Backspace);
    assert_eq!(dispatch(Key::Up, Mode::Normal), Action::MoveSelection(Direction::Previous));
    assert_eq!(dispatch(Key::Down, Mode::Normal), Action::MoveSelection(Direction::Next));
    assert_eq!(dispatch(Key::PageUp, Mode::Normal), Action::ScrollPreview(-5));
    assert_eq!(dispatch(Key::PageDown, Mode::Normal), Action::ScrollPreview(5));
    assert_eq!(dispatch(Key::Esc, Mode::Normal), Action::NoOp);
    assert_eq!(dispatch(Key::Char('y'), Mode::ConfirmDelete), Action::Confirm);
    assert_eq!(dispatch(Key::Char('n'), Mode::ConfirmDelete), Action::Cancel);
    assert_eq!(dispatch(Key::Esc, Mode::ConfirmDelete), Action::Cancel);
    assert_eq!(dispatch(Key::Char('q'), Mode::ConfirmDelete), Action::NoOp);
    assert_eq!(dispatch(Key::Other, Mode::ConfirmDelete), Action::NoOp);
}

#[test]
fn score_takes_best_field() {
    let s = snip("a", "read file", &["fs", "io"], "fs.readFile(...)");
    assert!(score("io", &s).is_some());
    assert!(score("rf", &s).is_some());
    assert_eq!(score("zzz", &s), None);
    assert_eq!(best_of_fields(None, None, None), None);
    assert_eq!(best_of_fields(Some(3), None, Some(7)), Some(7));
    assert_eq!(best_of_fields(Some(9), Some(2), None), Some(9));
    assert_eq!(best_of_fields(None, Some(-4), None), Some(-4));
}

#[test]
fn tags_are_joined_by_spaces() {
    let tags = vec!["fs".to_string(), "io".to_string(), "read".to_string()];
    assert_eq!(join_tags(&tags), "fs io read");
    assert_eq!(join_tags(&Vec::new()), "");
}

#[test]
fn rank_orders_by_score_then_position() {
    assert_eq!(rank(&vec![Some(5), None, Some(7), Some(5)]), vec![2usize, 0, 3]);
    assert_eq!(rank(&vec![None, None]), Vec::<usize>::new());
    assert_eq!(rank(&vec![Some(-1), Some(0), Some(-1)]), vec![1usize, 0, 2]);
}

#[test]
fn new_snippet_gets_hyphenated_id() {
    let s = Snippet::new("d".to_string(), vec!["t".to_string()], "c".to_string());
    assert_eq!(s.id.len(), 36);
    for (i, ch) in s.id.chars().enumerate() {
        if i == 8 || i == 13 || i == 18 || i == 23 {
            assert_eq!(ch, '-');
        } else {
            assert!(ch.is_ascii_hexdigit() && !ch.is_ascii_uppercase());
        }
    }
    assert_eq!(s.description, "d");
    assert_eq!(s.code, "c");
    let t = Snippet::new("d".to_string(), Vec::new(), "c".to_string());
    assert_ne!(s.id, t.id);
}
