//! Mapping of single key presses to actions, per mode.

use crate::search::{Action, Direction, Mode};
use vstd::prelude::*;

verus! {

/// A key press, as far as the search session tells keys apart.
#[derive(Clone, Copy, Debug, PartialEq, Eq, Structural)]
pub enum Key {
    Char(char),
    Backspace,
    Enter,
    Esc,
    Up,
    Down,
    PageUp,
    PageDown,
    Other,
}

/// Lines that one page key scrolls the preview by.
pub const PAGE_LINES: i32 = 5;

/// The action that `key` stands for in `mode`.
pub open spec fn action_for(key: Key, mode: Mode) -> Action {
    match mode {
        Mode::Normal => match key {
            Key::Char('q') => Action::Quit,
            Key::Char('p') => Action::TogglePreview,
            Key::Char('d') => Action::RequestDelete,
            Key::Char(c) => Action::TypeChar(c),
            Key::Enter => Action::Select,
            Key::Backspace => Action::Backspace,
            Key::Up => Action::MoveSelection(Direction::Previous),
            Key::Down => Action::MoveSelection(Direction::Next),
            Key::PageUp => Action::ScrollPreview((-PAGE_LINES) as i32),
            Key::PageDown => Action::ScrollPreview(PAGE_LINES),
            _ => Action::NoOp,
        },
        Mode::ConfirmDelete => match key {
            Key::Char('y') => Action::Confirm,
            Key::Char('n') => Action::Cancel,
            Key::Esc => Action::Cancel,
            _ => Action::NoOp,
        },
    }
}

/// The action that `key` stands for in `mode`.
pub fn dispatch(key: Key, mode: Mode) -> (r: Action)
    ensures
        r == action_for(key, mode),
{
    match mode {
        Mode::Normal => match key {
            Key::Char('q') => Action::Quit,
            Key::Char('p') => Action::TogglePreview,
            Key::Char('d') => Action::RequestDelete,
            Key::Char(c) => Action::TypeChar(c),
            Key::Enter => Action::Select,
            Key::Backspace => Action::Backspace,
            Key::Up => Action::MoveSelection(Direction::Previous),
            Key::Down => Action::MoveSelection(Direction::Next),
            Key::PageUp => Action::ScrollPreview(-PAGE_LINES),
            Key::PageDown => Action::ScrollPreview(PAGE_LINES),
            _ => Action::NoOp,
        },
        Mode::ConfirmDelete => match key {
            Key::Char('y') => Action::Confirm,
            Key::Char('n') => Action::Cancel,
            Key::Esc => Action::Cancel,
            _ => Action::NoOp,
        },
    }
}

} // verus!
