//! Which screen is shown, and which action each key stands for on it.

use vstd::prelude::*;
use crate::cli::tui::context::Action;
use crate::cli::tui::entries::EntriesAction;
use crate::cli::tui::entry::EntryAction;

verus! {

/// The screens of the interface.
#[derive(Debug, Clone, Copy, PartialEq, Eq, Structural)]
pub enum Screen {
    Entries,
    AddEntry,
}

/// A key that was pressed, as far as the screens tell keys apart.
#[derive(Debug, Clone, Copy, PartialEq, Eq, Structural)]
pub enum Key {
    Char(char),
    Esc,
    Up,
    Down,
    Backspace,
    Enter,
    Other,
}

/// The action that a key stands for on the entries screen, if any.
pub open spec fn entries_key_action(key: Key) -> Option<Action> {
    match key {
        Key::Char('q') => Some(Action::Quit),
        Key::Esc => Some(Action::Esc),
        Key::Up => Some(Action::Entries(EntriesAction::MoveUp)),
        Key::Down => Some(Action::Entries(EntriesAction::MoveDown)),
        Key::Char('a') => Some(Action::EntryScreen),
        Key::Char('y') => Some(Action::Entries(EntriesAction::CopyPassword)),
        Key::Char('/') => Some(Action::Search),
        Key::Backspace => Some(Action::DelSearchQuery),
        Key::Char(c) => Some(Action::SearchQuery(c)),
        _ => None,
    }
}

/// The action that a key stands for on the form of a new entry, if any.
pub open spec fn entry_key_action(key: Key) -> Option<Action> {
    match key {
        Key::Enter => Some(Action::Entry(EntryAction::GeneratePassword)),
        Key::Char('q') => Some(Action::Quit),
        Key::Esc => Some(Action::Esc),
        Key::Backspace => Some(Action::Entry(EntryAction::Backspace)),
        Key::Up => Some(Action::Entry(EntryAction::Up)),
        Key::Down => Some(Action::Entry(EntryAction::Down)),
        Key::Char(c) => Some(Action::Entry(EntryAction::Input(c))),
        _ => None,
    }
}

/// The action that a key stands for on the entries screen, if any.
pub fn read_entites(key: Key) -> (a: Option<Action>)
    ensures
        a == entries_key_action(key),
{
    match key {
        Key::Char('q') => Some(Action::Quit),
        Key::Esc => Some(Action::Esc),
        Key::Up => Some(Action::Entries(EntriesAction::MoveUp)),
        Key::Down => Some(Action::Entries(EntriesAction::MoveDown)),
        Key::Char('a') => Some(Action::EntryScreen),
        Key::Char('y') => Some(Action::Entries(EntriesAction::CopyPassword)),
        Key::Char('/') => Some(Action::Search),
        Key::Backspace => Some(Action::DelSearchQuery),
        Key::Char(c) => Some(Action::SearchQuery(c)),
        _ => None,
    }
}

/// The action that a key stands for on the form of a new entry, if any.
pub fn read_entry(key: Key) -> (a: Option<Action>)
    ensures
        a == entry_key_action(key),
{
    match key {
        Key::Enter => Some(Action::Entry(EntryAction::GeneratePassword)),
        Key::Char('q') => Some(Action::Quit),
        Key::Esc => Some(Action::Esc),
        Key::Backspace => Some(Action::Entry(EntryAction::Backspace)),
        Key::Up => Some(Action::Entry(EntryAction::Up)),
        Key::Down => Some(Action::Entry(EntryAction::Down)),
        Key::Char(c) => Some(Action::Entry(EntryAction::Input(c))),
        _ => None,
    }
}

/// The action that a key stands for on `screen`, if any.
pub fn route_key(screen: Screen, key: Key) -> (a: Option<Action>)
    ensures
        a == (match screen {
            Screen::Entries => entries_key_action(key),
            Screen::AddEntry => entry_key_action(key),
        }),
{
    match screen {
        Screen::Entries => read_entites(key),
        Screen::AddEntry => read_entry(key),
    }
}

} // verus!
