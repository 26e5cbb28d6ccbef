//! The keys of the earlier list screen.

use vstd::prelude::*;
use crate::cli::tui::context_store::Action;
use crate::cli::tui::entries_state::EntriesAction;
use crate::cli::tui::router::Key;

verus! {

/// The action that a key stands for on the earlier list screen, if any.
pub open spec fn list_key_action(key: Key) -> Option<Action> {
    match key {
        Key::Char('q') => Some(Action::Quit),
        Key::Up | Key::Char('k') => Some(Action::Entries(EntriesAction::MoveUp)),
        Key::Down | Key::Char('j') => Some(Action::Entries(EntriesAction::MoveDown)),
        Key::Char('y') => Some(Action::Entries(EntriesAction::MoveDown)),
        Key::Esc => Some(Action::Esc),
        _ => None,
    }
}

/// The action that a key stands for on the earlier list screen; `None` for
/// a key that is skipped.
pub fn action_for_key(key: Key) -> (a: Option<Action>)
    ensures
        a == list_key_action(key),
{
    match key {
        Key::Char('q') => Some(Action::Quit),
        Key::Up | Key::Char('k') => Some(Action::Entries(EntriesAction::MoveUp)),
        Key::Down | Key::Char('j') => Some(Action::Entries(EntriesAction::MoveDown)),
        Key::Char('y') => Some(Action::Entries(EntriesAction::MoveDown)),
        Key::Esc => Some(Action::Esc),
        _ => None,
    }
}

} // verus!
