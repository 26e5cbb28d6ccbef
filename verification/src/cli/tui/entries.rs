//! The list of entries: which one is selected, and the request to copy its
//! password.

use vstd::prelude::*;
use vstd::slice::slice_to_vec;
use crate::cli::app::App;
use crate::cli::tui::context::Mode;
use crate::encryption::file::entry::field_value;
use crate::encryption::file::record::RecordType;
use crate::encryption::file::vault::EntryView;

verus! {

/// What the list of entries is asked to do.
#[derive(Debug, Clone, Copy, PartialEq, Eq, Structural)]
pub enum EntriesAction {
    MoveUp,
    MoveDown,
    CopyPassword,
}

/// The password of the selected entry, where an entry is selected and has a
/// password record.
pub open spec fn selected_password(entries: Seq<EntryView>, selected: usize) -> Option<Seq<u8>> {
    if selected < entries.len() {
        field_value(entries[selected as int], RecordType::Password)
    } else {
        None
    }
}

/// The selection after moving up: one higher, unless it is the first.
pub open spec fn moved_up(selected: usize) -> usize {
    if selected > 0 {
        (selected - 1) as usize
    } else {
        selected
    }
}

/// The selection after moving down: one lower, unless that passes the last
/// of `len` entries.
pub open spec fn moved_down(selected: usize, len: nat) -> usize {
    if selected + 1 < len {
        (selected + 1) as usize
    } else {
        selected
    }
}

/// Moving the selection keeps it on an entry: from an entry of a list of
/// `len`, moving up or down lands on an entry of that list.
pub proof fn lemma_selection_stays_in_list(selected: usize, len: nat)
    requires
        selected < len,
    ensures
        moved_up(selected) < len,
        moved_down(selected, len) < len,
{
}

/// The password to copy for the selected entry (see `selected_password`).
pub fn selected_password_bytes(app: &App, selected: usize) -> (p: Option<Vec<u8>>)
    ensures
        match p {
            Some(v) => selected_password(app@, selected) == Some(v@),
            None => selected_password(app@, selected) is None,
        },
{
    let entries = app.entries();
    if selected < entries.len() {
        assert(entries@[selected as int]@ == app@[selected as int]);
        match entries[selected].password() {
            Some(p) => Some(slice_to_vec(p)),
            None => None,
        }
    } else {
        None
    }
}

/// The index of the selected entry.
pub struct EntriesStore {
    pub selected: usize,
}

impl EntriesStore {
    /// The first entry selected.
    pub fn new() -> (s: Self)
        ensures
            s.selected == 0,
    {
        Self { selected: 0 }
    }

    /// Moves the selection, or asks to copy the selected entry's password.
    /// Gives the message to show and the password to copy: copying is asked
    /// for only in normal mode, while the message is given whatever the mode.
    pub fn dispatch(&mut self, action: EntriesAction, app: &App, mode: Mode) -> (res: (
        Option<String>,
        Option<Vec<u8>>,
    ))
        ensures
            final(self).selected == (match action {
                EntriesAction::MoveUp => moved_up(old(self).selected),
                EntriesAction::MoveDown => moved_down(old(self).selected, app@.len()),
                EntriesAction::CopyPassword => old(self).selected,
            }),
            match res.0 {
                Some(m) => action == EntriesAction::CopyPassword && m@ == "Password copied!"@,
                None => action != EntriesAction::CopyPassword,
            },
            match res.1 {
                Some(p) => action == EntriesAction::CopyPassword && mode == Mode::Normal
                    && selected_password(app@, old(self).selected) == Some(p@),
                None => action != EntriesAction::CopyPassword || mode != Mode::Normal
                    || selected_password(app@, old(self).selected) is None,
            },
    {
        match action {
            EntriesAction::MoveUp => {
                if self.selected > 0 {
                    self.selected = self.selected - 1;
                }
                (None, None)
            },
            EntriesAction::MoveDown => {
                let len = app.entries().len();
                if len > 0 && self.selected < len - 1 {
                    self.selected = self.selected + 1;
                }
                (None, None)
            },
            EntriesAction::CopyPassword => {
                let copy = if mode == Mode::Normal {
                    selected_password_bytes(app, self.selected)
                } else {
                    None
                };
                (Some(String::from_str("Password copied!")), copy)
            },
        }
    }
}

} // verus!
