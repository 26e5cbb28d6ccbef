//! The list of entries of the earlier screen: the selection and the request
//! to copy the selected password.

use vstd::prelude::*;
use crate::cli::app::App;
use crate::cli::tui::context::Mode;
use crate::cli::tui::entries::{
    moved_down, moved_up, selected_password, selected_password_bytes,
};

verus! {

/// What the list of entries is asked to do.
#[derive(Debug, Clone, Copy, PartialEq, Eq, Structural)]
pub enum EntriesAction {
    MoveUp,
    MoveDown,
    CopyPassword,
}

/// The index of the selected entry.
pub struct EntriesStore {
    pub selected: usize,
}

impl EntriesStore {
    /// The first entry selected.
    pub fn new() -> (s: Self)
        ensures
            s.selected == 0,
    {
        Self { selected: 0 }
    }

    /// Moves the selection, or, in normal mode, gives the password of the
    /// selected entry to copy.
    pub fn dispatch(&mut self, action: EntriesAction, app: &App, mode: Mode) -> (copy: Option<
        Vec<u8>,
    >)
        ensures
            final(self).selected == (match action {
                EntriesAction::MoveUp => moved_up(old(self).selected),
                EntriesAction::MoveDown => moved_down(old(self).selected, app@.len()),
                EntriesAction::CopyPassword => old(self).selected,
            }),
            match copy {
                Some(p) => action == EntriesAction::CopyPassword && mode == Mode::Normal
                    && selected_password(app@, old(self).selected) == Some(p@),
                None => action != EntriesAction::CopyPassword || mode != Mode::Normal
                    || selected_password(app@, old(self).selected) is None,
            },
    {
        match action {
            EntriesAction::MoveUp => {
                if self.selected > 0 {
                    self.selected = self.selected - 1;
                }
                None
            },
            EntriesAction::MoveDown => {
                let len = app.entries().len();
                if len > 0 && self.selected < len - 1 {
                    self.selected = self.selected + 1;
                }
                None
            },
            EntriesAction::CopyPassword => {
                if mode == Mode::Normal {
                    selected_password_bytes(app, self.selected)
                } else {
                    None
                }
            },
        }
    }
}

} // verus!
