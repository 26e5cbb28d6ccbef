//! The state of the interface: the application, the list, the form, the
//! search text, the mode and the screen; and how each action changes it.

use vstd::prelude::*;
use vstd::string::StringExecFns;
use crate::cli::app::App;
use crate::cli::tui::entries::{
    moved_down, moved_up, selected_password, EntriesAction, EntriesStore,
};
use crate::cli::tui::entry::{next_form, EntryAction, EntryStore};
use crate::cli::tui::router::Screen;
use crate::text::{pop_char, push_char};

verus! {

/// Whether keys move through the list or type into the search.
#[derive(Debug, Clone, Copy, PartialEq, Eq, Structural)]
pub enum Mode {
    Normal,
    Search,
}

/// What the interface is asked to do.
#[derive(Debug, Clone, Copy, PartialEq, Eq, Structural)]
pub enum Action {
    Entries(EntriesAction),
    Entry(EntryAction),
    EntryScreen,
    Search,
    SearchQuery(char),
    DelSearchQuery,
    Quit,
    Nothing,
    Esc,
}

/// The search text after `action`, in `mode`, on `screen`.
pub open spec fn next_search(search: Seq<char>, mode: Mode, screen: Screen, action: Action) -> Seq<
    char,
> {
    match action {
        Action::Search => Seq::empty(),
        Action::SearchQuery(c) => if mode == Mode::Search {
            search.push(c)
        } else {
            search
        },
        Action::DelSearchQuery => if mode == Mode::Search && search.len() > 0 {
            search.drop_last()
        } else {
            search
        },
        Action::Esc => if screen == Screen::Entries {
            "/"@
        } else {
            search
        },
        _ => search,
    }
}

/// The mode after `action` on `screen`.
pub open spec fn next_mode(mode: Mode, screen: Screen, action: Action) -> Mode {
    match action {
        Action::Search => Mode::Search,
        Action::Esc => if screen == Screen::Entries {
            Mode::Normal
        } else {
            mode
        },
        _ => mode,
    }
}

/// The screen after `action`.
pub open spec fn next_screen(screen: Screen, action: Action) -> Screen {
    match action {
        Action::EntryScreen => Screen::AddEntry,
        Action::Esc => if screen == Screen::AddEntry {
            Screen::Entries
        } else {
            screen
        },
        _ => screen,
    }
}

/// The whole state of the interface.
pub struct Context {
    pub app: App,
    pub entries_store: EntriesStore,
    pub entry_store: EntryStore,
    pub search: String,
    pub should_quit: bool,
    pub mode: Mode,
    pub screen: Screen,
    pub action: Action,
}

impl Context {
    /// The list screen over `app`, in normal mode, with the search `/`, the
    /// first entry selected and an empty entry form.
    pub fn new(app: App) -> (c: Self)
        ensures
            c.app@ == app@,
            c.search@ == "/"@,
            !c.should_quit,
            c.mode == Mode::Normal,
            c.screen == Screen::Entries,
            c.action == Action::Nothing,
            c.entries_store.selected == 0,
            c.entry_store.active == 0,
            c.entry_store.form.username@ == Seq::<char>::empty(),
            c.entry_store.form.password@ == Seq::<char>::empty(),
            c.entry_store.form.url@ == Seq::<char>::empty(),
            c.entry_store.form.notes@ == Seq::<char>::empty(),
    {
        Self {
            app,
            search: String::from_str("/"),
            should_quit: false,
            mode: Mode::Normal,
            screen: Screen::Entries,
            action: Action::Nothing,
            entries_store: EntriesStore::new(),
            entry_store: EntryStore::new(),
        }
    }

    /// Applies `action`. Gives the password to copy where the list is asked
    /// to copy it in normal mode.
    pub fn dispatch(&mut self, action: Action) -> (copy: Option<Vec<u8>>)
        ensures
            final(self).app@ == old(self).app@,
            final(self).should_quit == (old(self).should_quit || action == Action::Quit),
            final(self).mode == next_mode(old(self).mode, old(self).screen, action),
            final(self).screen == next_screen(old(self).screen, action),
            final(self).search@ == next_search(
                old(self).search@,
                old(self).mode,
                old(self).screen,
                action,
            ),
            final(self).entries_store.selected == (match action {
                Action::Entries(EntriesAction::MoveUp) => moved_up(old(self).entries_store.selected),
                Action::Entries(EntriesAction::MoveDown) => moved_down(
                    old(self).entries_store.selected,
                    old(self).app@.len(),
                ),
                _ => old(self).entries_store.selected,
            }),
            final(self).entry_store.form_view() == (match action {
                Action::Entry(a) => next_form(old(self).entry_store.form_view(), a),
                _ => old(self).entry_store.form_view(),
            }),
            final(self).action == old(self).action,
            match copy {
                Some(p) => action == Action::Entries(EntriesAction::CopyPassword) && old(self).mode
                    == Mode::Normal && selected_password(
                    old(self).app@,
                    old(self).entries_store.selected,
                ) == Some(p@),
                None => action != Action::Entries(EntriesAction::CopyPassword) || old(self).mode
                    != Mode::Normal || selected_password(
                    old(self).app@,
                    old(self).entries_store.selected,
                ) is None,
            },
    {
        match action {
            Action::Entries(action) => {
                let (_message, copy) = self.entries_store.dispatch(action, &self.app, self.mode);
                copy
            },
            Action::Entry(action) => {
                self.entry_store.dispatch(action, &self.app);
                None
            },
            Action::EntryScreen => {
                self.screen = Screen::AddEntry;
                None
            },
            Action::Quit => {
                self.should_quit = true;
                None
            },
            Action::Esc => {
                if self.screen == Screen::Entries {
                    self.mode = Mode::Normal;
                    self.search = String::from_str("/");
                }
                if self.screen == Screen::AddEntry {
                    self.screen = Screen::Entries;
                }
                None
            },
            Action::Search => {
                self.mode = Mode::Search;
                self.search = String::new();
                None
            },
            Action::SearchQuery(c) => {
                if self.mode == Mode::Search {
                    push_char(&mut self.search, c);
                }
                None
            },
            Action::DelSearchQuery => {
                if self.mode == Mode::Search {
                    pop_char(&mut self.search);
                }
                None
            },
            Action::Nothing => None,
        }
    }
}

} // verus!
