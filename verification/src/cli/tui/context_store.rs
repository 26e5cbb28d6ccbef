//! The state of the earlier list screen: the application, the selection, the
//! search text, a notification, the mode and the screen.

use vstd::prelude::*;
use vstd::string::StringExecFns;
use crate::cli::app::App;
use crate::cli::tui::context;
use crate::cli::tui::entries::{moved_down, moved_up, selected_password};
use crate::cli::tui::entries_state::{EntriesAction, EntriesStore};
use crate::cli::tui::notification::Notification;

verus! {

/// Whether keys move through the list or type into the search.
#[derive(Debug, Clone, Copy, PartialEq, Eq, Structural)]
pub enum Mode {
    Normal,
    Search,
}

/// The screens of the interface.
#[derive(Debug, Clone, Copy, PartialEq, Eq, Structural)]
pub enum Screen {
    Entries,
    AddEntry,
}

/// What the list screen is asked to do.
#[derive(Debug, Clone, Copy, PartialEq, Eq, Structural)]
pub enum Action {
    Entries(EntriesAction),
    Quit,
    Nothing,
    Esc,
}

/// The mode of the list as `context::Mode` names it.
pub open spec fn list_mode(mode: Mode) -> context::Mode {
    match mode {
        Mode::Normal => context::Mode::Normal,
        Mode::Search => context::Mode::Search,
    }
}

/// The state of the list screen.
pub struct Context {
    pub app: App,
    pub entry_store: EntriesStore,
    pub search: String,
    pub should_quit: bool,
    pub notification: Option<Notification>,
    pub mode: Mode,
    pub screen: Screen,
    pub action: Action,
}

impl Context {
    /// The list screen over `app`, in normal mode, with the search `/` and no
    /// notification.
    pub fn new(app: App) -> (c: Self)
        ensures
            c.app@ == app@,
            c.search@ == "/"@,
            !c.should_quit,
            c.notification is None,
            c.mode == Mode::Normal,
            c.screen == Screen::Entries,
            c.action == Action::Nothing,
            c.entry_store.selected == 0,
    {
        Self {
            app,
            search: String::from_str("/"),
            should_quit: false,
            notification: None,
            mode: Mode::Normal,
            screen: Screen::Entries,
            action: Action::Nothing,
            entry_store: EntriesStore::new(),
        }
    }

    /// Shows `message` for half a second.
    pub fn notify(&mut self, message: &str)
        ensures
            final(self).notification matches Some(n) && n.message_view() == message@
                && n.duration_millis_view() == 500,
            final(self).app@ == old(self).app@,
            final(self).search@ == old(self).search@,
            final(self).should_quit == old(self).should_quit,
            final(self).mode == old(self).mode,
            final(self).screen == old(self).screen,
            final(self).entry_store == old(self).entry_store,
            final(self).action == old(self).action,
    {
        self.notification = Some(Notification::new(message, 500));
    }

    /// The message being shown, once the notification has been shown for
    /// `elapsed_nanos` nanoseconds: none, with the notification dropped,
    /// where its time is up.
    pub fn notification_after(&mut self, elapsed_nanos: u128) -> (m: Option<&str>)
        ensures
            match old(self).notification {
                None => m is None && final(self).notification is None,
                Some(n) => if n.is_expired_at(elapsed_nanos as int) {
                    m is None && final(self).notification is None
                } else {
                    m matches Some(t) && t@ == n.message_view() && final(self).notification
                        == old(self).notification
                },
            },
            final(self).app@ == old(self).app@,
            final(self).search@ == old(self).search@,
            final(self).should_quit == old(self).should_quit,
            final(self).mode == old(self).mode,
            final(self).screen == old(self).screen,
            final(self).entry_store == old(self).entry_store,
    {
        let expired = match &self.notification {
            Some(n) => n.expired_after(elapsed_nanos),
            None => false,
        };
        if expired {
            self.notification = None;
            return None;
        }
        match &self.notification {
            Some(n) => Some(n.get_message()),
            None => None,
        }
    }

    /// The message being shown, if any; a message whose time is up by the
    /// monotonic clock is dropped instead (see `notification_after`).
    pub fn notification(&mut self) -> (m: Option<&str>)
        ensures
            match old(self).notification {
                None => m is None && final(self).notification is None,
                Some(n) => exists|elapsed_nanos: u128|
                    if #[trigger] n.is_expired_at(elapsed_nanos as int) {
                        m is None && final(self).notification is None
                    } else {
                        m matches Some(t) && t@ == n.message_view() && final(self).notification
                            == old(self).notification
                    },
            },
            final(self).app@ == old(self).app@,
            final(self).search@ == old(self).search@,
            final(self).should_quit == old(self).should_quit,
            final(self).mode == old(self).mode,
            final(self).screen == old(self).screen,
            final(self).entry_store == old(self).entry_store,
    {
        let elapsed_nanos = match &self.notification {
            Some(n) => n.elapsed_nanos(),
            None => 0,
        };
        self.notification_after(elapsed_nanos)
    }

    /// Applies `action`. Gives the password to copy where the list is asked
    /// to copy it in normal mode.
    pub fn update(&mut self, action: Action) -> (copy: Option<Vec<u8>>)
        ensures
            final(self).app@ == old(self).app@,
            final(self).search@ == old(self).search@,
            final(self).should_quit == (old(self).should_quit || action == Action::Quit),
            final(self).mode == (if action == Action::Esc {
                Mode::Normal
            } else {
                old(self).mode
            }),
            final(self).screen == old(self).screen,
            final(self).notification == old(self).notification,
            final(self).action == old(self).action,
            final(self).entry_store.selected == (match action {
                Action::Entries(EntriesAction::MoveUp) => moved_up(old(self).entry_store.selected),
                Action::Entries(EntriesAction::MoveDown) => moved_down(
                    old(self).entry_store.selected,
                    old(self).app@.len(),
                ),
                _ => old(self).entry_store.selected,
            }),
            match copy {
                Some(p) => action == Action::Entries(EntriesAction::CopyPassword) && old(self).mode
                    == Mode::Normal && selected_password(
                    old(self).app@,
                    old(self).entry_store.selected,
                ) == Some(p@),
                None => action != Action::Entries(EntriesAction::CopyPassword) || old(self).mode
                    != Mode::Normal || selected_password(
                    old(self).app@,
                    old(self).entry_store.selected,
                ) is None,
            },
    {
        match action {
            Action::Quit => {
                self.should_quit = true;
                None
            },
            Action::Entries(action) => {
                let mode = match self.mode {
                    Mode::Normal => context::Mode::Normal,
                    Mode::Search => context::Mode::Search,
                };
                self.entry_store.dispatch(action, &self.app, mode)
            },
            Action::Esc => {
                self.mode = Mode::Normal;
                None
            },
            Action::Nothing => None,
        }
    }
}

} // verus!
