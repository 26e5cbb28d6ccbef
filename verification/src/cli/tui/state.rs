//! The state of the first interface: the application, the mode, the search,
//! the selection, the notification and the screen; and how each action
//! changes it.

use vstd::prelude::*;
use vstd::string::StringExecFns;
use crate::cli::app::App;
use crate::cli::tui::entries::{moved_down, moved_up, selected_password, selected_password_bytes};
use crate::cli::tui::notification::Notification;
use crate::text::{pop_char, push_char};

verus! {

/// What the interface is asked to do.
#[derive(Debug, Clone, Copy, PartialEq, Eq, Structural)]
pub enum Action {
    Quit,
    MoveUp,
    MoveDown,
    Search,
    AddQuery(char),
    DeleteQuery,
    CopyPassword,
    EntryRegistery,
    Esc,
    Nothing,
}

/// Whether keys move through the list or type into the search.
#[derive(Debug, Clone, Copy, PartialEq, Eq, Structural)]
pub enum Mode {
    Normal,
    Search,
}

/// The screens of the interface.
#[derive(Debug, Clone, Copy, PartialEq, Eq, Structural)]
pub enum Screen {
    Main,
    EntryRegistery,
}

/// The mode after `action` on `screen`.
pub open spec fn next_mode(mode: Mode, screen: Screen, action: Action) -> Mode {
    match action {
        Action::EntryRegistery => if screen != Screen::Main && mode == Mode::Normal {
            Mode::Search
        } else {
            mode
        },
        Action::Search => Mode::Search,
        Action::Esc => Mode::Normal,
        _ => mode,
    }
}

/// The screen after `action`.
pub open spec fn next_screen(screen: Screen, action: Action) -> Screen {
    match action {
        Action::EntryRegistery => if screen == Screen::Main {
            Screen::EntryRegistery
        } else {
            screen
        },
        Action::Esc => Screen::Main,
        _ => screen,
    }
}

/// The search text after `action` in `mode`.
pub open spec fn next_search(search: Seq<char>, mode: Mode, action: Action) -> Seq<char> {
    match action {
        Action::Search => Seq::empty(),
        Action::AddQuery(c) => if mode == Mode::Search {
            search.push(c)
        } else {
            search
        },
        Action::DeleteQuery => if mode == Mode::Search && search.len() > 0 {
            search.drop_last()
        } else {
            search
        },
        Action::Esc => "/"@,
        _ => search,
    }
}

/// The state of the interface.
pub struct State {
    pub app: App,
    pub mode: Mode,
    pub search: String,
    pub selected: usize,
    pub should_quit: bool,
    pub notification: Option<Notification>,
    pub current_screen: Screen,
}

impl State {
    /// The main screen over `app`, in normal mode, with the search `/`, the
    /// first entry selected and no notification.
    pub fn new(app: App) -> (s: Self)
        ensures
            s.app@ == app@,
            s.mode == Mode::Normal,
            s.search@ == "/"@,
            s.selected == 0,
            !s.should_quit,
            s.notification is None,
            s.current_screen == Screen::Main,
    {
        Self {
            should_quit: false,
            app,
            mode: Mode::Normal,
            search: String::from_str("/"),
            selected: 0,
            current_screen: Screen::Main,
            notification: None,
        }
    }

    /// Shows `message` for half a second.
    pub fn notify(&mut self, message: &str)
        ensures
            final(self).notification matches Some(n) && n.message_view() == message@
                && n.duration_millis_view() == 500,
            final(self).app@ == old(self).app@,
            final(self).mode == old(self).mode,
            final(self).search@ == old(self).search@,
            final(self).selected == old(self).selected,
            final(self).should_quit == old(self).should_quit,
            final(self).current_screen == old(self).current_screen,
    {
        self.notification = Some(Notification::new(message, 500));
    }

    /// The message being shown, once the notification has been shown for
    /// `elapsed_nanos` nanoseconds: none, with the notification dropped,
    /// where its time is up.
    pub fn notification_after(&mut self, elapsed_nanos: u128) -> (m: Option<&str>)
        ensures
            match old(self).notification {
                None => m is None && final(self).notification is None,
                Some(n) => if n.is_expired_at(elapsed_nanos as int) {
                    m is None && final(self).notification is None
                } else {
                    m matches Some(t) && t@ == n.message_view() && final(self).notification
                        == old(self).notification
                },
            },
            final(self).app@ == old(self).app@,
            final(self).mode == old(self).mode,
            final(self).search@ == old(self).search@,
            final(self).selected == old(self).selected,
            final(self).should_quit == old(self).should_quit,
            final(self).current_screen == old(self).current_screen,
    {
        let expired = match &self.notification {
            Some(n) => n.expired_after(elapsed_nanos),
            None => false,
        };
        if expired {
            self.notification = None;
            return None;
        }
        match &self.notification {
            Some(n) => Some(n.get_message()),
            None => None,
        }
    }

    /// The message being shown, if any; a message whose time is up by the
    /// monotonic clock is dropped instead (see `notification_after`).
    pub fn notification(&mut self) -> (m: Option<&str>)
        ensures
            match old(self).notification {
                None => m is None && final(self).notification is None,
                Some(n) => exists|elapsed_nanos: u128|
                    if #[trigger] n.is_expired_at(elapsed_nanos as int) {
                        m is None && final(self).notification is None
                    } else {
                        m matches Some(t) && t@ == n.message_view() && final(self).notification
                            == old(self).notification
                    },
            },
            final(self).app@ == old(self).app@,
            final(self).mode == old(self).mode,
            final(self).search@ == old(self).search@,
            final(self).selected == old(self).selected,
            final(self).should_quit == old(self).should_quit,
            final(self).current_screen == old(self).current_screen,
    {
        let elapsed_nanos = match &self.notification {
            Some(n) => n.elapsed_nanos(),
            None => 0,
        };
        self.notification_after(elapsed_nanos)
    }

    /// Applies `action`. Gives the password to copy where copying is asked
    /// for in normal mode and the selected entry has a password; once it has
    /// been handed to the clipboard, `notify` reports it.
    pub fn update(&mut self, action: Action) -> (copy: Option<Vec<u8>>)
        ensures
            final(self).app@ == old(self).app@,
            final(self).notification == old(self).notification,
            final(self).should_quit == (old(self).should_quit || action == Action::Quit),
            final(self).mode == next_mode(old(self).mode, old(self).current_screen, action),
            final(self).current_screen == next_screen(old(self).current_screen, action),
            final(self).search@ == next_search(old(self).search@, old(self).mode, action),
            final(self).selected == (match action {
                Action::MoveUp => moved_up(old(self).selected),
                Action::MoveDown => moved_down(old(self).selected, old(self).app@.len()),
                _ => old(self).selected,
            }),
            match copy {
                Some(p) => action == Action::CopyPassword && old(self).mode == Mode::Normal
                    && selected_password(old(self).app@, old(self).selected) == Some(p@),
                None => action != Action::CopyPassword || old(self).mode != Mode::Normal
                    || selected_password(old(self).app@, old(self).selected) is None,
            },
    {
        match action {
            Action::EntryRegistery => {
                if self.current_screen == Screen::Main {
                    self.current_screen = Screen::EntryRegistery;
                } else {
                    if self.mode == Mode::Normal {
                        self.mode = Mode::Search;
                    }
                }
                None
            },
            Action::Quit => {
                self.should_quit = true;
                None
            },
            Action::MoveUp => {
                if self.selected > 0 {
                    self.selected = self.selected - 1;
                }
                None
            },
            Action::MoveDown => {
                let len = self.app.entries().len();
                if len > 0 && self.selected < len - 1 {
                    self.selected = self.selected + 1;
                }
                None
            },
            Action::CopyPassword => {
                if self.mode == Mode::Normal {
                    selected_password_bytes(&self.app, self.selected)
                } else {
                    None
                }
            },
            Action::Search => {
                self.mode = Mode::Search;
                self.search = String::new();
                None
            },
            Action::AddQuery(c) => {
                if self.mode == Mode::Search {
                    push_char(&mut self.search, c);
                }
                None
            },
            Action::DeleteQuery => {
                if self.mode == Mode::Search {
                    pop_char(&mut self.search);
                }
                None
            },
            Action::Esc => {
                self.mode = Mode::Normal;
                self.search = String::from_str("/");
                if self.current_screen == Screen::EntryRegistery {
                    self.current_screen = Screen::Main;
                }
                None
            },
            Action::Nothing => None,
        }
    }
}

} // verus!
