//! The form of a new entry: which field is active and what each holds.
//!
//! The active field counts from 0: username, password, the generate button,
//! URL, notes, then the save (5) and cancel (6) buttons.

use vstd::prelude::*;
use vstd::string::StringExecFns;
use crate::cli::app::App;
use crate::text::{pop_char, push_char};

verus! {

/// The kinds of entry that the form may make.
#[derive(Debug, Clone, Copy, PartialEq, Eq, Structural)]
pub enum EntryType {
    Normal,
    Totp,
}

/// The fields of the form.
#[derive(Debug, Clone, Copy, PartialEq, Eq, Structural)]
pub enum ActiveField {
    Username,
    Password,
    GeneratePassword,
    Url,
    Notes,
}

/// What the form is asked to do.
#[derive(Debug, Clone, Copy, PartialEq, Eq, Structural)]
pub enum EntryAction {
    Up,
    Down,
    Input(char),
    Backspace,
    GeneratePassword,
}

/// The texts of the form.
pub struct EntryForm {
    pub username: String,
    pub password: String,
    pub url: String,
    pub notes: String,
}

impl EntryForm {
    /// A form with every field empty.
    pub fn new() -> (f: Self)
        ensures
            f.username@ == Seq::<char>::empty(),
            f.password@ == Seq::<char>::empty(),
            f.url@ == Seq::<char>::empty(),
            f.notes@ == Seq::<char>::empty(),
    {
        Self {
            username: String::new(),
            password: String::new(),
            url: String::new(),
            notes: String::new(),
        }
    }
}

/// The password that the generate button gives.
pub open spec fn generated_password() -> Seq<char> {
    "GeneratedPassword123!"@
}

/// The password that the generate button gives.
pub fn generate_password() -> (p: String)
    ensures
        p@ == generated_password(),
{
    String::from_str("GeneratedPassword123!")
}

/// A text after `Backspace`: without its last character, if it has one.
pub open spec fn backspaced(s: Seq<char>) -> Seq<char> {
    if s.len() > 0 {
        s.drop_last()
    } else {
        s
    }
}

/// A field's text after `action`, for the field at position `field` while
/// `active` is the active one (actions other than input and backspace leave
/// the text as it is).
pub open spec fn edited(s: Seq<char>, field: usize, active: usize, action: EntryAction) -> Seq<
    char,
> {
    if field != active {
        s
    } else {
        match action {
            EntryAction::Input(c) => s.push(c),
            EntryAction::Backspace => backspaced(s),
            _ => s,
        }
    }
}

/// The form's active field and texts, as values.
pub struct FormView {
    pub active: usize,
    pub username: Seq<char>,
    pub password: Seq<char>,
    pub url: Seq<char>,
    pub notes: Seq<char>,
}

/// The form after `action` (see `EntryStore::dispatch`).
pub open spec fn next_form(f: FormView, action: EntryAction) -> FormView {
    FormView {
        active: match action {
            EntryAction::Up => if f.active > 0 {
                (f.active - 1) as usize
            } else {
                f.active
            },
            EntryAction::Down => if f.active < 6 {
                (f.active + 1) as usize
            } else {
                f.active
            },
            _ => f.active,
        },
        username: edited(f.username, 0, f.active, action),
        password: if action == EntryAction::GeneratePassword && (f.active == 2 || f.active == 5
            || f.active == 6) {
            generated_password()
        } else {
            edited(f.password, 1, f.active, action)
        },
        url: edited(f.url, 3, f.active, action),
        notes: edited(f.notes, 4, f.active, action),
    }
}

/// The form and its active field.
pub struct EntryStore {
    pub form: EntryForm,
    pub active: usize,
}

impl EntryStore {
    /// The active field and texts of this form.
    pub open spec fn form_view(&self) -> FormView {
        FormView {
            active: self.active,
            username: self.form.username@,
            password: self.form.password@,
            url: self.form.url@,
            notes: self.form.notes@,
        }
    }

    /// An empty form with the username active.
    pub fn new() -> (s: Self)
        ensures
            s.active == 0,
            s.form.username@ == Seq::<char>::empty(),
            s.form.password@ == Seq::<char>::empty(),
            s.form.url@ == Seq::<char>::empty(),
            s.form.notes@ == Seq::<char>::empty(),
    {
        Self { form: EntryForm::new(), active: 0 }
    }

    /// Moves between the fields (0 to 6), types into or deletes from the
    /// active text field, or, on the generate, save or cancel button, puts
    /// the generated password into the password field.
    pub fn dispatch(&mut self, action: EntryAction, _app: &App)
        ensures
            final(self).form_view() == next_form(old(self).form_view(), action),
    {
        match action {
            EntryAction::Up => {
                if self.active > 0 {
                    self.active = self.active - 1;
                }
            },
            EntryAction::Down => {
                if self.active < 6 {
                    self.active = self.active + 1;
                }
            },
            EntryAction::Input(c) => {
                if self.active == 0 {
                    push_char(&mut self.form.username, c);
                } else if self.active == 1 {
                    push_char(&mut self.form.password, c);
                } else if self.active == 3 {
                    push_char(&mut self.form.url, c);
                } else if self.active == 4 {
                    push_char(&mut self.form.notes, c);
                }
            },
            EntryAction::Backspace => {
                if self.active == 0 {
                    pop_char(&mut self.form.username);
                } else if self.active == 1 {
                    pop_char(&mut self.form.password);
                } else if self.active == 3 {
                    pop_char(&mut self.form.url);
                } else if self.active == 4 {
                    pop_char(&mut self.form.notes);
                }
            },
            EntryAction::GeneratePassword => {
                if self.active == 2 {
                    self.form.password = generate_password();
                }
                if self.active == 5 {
                    self.form.password = generate_password();
                }
                if self.active == 6 {
                    self.form.password = generate_password();
                }
            },
        }
    }
}

} // verus!
