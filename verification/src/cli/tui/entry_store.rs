//! The login form that an entry is entered through.

use vstd::prelude::*;
use crate::cli::tui::form::FormField;

verus! {

/// The kinds of entry.
#[derive(Debug, Clone, Copy, PartialEq, Eq, Structural)]
pub enum EntryType {
    Normal,
    Totp,
    SSH,
}

/// The texts of a login entry, its kind and the active field.
#[derive(Debug)]
pub struct LoginForm {
    pub title: String,
    pub username: String,
    pub password: String,
    pub url: String,
    pub notes: String,
    pub entry_type: EntryType,
    pub active: FormField,
}

/// What the login form is asked to do.
#[derive(Debug, Clone, Copy, PartialEq, Eq, Structural)]
pub enum EntryAction {
    NextField,
    PrevField,
}

} // verus!
