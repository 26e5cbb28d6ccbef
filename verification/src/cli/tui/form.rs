//! The fields of the entry form: texts, toggles and choices.

use vstd::prelude::*;
use vstd::string::StringExecFns;

verus! {

/// How the password of a new entry is made.
#[derive(Debug, Clone, Copy, PartialEq, Eq, Structural)]
pub enum Options {
    GeneratePassword,
    EnterPassword,
}

/// A field of the form.
#[derive(Debug, Clone)]
pub enum FormField {
    Text { label: String, value: String },
    Toggle { label: String, value: bool },
    Select { label: String, options: Vec<Options>, selected: usize },
}

/// Whether `f` is an empty text field labelled `label`.
pub open spec fn is_empty_text(f: FormField, label: Seq<char>) -> bool {
    f matches FormField::Text { label: l, value: v } && l@ == label && v@.len() == 0
}

/// The fields of a new entry: title, username, a password choice (generate
/// first, then enter), URL and notes, all empty.
pub fn init_form_fields() -> (fields: Vec<FormField>)
    ensures
        fields@.len() == 5,
        is_empty_text(fields@[0], "Title"@),
        is_empty_text(fields@[1], "Username"@),
        fields@[2] matches FormField::Select { label: l, options: o, selected: s } && l@
            == "Password"@ && o@ == seq![Options::GeneratePassword, Options::EnterPassword] && s
            == 0,
        is_empty_text(fields@[3], "URL"@),
        is_empty_text(fields@[4], "Notes"@),
{
    let mut fields: Vec<FormField> = Vec::new();
    fields.push(FormField::Text { label: String::from_str("Title"), value: String::new() });
    fields.push(FormField::Text { label: String::from_str("Username"), value: String::new() });
    let mut options: Vec<Options> = Vec::new();
    options.push(Options::GeneratePassword);
    options.push(Options::EnterPassword);
    assert(options@ =~= seq![Options::GeneratePassword, Options::EnterPassword]);
    fields.push(FormField::Select { label: String::from_str("Password"), options, selected: 0 });
    fields.push(FormField::Text { label: String::from_str("URL"), value: String::new() });
    fields.push(FormField::Text { label: String::from_str("Notes"), value: String::new() });
    fields
}

} // verus!
