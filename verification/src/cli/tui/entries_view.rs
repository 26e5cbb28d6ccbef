//! What the list screen writes: each entry's title in the list, and the
//! labelled fields of the selected entry, its password masked.

use vstd::prelude::*;
use vstd::utf8::{decode_utf8, encode_utf8, valid_utf8};
use crate::encryption::file::entry::{field_value, is_first_of_type, Entry};
use crate::encryption::file::record::RecordType;
use crate::encryption::file::vault::EntryView;
use crate::text::{field_text, field_to_string, utf8_str};

verus! {

/// The text that stands for the password in the details.
pub open spec fn password_mask() -> Seq<char> {
    "********"@
}

/// An entry's line in the list: its title where it has one that is UTF-8,
/// else `<untitled>`.
pub open spec fn list_title_text(entry: EntryView) -> Seq<char> {
    match field_value(entry, RecordType::Title) {
        Some(b) => if valid_utf8(b) {
            decode_utf8(b)
        } else {
            "<untitled>"@
        },
        None => "<untitled>"@,
    }
}

/// The lines of an entry's details, each a label and a text: the title, the
/// username, the password as `password_mask`, the URL and the notes.
pub open spec fn detail_lines_text(entry: EntryView) -> Seq<(Seq<char>, Seq<char>)> {
    seq![
        ("Title:    "@, field_text(field_value(entry, RecordType::Title))),
        ("Username: "@, field_text(field_value(entry, RecordType::Username))),
        ("Password: "@, password_mask()),
        ("URL:      "@, field_text(field_value(entry, RecordType::Url))),
        ("Notes:    "@, field_text(field_value(entry, RecordType::Notes))),
    ]
}

/// The characters of each label and text.
pub open spec fn lines_text(lines: Seq<(String, String)>) -> Seq<(Seq<char>, Seq<char>)> {
    lines.map_values(|line: (String, String)| (line.0@, line.1@))
}

/// The details never show the password: two entries that agree on every
/// field but the password have the same details.
pub proof fn lemma_details_hide_password(a: EntryView, b: EntryView)
    requires
        field_value(a, RecordType::Title) == field_value(b, RecordType::Title),
        field_value(a, RecordType::Username) == field_value(b, RecordType::Username),
        field_value(a, RecordType::Url) == field_value(b, RecordType::Url),
        field_value(a, RecordType::Notes) == field_value(b, RecordType::Notes),
    ensures
        detail_lines_text(a) == detail_lines_text(b),
        detail_lines_text(a)[2] == ("Password: "@, password_mask()),
{
}

/// Each line of the details shows the field its label names: the title under
/// `Title:`, the username under `Username:`, the mask under `Password:`, the
/// URL under `URL:` and the notes under `Notes:`, in that order and no more.
pub proof fn lemma_details_show_fields(e: EntryView)
    ensures
        detail_lines_text(e).len() == 5,
        detail_lines_text(e)[0] == ("Title:    "@, field_text(field_value(e, RecordType::Title))),
        detail_lines_text(e)[1] == ("Username: "@, field_text(
            field_value(e, RecordType::Username),
        )),
        detail_lines_text(e)[2] == ("Password: "@, "********"@),
        detail_lines_text(e)[3] == ("URL:      "@, field_text(field_value(e, RecordType::Url))),
        detail_lines_text(e)[4] == ("Notes:    "@, field_text(field_value(e, RecordType::Notes))),
{
}

/// The value of the record at `i` is the field of its type, where no record
/// before it has that type.
proof fn lemma_first_record_is_field(e: EntryView, i: int)
    requires
        0 <= i < e.len(),
        forall|j: int| 0 <= j < i ==> e[j].0 != e[i].0,
    ensures
        field_value(e, e[i].0) == Some(e[i].1),
{
    let t = e[i].0;
    assert(is_first_of_type(e, t, i));
    let k = choose|k: int| is_first_of_type(e, t, k);
    assert(k == i) by {
        if k < i {
            assert(e[k].0 == t);
        } else if k > i {
            assert(e[i].0 != t);
        }
    }
}

/// An entry made from five texts, as adding an entry makes it (its UUID
/// record, then the title, username, password, URL and notes records), is
/// listed under its title and shows exactly those texts in its details, the
/// password masked.
pub proof fn lemma_details_of_new_entry(
    e: EntryView,
    title: Seq<char>,
    username: Seq<char>,
    password: Seq<char>,
    url: Seq<char>,
    notes: Seq<char>,
)
    requires
        e.len() == 6,
        e[0].0 == RecordType::Uuid,
        e[1] == (RecordType::Title, encode_utf8(title)),
        e[2] == (RecordType::Username, encode_utf8(username)),
        e[3] == (RecordType::Password, encode_utf8(password)),
        e[4] == (RecordType::Url, encode_utf8(url)),
        e[5] == (RecordType::Notes, encode_utf8(notes)),
    ensures
        list_title_text(e) == title,
        detail_lines_text(e) == seq![
            ("Title:    "@, title),
            ("Username: "@, username),
            ("Password: "@, "********"@),
            ("URL:      "@, url),
            ("Notes:    "@, notes),
        ],
{
    broadcast use vstd::utf8::encode_utf8_valid_utf8, vstd::utf8::encode_utf8_decode_utf8;

    lemma_first_record_is_field(e, 1);
    lemma_first_record_is_field(e, 2);
    lemma_first_record_is_field(e, 4);
    lemma_first_record_is_field(e, 5);
    assert(valid_utf8(encode_utf8(title)) && decode_utf8(encode_utf8(title)) == title);
    assert(valid_utf8(encode_utf8(username)) && decode_utf8(encode_utf8(username)) == username);
    assert(valid_utf8(encode_utf8(url)) && decode_utf8(encode_utf8(url)) == url);
    assert(valid_utf8(encode_utf8(notes)) && decode_utf8(encode_utf8(notes)) == notes);
    assert(detail_lines_text(e) =~= seq![
        ("Title:    "@, title),
        ("Username: "@, username),
        ("Password: "@, "********"@),
        ("URL:      "@, url),
        ("Notes:    "@, notes),
    ]);
}

/// An entry's line in the list (see `list_title_text`).
pub fn list_title(entry: &Entry) -> (s: String)
    ensures
        s@ == list_title_text(entry@),
{
    match entry.title() {
        Some(bytes) => match utf8_str(bytes) {
            Some(text) => text.to_owned(),
            None => String::from_str("<untitled>"),
        },
        None => String::from_str("<untitled>"),
    }
}

/// The lines of the list, one per entry, in order.
pub fn list_titles(entries: &[Entry]) -> (titles: Vec<String>)
    ensures
        titles@.len() == entries@.len(),
        forall|i: int|
            0 <= i < entries@.len() ==> #[trigger] titles@[i]@ == list_title_text(entries@[i]@),
{
    let mut titles: Vec<String> = Vec::new();
    let mut i: usize = 0;
    while i < entries.len()
        invariant
            i <= entries@.len(),
            titles@.len() == i,
            forall|j: int| 0 <= j < i ==> #[trigger] titles@[j]@ == list_title_text(entries@[j]@),
        decreases entries@.len() - i,
    {
        titles.push(list_title(&entries[i]));
        i = i + 1;
    }
    titles
}

/// The details of the selected entry (see `detail_lines_text`); `None` where
/// no entry is selected, for which the screen says that there are no entries.
pub fn selected_details(entries: &[Entry], selected: usize) -> (lines: Option<
    Vec<(String, String)>,
>)
    ensures
        match lines {
            Some(l) => selected < entries@.len() && lines_text(l@) == detail_lines_text(
                entries@[selected as int]@,
            ),
            None => selected >= entries@.len(),
        },
{
    if selected >= entries.len() {
        return None;
    }
    let entry = &entries[selected];
    let mut lines: Vec<(String, String)> = Vec::new();
    lines.push((String::from_str("Title:    "), field_to_string(entry.title())));
    lines.push((String::from_str("Username: "), field_to_string(entry.username())));
    lines.push((String::from_str("Password: "), String::from_str("********")));
    lines.push((String::from_str("URL:      "), field_to_string(entry.url())));
    lines.push((String::from_str("Notes:    "), field_to_string(entry.notes())));
    assert(lines_text(lines@) =~= detail_lines_text(entry@));
    Some(lines)
}

} // verus!
