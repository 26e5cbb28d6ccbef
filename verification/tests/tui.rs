use kelidban::cli::app::App;
use kelidban::cli::tui::context::{Action, Context, Mode};
use kelidban::cli::tui::context_store;
use kelidban::cli::tui::entries::EntriesAction;
use kelidban::cli::tui::entries_view::{list_title, list_titles, selected_details};
use kelidban::cli::tui::entry::{generate_password, EntryAction, EntryStore};
use kelidban::cli::tui::event::action_for_key;
use kelidban::cli::tui::notification::Notification;
use kelidban::cli::tui::form::{init_form_fields, FormField, Options};
use kelidban::cli::tui::router::{read_entites, read_entry, Key, Screen};
use kelidban::cli::tui::state::{self, State};
use kelidban::encryption::file::vault::Vault;
use kelidban::text::field_to_string;

fn two_entries() -> App {
    let mut app = App::new(Vault::new());
    app.add_entry("GitHub", "u", "secret", "", "");
    app.add_entry("Bank", "b", "bankpass", "", "");
    app
}

#[test]
fn context_moves_and_copies() {
    let mut ctx = Context::new(two_entries());
    assert_eq!(ctx.search, "/");
    assert_eq!(ctx.dispatch(Action::Entries(EntriesAction::MoveUp)), None);
    assert_eq!(ctx.entries_store.selected, 0);
    ctx.dispatch(Action::Entries(EntriesAction::MoveDown));
    ctx.dispatch(Action::Entries(EntriesAction::MoveDown));
    assert_eq!(ctx.entries_store.selected, 1);
    assert_eq!(
        ctx.dispatch(Action::Entries(EntriesAction::CopyPassword)),
        Some(b"bankpass".to_vec())
    );
    ctx.dispatch(Action::Search);
    assert_eq!(ctx.mode, Mode::Search);
    assert_eq!(ctx.search, "");
    assert_eq!(ctx.dispatch(Action::Entries(EntriesAction::CopyPassword)), None);
    ctx.dispatch(Action::SearchQuery('g'));
    ctx.dispatch(Action::SearchQuery('i'));
    ctx.dispatch(Action::DelSearchQuery);
    assert_eq!(ctx.search, "g");
    ctx.dispatch(Action::Esc);
    assert_eq!(ctx.mode, Mode::Normal);
    assert_eq!(ctx.search, "/");
    ctx.dispatch(Action::SearchQuery('x'));
    assert_eq!(ctx.search, "/");
    ctx.dispatch(Action::EntryScreen);
    assert_eq!(ctx.screen, Screen::AddEntry);
    ctx.dispatch(Action::Esc);
    assert_eq!(ctx.screen, Screen::Entries);
    assert!(!ctx.should_quit);
    ctx.dispatch(Action::Quit);
    assert!(ctx.should_quit);
}

#[test]
fn entry_form_edits() {
    let app = App::new(Vault::new());
    let mut store = EntryStore::new();
    store.dispatch(EntryAction::Input('a'), &app);
    store.dispatch(EntryAction::Input('b'), &app);
    store.dispatch(EntryAction::Backspace, &app);
    assert_eq!(store.form.username, "a");
    store.dispatch(EntryAction::Down, &app);
    store.dispatch(EntryAction::Input('p'), &app);
    assert_eq!(store.form.password, "p");
    store.dispatch(EntryAction::GeneratePassword, &app);
    assert_eq!(store.form.password, "p");
    store.dispatch(EntryAction::Down, &app);
    store.dispatch(EntryAction::Input('z'), &app);
    store.dispatch(EntryAction::GeneratePassword, &app);
    assert_eq!(store.form.password, generate_password());
    assert_eq!(generate_password(), "GeneratedPassword123!");
    for _ in 0..10 {
        store.dispatch(EntryAction::Down, &app);
    }
    assert_eq!(store.active, 6);
    store.dispatch(EntryAction::Up, &app);
    store.dispatch(EntryAction::Up, &app);
    store.dispatch(EntryAction::Input('n'), &app);
    assert_eq!(store.form.notes, "n");
    assert_eq!(store.form.url, "");
}

#[test]
fn state_machine() {
    let mut s = State::new(two_entries());
    assert_eq!(s.update(state::Action::CopyPassword), Some(b"secret".to_vec()));
    s.update(state::Action::MoveDown);
    s.update(state::Action::MoveDown);
    assert_eq!(s.selected, 1);
    s.update(state::Action::EntryRegistery);
    assert_eq!(s.current_screen, state::Screen::EntryRegistery);
    s.update(state::Action::EntryRegistery);
    assert_eq!(s.mode, state::Mode::Search);
    s.update(state::Action::AddQuery('q'));
    assert_eq!(s.search, "/q");
    s.update(state::Action::Esc);
    assert_eq!(s.search, "/");
    assert_eq!(s.current_screen, state::Screen::Main);
    assert_eq!(s.notification(), None);
    s.notify("copied");
    assert_eq!(s.notification(), Some("copied"));
    s.update(state::Action::Quit);
    assert!(s.should_quit);
}

#[test]
fn list_screen_context() {
    let mut c = context_store::Context::new(two_entries());
    assert_eq!(
        c.update(context_store::Action::Entries(
            kelidban::cli::tui::entries_state::EntriesAction::CopyPassword
        )),
        Some(b"secret".to_vec())
    );
    c.update(context_store::Action::Entries(
        kelidban::cli::tui::entries_state::EntriesAction::MoveDown,
    ));
    assert_eq!(c.entry_store.selected, 1);
    c.notify("hi");
    assert_eq!(c.notification(), Some("hi"));
    c.update(context_store::Action::Quit);
    assert!(c.should_quit);
}

#[test]
fn keys_route_to_actions() {
    assert_eq!(read_entites(Key::Char('q')), Some(Action::Quit));
    assert_eq!(read_entites(Key::Char('y')), Some(Action::Entries(EntriesAction::CopyPassword)));
    assert_eq!(read_entites(Key::Char('z')), Some(Action::SearchQuery('z')));
    assert_eq!(read_entites(Key::Enter), None);
    assert_eq!(read_entry(Key::Enter), Some(Action::Entry(EntryAction::GeneratePassword)));
    assert_eq!(read_entry(Key::Char('z')), Some(Action::Entry(EntryAction::Input('z'))));
    assert_eq!(read_entry(Key::Other), None);
    assert_eq!(action_for_key(Key::Char('k')), Some(context_store::Action::Entries(
        kelidban::cli::tui::entries_state::EntriesAction::MoveUp
    )));
    assert_eq!(action_for_key(Key::Char('x')), None);
}

#[test]
fn form_fields_and_text() {
    let fields = init_form_fields();
    assert_eq!(fields.len(), 5);
    match &fields[2] {
        FormField::Select { label, options, selected } => {
            assert_eq!(label, "Password");
            assert_eq!(options, &vec![Options::GeneratePassword, Options::EnterPassword]);
            assert_eq!(*selected, 0);
        }
        _ => panic!("third field is not a choice"),
    }
    assert_eq!(field_to_string(Some(b"abc".as_slice())), "abc");
    assert_eq!(field_to_string(Some(&[0xff, 0xfe])), "");
    assert_eq!(field_to_string(None), "");
}

#[test]
fn context_starts_with_empty_form() {
    let ctx = Context::new(two_entries());
    assert_eq!(ctx.entries_store.selected, 0);
    assert_eq!(ctx.entry_store.active, 0);
    assert_eq!(ctx.entry_store.form.username, "");
    assert_eq!(ctx.entry_store.form.password, "");
    assert_eq!(ctx.entry_store.form.url, "");
    assert_eq!(ctx.entry_store.form.notes, "");
}

#[test]
fn notification_expires_after_its_duration() {
    let n = Notification::new("saved", 500);
    assert_eq!(n.get_message(), "saved");
    assert!(!n.expired_after(0));
    assert!(!n.expired_after(499_999_999));
    assert!(n.expired_after(500_000_000));
    assert!(n.expired_after(u128::MAX));
    assert!(Notification::new("now", 0).is_expired());
    assert!(!Notification::new("later", 3_600_000).is_expired());
}

#[test]
fn state_notification_clears_after_half_a_second() {
    let mut s = State::new(two_entries());
    assert_eq!(s.notification_after(0), None);
    s.notify("copied");
    assert_eq!(s.notification_after(499_999_999), Some("copied"));
    assert!(s.notification.is_some());
    assert_eq!(s.notification_after(500_000_000), None);
    assert!(s.notification.is_none());
    assert_eq!(s.notification_after(0), None);
}

#[test]
fn list_notification_clears_after_half_a_second() {
    let mut c = context_store::Context::new(two_entries());
    c.notify("hi");
    assert_eq!(c.notification_after(1), Some("hi"));
    assert_eq!(c.notification_after(500_000_000), None);
    assert!(c.notification.is_none());
}

#[test]
fn list_lines_and_masked_details() {
    let app = two_entries();
    assert_eq!(list_titles(app.entries()), vec!["GitHub".to_string(), "Bank".to_string()]);
    let lines = selected_details(app.entries(), 0).unwrap();
    let expected: Vec<(String, String)> = vec![
        ("Title:    ".to_string(), "GitHub".to_string()),
        ("Username: ".to_string(), "u".to_string()),
        ("Password: ".to_string(), "********".to_string()),
        ("URL:      ".to_string(), "".to_string()),
        ("Notes:    ".to_string(), "".to_string()),
    ];
    assert_eq!(lines, expected);
    assert!(lines.iter().all(|(_, text)| text != "secret"));
    assert_eq!(selected_details(app.entries(), 2), None);
    let untitled = kelidban::encryption::file::entry::Entry::new();
    assert_eq!(list_title(&untitled), "<untitled>");
    let mut bad = kelidban::encryption::file::entry::Entry::new();
    bad.add_record(kelidban::encryption::file::record::TlvRecord::new(
        kelidban::encryption::file::record::RecordType::Title,
        vec![0xff, 0xfe],
    ));
    assert_eq!(list_title(&bad), "<untitled>");
}
