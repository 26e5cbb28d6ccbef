use kelidban::cli::app::App;
use kelidban::encryption::file::header::FileHeader;
use kelidban::encryption::file::storage::{encrypt_vault, vault_file_params_valid};
use kelidban::encryption::file::vault::Vault;

#[test]
fn add_entry() {
    let vault = Vault::new();
    let mut app = App::new(vault);

    app.add_entry(
        "GitHub",
        "user123",
        "secret",
        "https://github.com",
        "My GitHub account",
    );

    assert_eq!(app.entries().len(), 1);

    let entry = &app.entries()[0];

    assert_eq!(entry.title(), Some(b"GitHub".as_slice()));
    assert_eq!(entry.username(), Some(b"user123".as_slice()));
    assert_eq!(entry.password(), Some(b"secret".as_slice()));
    assert_eq!(entry.url(), Some(b"https://github.com".as_slice()));
    assert_eq!(entry.notes(), Some(b"My GitHub account".as_slice()));
}

#[test]
fn get_all_entries() {
    let mut app = App::new(Vault::new());

    app.add_entry(
        "GitHub",
        "user123",
        "secret",
        "https://github.com",
        "My GitHub account",
    );

    app.add_entry(
        "Bank",
        "bankuser",
        "bankpass",
        "https://bank.example",
        "Bank account",
    );

    assert_eq!(app.entries().len(), 2);
    assert_eq!(app.entries()[0].title(), Some(b"GitHub".as_slice()));
    assert_eq!(app.entries()[1].title(), Some(b"Bank".as_slice()));
}

#[test]
fn update_entry() {
    let mut app = App::new(Vault::new());

    app.add_entry(
        "GitHub",
        "old-user",
        "old-password",
        "https://github.com",
        "old notes",
    );

    let uuid = app.entries()[0].uuid().unwrap();

    app.update_entry(
        uuid,
        "GitHub Personal",
        "new-user",
        "new-password",
        "https://github.com/new",
        "new notes",
    )
    .unwrap();

    let entry = app.find_entry(uuid).unwrap().unwrap();

    assert_eq!(entry.uuid().unwrap(), uuid);
    assert_eq!(entry.title(), Some(b"GitHub Personal".as_slice()));
    assert_eq!(entry.username(), Some(b"new-user".as_slice()));
    assert_eq!(entry.password(), Some(b"new-password".as_slice()));
    assert_eq!(entry.url(), Some(b"https://github.com/new".as_slice()));
    assert_eq!(entry.notes(), Some(b"new notes".as_slice()));
}

#[test]
fn delete_entry() {
    let mut app = App::new(Vault::new());

    app.add_entry(
        "GitHub",
        "user123",
        "secret",
        "https://github.com",
        "My GitHub account",
    );

    app.add_entry(
        "Bank",
        "bankuser",
        "bankpass",
        "https://bank.example",
        "Bank account",
    );

    let first_uuid = app.entries()[0].uuid().unwrap();
    let second_uuid = app.entries()[1].uuid().unwrap();

    app.delete_entry(first_uuid).unwrap();

    assert_eq!(app.entries().len(), 1);

    let remaining = app.find_entry(second_uuid).unwrap();

    assert!(remaining.is_some());
    assert_eq!(remaining.unwrap().title(), Some(b"Bank".as_slice()));
}

#[test]
fn save_writes_header_and_sealed_vault() {
    let mut app = App::new(Vault::new());
    app.add_entry("GitHub", "user123", "secret", "https://github.com", "notes");
    let bytes = app.save(b"pw").unwrap();
    assert!(vault_file_params_valid(&bytes));
    assert_eq!(&bytes[..FileHeader::SIZE], &FileHeader::new().serialize()[..]);
}

#[test]
fn load_gives_the_sealed_vault_back() {
    let mut header_bytes = FileHeader::new().serialize();
    header_bytes[10..14].copy_from_slice(&64u32.to_le_bytes());
    header_bytes[14..18].copy_from_slice(&1u32.to_le_bytes());
    header_bytes[18..22].copy_from_slice(&1u32.to_le_bytes());
    let header = FileHeader::deserialize(&header_bytes).unwrap();
    let mut vault = Vault::new();
    vault.add_entry_from_fields("GitHub", "user123", "secret", "https://github.com", "notes");
    let app = App::new(vault.clone());
    let bytes = encrypt_vault(b"pw", &header, &vault).unwrap();
    let loaded = App::load(&bytes, b"pw").unwrap();
    assert_eq!(loaded.entries().len(), 1);
    assert_eq!(loaded.entries()[0].password(), Some(b"secret".as_slice()));
    assert_eq!(loaded.entries()[0].uuid().unwrap(), app.entries()[0].uuid().unwrap());
    assert!(App::load(&bytes, b"other").is_err());
    let mut truncated = bytes.clone();
    truncated.pop();
    assert!(App::load(&truncated, b"pw").is_err());
}
