# kelidban

A password vault whose file formats, encryption layer and interface state
machines are verified with Verus.

- `src/encryption/file/` — the binary formats: type-length-value records,
  entries (sequences of records), vaults (length-prefixed entries) and the
  66-byte file header; each has a spec parser and serializer, and the
  round-trip laws between them are proved.
- `src/encryption/file/storage.rs` — the vault file: header followed by the
  AES-256-GCM sealed vault, under a key that Argon2id derives from the
  password. Opening a file written for a vault under the same password gives
  that vault back.
- `src/encryption/crypto.rs`, `src/encryption/time.rs` — the calls into
  `argon2`, `aes-gcm`, `jalali-calendar` and `chrono`, with the contracts that
  the rest of the library relies on.
- `src/cli/` — the application over one vault, and the state machines of the
  terminal screens (keys to actions, actions to new states and copy requests).
- `app/` — the terminal program: files, terminal drawing and input, the
  clipboard and the SQLite store.
