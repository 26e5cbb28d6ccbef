//! The application: one vault, edited entry by entry, saved and loaded as an
//! encrypted vault file.

use vstd::prelude::*;
use vstd::string::StringSliceAdditionalSpecFns;
use crate::encryption::crypto::AES_GCM_P_MAX;
use crate::encryption::error::KdbError;
use crate::encryption::file::entry::{is_random_uuid, Entry, EntryUuid};
use crate::encryption::file::header::{default_header, FileHeader};
use crate::encryption::file::record::RecordType;
use crate::encryption::file::storage::{
    decrypt_vault, encrypt_vault, file_params_ok, open_vault_file, sealable, sealed_vault_file,
};
use crate::encryption::file::vault::{
    entries_view, find_uuid, vault_bytes, with_text_fields, EntryView, Vault,
};

verus! {

/// The application's state: the vault being edited.
pub struct App {
    vault: Vault,
}

impl View for App {
    type V = Seq<EntryView>;

    closed spec fn view(&self) -> Seq<EntryView> {
        self.vault@
    }
}

impl App {
    /// An application over `vault`.
    pub fn new(vault: Vault) -> (app: Self)
        ensures
            app@ == vault@,
    {
        Self { vault }
    }

    /// Appends a new entry with a fresh UUID and these five texts.
    pub fn add_entry(
        &mut self,
        title: &str,
        username: &str,
        password: &str,
        url: &str,
        notes: &str,
    )
        ensures
            final(self)@.len() == old(self)@.len() + 1,
            final(self)@.drop_last() == old(self)@,
            ({
                let e = final(self)@.last();
                &&& e.len() == 6
                &&& e[0].0 == RecordType::Uuid
                &&& is_random_uuid(e[0].1)
                &&& e[1] == (RecordType::Title, title.spec_bytes())
                &&& e[2] == (RecordType::Username, username.spec_bytes())
                &&& e[3] == (RecordType::Password, password.spec_bytes())
                &&& e[4] == (RecordType::Url, url.spec_bytes())
                &&& e[5] == (RecordType::Notes, notes.spec_bytes())
            }),
    {
        self.vault.add_entry_from_fields(title, username, password, url, notes);
    }

    /// The first entry whose UUID is `uuid`, if any; the first entry before
    /// it without a valid UUID gives its error.
    pub fn find_entry(&self, uuid: EntryUuid) -> (res: Result<Option<&Entry>, KdbError>)
        ensures
            match res {
                Ok(Some(e)) => exists|i: int|
                    find_uuid(self@, uuid@) == Ok::<Option<int>, KdbError>(Some(i)) && 0 <= i
                        < self@.len() && #[trigger] self@[i] == e@,
                Ok(None) => find_uuid(self@, uuid@) == Ok::<Option<int>, KdbError>(None),
                Err(e) => find_uuid(self@, uuid@) == Err::<Option<int>, KdbError>(e),
            },
    {
        self.vault.find_entry(&uuid)
    }

    /// Removes the first entry whose UUID is `uuid`; fails with
    /// `EntryNotFound` where there is none.
    pub fn delete_entry(&mut self, uuid: EntryUuid) -> (res: Result<(), KdbError>)
        ensures
            match find_uuid(old(self)@, uuid@) {
                Ok(Some(i)) => res is Ok && final(self)@ == old(self)@.remove(i),
                Ok(None) => res == Err::<(), KdbError>(KdbError::EntryNotFound) && final(self)@
                    == old(self)@,
                Err(e) => res == Err::<(), KdbError>(e) && final(self)@ == old(self)@,
            },
    {
        self.vault.delete_entry(&uuid)
    }

    /// The entries, in order.
    pub fn entries(&self) -> (es: &[Entry])
        ensures
            entries_view(es@) == self@,
    {
        self.vault.entries()
    }

    /// Sets the five texts of the first entry whose UUID is `uuid`; fails with
    /// `EntryNotFound` where there is none.
    pub fn update_entry(
        &mut self,
        uuid: EntryUuid,
        title: &str,
        username: &str,
        password: &str,
        url: &str,
        notes: &str,
    ) -> (res: Result<(), KdbError>)
        ensures
            match find_uuid(old(self)@, uuid@) {
                Ok(Some(i)) => res is Ok && final(self)@ == old(self)@.update(
                    i,
                    with_text_fields(
                        old(self)@[i],
                        title.spec_bytes(),
                        username.spec_bytes(),
                        password.spec_bytes(),
                        url.spec_bytes(),
                        notes.spec_bytes(),
                    ),
                ),
                Ok(None) => res == Err::<(), KdbError>(KdbError::EntryNotFound) && final(self)@
                    == old(self)@,
                Err(e) => res == Err::<(), KdbError>(e) && final(self)@ == old(self)@,
            },
    {
        self.vault.update_entry(&uuid, title, username, password, url, notes)
    }

    /// The bytes that saving writes to the vault file: the vault sealed under
    /// `password` with a new header (see `FileHeader::new`).
    pub fn save(&self, password: &[u8]) -> (res: Result<Vec<u8>, KdbError>)
        requires
            password@.len() <= u32::MAX,
        ensures
            res is Ok <==> vault_bytes(self@).len() <= AES_GCM_P_MAX,
            match res {
                Ok(out) => out@ == sealed_vault_file(password@, default_header(), self@),
                Err(e) => e == KdbError::EncryptionFailed,
            },
    {
        let header = FileHeader::new();
        encrypt_vault(password, &header, &self.vault)
    }

    /// The application over the vault that the vault file `data` holds under
    /// `password`. What `save` wrote under the same password loads back.
    pub fn load(data: &[u8], password: &[u8]) -> (res: Result<Self, KdbError>)
        requires
            file_params_ok(data@),
            password@.len() <= u32::MAX,
        ensures
            match res {
                Ok(app) => open_vault_file(password@, data@) == Ok::<Seq<EntryView>, KdbError>(
                    app@,
                ),
                Err(e) => open_vault_file(password@, data@) == Err::<Seq<EntryView>, KdbError>(e),
            },
            forall|v: Seq<EntryView>|
                sealable(default_header(), v) && data@ == #[trigger] sealed_vault_file(
                    password@,
                    default_header(),
                    v,
                ) ==> (res matches Ok(app) && app@ == v),
    {
        match decrypt_vault(password, data) {
            Ok(vault) => Ok(Self::new(vault)),
            Err(e) => Err(e),
        }
    }
}

} // verus!
