//! The vault file: the header, then the vault's bytes sealed with AES-256-GCM
//! under a key that Argon2id derives from the password and the header's salt
//! and costs.

use vstd::prelude::*;
use crate::encryption::crypto::{
    aes256_gcm_open, aes256_gcm_seal, argon2id_key, argon_params_ok, argon_params_valid, decrypt,
    derive_key, encrypt, AES_GCM_P_MAX,
};
use crate::encryption::error::KdbError;
use crate::encryption::file::header::{
    header_bytes, header_wf, lemma_header_roundtrip, parse_header, FileHeader, HeaderView,
};
use crate::encryption::file::vault::{
    lemma_vault_roundtrip, parse_vault, vault_bytes, vault_fits, EntryView, Vault,
};

verus! {

/// The key that a header's salt and costs derive from a password.
pub open spec fn header_key(password: Seq<u8>, h: HeaderView) -> Seq<u8> {
    argon2id_key(password, h.salt, h.argon_memory, h.argon_iterations, h.argon_parallelism)
}

/// The bytes of a vault file: the header, then the vault's bytes sealed
/// under the header's key and nonce.
pub open spec fn sealed_vault_file(password: Seq<u8>, h: HeaderView, v: Seq<EntryView>) -> Seq<
    u8,
> {
    header_bytes(h) + aes256_gcm_seal(header_key(password, h), h.nonce, vault_bytes(v))
}

/// What opening the vault file `d` with `password` gives.
pub open spec fn open_vault_file(password: Seq<u8>, d: Seq<u8>) -> Result<
    Seq<EntryView>,
    KdbError,
> {
    if d.len() < 66 {
        Err(KdbError::VaultFileTooSmall)
    } else {
        match parse_header(d.subrange(0, 66)) {
            Err(e) => Err(e),
            Ok(h) => match aes256_gcm_open(
                header_key(password, h),
                h.nonce,
                d.subrange(66, d.len() as int),
            ) {
                None => Err(KdbError::DecryptionFailed),
                Some(p) => parse_vault(p),
            },
        }
    }
}

/// Whether the header at the start of `d`, where there is one, carries
/// Argon2 costs that Argon2 accepts.
pub open spec fn file_params_ok(d: Seq<u8>) -> bool {
    d.len() >= 66 ==> match parse_header(d.subrange(0, 66)) {
        Ok(h) => argon_params_ok(h.argon_memory, h.argon_iterations, h.argon_parallelism),
        Err(_) => true,
    }
}

/// Whether a vault file can be written for `v` under a header and read back:
/// the header reads back, the vault fits (see `vault_fits`), and its bytes
/// are short enough for AES-GCM.
pub open spec fn sealable(h: HeaderView, v: Seq<EntryView>) -> bool {
    &&& header_wf(h)
    &&& vault_fits(v)
    &&& vault_bytes(v).len() <= AES_GCM_P_MAX
}

proof fn lemma_sealed_file_parts(password: Seq<u8>, h: HeaderView, v: Seq<EntryView>)
    requires
        header_wf(h),
    ensures
        ({
            let d = sealed_vault_file(password, h, v);
            &&& d.len() >= 66
            &&& parse_header(d.subrange(0, 66)) == Ok::<HeaderView, KdbError>(h)
            &&& d.subrange(66, d.len() as int) == aes256_gcm_seal(
                header_key(password, h),
                h.nonce,
                vault_bytes(v),
            )
        }),
{
    lemma_header_roundtrip(h);
    let d = sealed_vault_file(password, h, v);
    assert(d.subrange(0, 66) =~= header_bytes(h));
    assert(d.subrange(66, d.len() as int) =~= aes256_gcm_seal(
        header_key(password, h),
        h.nonce,
        vault_bytes(v),
    ));
}

/// Whether the header at the start of `data` carries Argon2 costs that
/// Argon2 accepts (see `file_params_ok`).
pub fn vault_file_params_valid(data: &[u8]) -> (ok: bool)
    ensures
        ok == file_params_ok(data@),
{
    if data.len() < 66 {
        return true;
    }
    let header_bytes = vstd::slice::slice_subrange(data, 0, 66);
    match FileHeader::deserialize(header_bytes) {
        Ok(h) => argon_params_valid(h.argon_memory(), h.argon_iterations(), h.argon_parallelism()),
        Err(_) => true,
    }
}

/// The vault file of `vault` under `header` and `password`: the header, then
/// the vault's bytes sealed under the key that the header's salt and costs
/// derive from the password, with the header's nonce.
pub fn encrypt_vault(password: &[u8], header: &FileHeader, vault: &Vault) -> (res: Result<
    Vec<u8>,
    KdbError,
>)
    requires
        argon_params_ok(header@.argon_memory, header@.argon_iterations, header@.argon_parallelism),
        password@.len() <= u32::MAX,
    ensures
        header_wf(header@),
        res is Ok <==> vault_bytes(vault@).len() <= AES_GCM_P_MAX,
        match res {
            Ok(out) => out@ == sealed_vault_file(password@, header@, vault@),
            Err(e) => e == KdbError::EncryptionFailed,
        },
{
    let header_out = header.serialize();
    let key = derive_key(
        password,
        header.salt().as_slice(),
        header.argon_memory(),
        header.argon_iterations(),
        header.argon_parallelism(),
    );
    let plaintext = vault.serialize();
    let ciphertext = match encrypt(&key, plaintext.as_slice(), header.nonce()) {
        Ok(c) => c,
        Err(_) => {
            return Err(KdbError::EncryptionFailed);
        },
    };
    let mut output: Vec<u8> = Vec::new();
    output.extend_from_slice(header_out.as_slice());
    output.extend_from_slice(ciphertext.as_slice());
    assert(output@ =~= sealed_vault_file(password@, header@, vault@));
    Ok(output)
}

/// Opens the vault file `data` with `password`: reads its header, derives
/// the key, decrypts the rest and reads the vault from the plaintext. A file
/// that `encrypt_vault` wrote for a vault under the same password opens to
/// that vault.
pub fn decrypt_vault(password: &[u8], data: &[u8]) -> (res: Result<Vault, KdbError>)
    requires
        file_params_ok(data@),
        password@.len() <= u32::MAX,
    ensures
        match res {
            Ok(v) => open_vault_file(password@, data@) == Ok::<Seq<EntryView>, KdbError>(v@),
            Err(e) => open_vault_file(password@, data@) == Err::<Seq<EntryView>, KdbError>(e),
        },
        forall|h: HeaderView, v: Seq<EntryView>|
            sealable(h, v) && data@ == #[trigger] sealed_vault_file(password@, h, v) ==> (
            res matches Ok(x) && x@ == v),
{
    if data.len() < 66 {
        assert forall|h: HeaderView, v: Seq<EntryView>| sealable(h, v) implies data@
            != #[trigger] sealed_vault_file(password@, h, v) by {
            lemma_sealed_file_parts(password@, h, v);
        }
        return Err(KdbError::VaultFileTooSmall);
    }
    let header_bytes = vstd::slice::slice_subrange(data, 0, 66);
    let ciphertext = vstd::slice::slice_subrange(data, 66, data.len());
    let header = match FileHeader::deserialize(header_bytes) {
        Ok(h) => h,
        Err(e) => {
            assert forall|h: HeaderView, v: Seq<EntryView>| sealable(h, v) implies data@
                != #[trigger] sealed_vault_file(password@, h, v) by {
                lemma_sealed_file_parts(password@, h, v);
            }
            return Err(e);
        },
    };
    let key = derive_key(
        password,
        header.salt().as_slice(),
        header.argon_memory(),
        header.argon_iterations(),
        header.argon_parallelism(),
    );
    let plaintext = match decrypt(&key, header.nonce(), ciphertext) {
        Ok(p) => p,
        Err(_) => {
            assert forall|h: HeaderView, v: Seq<EntryView>| sealable(h, v) implies data@
                != #[trigger] sealed_vault_file(password@, h, v) by {
                lemma_sealed_file_parts(password@, h, v);
                if data@ == sealed_vault_file(password@, h, v) {
                    assert(aes256_gcm_seal(key@, header@.nonce, vault_bytes(v)) == ciphertext@);
                }
            }
            return Err(KdbError::DecryptionFailed);
        },
    };
    let res = Vault::deserialize(plaintext.as_slice());
    assert forall|h: HeaderView, v: Seq<EntryView>|
        sealable(h, v) && data@ == #[trigger] sealed_vault_file(password@, h, v) implies (
    res matches Ok(x) && x@ == v) by {
        lemma_sealed_file_parts(password@, h, v);
        assert(aes256_gcm_seal(key@, header@.nonce, vault_bytes(v)) == ciphertext@);
        assert(plaintext@ == vault_bytes(v));
        lemma_vault_roundtrip(v, Seq::empty());
        assert(vault_bytes(v) + Seq::<u8>::empty() =~= vault_bytes(v));
    }
    res
}

} // verus!
