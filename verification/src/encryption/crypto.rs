//! The cryptography of the vault file: Argon2id derives the key from the
//! password, AES-256-GCM seals the vault's bytes with it.

use vstd::prelude::*;
use aes_gcm::aead::Aead;
use aes_gcm::{Aes256Gcm, Key, KeyInit, Nonce};
use argon2::{Algorithm, Argon2, Params, Version};
use rand::Rng;

verus! {

/// The error that `aes-gcm` gives when it refuses to encrypt or decrypt.
#[verifier::external_type_specification]
#[verifier::external_body]
pub struct ExAeadError(aes_gcm::Error);

/// The longest plaintext, in bytes, that AES-GCM encrypts (`aes_gcm::P_MAX`).
pub const AES_GCM_P_MAX: u64 = 68719476704;

/// Calls `rand::rng().fill_bytes`: overwrites `bytes` with bytes from the
/// thread's random generator, seeded by the operating system. Which bytes
/// come is chance, so nothing is stated of them; the generator panics only
/// where the operating system's random source fails.
#[verifier::external_body]
fn fill_random(bytes: &mut [u8; 32]) {
    rand::rng().fill_bytes(bytes);
}

/// A fresh random 32-byte salt for the key derivation.
pub fn generate_salt() -> [u8; 32] {
    let mut salt = [0u8; 32];
    fill_random(&mut salt);
    salt
}

/// The length, in bytes, of an AES-GCM authentication tag.
pub const AES_GCM_TAG_LEN: usize = 16;

/// The 32-byte key that Argon2id (version 0x13) derives from a password and a
/// salt with the given memory cost (KiB), passes and lanes.
pub uninterp spec fn argon2id_key(
    password: Seq<u8>,
    salt: Seq<u8>,
    memory: u32,
    iterations: u32,
    parallelism: u32,
) -> Seq<u8>;

/// The ciphertext followed by its tag that AES-256-GCM gives for a key, a
/// nonce and a plaintext, without associated data.
pub uninterp spec fn aes256_gcm_seal(key: Seq<u8>, nonce: Seq<u8>, plaintext: Seq<u8>) -> Seq<u8>;

/// The plaintext that AES-256-GCM recovers from a ciphertext followed by its
/// tag, or `None` where the tag does not authenticate it.
pub uninterp spec fn aes256_gcm_open(key: Seq<u8>, nonce: Seq<u8>, ciphertext: Seq<u8>) -> Option<
    Seq<u8>,
>;

/// Whether `argon2::Params::new` accepts these costs with a 32-byte output:
/// at least 8 KiB, at least one pass, 1 to 2^24 - 1 lanes and at least 8 KiB
/// per lane.
pub open spec fn argon_params_ok(memory: u32, iterations: u32, parallelism: u32) -> bool {
    &&& memory >= 8
    &&& iterations >= 1
    &&& 1 <= parallelism <= 0xFFFFFF
    &&& memory >= 8 * parallelism
}

/// Whether Argon2 accepts these costs (see `argon_params_ok`).
pub fn argon_params_valid(memory: u32, iterations: u32, parallelism: u32) -> (ok: bool)
    ensures
        ok == argon_params_ok(memory, iterations, parallelism),
{
    memory >= 8 && iterations >= 1 && 1 <= parallelism && parallelism <= 0xFFFFFF && memory / 8
        >= parallelism
}

/// Derives a 32-byte key with `argon2::Argon2::hash_password_into` (Argon2id,
/// version 0x13) after `argon2::Params::new` builds the costs. The key is
/// named by `argon2id_key`. `Params::new` refuses exactly the costs that
/// `argon_params_ok` leaves out, and `hash_password_into` a salt shorter than
/// eight bytes or longer than `u32::MAX`, or a longer password; these inputs
/// are left out. It also fails, and this function panics, where the memory
/// that the costs ask for cannot be allocated, which depends on the machine
/// and is not stated.
#[verifier::external_body]
pub fn derive_key(
    password: &[u8],
    salt: &[u8],
    memory: u32,
    iterations: u32,
    parallelism: u32,
) -> (key: [u8; 32])
    requires
        argon_params_ok(memory, iterations, parallelism),
        8 <= salt@.len() <= u32::MAX,
        password@.len() <= u32::MAX,
    ensures
        key@ == argon2id_key(password@, salt@, memory, iterations, parallelism),
{
    let params = Params::new(memory, iterations, parallelism, Some(32)).expect(
        "Invalid Argon2 parameters.",
    );
    let argon2 = Argon2::new(Algorithm::Argon2id, Version::V0x13, params);
    let mut key = [0u8; 32];
    argon2.hash_password_into(password, salt, &mut key).expect("Argon2 failed.");
    key
}

/// Encrypts with `aes_gcm::Aes256Gcm` (through `aead::Aead::encrypt`, no
/// associated data). It refuses exactly the plaintexts longer than
/// `AES_GCM_P_MAX`; otherwise it gives the ciphertext with its 16-byte tag
/// appended, named by `aes256_gcm_seal`.
#[verifier::external_body]
pub fn encrypt(key_bytes: &[u8; 32], plaintext: &[u8], nonce_bytes: &[u8; 12]) -> (res: Result<
    Vec<u8>,
    aes_gcm::Error,
>)
    ensures
        res is Ok <==> plaintext@.len() <= AES_GCM_P_MAX,
        res matches Ok(c) ==> c@ == aes256_gcm_seal(key_bytes@, nonce_bytes@, plaintext@) && c@.len()
            == plaintext@.len() + AES_GCM_TAG_LEN,
{
    let key = Key::<Aes256Gcm>::try_from(key_bytes.as_slice()).expect(
        "Key must be exactly 32 bytes.",
    );
    let cipher = Aes256Gcm::new(&key);
    let nonce = Nonce::try_from(nonce_bytes.as_slice()).expect("Nonce must be exactly 12 bytes.");
    cipher.encrypt(&nonce, plaintext)
}

/// Decrypts with `aes_gcm::Aes256Gcm` (through `aead::Aead::decrypt`, no
/// associated data). It gives the plaintext that `aes256_gcm_open` names, and
/// refuses where that is `None`: a ciphertext shorter than its tag, or one
/// whose tag does not authenticate it under this key and nonce. What
/// `aes256_gcm_seal` gives for a plaintext of at most `AES_GCM_P_MAX` bytes
/// opens to that plaintext under the same key and nonce.
#[verifier::external_body]
pub fn decrypt(key_bytes: &[u8; 32], nonce_bytes: &[u8; 12], ciphertext: &[u8]) -> (res: Result<
    Vec<u8>,
    aes_gcm::Error,
>)
    ensures
        res is Ok <==> aes256_gcm_open(key_bytes@, nonce_bytes@, ciphertext@) is Some,
        res matches Ok(p) ==> aes256_gcm_open(key_bytes@, nonce_bytes@, ciphertext@) == Some(p@),
        ciphertext@.len() < AES_GCM_TAG_LEN ==> res is Err,
        forall|p: Seq<u8>|
            p.len() <= AES_GCM_P_MAX && #[trigger] aes256_gcm_seal(key_bytes@, nonce_bytes@, p)
                == ciphertext@ ==> res is Ok && res->Ok_0@ == p,
{
    let key = Key::<Aes256Gcm>::try_from(key_bytes.as_slice()).expect(
        "Key must be exactly 32 bytes.",
    );
    let cipher = Aes256Gcm::new(&key);
    let nonce = Nonce::try_from(nonce_bytes.as_slice()).expect("Nonce must be exactly 12 bytes.");
    cipher.decrypt(&nonce, ciphertext)
}

} // verus!
