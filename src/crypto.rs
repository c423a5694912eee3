//! Key derivation (Argon2id) and authenticated encryption (AES-256-GCM).

use crate::error::EuleError;
use aes_gcm::aead::{Aead, AeadCore, KeyInit, OsRng};
use aes_gcm::{Aes256Gcm, Key, Nonce};
use argon2::password_hash::rand_core::OsRng as SaltRng;
use argon2::password_hash::rand_core::RngCore;
use argon2::password_hash::{PasswordHasher, SaltString};
use argon2::Argon2;
use vstd::prelude::*;
use vstd::string::StringSliceAdditionalSpecFns;
use zeroize::Zeroizing;

verus! {

/// Bytes in a derived key.
pub const KEY_SIZE: usize = 32;

/// Bytes in the nonce that prefixes every encrypted value.
pub const NONCE_SIZE: usize = 12;

/// Bytes in the authentication tag that AES-GCM appends.
pub const TAG_SIZE: usize = 16;

/// Bytes in a key-derivation salt.
pub const SALT_SIZE: usize = 16;

/// Declares aes-gcm's error (aead's `Error`), carried through as an opaque value.
#[verifier::external_type_specification]
#[verifier::external_body]
pub struct ExAeadError(aes_gcm::Error);

/// Declares password-hash's error, carried through as an opaque value.
#[verifier::external_type_specification]
#[verifier::external_body]
pub struct ExPasswordHashError(argon2::password_hash::Error);

/// The bytes that a `MasterKey` holds.
pub uninterp spec fn master_key_bytes(k: MasterKey) -> Seq<u8>;

/// A derived key, held in zeroize's `Zeroizing` so that its bytes are
/// overwritten when it is dropped. `Zeroizing`'s bound is an outside trait,
/// so the type cannot be declared and the holder is opaque.
#[verifier::external_body]
pub struct MasterKey {
    key: Zeroizing<[u8; 32]>,
}

impl MasterKey {
    /// Relies on zeroize's `Zeroizing::new`: takes ownership of the bytes,
    /// to be wiped on drop.
    #[verifier::external_body]
    pub(crate) fn wrap(bytes: [u8; 32]) -> (r: MasterKey)
        ensures
            master_key_bytes(r) == bytes@,
    {
        MasterKey { key: Zeroizing::new(bytes) }
    }

    /// Relies on `Zeroizing`'s `Deref`: the held bytes, borrowed.
    #[verifier::external_body]
    pub(crate) fn held(&self) -> (r: &[u8; 32])
        ensures
            r@ == master_key_bytes(*self),
    {
        &self.key
    }

    /// The key's length in bytes.
    pub fn len(&self) -> (r: usize)
        ensures
            r == master_key_bytes(*self).len(),
            r == KEY_SIZE,
    {
        let b = self.held();
        proof { assert(b@.len() == 32); }
        KEY_SIZE
    }
}

/// The plaintext that AES-256-GCM recovers from `ciphertext` (tag appended)
/// under `key` and `nonce`, or `None` when the tag does not verify.
pub uninterp spec fn aes256gcm_open(key: Seq<u8>, nonce: Seq<u8>, ciphertext: Seq<u8>) -> Option<Seq<u8>>;

/// The text that `bytes` holds when they are valid UTF-8.
pub uninterp spec fn utf8_decode(bytes: Seq<u8>) -> Option<Seq<char>>;

/// The 32-byte key that Argon2id with argon2's default parameters derives
/// from `password` and `salt`.
pub uninterp spec fn argon2id_key(password: Seq<char>, salt: Seq<u8>) -> Seq<u8>;

/// The longest plaintext that AES-GCM encrypts, in bytes (2^36).
pub const AES_GCM_MAX_PLAINTEXT: u64 = 68_719_476_736;

/// Relies on aes_gcm's `Aes256Gcm::encrypt` (aead 0.5 `Aead::encrypt`): it
/// refuses only a plaintext over 2^36 bytes; the result is the ciphertext,
/// as long as the plaintext, followed by a 16-byte tag, which `decrypt`
/// under the same key and nonce opens back to the plaintext.
#[verifier::external_body]
fn aes_seal(key: &[u8; 32], nonce: &[u8; 12], plaintext: &[u8]) -> (r: Result<Vec<u8>, aes_gcm::Error>)
    ensures
        plaintext@.len() <= AES_GCM_MAX_PLAINTEXT ==> r is Ok,
        r matches Ok(ct) ==> ct@.len() == plaintext@.len() + 16,
        r matches Ok(ct) ==> aes256gcm_open(key@, nonce@, ct@) == Some(plaintext@),
{
    Aes256Gcm::new(Key::<Aes256Gcm>::from_slice(key)).encrypt(Nonce::from_slice(nonce), plaintext)
}

/// Relies on aes_gcm's `Aes256Gcm::decrypt`: the plaintext when the tag
/// verifies, an error otherwise (always for input shorter than the tag);
/// the outcome depends on its inputs alone.
#[verifier::external_body]
fn aes_open(key: &[u8; 32], nonce: &[u8; 12], ciphertext: &[u8]) -> (r: Result<Vec<u8>, aes_gcm::Error>)
    ensures
        r matches Ok(p) ==> aes256gcm_open(key@, nonce@, ciphertext@) == Some(p@),
        r is Err <==> aes256gcm_open(key@, nonce@, ciphertext@) is None,
        ciphertext@.len() < 16 ==> r is Err,
{
    Aes256Gcm::new(Key::<Aes256Gcm>::from_slice(key)).decrypt(Nonce::from_slice(nonce), ciphertext)
}

/// Relies on aead's `AeadCore::generate_nonce` with the operating system's
/// random source: a fresh random 96-bit nonce.
#[verifier::external_body]
fn fresh_nonce() -> [u8; 12] {
    Aes256Gcm::generate_nonce(&mut OsRng).into()
}

/// Relies on argon2's `Argon2::hash_password` with the default parameters
/// (Argon2id, 32-byte output); the salt is first put in the base64 form that
/// it takes (`SaltString::encode_b64`, which refuses salts over 48 bytes).
/// It refuses salts under 8 bytes and passwords over 2^32 - 1 bytes, and
/// the key depends on password and salt alone. A salt under 3 bytes encodes
/// to fewer than the 4 characters that `Salt` accepts, and hashing with it
/// panics, so it is not admitted.
#[verifier::external_body]
fn argon2id_derive(password: &str, salt: &[u8]) -> (r: Result<[u8; 32], argon2::password_hash::Error>)
    requires
        salt@.len() >= 3,
    ensures
        8 <= salt@.len() <= 48 && password.spec_bytes().len() <= 0xFFFF_FFFF ==> r is Ok,
        r matches Ok(k) ==> k@ == argon2id_key(password@, salt@),
{
    let salt = SaltString::encode_b64(salt)?;
    let hash = Argon2::default().hash_password(password.as_bytes(), &salt)?;
    let mut key = [0u8; 32];
    key.copy_from_slice(hash.hash.unwrap().as_bytes());
    Ok(key)
}

/// Relies on rand_core's `OsRng::fill_bytes`: 16 bytes from the operating
/// system's random source.
#[verifier::external_body]
fn random_salt() -> [u8; 16] {
    let mut bytes = [0u8; 16];
    SaltRng.fill_bytes(&mut bytes);
    bytes
}

/// Relies on std's `String::from_utf8`: the text when the bytes are valid
/// UTF-8.
#[verifier::external_body]
fn utf8_text(bytes: Vec<u8>) -> (r: Option<String>)
    ensures
        r matches Some(s) ==> utf8_decode(bytes@) == Some(s@),
        r is None <==> utf8_decode(bytes@) is None,
{
    String::from_utf8(bytes).ok()
}

/// Relies on std's `str::as_bytes` and `<[u8]>::to_vec`: a copy of the
/// text's UTF-8 bytes, which `String::from_utf8` reads back as the same
/// text (a `str` always holds valid UTF-8).
#[verifier::external_body]
pub(crate) fn utf8_bytes(s: &str) -> (r: Vec<u8>)
    ensures
        r@ == s.spec_bytes(),
        utf8_decode(r@) == Some(s@),
{
    s.as_bytes().to_vec()
}

/// The plaintext that an encrypted value `blob` (nonce, then ciphertext)
/// yields under `key`, if any.
pub open spec fn open_blob(key: Seq<u8>, blob: Seq<u8>) -> Option<Seq<char>> {
    if blob.len() < 12 {
        None
    } else {
        match aes256gcm_open(key, blob.take(12), blob.skip(12)) {
            Some(p) => utf8_decode(p),
            None => None,
        }
    }
}

/// `blob` is a nonce followed by the ciphertext that opens, under `key`, to
/// `plaintext`.
pub open spec fn seals(key: Seq<u8>, blob: Seq<u8>, plaintext: Seq<u8>) -> bool {
    blob.len() >= 12 && aes256gcm_open(key, blob.take(12), blob.skip(12)) == Some(plaintext)
}

/// A blob that seals the UTF-8 bytes of a text under a key opens, under
/// that key, to exactly that text: what `encrypt` writes, `decrypt` reads
/// back.
pub proof fn lemma_sealed_text_opens(key: Seq<u8>, blob: Seq<u8>, bytes: Seq<u8>, text: Seq<char>)
    requires
        seals(key, blob, bytes),
        utf8_decode(bytes) == Some(text),
    ensures
        open_blob(key, blob) == Some(text),
{
}

/// Stateless cryptographic operations.
pub struct Crypto;

impl Crypto {
    /// Derives a 32-byte key from `password` and `salt` with Argon2id.
    /// Succeeds for salts of 8 to 48 bytes; fails with a key-derivation
    /// error otherwise.
    pub fn derive_key(password: &str, salt: &[u8]) -> (r: Result<MasterKey, EuleError>)
        ensures
            8 <= salt@.len() <= 48 && password.spec_bytes().len() <= 0xFFFF_FFFF ==> r is Ok,
            salt@.len() < 3 ==> r is Err,
            r matches Ok(k) ==> master_key_bytes(k) == argon2id_key(password@, salt@),
            r matches Err(e) ==> e is KeyDerivationError,
    {
        if salt.len() < 3 {
            return Err(EuleError::KeyDerivationError("salt is too short".to_owned()));
        }
        match argon2id_derive(password, salt) {
            Ok(key) => Ok(MasterKey::wrap(key)),
            Err(e) => Err(EuleError::KeyDerivationError(e.to_string())),
        }
    }

    /// Encrypts `data` under `key` with a fresh nonce; the result is the
    /// nonce followed by the ciphertext and its tag.
    pub fn encrypt(data: &str, key: &MasterKey) -> (r: Result<Vec<u8>, EuleError>)
        ensures
            data.spec_bytes().len() <= AES_GCM_MAX_PLAINTEXT ==> r is Ok,
            r matches Ok(v) ==> v@.len() == NONCE_SIZE + data.spec_bytes().len() + TAG_SIZE,
            r matches Ok(v) ==> seals(master_key_bytes(*key), v@, data.spec_bytes()),
            r matches Ok(v) ==> open_blob(master_key_bytes(*key), v@) == Some(data@),
            r matches Err(e) ==> e is EncryptionError,
    {
        let nonce = fresh_nonce();
        let plain = utf8_bytes(data);
        let ciphertext = match aes_seal(key.held(), &nonce, plain.as_slice()) {
            Ok(c) => c,
            Err(e) => return Err(EuleError::EncryptionError(e.to_string())),
        };
        let mut out: Vec<u8> = Vec::new();
        let mut i: usize = 0;
        while i < NONCE_SIZE
            invariant
                i <= NONCE_SIZE,
                nonce@.len() == NONCE_SIZE,
                out@ == nonce@.take(i as int),
            decreases NONCE_SIZE - i,
        {
            out.push(nonce[i]);
            proof { assert(nonce@.take(i + 1) =~= nonce@.take(i as int).push(nonce@[i as int])); }
            i += 1;
        }
        let mut j: usize = 0;
        while j < ciphertext.len()
            invariant
                j <= ciphertext@.len(),
                nonce@.len() == NONCE_SIZE,
                out@ == nonce@ + ciphertext@.take(j as int),
            decreases ciphertext@.len() - j,
        {
            out.push(ciphertext[j]);
            proof {
                assert(ciphertext@.take(j + 1) =~= ciphertext@.take(j as int).push(ciphertext@[j as int]));
                assert(nonce@ + ciphertext@.take(j + 1) =~= (nonce@ + ciphertext@.take(j as int)).push(ciphertext@[j as int]));
            }
            j += 1;
        }
        proof {
            assert(nonce@.take(12) =~= nonce@);
            assert(ciphertext@.take(ciphertext@.len() as int) =~= ciphertext@);
            assert(out@.take(12) =~= nonce@);
            assert(out@.skip(12) =~= ciphertext@);
        }
        Ok(out)
    }

    /// Decrypts a value that `encrypt` produced. Fails with a decryption
    /// error when the value is shorter than a nonce and a tag, when its tag
    /// does not verify under `key`, or when the plaintext is not UTF-8.
    pub fn decrypt(encrypted_data: &[u8], key: &MasterKey) -> (r: Result<String, EuleError>)
        ensures
            r is Ok <==> open_blob(master_key_bytes(*key), encrypted_data@) is Some,
            r matches Ok(s) ==> open_blob(master_key_bytes(*key), encrypted_data@) == Some(s@),
            encrypted_data@.len() < NONCE_SIZE + TAG_SIZE ==> r is Err,
            r matches Err(e) ==> e is DecryptionError,
    {
        if encrypted_data.len() < NONCE_SIZE {
            return Err(EuleError::DecryptionError("encrypted value is too short".to_owned()));
        }
        let mut nonce = [0u8; 12];
        let mut i: usize = 0;
        while i < NONCE_SIZE
            invariant
                i <= NONCE_SIZE,
                NONCE_SIZE <= encrypted_data@.len(),
                nonce@.len() == 12,
                forall|j: int| 0 <= j < i ==> nonce@[j] == encrypted_data@[j],
            decreases NONCE_SIZE - i,
        {
            nonce[i] = encrypted_data[i];
            i += 1;
        }
        let mut body: Vec<u8> = Vec::new();
        let mut k: usize = NONCE_SIZE;
        while k < encrypted_data.len()
            invariant
                NONCE_SIZE <= k <= encrypted_data@.len(),
                body@ == encrypted_data@.subrange(NONCE_SIZE as int, k as int),
            decreases encrypted_data@.len() - k,
        {
            body.push(encrypted_data[k]);
            k += 1;
        }
        proof {
            assert(nonce@ =~= encrypted_data@.take(12));
            assert(body@ =~= encrypted_data@.skip(12));
        }
        let plain = match aes_open(key.held(), &nonce, body.as_slice()) {
            Ok(p) => p,
            Err(e) => return Err(EuleError::DecryptionError(e.to_string())),
        };
        match utf8_text(plain) {
            Some(s) => Ok(s),
            None => Err(EuleError::DecryptionError("decrypted value is not UTF-8".to_owned())),
        }
    }

    /// A fresh random 16-byte salt.
    pub fn generate_salt() -> (r: Result<[u8; 16], EuleError>)
        ensures
            r matches Ok(s) && s@.len() == SALT_SIZE,
    {
        Ok(random_salt())
    }
}

} // verus!
