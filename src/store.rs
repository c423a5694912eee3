//! A durable key/value store that encrypts sensitive values at rest.

use crate::crypto::{
    argon2id_key, master_key_bytes, open_blob, seals, utf8_bytes, utf8_decode, Crypto, MasterKey, AES_GCM_MAX_PLAINTEXT, NONCE_SIZE,
    SALT_SIZE, TAG_SIZE,
};
use crate::error::EuleError;
use vstd::prelude::*;
use vstd::string::{StrSliceExecFns, StringSliceAdditionalSpecFns};

verus! {

/// Declares sled's database handle.
#[verifier::external_type_specification]
#[verifier::external_body]
pub struct ExDb(sled::Db);

/// Declares sled's error, carried through as an opaque value.
#[verifier::external_type_specification]
#[verifier::external_body]
pub struct ExSledError(sled::Error);

/// The text that `String::from_utf8_lossy` makes of `bytes`.
pub uninterp spec fn lossy_utf8(bytes: Seq<u8>) -> Seq<char>;

/// Relies on sled's `open`: opens (or creates) the database at `path`.
#[verifier::external_body]
fn open_db(path: &str) -> Result<sled::Db, sled::Error> {
    sled::open(path)
}

/// Relies on sled's `Config::temporary`: a database in a fresh location that
/// is removed when it is dropped.
#[verifier::external_body]
fn open_temporary_db() -> Result<sled::Db, sled::Error> {
    sled::Config::new().temporary(true).open()
}

/// Relies on sled's `Tree::get`: the bytes stored under `key`, if any.
#[verifier::external_body]
fn db_get(db: &sled::Db, key: &str) -> Result<Option<Vec<u8>>, sled::Error> {
    db.get(key).map(|v| v.map(|iv| iv.to_vec()))
}

/// Relies on sled's `Tree::insert`: stores `value` under `key`.
#[verifier::external_body]
fn db_insert(db: &sled::Db, key: &str, value: Vec<u8>) -> Result<(), sled::Error> {
    db.insert(key, value).map(|_| ())
}

/// Relies on sled's `Tree::remove`: removes whatever is stored under `key`.
#[verifier::external_body]
fn db_remove(db: &sled::Db, key: &str) -> Result<(), sled::Error> {
    db.remove(key).map(|_| ())
}

/// Relies on sled's `Tree::flush`: writes every buffered change to disk.
#[verifier::external_body]
fn db_flush(db: &sled::Db) -> Result<(), sled::Error> {
    db.flush().map(|_| ())
}

/// Relies on std's `String::from_utf8_lossy`, whose result depends on the
/// bytes alone and is the text itself when the bytes are valid UTF-8.
#[verifier::external_body]
fn lossy_text(bytes: &[u8]) -> (r: String)
    ensures
        r@ == lossy_utf8(bytes@),
        utf8_decode(bytes@) matches Some(t) ==> r@ == t,
{
    String::from_utf8_lossy(bytes).into_owned()
}

/// The key under which the key-derivation salt is kept.
pub const SALT_KEY: &'static str = "crypto_salt";

/// The keys whose values are encrypted once encryption is initialised.
pub open spec fn is_sensitive(key: Seq<char>) -> bool {
    ||| key == "discord_token"@
    ||| key == "encryption_key"@
    ||| key == "api_key"@
    ||| key == "auth_token"@
}

/// Whether two strings hold the same characters.
pub fn str_equal(a: &str, b: &str) -> (r: bool)
    ensures
        r == (a@ == b@),
{
    let n = a.unicode_len();
    if n != b.unicode_len() {
        return false;
    }
    let mut i: usize = 0;
    while i < n
        invariant
            n == a@.len(),
            n == b@.len(),
            i <= n,
            forall|j: int| 0 <= j < i ==> a@[j] == b@[j],
        decreases n - i,
    {
        if a.get_char(i) != b.get_char(i) {
            return false;
        }
        i += 1;
    }
    proof { assert(a@ =~= b@); }
    true
}

/// A copy of `bytes` as a vector.
fn bytes_to_vec(bytes: &[u8]) -> (r: Vec<u8>)
    ensures
        r@ == bytes@,
{
    let mut out: Vec<u8> = Vec::new();
    let mut i: usize = 0;
    while i < bytes.len()
        invariant
            i <= bytes@.len(),
            out@ == bytes@.take(i as int),
        decreases bytes@.len() - i,
    {
        out.push(bytes[i]);
        proof { assert(bytes@.take(i + 1) =~= bytes@.take(i as int).push(bytes@[i as int])); }
        i += 1;
    }
    proof { assert(bytes@.take(bytes@.len() as int) =~= bytes@); }
    out
}

/// A durable key/value store. Values under the sensitive keys are
/// encrypted once `initialize_encryption` has run; all others are stored as
/// plain bytes. Every change is flushed before it is reported done.
pub struct KvStore {
    db: sled::Db,
    master_key: Option<MasterKey>,
}

impl KvStore {
    /// Whether a master key has been derived.
    pub closed spec fn encryption_enabled(&self) -> bool {
        self.master_key is Some
    }

    /// Opens the store at `path`, with encryption not yet initialised.
    pub fn new(path: &str) -> (r: Result<KvStore, EuleError>)
        ensures
            r matches Ok(s) ==> !s.encryption_enabled(),
            r matches Err(e) ==> e is Database,
    {
        match open_db(path) {
            Ok(db) => Ok(KvStore { db, master_key: None }),
            Err(e) => Err(EuleError::Database(e.to_string())),
        }
    }

    /// Opens a throw-away store, removed when it is dropped, with
    /// encryption not yet initialised.
    pub fn open_temporary() -> (r: Result<KvStore, EuleError>)
        ensures
            r matches Ok(s) ==> !s.encryption_enabled(),
            r matches Err(e) ==> e is Database,
    {
        match open_temporary_db() {
            Ok(db) => Ok(KvStore { db, master_key: None }),
            Err(e) => Err(EuleError::Database(e.to_string())),
        }
    }

    /// Whether `key` is one of the sensitive keys.
    pub fn is_sensitive_key(key: &str) -> (r: bool)
        ensures
            r == is_sensitive(key@),
    {
        str_equal(key, "discord_token") || str_equal(key, "encryption_key") || str_equal(key, "api_key")
            || str_equal(key, "auth_token")
    }

    /// Whether values under `key` are stored encrypted.
    pub fn encrypts(&self, key: &str) -> (r: bool)
        ensures
            r == (is_sensitive(key@) && self.encryption_enabled()),
    {
        Self::is_sensitive_key(key) && self.master_key.is_some()
    }

    /// The master key's bytes, once encryption is initialised.
    pub closed spec fn key_bytes(&self) -> Seq<u8> {
        master_key_bytes(self.master_key->Some_0)
    }

    /// The master key that initialisation derives from `password`, given
    /// what the store holds under the salt key (`stored`) and a freshly
    /// generated salt (`fresh`). A stored 16-byte salt is the one used, and
    /// nothing is to be written; with none stored, the fresh salt is used
    /// and is returned as the salt to write; a stored salt of any other
    /// length is a key-derivation error.
    pub fn key_from_salt_entry(stored: Option<Vec<u8>>, fresh: [u8; 16], password: &str) -> (r: Result<
        (MasterKey, Option<Vec<u8>>),
        EuleError,
    >)
        ensures
            match stored {
                Some(v) => if v@.len() == SALT_SIZE {
                    (password.spec_bytes().len() <= 0xFFFF_FFFF ==> r is Ok) && (r matches Ok(
                        (k, w),
                    ) ==> master_key_bytes(k) == argon2id_key(password@, v@) && w is None)
                } else {
                    r matches Err(e) && e is KeyDerivationError
                },
                None => (password.spec_bytes().len() <= 0xFFFF_FFFF ==> r is Ok) && (r matches Ok(
                    (k, w),
                ) ==> master_key_bytes(k) == argon2id_key(password@, fresh@) && (w matches Some(
                    x,
                ) && x@ == fresh@)),
            },
            r matches Err(e) ==> e is KeyDerivationError,
    {
        match stored {
            Some(existing) => {
                if existing.len() != SALT_SIZE {
                    return Err(EuleError::KeyDerivationError("stored salt has the wrong length".to_owned()));
                }
                match Crypto::derive_key(password, existing.as_slice()) {
                    Ok(k) => Ok((k, None)),
                    Err(e) => Err(e),
                }
            },
            None => {
                let to_write = bytes_to_vec(fresh.as_slice());
                match Crypto::derive_key(password, fresh.as_slice()) {
                    Ok(k) => Ok((k, Some(to_write))),
                    Err(e) => Err(e),
                }
            },
        }
    }

    /// Derives the master key from `password` and the store's salt,
    /// creating and storing a fresh random 16-byte salt first if the store
    /// has none (see `key_from_salt_entry`, which decides from what the
    /// store holds). The key is set once: a store whose encryption is
    /// initialised refuses a second call, keeping its key.
    pub fn initialize_encryption(&mut self, password: &str) -> (r: Result<(), EuleError>)
        ensures
            old(self).encryption_enabled() ==> (r matches Err(e) && e is KeyDerivationError),
            r is Ok ==> final(self).encryption_enabled() && exists|salt: Seq<u8>|
                salt.len() == SALT_SIZE && #[trigger] argon2id_key(password@, salt) == final(self).key_bytes(),
            r is Err ==> final(self).encryption_enabled() == old(self).encryption_enabled()
                && final(self).key_bytes() == old(self).key_bytes(),
            r matches Err(e) ==> e is Database || e is KeyDerivationError,
    {
        if self.master_key.is_some() {
            return Err(EuleError::KeyDerivationError("encryption is already initialised".to_owned()));
        }
        let stored = match db_get(&self.db, SALT_KEY) {
            Ok(v) => v,
            Err(e) => return Err(EuleError::Database(e.to_string())),
        };
        let fresh = match Crypto::generate_salt() {
            Ok(s) => s,
            Err(e) => return Err(e),
        };
        let (key, to_write) = match Self::key_from_salt_entry(stored, fresh, password) {
            Ok(pair) => pair,
            Err(e) => return Err(e),
        };
        match to_write {
            Some(salt) => {
                match db_insert(&self.db, SALT_KEY, salt) {
                    Ok(()) => {},
                    Err(e) => return Err(EuleError::Database(e.to_string())),
                }
                match db_flush(&self.db) {
                    Ok(()) => {},
                    Err(e) => return Err(EuleError::Database(e.to_string())),
                }
            },
            None => {},
        }
        self.master_key = Some(key);
        Ok(())
    }

    /// The bytes that `set` stores for `value` under `key`: the value's
    /// UTF-8 bytes, or, for a sensitive key once encryption is initialised,
    /// a nonce followed by the ciphertext and tag, which opens under the
    /// master key to the value's bytes and is longer than them, so never
    /// equal to them.
    pub fn encode_value(&self, key: &str, value: &str) -> (r: Result<Vec<u8>, EuleError>)
        ensures
            !(is_sensitive(key@) && self.encryption_enabled()) ==> (r matches Ok(v) && v@
                == value.spec_bytes()),
            is_sensitive(key@) && self.encryption_enabled() && value.spec_bytes().len()
                <= AES_GCM_MAX_PLAINTEXT ==> r is Ok,
            is_sensitive(key@) && self.encryption_enabled() ==> (r matches Ok(v) ==> v@.len()
                == NONCE_SIZE + value.spec_bytes().len() + TAG_SIZE && seals(self.key_bytes(), v@, value.spec_bytes())
                && open_blob(self.key_bytes(), v@) == Some(value@)),
            r matches Err(e) ==> e is EncryptionError,
    {
        let plain = utf8_bytes(value);
        if self.encrypts(key) {
            match &self.master_key {
                Some(k) => Crypto::encrypt(value, k),
                None => Ok(plain),
            }
        } else {
            Ok(plain)
        }
    }

    /// The text that `get` returns for bytes `stored` under `key`: the bytes
    /// read as (lossy) UTF-8, or, for a sensitive key once encryption is
    /// initialised, the value that the blob decrypts to under the master
    /// key; a blob that is too short, whose tag does not verify, or whose
    /// plaintext is not UTF-8 is a decryption error.
    pub fn decode_value(&self, key: &str, stored: &[u8]) -> (r: Result<String, EuleError>)
        ensures
            !(is_sensitive(key@) && self.encryption_enabled()) ==> (r matches Ok(s) && s@
                == lossy_utf8(stored@)),
            is_sensitive(key@) && self.encryption_enabled() ==> (r is Ok <==> open_blob(
                self.key_bytes(),
                stored@,
            ) is Some),
            is_sensitive(key@) && self.encryption_enabled() ==> (r matches Ok(s) ==> open_blob(
                self.key_bytes(),
                stored@,
            ) == Some(s@)),
            is_sensitive(key@) && self.encryption_enabled() && stored@.len() < NONCE_SIZE + TAG_SIZE ==> r is Err,
            r matches Err(e) ==> e is DecryptionError,
    {
        if self.encrypts(key) {
            match &self.master_key {
                Some(k) => Crypto::decrypt(stored, k),
                None => Ok(lossy_text(stored)),
            }
        } else {
            Ok(lossy_text(stored))
        }
    }

    /// The value stored under `key`, if any, decrypted where it is
    /// sensitive and encryption is initialised.
    pub fn get(&self, key: &str) -> (r: Result<Option<String>, EuleError>)
        ensures
            r matches Err(e) ==> e is Database || (e is DecryptionError && is_sensitive(key@)
                && self.encryption_enabled()),
    {
        match db_get(&self.db, key) {
            Ok(Some(stored)) => match self.decode_value(key, stored.as_slice()) {
                Ok(s) => Ok(Some(s)),
                Err(e) => Err(e),
            },
            Ok(None) => Ok(None),
            Err(e) => Err(EuleError::Database(e.to_string())),
        }
    }

    /// Stores `value` under `key` (encrypted where it is sensitive and
    /// encryption is initialised) and flushes it to disk.
    pub fn set(&self, key: &str, value: &str) -> (r: Result<(), EuleError>)
        ensures
            r matches Err(e) ==> e is Database || (e is EncryptionError && is_sensitive(key@)
                && self.encryption_enabled()),
    {
        let data = match self.encode_value(key, value) {
            Ok(d) => d,
            Err(e) => return Err(e),
        };
        match db_insert(&self.db, key, data) {
            Ok(()) => {},
            Err(e) => return Err(EuleError::Database(e.to_string())),
        }
        match db_flush(&self.db) {
            Ok(()) => Ok(()),
            Err(e) => Err(EuleError::Database(e.to_string())),
        }
    }

    /// Removes whatever is stored under `key` and flushes to disk.
    pub fn delete(&self, key: &str) -> (r: Result<(), EuleError>)
        ensures
            r matches Err(e) ==> e is Database,
    {
        match db_remove(&self.db, key) {
            Ok(()) => {},
            Err(e) => return Err(EuleError::Database(e.to_string())),
        }
        match db_flush(&self.db) {
            Ok(()) => Ok(()),
            Err(e) => Err(EuleError::Database(e.to_string())),
        }
    }
}

} // verus!
