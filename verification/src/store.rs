//! The credential store: wraps a persistent key-value store and keeps exactly
//! one entry, the gateway credential, under a single fixed key.
//!
//! The underlying store is modeled as a map from byte keys to byte values.
//! Both the read path and the write path go through the same fixed key, so a
//! credential saved by one run is found by the next.

use vstd::prelude::*;
use vstd::utf8::{decode_utf8, encode_utf8, valid_utf8};

verus! {

#[verifier::external_type_specification]
#[verifier::external_body]
pub struct ExDb(sled::Db);

#[verifier::external_type_specification]
#[verifier::external_body]
pub struct ExSledError(sled::Error);

/// The key-to-value mapping that the underlying store currently holds.
pub uninterp spec fn db_contents(db: sled::Db) -> Map<Seq<u8>, Seq<u8>>;

/// A fault of the credential store.
#[derive(Clone, Copy, Debug, PartialEq, Eq, Structural)]
pub enum StoreError {
    /// The store location could not be created or opened.
    StorageUnavailable,
    /// The underlying store reported a read failure.
    StorageReadError,
    /// The underlying store reported a write or flush failure.
    StorageWriteError,
    /// The stored credential bytes are not valid text.
    EncodingError,
}

/// The single well-known key under which the credential is stored. The same
/// key serves both `load` and `save`.
pub const CREDENTIAL_KEY: &'static str = "credential";

/// The byte form of the fixed credential key.
pub open spec fn credential_key() -> Seq<u8> {
    encode_utf8(CREDENTIAL_KEY@)
}

/// A handle on the persistent store, restricted to the one credential entry.
pub struct CredentialStore {
    db: sled::Db,
}

impl CredentialStore {
    /// The mapping the underlying store currently holds.
    pub closed spec fn contents(self) -> Map<Seq<u8>, Seq<u8>> {
        db_contents(self.db)
    }

    /// Relies on sled::open: opens the database at the path, creating it if
    /// absent; on success the handle reflects whatever the disk holds.
    #[verifier::external_body]
    fn raw_open(path: &str) -> (r: Result<sled::Db, sled::Error>) {
        sled::open(path)
    }

    /// Relies on sled::Tree::get: returns the value stored under the key if
    /// it exists, and `None` if the key is absent.
    #[verifier::external_body]
    fn raw_get(&self, key: &[u8]) -> (r: Result<Option<Vec<u8>>, sled::Error>)
        ensures
            r matches Ok(v) ==> match v {
                Some(b) => db_contents(self.db).contains_key(key@) && db_contents(self.db)[key@] == b@,
                None => !db_contents(self.db).contains_key(key@),
            },
    {
        match self.db.get(key) {
            Ok(Some(ivec)) => Ok(Some(ivec.to_vec())),
            Ok(None) => Ok(None),
            Err(e) => Err(e),
        }
    }

    /// Relies on sled::Tree::insert: on success the key maps to the value and
    /// every other key is unaffected.
    #[verifier::external_body]
    fn raw_insert(&mut self, key: &[u8], value: &[u8]) -> (r: Result<(), sled::Error>)
        ensures
            r is Ok ==> db_contents(final(self).db) == db_contents(old(self).db).insert(key@, value@),
    {
        match self.db.insert(key, value) {
            Ok(_) => Ok(()),
            Err(e) => Err(e),
        }
    }

    /// Relies on sled::Tree::flush: synchronously makes all prior writes
    /// durable; the stored mapping is not changed.
    #[verifier::external_body]
    fn raw_flush(&self) -> (r: Result<(), sled::Error>) {
        match self.db.flush() {
            Ok(_) => Ok(()),
            Err(e) => Err(e),
        }
    }

    /// Opens (creating if absent) the persistent store at the given location.
    pub fn open(path: &str) -> (r: Result<CredentialStore, StoreError>)
        ensures
            r matches Err(e) ==> e == StoreError::StorageUnavailable,
    {
        match Self::raw_open(path) {
            Ok(db) => Ok(CredentialStore { db }),
            Err(_) => Err(StoreError::StorageUnavailable),
        }
    }

    /// Wraps an already opened database handle as a credential store.
    pub fn new(db: sled::Db) -> (r: CredentialStore)
        ensures
            r.contents() == db_contents(db),
    {
        CredentialStore { db }
    }

    /// Looks up the fixed credential key. Unless the underlying read fails,
    /// the result is exactly determined by the stored mapping: `None` when
    /// the key is absent, the decoded text when its bytes are valid UTF-8,
    /// and `EncodingError` when they are not.
    pub fn load(&self) -> (r: Result<Option<String>, StoreError>)
        ensures
            r != Err::<Option<String>, StoreError>(StoreError::StorageReadError) ==> {
                let m = self.contents();
                &&& !m.contains_key(credential_key()) ==> r == Ok::<Option<String>, StoreError>(None)
                &&& m.contains_key(credential_key()) && valid_utf8(m[credential_key()])
                    ==> (r matches Ok(Some(s)) && s@ == decode_utf8(m[credential_key()]))
                &&& m.contains_key(credential_key()) && !valid_utf8(m[credential_key()])
                    ==> r == Err::<Option<String>, StoreError>(StoreError::EncodingError)
            },
            r matches Err(e) ==> e == StoreError::StorageReadError || e == StoreError::EncodingError,
    {
        match self.raw_get(CREDENTIAL_KEY.as_bytes()) {
            Ok(Some(bytes)) => match bytes_to_text(bytes) {
                Some(text) => Ok(Some(text)),
                None => Err(StoreError::EncodingError),
            },
            Ok(None) => Ok(None),
            Err(_) => Err(StoreError::StorageReadError),
        }
    }

    /// Writes the credential under the fixed key and durably commits the
    /// write. On success, the stored mapping holds the credential's UTF-8
    /// bytes under the credential key and every other key is unaffected.
    pub fn save(&mut self, credential: &str) -> (r: Result<(), StoreError>)
        requires
            credential@.len() > 0,
        ensures
            r is Ok ==> final(self).contents()
                == old(self).contents().insert(credential_key(), encode_utf8(credential@)),
            r matches Err(e) ==> e == StoreError::StorageWriteError,
    {
        match self.raw_insert(CREDENTIAL_KEY.as_bytes(), credential.as_bytes()) {
            Ok(()) => match self.raw_flush() {
                Ok(()) => Ok(()),
                Err(_) => Err(StoreError::StorageWriteError),
            },
            Err(_) => Err(StoreError::StorageWriteError),
        }
    }
}

/// Relies on String::from_utf8: returns the text whose UTF-8 encoding the
/// bytes are, and `None` exactly when the bytes are not valid UTF-8.
#[verifier::external_body]
fn bytes_to_text(bytes: Vec<u8>) -> (r: Option<String>)
    ensures
        r is None ==> !valid_utf8(bytes@),
        r matches Some(s) ==> valid_utf8(bytes@) && s@ == decode_utf8(bytes@),
{
    match String::from_utf8(bytes) {
        Ok(s) => Some(s),
        Err(_) => None,
    }
}

/// Round trip: after a successful `save` of a credential `c`, the stored
/// bytes under the credential key are valid UTF-8 and decode back to exactly
/// `c`, whatever the store held before. With `load`'s contract this pins a
/// subsequent successful `load` to return `Some(c)`.
pub proof fn lemma_save_load_round_trip(m: Map<Seq<u8>, Seq<u8>>, c: Seq<char>)
    ensures
        ({
            let saved = m.insert(credential_key(), encode_utf8(c));
            &&& saved.contains_key(credential_key())
            &&& valid_utf8(saved[credential_key()])
            &&& decode_utf8(saved[credential_key()]) == c
        }),
{
    broadcast use vstd::utf8::encode_utf8_valid_utf8, vstd::utf8::encode_utf8_decode_utf8;

}

} // verus!
