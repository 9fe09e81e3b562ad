//! The credential bootstrap: look the credential up in the store; when it is
//! absent, the caller prompts the operator and hands the entered line back,
//! which is trimmed, validated, and persisted.

use vstd::prelude::*;
use vstd::utf8::{decode_utf8, encode_utf8, valid_utf8};

use crate::store::{credential_key, CredentialStore, StoreError};
use crate::trim::{trim, trim_s};

verus! {

/// A fault of the credential bootstrap.
#[derive(Clone, Copy, Debug, PartialEq, Eq, Structural)]
pub enum BootstrapError {
    /// The credential store failed.
    Store(StoreError),
    /// Reading the operator's input failed (for instance on end of input).
    CredentialInputError,
    /// The operator's input was empty after trimming.
    InvalidCredential,
}

/// What the bootstrap found in the store.
#[derive(Debug, PartialEq, Eq)]
pub enum BootstrapOutcome {
    /// A credential is already stored; no operator interaction is needed.
    Ready(String),
    /// The store holds no credential: the operator must be prompted.
    MustPrompt,
}

/// Asks the store for the credential. Unless the underlying read fails, the
/// result is exactly determined by the stored mapping: `MustPrompt` when the
/// credential key is absent, the decoded credential when its bytes are valid
/// UTF-8, and `EncodingError` when they are not.
pub fn ensure_credential(store: &CredentialStore) -> (r: Result<BootstrapOutcome, StoreError>)
    ensures
        r matches Ok(BootstrapOutcome::Ready(c))
            ==> store.contents().contains_key(credential_key())
                && valid_utf8(store.contents()[credential_key()])
                && c@ == decode_utf8(store.contents()[credential_key()]),
        r matches Ok(BootstrapOutcome::MustPrompt)
            ==> !store.contents().contains_key(credential_key()),
        r matches Err(e) ==> e == StoreError::StorageReadError || e == StoreError::EncodingError,
        r != Err::<BootstrapOutcome, StoreError>(StoreError::StorageReadError) ==> {
            let m = store.contents();
            &&& !m.contains_key(credential_key())
                ==> r == Ok::<BootstrapOutcome, StoreError>(BootstrapOutcome::MustPrompt)
            &&& m.contains_key(credential_key()) && valid_utf8(m[credential_key()])
                ==> (r matches Ok(BootstrapOutcome::Ready(c))
                    && c@ == decode_utf8(m[credential_key()]))
            &&& m.contains_key(credential_key()) && !valid_utf8(m[credential_key()])
                ==> r == Err::<BootstrapOutcome, StoreError>(StoreError::EncodingError)
        },
{
    match store.load() {
        Ok(Some(credential)) => Ok(BootstrapOutcome::Ready(credential)),
        Ok(None) => Ok(BootstrapOutcome::MustPrompt),
        Err(e) => Err(e),
    }
}

/// Takes the line the operator entered, trims surrounding whitespace,
/// rejects an empty result, and persists the trimmed credential. On success
/// the returned credential is exactly the trimmed input and the store holds
/// its UTF-8 bytes under the credential key.
pub fn accept_credential(store: &mut CredentialStore, raw: &str) -> (r: Result<
    String,
    BootstrapError,
>)
    ensures
        r == Err::<String, BootstrapError>(BootstrapError::InvalidCredential)
            <==> trim_s(raw@).len() == 0,
        trim_s(raw@).len() == 0 ==> final(store).contents() == old(store).contents(),
        r matches Ok(c) ==> c@ == trim_s(raw@) && trim_s(raw@).len() > 0
            && final(store).contents() == old(store).contents().insert(
                credential_key(),
                encode_utf8(trim_s(raw@)),
            ),
        r matches Err(e) ==> e == BootstrapError::InvalidCredential || e
            == BootstrapError::Store(StoreError::StorageWriteError),
{
    let trimmed = trim(raw);
    if trimmed.is_empty() {
        Err(BootstrapError::InvalidCredential)
    } else {
        match store.save(trimmed) {
            Ok(()) => Ok(trimmed.to_owned()),
            Err(e) => Err(BootstrapError::Store(e)),
        }
    }
}

/// Once a credential `c` stands in the store, a later bootstrap never asks to
/// prompt again, and any credential it reports is exactly `c`: the facts that
/// `save` and `accept_credential` establish about the stored mapping, joined
/// with `ensure_credential`'s contract, force every successful outcome to be
/// `Ready(c)`.
pub proof fn lemma_bootstrap_idempotent(
    saved: Map<Seq<u8>, Seq<u8>>,
    c: Seq<char>,
    r: Result<BootstrapOutcome, StoreError>,
)
    requires
        saved.contains_key(credential_key()),
        saved[credential_key()] == encode_utf8(c),
        r matches Ok(BootstrapOutcome::Ready(d))
            ==> valid_utf8(saved[credential_key()]) && d@ == decode_utf8(saved[credential_key()]),
        r matches Ok(BootstrapOutcome::MustPrompt) ==> !saved.contains_key(credential_key()),
    ensures
        r matches Ok(o) ==> o matches BootstrapOutcome::Ready(d) && d@ == c,
{
    broadcast use vstd::utf8::encode_utf8_decode_utf8;

}

} // verus!
