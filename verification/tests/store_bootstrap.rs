use chatbot::bootstrap::accept_credential;
use chatbot::bootstrap::ensure_credential;
use chatbot::bootstrap::BootstrapError;
use chatbot::bootstrap::BootstrapOutcome;
use chatbot::store::CredentialStore;
use chatbot::store::StoreError;
use chatbot::trim::trim;

fn ephemeral_store() -> CredentialStore {
    let db = sled::Config::new()
        .temporary(true)
        .open()
        .expect("an ephemeral database should open");
    CredentialStore::new(db)
}

#[test]
fn fresh_store_holds_no_credential() {
    let store = ephemeral_store();
    assert_eq!(store.load().unwrap(), None);
}

#[test]
fn save_then_load_round_trips() {
    let mut store = ephemeral_store();
    store.save("abc123").unwrap();
    assert_eq!(store.load().unwrap(), Some(String::from("abc123")));
}

#[test]
fn save_then_load_round_trips_non_ascii() {
    let mut store = ephemeral_store();
    store.save("gehäim-töken-🤖-秘密").unwrap();
    assert_eq!(store.load().unwrap(), Some(String::from("gehäim-töken-🤖-秘密")));
}

#[test]
fn save_replaces_the_previous_credential() {
    let mut store = ephemeral_store();
    store.save("first").unwrap();
    store.save("second").unwrap();
    assert_eq!(store.load().unwrap(), Some(String::from("second")));
}

#[test]
fn bootstrap_on_empty_store_then_again_without_prompt() {
    // First run: the store is empty, so the operator is prompted and enters
    // "abc123"; afterwards the store holds it.
    let db = sled::Config::new()
        .temporary(true)
        .open()
        .expect("an ephemeral database should open");
    let second_handle = db.clone();
    let mut store = CredentialStore::new(db);
    assert!(matches!(ensure_credential(&store).unwrap(), BootstrapOutcome::MustPrompt));
    let accepted = accept_credential(&mut store, "abc123\n").unwrap();
    assert_eq!(accepted, "abc123");
    assert_eq!(store.load().unwrap(), Some(String::from("abc123")));
    // Second run on the same store: the credential is found, no prompt.
    let second_store = CredentialStore::new(second_handle);
    match ensure_credential(&second_store).unwrap() {
        BootstrapOutcome::Ready(c) => assert_eq!(c, "abc123"),
        BootstrapOutcome::MustPrompt => panic!("a stored credential must be found"),
    }
}

#[test]
fn ensure_credential_is_idempotent_after_bootstrap() {
    let mut store = ephemeral_store();
    assert!(matches!(ensure_credential(&store).unwrap(), BootstrapOutcome::MustPrompt));
    accept_credential(&mut store, "  token-1  ").unwrap();
    // Every later call returns the same credential and never asks to prompt.
    for _ in 0..2 {
        match ensure_credential(&store).unwrap() {
            BootstrapOutcome::Ready(c) => assert_eq!(c, "token-1"),
            BootstrapOutcome::MustPrompt => panic!("no second prompt may happen"),
        }
    }
}

#[test]
fn whitespace_only_credential_is_rejected() {
    let mut store = ephemeral_store();
    let r = accept_credential(&mut store, " \t\r\n  ");
    assert_eq!(r.unwrap_err(), BootstrapError::InvalidCredential);
    // The store was not touched: a later bootstrap still prompts.
    assert!(matches!(ensure_credential(&store).unwrap(), BootstrapOutcome::MustPrompt));
}

#[test]
fn empty_credential_is_rejected() {
    let mut store = ephemeral_store();
    let r = accept_credential(&mut store, "");
    assert_eq!(r.unwrap_err(), BootstrapError::InvalidCredential);
}

#[test]
fn surrounding_whitespace_is_stripped_from_credential() {
    let mut store = ephemeral_store();
    let accepted = accept_credential(&mut store, "\t  secret token \n").unwrap();
    assert_eq!(accepted, "secret token");
    assert_eq!(store.load().unwrap(), Some(String::from("secret token")));
}

#[test]
fn stored_bytes_that_are_not_text_give_encoding_error() {
    let db = sled::Config::new()
        .temporary(true)
        .open()
        .expect("an ephemeral database should open");
    db.insert("credential", &[0xC3u8, 0x28u8][..]).unwrap();
    let store = CredentialStore::new(db);
    assert_eq!(store.load().unwrap_err(), StoreError::EncodingError);
}

#[test]
fn unusable_location_gives_storage_unavailable() {
    let r = CredentialStore::open("/dev/null/not-a-directory");
    match r {
        Ok(_) => panic!("a store must not open under a non-directory"),
        Err(e) => assert_eq!(e, StoreError::StorageUnavailable),
    }
}

#[test]
fn trim_removes_surrounding_whitespace_only() {
    assert_eq!(trim("  a b  "), "a b");
    assert_eq!(trim("\u{00A0}\u{2003}x\u{3000}"), "x");
    assert_eq!(trim("inner  space"), "inner  space");
    assert_eq!(trim("   "), "");
    assert_eq!(trim(""), "");
}
