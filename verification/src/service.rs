//! The vault service: the two flows that the host invokes. Initialization
//! derives a verifier, seals it and stores it as the vault's single record;
//! login loads that record, opens it and checks the candidate against it.

use crate::cipher::{
    aes_gcm_open, decrypt, encrypt, may_fail_to_seal, opens, seals, KEY_SIZE, NONCE_SIZE,
};
use crate::error::{kind_of, ErrorKind, VaultError};
use crate::hasher::{
    check_opened_verifier, derives, hash_credentials, may_fail_to_derive, text_outcome,
    verifies_bytes,
};
use crate::store::{initialize_database, load_spec, rows_of, RowView, VaultStore};
use vstd::prelude::*;
use vstd::utf8::*;

verus! {

/// The acknowledgement of a successful initialization.
pub open spec fn vault_created() -> Seq<char> {
    "Vault created successfully"@
}

/// A row that holds, sealed under the key, a verifier derived from the
/// credential.
pub open spec fn holds_sealed_verifier(row: RowView, key: Seq<u8>, credential: Seq<char>) -> bool {
    exists|verifier: Seq<char>|
        derives(credential, verifier) && #[trigger] seals(
            key,
            encode_utf8(verifier),
            row.sealed_hash,
            row.nonce,
        )
}

/// What `initialize_app` may do to the table and answer. It succeeds only on
/// a vault without a record, which then holds exactly the new one; whenever
/// it fails the table is as it was.
pub open spec fn initializes(
    before: Option<Seq<RowView>>,
    key: Seq<u8>,
    credential: Seq<char>,
    after: Option<Seq<RowView>>,
    outcome: Result<Seq<char>, ErrorKind>,
) -> bool {
    match outcome {
        Ok(ack) => {
            &&& ack == vault_created()
            &&& rows_of(before).len() == 0
            &&& after is Some
            &&& rows_of(after).len() == 1
            &&& holds_sealed_verifier(rows_of(after)[0], key, credential)
        },
        Err(kind) => {
            &&& after == before
            &&& match kind {
                ErrorKind::Hashing => may_fail_to_derive(credential),
                ErrorKind::Encryption => exists|verifier: Seq<char>|
                    derives(credential, verifier) && #[trigger] may_fail_to_seal(
                        key,
                        encode_utf8(verifier),
                    ),
                ErrorKind::AlreadyInitialized => rows_of(before).len() > 0,
                _ => false,
            }
        },
    }
}

/// What opening a row under a key comes to.
pub open spec fn opened_row(key: Seq<u8>, row: RowView) -> Result<Seq<u8>, ErrorKind> {
    match aes_gcm_open(key, row.nonce, row.sealed_hash) {
        Some(plaintext) => Ok(plaintext),
        None => Err(ErrorKind::Decryption),
    }
}

/// What `login_hash_comparison` answers. A failure to load or to open the
/// record is that failure; only a record that opens is held against the
/// candidate.
pub open spec fn logs_in(
    table: Option<Seq<RowView>>,
    key: Seq<u8>,
    candidate: Seq<char>,
    outcome: Result<bool, ErrorKind>,
) -> bool {
    match load_spec(table) {
        Err(kind) => outcome == Err::<bool, ErrorKind>(kind),
        Ok(row) => {
            &&& opens(key, row.sealed_hash, row.nonce, opened_row(key, row))
            &&& match opened_row(key, row) {
                Err(kind) => outcome == Err::<bool, ErrorKind>(kind),
                Ok(opened) => verifies_bytes(candidate, opened, outcome),
            }
        },
    }
}

/// Establishes the master credential of a vault that has none: derives its
/// verifier, seals the verifier's text under the key, and stores the sealed
/// record.
pub fn initialize_app(
    store: &mut VaultStore,
    key: &[u8; KEY_SIZE],
    master_key: &str,
) -> (r: Result<String, VaultError>)
    ensures
        initializes(old(store)@, key@, master_key@, final(store)@, text_outcome(r)),
{
    let master_key_hash = match hash_credentials(master_key) {
        Ok(verifier) => verifier,
        Err(e) => {
            return Err(e);
        },
    };
    let (encrypted_master_key_hash, key_nonce) = match encrypt(
        key,
        master_key_hash.as_str().as_bytes(),
    ) {
        Ok(sealed) => sealed,
        Err(e) => {
            return Err(e);
        },
    };
    let ghost row = RowView { sealed_hash: encrypted_master_key_hash@, nonce: key_nonce@ };
    match initialize_database(store, encrypted_master_key_hash, key_nonce) {
        Ok(()) => {
            assert(seals(key@, encode_utf8(master_key_hash@), row.sealed_hash, row.nonce));
            Ok("Vault created successfully".to_owned())
        },
        Err(e) => Err(e),
    }
}

/// Checks a login attempt against the vault's record. The answer `false`
/// means a wrong credential and nothing else.
pub fn login_hash_comparison(
    store: &VaultStore,
    key: &[u8; KEY_SIZE],
    master_key: &str,
) -> (r: Result<bool, VaultError>)
    ensures
        logs_in(store@, key@, master_key@, kind_of(r)),
{
    let record = match store.load_singleton() {
        Ok(record) => record,
        Err(e) => {
            return Err(e);
        },
    };
    let opened = match decrypt(key, record.ciphertext.as_slice(), &record.nonce) {
        Ok(opened) => opened,
        Err(e) => {
            return Err(e);
        },
    };
    check_opened_verifier(master_key, opened.as_slice())
}

/// A login before any initialization finds no vault: it answers `NotFound`,
/// never `false`, whatever the key and the candidate.
pub proof fn lemma_login_before_initialize(
    table: Option<Seq<RowView>>,
    key: Seq<u8>,
    candidate: Seq<char>,
    outcome: Result<bool, ErrorKind>,
)
    requires
        rows_of(table).len() == 0,
        logs_in(table, key, candidate, outcome),
    ensures
        outcome == Err::<bool, ErrorKind>(ErrorKind::NotFound),
{
}

/// After a successful initialization, a login with the same key and the same
/// credential answers `true`.
pub proof fn lemma_login_after_initialize(
    before: Option<Seq<RowView>>,
    key: Seq<u8>,
    credential: Seq<char>,
    after: Option<Seq<RowView>>,
    ack: Seq<char>,
    outcome: Result<bool, ErrorKind>,
)
    requires
        initializes(before, key, credential, after, Ok(ack)),
        logs_in(after, key, credential, outcome),
    ensures
        outcome == Ok::<bool, ErrorKind>(true),
{
    let row = rows_of(after)[0];
    let verifier = choose|verifier: Seq<char>|
        derives(credential, verifier) && #[trigger] seals(
            key,
            encode_utf8(verifier),
            row.sealed_hash,
            row.nonce,
        );
    encode_utf8_valid_utf8(verifier);
    encode_utf8_decode_utf8(verifier);
}

/// An initialized vault takes no second credential: initialization fails and
/// leaves the record as it was, so the first credential still logs in.
pub proof fn lemma_initialized_vault_refuses(
    before: Option<Seq<RowView>>,
    key: Seq<u8>,
    credential: Seq<char>,
    after: Option<Seq<RowView>>,
    outcome: Result<Seq<char>, ErrorKind>,
)
    requires
        rows_of(before).len() > 0,
        initializes(before, key, credential, after, outcome),
    ensures
        outcome is Err,
        after == before,
{
}

/// A record that does not open is an error, never the answer `false`.
pub proof fn lemma_unopened_record_is_an_error(
    table: Option<Seq<RowView>>,
    key: Seq<u8>,
    candidate: Seq<char>,
    outcome: Result<bool, ErrorKind>,
)
    requires
        load_spec(table) matches Ok(row) && aes_gcm_open(key, row.nonce, row.sealed_hash) is None,
        logs_in(table, key, candidate, outcome),
    ensures
        outcome == Err::<bool, ErrorKind>(ErrorKind::Decryption),
{
}

} // verus!
