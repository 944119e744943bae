//! Credential vault core: derive a salted verifier for a master credential,
//! seal it under an authenticated cipher, keep it as the single row of the
//! vault store, and later check login attempts against it.
//!
//! - `hasher`: Argon2id verifiers, derived and checked.
//! - `cipher`: the AES-256-GCM envelope around a verifier.
//! - `store`: the table that holds the sealed record.
//! - `service`: initialization and login, composed of the three.
//! - `error`: the failures of all of them, tagged by stage.
//!
//! The cipher key is the caller's: it is generated once, kept in a protected
//! place, and handed to every call that seals or opens.

pub mod cipher;
pub mod error;
pub mod hasher;
pub mod service;
pub mod store;

pub use crate::cipher::{
    decrypt, encrypt, encrypt_with_nonce, generate_aes_key, generate_nonce, KEY_SIZE, NONCE_SIZE,
};
pub use crate::error::{ErrorKind, VaultError};
pub use crate::hasher::{
    check_opened_verifier, has_oversized_parallelism, hash_credentials, hash_with_salt,
    verify_credentials,
};
pub use crate::service::{initialize_app, login_hash_comparison};
pub use crate::store::{initialize_database, nonce_from_blob, SealedRecord, StoredRow, VaultStore};
