//! Errors of the vault, each tagged with the stage that failed.

use vstd::prelude::*;
use vstd::string::*;

verus! {

/// The stage at which a vault operation failed.
#[derive(Clone, Copy, Debug, PartialEq, Eq, Structural)]
pub enum ErrorKind {
    /// The key-derivation function could not complete.
    Hashing,
    /// The authenticated cipher could not seal the plaintext.
    Encryption,
    /// The sealed record did not authenticate under the key and nonce.
    Decryption,
    /// The opened bytes are not a verifier in its text encoding.
    MalformedVerifier,
    /// The stored nonce is not exactly `NONCE_SIZE` bytes long.
    CorruptRow,
    /// The backing store failed.
    Storage,
    /// The vault holds no record yet.
    NotFound,
    /// The vault already holds its record and takes no second one.
    AlreadyInitialized,
}

/// A failed vault operation: the stage, and what the failing layer said.
#[derive(Debug, PartialEq, Eq)]
pub struct VaultError {
    pub kind: ErrorKind,
    pub detail: String,
}

/// The text that opens the message of an error of the given kind.
pub open spec fn stage_tag(kind: ErrorKind) -> Seq<char> {
    match kind {
        ErrorKind::Hashing => "Hashing credentials failed: "@,
        ErrorKind::Encryption => "Encryption failed: Error"@,
        ErrorKind::Decryption => "Master key decryption error: Error"@,
        ErrorKind::MalformedVerifier => "Invalid master key hash: "@,
        ErrorKind::CorruptRow => "Invalid nonce size"@,
        ErrorKind::Storage => "Vault storage failed: "@,
        ErrorKind::NotFound => "Vault not found"@,
        ErrorKind::AlreadyInitialized => "Vault already initialized"@,
    }
}

/// Forgets the detail of an error: what a result is, up to the wording.
pub open spec fn kind_of<T>(r: Result<T, VaultError>) -> Result<T, ErrorKind> {
    match r {
        Ok(v) => Ok(v),
        Err(e) => Err(e.kind),
    }
}

impl VaultError {
    /// The human-readable message: the stage tag, then the detail.
    pub open spec fn message_spec(&self) -> Seq<char> {
        stage_tag(self.kind) + self.detail@
    }

    /// An error of the given kind that carries no detail.
    pub fn bare(kind: ErrorKind) -> (e: VaultError)
        ensures
            e.kind == kind,
            e.detail@ == Seq::<char>::empty(),
    {
        VaultError { kind, detail: String::new() }
    }

    /// A failure of the backing store, with the store's own words.
    pub fn storage(detail: String) -> (e: VaultError)
        ensures
            e.kind == ErrorKind::Storage,
            e.detail == detail,
    {
        VaultError { kind: ErrorKind::Storage, detail }
    }

    /// The message shown to the caller.
    pub fn message(&self) -> (text: String)
        ensures
            text@ == self.message_spec(),
    {
        let tag: &str = match self.kind {
            ErrorKind::Hashing => "Hashing credentials failed: ",
            ErrorKind::Encryption => "Encryption failed: Error",
            ErrorKind::Decryption => "Master key decryption error: Error",
            ErrorKind::MalformedVerifier => "Invalid master key hash: ",
            ErrorKind::CorruptRow => "Invalid nonce size",
            ErrorKind::Storage => "Vault storage failed: ",
            ErrorKind::NotFound => "Vault not found",
            ErrorKind::AlreadyInitialized => "Vault already initialized",
        };
        let mut text = tag.to_owned();
        text.append(self.detail.as_str());
        text
    }
}

} // verus!
