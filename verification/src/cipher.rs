//! The envelope cipher: AES-256-GCM under a caller-held key, with a fresh
//! random nonce for every sealing and no associated data.

use crate::error::{ErrorKind, VaultError};
use aes_gcm::aead::generic_array::GenericArray;
use aes_gcm::aead::rand_core::RngCore;
use aes_gcm::aead::{Aead, OsRng};
use aes_gcm::{Aes256Gcm, Key, KeyInit};
use vstd::prelude::*;

verus! {

/// Length of the cipher key in bytes (256 bits).
pub const KEY_SIZE: usize = 32;

/// Length of the nonce in bytes (96 bits).
pub const NONCE_SIZE: usize = 12;

/// The opaque error of the AEAD traits, `aes_gcm::Error`.
#[verifier::external_type_specification]
#[verifier::external_body]
pub struct ExAeadError(aes_gcm::Error);

/// What `Aes256Gcm::encrypt` returns for a key, a nonce and a plaintext with
/// no associated data: the ciphertext followed by its tag, or `None` where the
/// cipher refuses the plaintext.
pub uninterp spec fn aes_gcm_seal(key: Seq<u8>, nonce: Seq<u8>, plaintext: Seq<u8>) -> Option<
    Seq<u8>,
>;

/// What `Aes256Gcm::decrypt` returns for a key, a nonce and a ciphertext with
/// no associated data: the plaintext, or `None` where the tag does not
/// authenticate the ciphertext.
pub uninterp spec fn aes_gcm_open(key: Seq<u8>, nonce: Seq<u8>, ciphertext: Seq<u8>) -> Option<
    Seq<u8>,
>;

/// `OsRng.fill_bytes` on a zeroed array: `N` bytes from the operating
/// system's random source. Nothing is claimed of the bytes. The call aborts
/// only where the operating system cannot supply randomness.
#[verifier::external_body]
fn os_random<const N: usize>() -> (bytes: [u8; N]) {
    let mut bytes = [0u8; N];
    OsRng.fill_bytes(&mut bytes);
    bytes
}

/// `Aes256Gcm::new` on the key, then `Aead::encrypt` with the nonce and the
/// plaintext alone as payload. The result is a function of the three byte
/// strings: it is `aes_gcm_seal` of them.
#[verifier::external_body]
fn gcm_encrypt(key: &[u8; KEY_SIZE], nonce: &[u8; NONCE_SIZE], plaintext: &[u8]) -> (r: Result<
    Vec<u8>,
    aes_gcm::Error,
>)
    ensures
        match r {
            Ok(ciphertext) => aes_gcm_seal(key@, nonce@, plaintext@) == Some(ciphertext@),
            Err(_) => aes_gcm_seal(key@, nonce@, plaintext@) is None,
        },
{
    let cipher = Aes256Gcm::new(Key::<Aes256Gcm>::from_slice(key));
    cipher.encrypt(GenericArray::from_slice(nonce), plaintext)
}

/// `Aes256Gcm::new` on the key, then `Aead::decrypt` with the nonce and the
/// ciphertext alone as payload. The result is `aes_gcm_open` of the three byte
/// strings. Decryption recomputes the tag over the ciphertext and undoes the
/// counter-mode keystream, so it gives back every plaintext that encryption
/// under the same key and nonce turned into this ciphertext.
#[verifier::external_body]
fn gcm_decrypt(key: &[u8; KEY_SIZE], nonce: &[u8; NONCE_SIZE], ciphertext: &[u8]) -> (r: Result<
    Vec<u8>,
    aes_gcm::Error,
>)
    ensures
        match r {
            Ok(plaintext) => aes_gcm_open(key@, nonce@, ciphertext@) == Some(plaintext@),
            Err(_) => aes_gcm_open(key@, nonce@, ciphertext@) is None,
        },
        forall|p: Seq<u8>|
            #![trigger aes_gcm_seal(key@, nonce@, p)]
            aes_gcm_seal(key@, nonce@, p) == Some(ciphertext@) ==> r.is_ok() && r.unwrap()@ == p,
{
    let cipher = Aes256Gcm::new(Key::<Aes256Gcm>::from_slice(key));
    cipher.decrypt(GenericArray::from_slice(nonce), ciphertext)
}

/// What `encrypt` may hand back for a key and a plaintext: a ciphertext and
/// the nonce under which it seals the plaintext.
pub open spec fn seals(key: Seq<u8>, plaintext: Seq<u8>, ciphertext: Seq<u8>, nonce: Seq<u8>) -> bool {
    &&& nonce.len() == NONCE_SIZE
    &&& aes_gcm_seal(key, nonce, plaintext) == Some(ciphertext)
}

/// Whether sealing the plaintext under the key fails for some nonce.
pub open spec fn may_fail_to_seal(key: Seq<u8>, plaintext: Seq<u8>) -> bool {
    exists|nonce: Seq<u8>|
        nonce.len() == NONCE_SIZE && #[trigger] aes_gcm_seal(key, nonce, plaintext) is None
}

/// What `decrypt` hands back for a key, a ciphertext and a nonce: the outcome
/// of opening, which is the plaintext for every ciphertext that seals one
/// under this key and nonce.
pub open spec fn opens(
    key: Seq<u8>,
    ciphertext: Seq<u8>,
    nonce: Seq<u8>,
    outcome: Result<Seq<u8>, ErrorKind>,
) -> bool {
    &&& outcome == match aes_gcm_open(key, nonce, ciphertext) {
        Some(plaintext) => Ok::<Seq<u8>, ErrorKind>(plaintext),
        None => Err::<Seq<u8>, ErrorKind>(ErrorKind::Decryption),
    }
    &&& forall|p: Seq<u8>| #[trigger]
        aes_gcm_seal(key, nonce, p) == Some(ciphertext) ==> outcome == Ok::<Seq<u8>, ErrorKind>(p)
}

/// A result with its bytes and its error seen as plain values.
pub open spec fn bytes_outcome(r: Result<Vec<u8>, VaultError>) -> Result<Seq<u8>, ErrorKind> {
    match r {
        Ok(bytes) => Ok(bytes@),
        Err(e) => Err(e.kind),
    }
}

/// A fresh 256-bit cipher key from the operating system's random source.
/// The caller keeps it in a protected place and hands it to every sealing and
/// opening of the same vault.
pub fn generate_aes_key() -> (key: [u8; KEY_SIZE])
    ensures
        key@.len() == KEY_SIZE,
{
    os_random::<KEY_SIZE>()
}

/// A fresh 96-bit nonce from the operating system's random source.
pub fn generate_nonce() -> (nonce: [u8; NONCE_SIZE])
    ensures
        nonce@.len() == NONCE_SIZE,
{
    os_random::<NONCE_SIZE>()
}

/// Seals the plaintext under the key and the given nonce.
pub fn encrypt_with_nonce(
    key: &[u8; KEY_SIZE],
    nonce: &[u8; NONCE_SIZE],
    plaintext: &[u8],
) -> (r: Result<Vec<u8>, VaultError>)
    ensures
        bytes_outcome(r) == match aes_gcm_seal(key@, nonce@, plaintext@) {
            Some(ciphertext) => Ok::<Seq<u8>, ErrorKind>(ciphertext),
            None => Err::<Seq<u8>, ErrorKind>(ErrorKind::Encryption),
        },
{
    match gcm_encrypt(key, nonce, plaintext) {
        Ok(ciphertext) => Ok(ciphertext),
        Err(_) => Err(VaultError::bare(ErrorKind::Encryption)),
    }
}

/// Seals the plaintext under the key and a fresh nonce, and returns the
/// ciphertext together with that nonce.
pub fn encrypt(key: &[u8; KEY_SIZE], plaintext: &[u8]) -> (r: Result<
    (Vec<u8>, [u8; NONCE_SIZE]),
    VaultError,
>)
    ensures
        match r {
            Ok((ciphertext, nonce)) => seals(key@, plaintext@, ciphertext@, nonce@),
            Err(e) => e.kind == ErrorKind::Encryption && may_fail_to_seal(key@, plaintext@),
        },
{
    let nonce = generate_nonce();
    match encrypt_with_nonce(key, &nonce, plaintext) {
        Ok(ciphertext) => Ok((ciphertext, nonce)),
        Err(e) => Err(e),
    }
}

/// Opens a ciphertext with the key and the nonce it was sealed under.
pub fn decrypt(key: &[u8; KEY_SIZE], ciphertext: &[u8], nonce: &[u8; NONCE_SIZE]) -> (r: Result<
    Vec<u8>,
    VaultError,
>)
    ensures
        opens(key@, ciphertext@, nonce@, bytes_outcome(r)),
{
    match gcm_decrypt(key, nonce, ciphertext) {
        Ok(plaintext) => Ok(plaintext),
        Err(_) => Err(VaultError::bare(ErrorKind::Decryption)),
    }
}

/// Opening inverts sealing: whatever `encrypt` returned for a plaintext,
/// `decrypt` with the same key, ciphertext and nonce returns that plaintext.
pub proof fn lemma_open_inverts_seal(
    key: Seq<u8>,
    plaintext: Seq<u8>,
    ciphertext: Seq<u8>,
    nonce: Seq<u8>,
    outcome: Result<Seq<u8>, ErrorKind>,
)
    requires
        seals(key, plaintext, ciphertext, nonce),
        opens(key, ciphertext, nonce, outcome),
    ensures
        outcome == Ok::<Seq<u8>, ErrorKind>(plaintext),
{
}

} // verus!
