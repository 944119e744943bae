//! The password hasher: Argon2id verifiers in their self-describing text
//! encoding, derived under a fresh random salt and checked against a
//! candidate credential.

use crate::error::{kind_of, ErrorKind, VaultError};
use aes_gcm::aead::OsRng;
use argon2::password_hash::{PasswordHash, PasswordHasher, PasswordVerifier, Salt, SaltString};
use argon2::Argon2;
use vstd::prelude::*;
use vstd::string::*;
use vstd::utf8::*;

verus! {

/// The error of the password-hashing traits, `password_hash::Error`.
#[verifier::external_type_specification]
#[verifier::external_body]
pub struct ExPasswordHashError(argon2::password_hash::Error);

/// The error of `core::str::from_utf8`.
#[verifier::external_type_specification]
#[verifier::external_body]
pub struct ExUtf8Error(core::str::Utf8Error);

/// The text encoding of what `Argon2::default().hash_password` returns for a
/// password and a salt in its text form, or `None` where it fails.
pub uninterp spec fn argon2_phc(password: Seq<u8>, salt: Seq<char>) -> Option<Seq<char>>;

/// What `Argon2::default().verify_password` answers for a password and a
/// verifier in its text encoding: `Some(true)` where it accepts, `Some(false)`
/// where it reports a password mismatch, `None` where `PasswordHash::new`
/// cannot parse the verifier or the verifier cannot be computed again.
pub uninterp spec fn argon2_accepts(password: Seq<u8>, verifier: Seq<char>) -> Option<bool>;

/// The number of decimal digits from which on a degree of parallelism is
/// beyond anything Argon2 takes (its maximum, 16777215, has eight).
pub const OVERSIZED_PARALLELISM_DIGITS: usize = 9;

/// An ASCII decimal digit.
pub open spec fn is_digit(byte: u8) -> bool {
    0x30 <= byte <= 0x39
}

/// Whether the text, at position `i`, reads `p=` and then at least
/// `OVERSIZED_PARALLELISM_DIGITS` decimal digits.
pub open spec fn oversized_parallelism_at(text: Seq<u8>, i: int) -> bool {
    &&& 0 <= i
    &&& i + 2 + OVERSIZED_PARALLELISM_DIGITS <= text.len()
    &&& text[i] == 0x70
    &&& text[i + 1] == 0x3d
    &&& forall|j: int|
        0 <= j < OVERSIZED_PARALLELISM_DIGITS ==> is_digit(#[trigger] text[i + 2 + j])
}

/// Whether the text asks somewhere for a degree of parallelism of
/// `OVERSIZED_PARALLELISM_DIGITS` digits or more.
pub open spec fn names_oversized_parallelism(text: Seq<u8>) -> bool {
    exists|i: int| oversized_parallelism_at(text, i)
}

/// A character of the unpadded standard Base64 alphabet.
pub open spec fn is_b64_char(c: char) -> bool {
    ||| 'A' <= c <= 'Z'
    ||| 'a' <= c <= 'z'
    ||| '0' <= c <= '9'
    ||| c == '+'
    ||| c == '/'
}

/// The text form of a generated salt: sixteen bytes in unpadded Base64.
pub open spec fn is_fresh_salt(salt: Seq<char>) -> bool {
    &&& salt.len() == 22
    &&& forall|i: int| 0 <= i < salt.len() ==> is_b64_char(#[trigger] salt[i])
}

/// `SaltString::generate` on the operating system's random source, as text.
/// It encodes sixteen random bytes as unpadded Base64, so the text has 22
/// characters of that alphabet; nothing more is claimed of it. The call
/// aborts only where the operating system cannot supply randomness.
#[verifier::external_body]
fn fresh_salt() -> (salt: String)
    ensures
        is_fresh_salt(salt@),
{
    SaltString::generate(&mut OsRng).as_str().to_owned()
}

/// `PasswordHasher::hash_password` of `Argon2::default()` on the password and
/// the salt, the result written out by its `Display`. The text is a function
/// of the password and the salt: it is `argon2_phc` of them. It names the
/// default parameters, among them `p=1`, and its salt and hash hold no `=`,
/// so it asks for no oversized parallelism.
#[verifier::external_body]
fn argon2_hash(password: &[u8], salt: &str) -> (r: Result<String, argon2::password_hash::Error>)
    ensures
        match r {
            Ok(verifier) => argon2_phc(password@, salt@) == Some(verifier@),
            Err(_) => argon2_phc(password@, salt@) is None,
        },
        r.is_ok() ==> !names_oversized_parallelism(encode_utf8(r.unwrap()@)),
{
    let salt = Salt::from_b64(salt)?;
    Ok(Argon2::default().hash_password(password, salt)?.to_string())
}

/// `PasswordHash::new` on the verifier, then `PasswordVerifier::verify_password`
/// of `Argon2::default()`, which computes the hash again with the algorithm,
/// parameters and salt that the verifier embeds and compares the outputs.
/// The answer is `argon2_accepts` of the password and the verifier, and a
/// verifier that `hash_password` wrote for this very password is accepted.
/// Left out are the verifiers that ask for an oversized parallelism: on a
/// degree of 2^29 or more the parameter check of the crate overflows. Memory
/// and time of the call are those that the verifier's parameters ask for.
#[verifier::external_body]
fn argon2_verify(password: &[u8], verifier: &str) -> (r: Result<
    bool,
    argon2::password_hash::Error,
>)
    requires
        !names_oversized_parallelism(verifier.spec_bytes()),
    ensures
        match r {
            Ok(accepted) => argon2_accepts(password@, verifier@) == Some(accepted),
            Err(_) => argon2_accepts(password@, verifier@) is None,
        },
        forall|salt: Seq<char>|
            #![trigger argon2_phc(password@, salt)]
            argon2_phc(password@, salt) == Some(verifier@) ==> r.is_ok() && r.unwrap(),
{
    let parsed = PasswordHash::new(verifier)?;
    match Argon2::default().verify_password(password, &parsed) {
        Ok(()) => Ok(true),
        Err(argon2::password_hash::Error::Password) => Ok(false),
        Err(e) => Err(e),
    }
}

/// `core::str::from_utf8`: the bytes as text where they are valid UTF-8, an
/// error where they are not.
pub assume_specification[ core::str::from_utf8 ](bytes: &[u8]) -> (r: Result<
    &str,
    core::str::Utf8Error,
>)
    ensures
        r.is_ok() == valid_utf8(bytes@),
        r.is_ok() ==> r.unwrap().spec_bytes() == bytes@,
;

/// A result with its text and its error seen as plain values.
pub open spec fn text_outcome(r: Result<String, VaultError>) -> Result<Seq<char>, ErrorKind> {
    match r {
        Ok(text) => Ok(text@),
        Err(e) => Err(e.kind),
    }
}

/// What deriving under a given salt comes to.
pub open spec fn derived_with(credential: Seq<char>, salt: Seq<char>) -> Result<
    Seq<char>,
    ErrorKind,
> {
    match argon2_phc(encode_utf8(credential), salt) {
        Some(verifier) => Ok(verifier),
        None => Err(ErrorKind::Hashing),
    }
}

/// Whether the text is a verifier of the credential: what deriving from the
/// credential under some salt comes to, asking for no oversized parallelism.
pub open spec fn is_verifier_of(credential: Seq<char>, verifier: Seq<char>) -> bool {
    &&& !names_oversized_parallelism(encode_utf8(verifier))
    &&& exists|salt: Seq<char>| #[trigger]
        derived_with(credential, salt) == Ok::<Seq<char>, ErrorKind>(verifier)
}

/// What `hash_credentials` may hand back for a credential: a verifier of it,
/// derived under a generated salt.
pub open spec fn derives(credential: Seq<char>, verifier: Seq<char>) -> bool {
    &&& !names_oversized_parallelism(encode_utf8(verifier))
    &&& exists|salt: Seq<char>|
        is_fresh_salt(salt) && #[trigger] derived_with(credential, salt) == Ok::<
            Seq<char>,
            ErrorKind,
        >(verifier)
}

/// Whether deriving from the credential fails under some generated salt.
pub open spec fn may_fail_to_derive(credential: Seq<char>) -> bool {
    exists|salt: Seq<char>| is_fresh_salt(salt) && #[trigger] derived_with(credential, salt) is Err
}

/// What checking a candidate against a verifier comes to. A verifier that
/// asks for an oversized parallelism is malformed, as is one that cannot be
/// parsed or computed again; a mismatch is the answer `false`.
pub open spec fn verified(candidate: Seq<char>, verifier: Seq<char>) -> Result<bool, ErrorKind> {
    if names_oversized_parallelism(encode_utf8(verifier)) {
        Err(ErrorKind::MalformedVerifier)
    } else {
        match argon2_accepts(encode_utf8(candidate), verifier) {
            Some(accepted) => Ok(accepted),
            None => Err(ErrorKind::MalformedVerifier),
        }
    }
}

/// What `verify_credentials` hands back for a candidate and a verifier: the
/// outcome of the check, which is `true` for every verifier of the candidate.
pub open spec fn verifies(
    candidate: Seq<char>,
    verifier: Seq<char>,
    outcome: Result<bool, ErrorKind>,
) -> bool {
    &&& outcome == verified(candidate, verifier)
    &&& is_verifier_of(candidate, verifier) ==> outcome == Ok::<bool, ErrorKind>(true)
}

/// What `check_opened_verifier` hands back for a candidate and the bytes of
/// an opened record: the bytes must be text, and the text a verifier.
pub open spec fn verifies_bytes(
    candidate: Seq<char>,
    opened: Seq<u8>,
    outcome: Result<bool, ErrorKind>,
) -> bool {
    if valid_utf8(opened) {
        verifies(candidate, decode_utf8(opened), outcome)
    } else {
        outcome == Err::<bool, ErrorKind>(ErrorKind::MalformedVerifier)
    }
}

/// Tells whether a verifier's text asks somewhere for a degree of
/// parallelism of `OVERSIZED_PARALLELISM_DIGITS` digits or more.
pub fn has_oversized_parallelism(verifier: &str) -> (b: bool)
    ensures
        b == names_oversized_parallelism(verifier.spec_bytes()),
{
    let text = verifier.as_bytes();
    let n = text.len();
    if n < 2 + OVERSIZED_PARALLELISM_DIGITS {
        return false;
    }
    let last = n - 2 - OVERSIZED_PARALLELISM_DIGITS;
    let mut i: usize = 0;
    while i <= last
        invariant
            text@ == verifier.spec_bytes(),
            n == text@.len(),
            last == n - 2 - OVERSIZED_PARALLELISM_DIGITS,
            i <= last + 1,
            forall|k: int| 0 <= k < i ==> !oversized_parallelism_at(text@, k),
        decreases last + 1 - i,
    {
        if text[i] == 0x70 && text[i + 1] == 0x3d {
            let mut j: usize = 0;
            while j < OVERSIZED_PARALLELISM_DIGITS && 0x30 <= text[i + 2 + j] && text[i + 2 + j]
                <= 0x39
                invariant
                    n == text@.len(),
                    i + 2 + OVERSIZED_PARALLELISM_DIGITS <= n,
                    j <= OVERSIZED_PARALLELISM_DIGITS,
                    forall|k: int| 0 <= k < j ==> is_digit(#[trigger] text@[i + 2 + k]),
                decreases OVERSIZED_PARALLELISM_DIGITS - j,
            {
                j += 1;
            }
            if j == OVERSIZED_PARALLELISM_DIGITS {
                assert(oversized_parallelism_at(text@, i as int));
                return true;
            }
        }
        i += 1;
    }
    false
}

/// Derives the verifier of a credential under the given salt.
pub fn hash_with_salt(master_key: &str, salt: &str) -> (r: Result<String, VaultError>)
    ensures
        text_outcome(r) == derived_with(master_key@, salt@),
        r.is_ok() ==> is_verifier_of(master_key@, r.unwrap()@),
{
    match argon2_hash(master_key.as_bytes(), salt) {
        Ok(verifier) => Ok(verifier),
        Err(e) => Err(VaultError { kind: ErrorKind::Hashing, detail: e.to_string() }),
    }
}

/// Derives a verifier of a credential under a fresh random salt.
pub fn hash_credentials(master_key: &str) -> (r: Result<String, VaultError>)
    ensures
        match r {
            Ok(verifier) => derives(master_key@, verifier@),
            Err(e) => e.kind == ErrorKind::Hashing && may_fail_to_derive(master_key@),
        },
{
    let salt = fresh_salt();
    hash_with_salt(master_key, salt.as_str())
}

/// Checks a candidate credential against a verifier. A mismatch is the
/// answer `false`, not an error.
pub fn verify_credentials(candidate: &str, verifier: &str) -> (r: Result<bool, VaultError>)
    ensures
        verifies(candidate@, verifier@, kind_of(r)),
{
    if has_oversized_parallelism(verifier) {
        return Err(
            VaultError {
                kind: ErrorKind::MalformedVerifier,
                detail: "parallelism out of range".to_owned(),
            },
        );
    }
    match argon2_verify(candidate.as_bytes(), verifier) {
        Ok(accepted) => Ok(accepted),
        Err(e) => Err(VaultError { kind: ErrorKind::MalformedVerifier, detail: e.to_string() }),
    }
}

/// Checks a candidate credential against the bytes of an opened record.
pub fn check_opened_verifier(candidate: &str, opened: &[u8]) -> (r: Result<bool, VaultError>)
    ensures
        verifies_bytes(candidate@, opened@, kind_of(r)),
{
    match core::str::from_utf8(opened) {
        Ok(verifier) => {
            proof {
                encode_utf8_decode_utf8(verifier@);
            }
            verify_credentials(candidate, verifier)
        },
        Err(e) => Err(VaultError { kind: ErrorKind::MalformedVerifier, detail: e.to_string() }),
    }
}

/// A derived verifier accepts its own credential: whatever `hash_credentials`
/// returned for a credential, `verify_credentials` answers `true` for that
/// credential and that verifier.
pub proof fn lemma_derived_verifier_accepts(
    credential: Seq<char>,
    verifier: Seq<char>,
    outcome: Result<bool, ErrorKind>,
)
    requires
        derives(credential, verifier),
        verifies(credential, verifier, outcome),
    ensures
        outcome == Ok::<bool, ErrorKind>(true),
{
}

/// The same of a verifier derived under a salt of the caller's: whatever
/// `hash_with_salt` returned for a credential, `verify_credentials` answers
/// `true` for that credential and that verifier.
pub proof fn lemma_salted_verifier_accepts(
    credential: Seq<char>,
    salt: Seq<char>,
    verifier: Seq<char>,
    outcome: Result<bool, ErrorKind>,
)
    requires
        derived_with(credential, salt) == Ok::<Seq<char>, ErrorKind>(verifier),
        !names_oversized_parallelism(encode_utf8(verifier)),
        verifies(credential, verifier, outcome),
    ensures
        outcome == Ok::<bool, ErrorKind>(true),
{
}

} // verus!
