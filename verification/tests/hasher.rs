use argon2::password_hash::{PasswordHash, PasswordHasher, Salt};
use argon2::{Algorithm, Argon2, Params, Version};
use credential_vault::{
    check_opened_verifier, has_oversized_parallelism, hash_credentials, hash_with_salt,
    verify_credentials, ErrorKind,
};

const SALT: &str = "c29tZXNhbHRzb21lc2FsdA";

#[test]
fn derived_verifier_accepts_its_credential() {
    let verifier = hash_credentials("correct-horse").unwrap();
    assert_eq!(verify_credentials("correct-horse", &verifier), Ok(true));
}

#[test]
fn derived_verifier_rejects_another_credential() {
    let verifier = hash_credentials("correct-horse").unwrap();
    assert_eq!(verify_credentials("wrong-guess", &verifier), Ok(false));
    assert_eq!(verify_credentials("", &verifier), Ok(false));
    assert_eq!(verify_credentials("correct-horse ", &verifier), Ok(false));
}

#[test]
fn empty_and_non_ascii_credentials_round_trip() {
    for credential in ["", "pässwörd-密码"] {
        let verifier = hash_with_salt(credential, SALT).unwrap();
        assert_eq!(verify_credentials(credential, &verifier), Ok(true));
    }
}

#[test]
fn verifier_is_self_describing() {
    let verifier = hash_credentials("correct-horse").unwrap();
    assert!(verifier.starts_with("$argon2id$v=19$m=19456,t=2,p=1$"));
    let fields: Vec<&str> = verifier.split('$').collect();
    assert_eq!(fields.len(), 6);
    assert_eq!(fields[4].len(), 22);
    assert_eq!(fields[5].len(), 43);
    let parsed = PasswordHash::new(&verifier).unwrap();
    assert_eq!(parsed.to_string(), verifier);
}

#[test]
fn fresh_salt_every_time() {
    let first = hash_credentials("same credential").unwrap();
    let second = hash_credentials("same credential").unwrap();
    assert_ne!(first, second);
    let salt = |v: &str| v.split('$').nth(4).unwrap().to_string();
    assert_ne!(salt(&first), salt(&second));
}

#[test]
fn hash_with_salt_is_what_argon2_computes() {
    let verifier = hash_with_salt("hunter42", SALT).unwrap();
    let expected = Argon2::default()
        .hash_password(b"hunter42", Salt::from_b64(SALT).unwrap())
        .unwrap()
        .to_string();
    assert_eq!(verifier, expected);
    assert!(verifier.starts_with("$argon2id$v=19$m=19456,t=2,p=1$c29tZXNhbHRzb21lc2FsdA$"));
    assert_ne!(verifier, "hunter42");
    assert_ne!(verifier, SALT);
}

#[test]
fn hash_with_salt_is_deterministic_and_salt_dependent() {
    let first = hash_with_salt("hunter42", SALT).unwrap();
    let again = hash_with_salt("hunter42", SALT).unwrap();
    let other = hash_with_salt("hunter42", "b3RoZXJzYWx0b3RoZXJzYQ").unwrap();
    assert_eq!(first, again);
    assert_ne!(first, other);
}

#[test]
fn hash_with_unusable_salt_is_a_hashing_error() {
    for salt in ["", "abc", "not base64!!", "abcd"] {
        let err = hash_with_salt("hunter42", salt).unwrap_err();
        assert_eq!(err.kind, ErrorKind::Hashing);
        assert!(err.message().starts_with("Hashing credentials failed: "));
        assert!(!err.detail.is_empty());
    }
}

#[test]
fn verifier_with_other_parameters_is_checked_by_its_own() {
    let params = Params::new(64, 3, 2, Some(24)).unwrap();
    let hasher = Argon2::new(Algorithm::Argon2i, Version::V0x13, params);
    let verifier =
        hasher.hash_password(b"password", Salt::from_b64(SALT).unwrap()).unwrap().to_string();
    assert!(verifier.starts_with("$argon2i$v=19$m=64,t=3,p=2$"));
    assert_eq!(verify_credentials("password", &verifier), Ok(true));
    assert_eq!(verify_credentials("Password", &verifier), Ok(false));
}

#[test]
fn reference_verifier_is_accepted() {
    let verifier = "$argon2i$v=19$m=65536,t=2,p=4$c29tZXNhbHQ$RdescudvJCsgt3ub+b+dWRWJTmaaJObG";
    assert_eq!(verify_credentials("password", verifier), Ok(true));
    assert_eq!(verify_credentials("passwore", verifier), Ok(false));
}

#[test]
fn unparsable_verifier_is_malformed() {
    for verifier in ["", "plain text", "argon2id$v=19", "$argon2id$v=19$m=19456,t=2,p=1$$$$"] {
        let err = verify_credentials("correct-horse", verifier).unwrap_err();
        assert_eq!(err.kind, ErrorKind::MalformedVerifier);
        assert!(err.message().starts_with("Invalid master key hash: "));
    }
}

#[test]
fn opened_bytes_that_are_not_text_are_malformed() {
    for bytes in [&[0xffu8][..], &[0xc3, 0x28][..], &[b'$', 0x80][..]] {
        let err = check_opened_verifier("correct-horse", bytes).unwrap_err();
        assert_eq!(err.kind, ErrorKind::MalformedVerifier);
        assert!(!err.detail.is_empty());
    }
}

#[test]
fn opened_bytes_of_a_verifier_are_checked() {
    let verifier = hash_with_salt("correct-horse", SALT).unwrap();
    assert_eq!(check_opened_verifier("correct-horse", verifier.as_bytes()), Ok(true));
    assert_eq!(check_opened_verifier("wrong-guess", verifier.as_bytes()), Ok(false));
    let err = check_opened_verifier("correct-horse", b"no verifier").unwrap_err();
    assert_eq!(err.kind, ErrorKind::MalformedVerifier);
}

#[test]
fn oversized_parallelism_is_found_anywhere_in_the_text() {
    assert!(has_oversized_parallelism("p=123456789"));
    assert!(has_oversized_parallelism("$argon2id$v=19$m=19456,t=2,p=4294967295$c2FsdA$aGFzaA"));
    assert!(has_oversized_parallelism("$argon2id$v=19$p=536870912,m=19456,t=2$c2FsdA$aGFzaA"));
    assert!(has_oversized_parallelism("xxp=0000000001"));
    assert!(has_oversized_parallelism("p=p=999999999"));
}

#[test]
fn parallelism_of_up_to_eight_digits_is_not_oversized() {
    assert!(!has_oversized_parallelism(""));
    assert!(!has_oversized_parallelism("p="));
    assert!(!has_oversized_parallelism("p=12345678"));
    assert!(!has_oversized_parallelism("p=12345678,"));
    assert!(!has_oversized_parallelism("p=1234567x9"));
    assert!(!has_oversized_parallelism("p 123456789"));
    assert!(!has_oversized_parallelism("q=123456789"));
    assert!(!has_oversized_parallelism("m=123456789,t=2,p=1"));
    assert!(!has_oversized_parallelism("$argon2id$v=19$m=19456,t=2,p=16777215$c2FsdA$aGFzaA"));
    let verifier = hash_with_salt("correct-horse", SALT).unwrap();
    assert!(!has_oversized_parallelism(&verifier));
}

#[test]
fn verifier_with_oversized_parallelism_is_malformed() {
    for p in ["4294967295", "536870912", "100000000", "99999999999"] {
        let verifier = format!(
            "$argon2id$v=19$m=19456,t=2,p={}$c29tZXNhbHRzb21lc2FsdA$RdescudvJCsgt3ub+b+dWRWJTmaaJObG",
            p
        );
        let err = verify_credentials("password", &verifier).unwrap_err();
        assert_eq!(err.kind, ErrorKind::MalformedVerifier);
        assert_eq!(err.message(), "Invalid master key hash: parallelism out of range");
    }
}

#[test]
fn verifier_that_cannot_be_computed_again_is_malformed() {
    for verifier in [
        "$argon2id$v=19$m=19456,t=2,p=99999999$c29tZXNhbHRzb21lc2FsdA$RdescudvJCsgt3ub+b+dWRWJTmaaJObG",
        "$argon2id$v=19$m=19456,t=2,p=0$c29tZXNhbHRzb21lc2FsdA$RdescudvJCsgt3ub+b+dWRWJTmaaJObG",
        "$argon2id$v=19$m=1,t=2,p=1$c29tZXNhbHRzb21lc2FsdA$RdescudvJCsgt3ub+b+dWRWJTmaaJObG",
        "$argon2id$v=18$m=19456,t=2,p=1$c29tZXNhbHRzb21lc2FsdA$RdescudvJCsgt3ub+b+dWRWJTmaaJObG",
        "$argon2id$v=19$m=19456,t=2,x=1$c29tZXNhbHRzb21lc2FsdA$RdescudvJCsgt3ub+b+dWRWJTmaaJObG",
        "$scrypt$ln=1$c29tZXNhbHRzb21lc2FsdA$RdescudvJCsgt3ub+b+dWRWJTmaaJObG",
    ] {
        let err = verify_credentials("password", verifier).unwrap_err();
        assert_eq!(err.kind, ErrorKind::MalformedVerifier);
        assert!(!err.detail.is_empty());
    }
}

#[test]
fn verifier_without_its_hash_matches_nothing() {
    let verifier = "$argon2id$v=19$m=19456,t=2,p=1$c29tZXNhbHRzb21lc2FsdA";
    assert_eq!(verify_credentials("password", verifier), Ok(false));
}

#[test]
fn hash_with_salt_known_answers() {
    assert_eq!(
        hash_with_salt("hunter42", SALT).unwrap(),
        "$argon2id$v=19$m=19456,t=2,p=1$c29tZXNhbHRzb21lc2FsdA$AZwZ5wY0f9Z4HE+5lSKD+rQXQFWXJOuNDXJUKW7tsr0"
    );
    assert_eq!(
        hash_with_salt("", SALT).unwrap(),
        "$argon2id$v=19$m=19456,t=2,p=1$c29tZXNhbHRzb21lc2FsdA$sZ483VbIIoOwneO8ZsIkXh2bXDPDVnZdV4cu0pKbM8I"
    );
}

#[test]
fn known_verifier_is_checked() {
    let verifier =
        "$argon2id$v=19$m=19456,t=2,p=1$c29tZXNhbHRzb21lc2FsdA$AZwZ5wY0f9Z4HE+5lSKD+rQXQFWXJOuNDXJUKW7tsr0";
    assert_eq!(verify_credentials("hunter42", verifier), Ok(true));
    assert_eq!(verify_credentials("hunter43", verifier), Ok(false));
    assert_eq!(verify_credentials(verifier, verifier), Ok(false));
}

#[test]
fn failures_carry_the_words_of_the_failing_layer() {
    let err = hash_with_salt("hunter42", "abcd").unwrap_err();
    assert_eq!(err.message(), "Hashing credentials failed: salt invalid: value to short");
    let err = verify_credentials("x", "plain text").unwrap_err();
    assert_eq!(err.message(), "Invalid master key hash: password hash string missing field");
    let err = check_opened_verifier("x", &[0xff]).unwrap_err();
    assert_eq!(
        err.message(),
        "Invalid master key hash: invalid utf-8 sequence of 1 bytes from index 0"
    );
}

#[test]
fn odd_verifiers_are_answered_not_fatal() {
    let odd = [
        "$",
        "$$",
        "$$$$$$",
        "$argon2id",
        "$argon2id$",
        "$argon2id$v=",
        "$argon2id$v=é",
        "$argon2id$v=19$m=é,t=2,p=1$c29tZXNhbHRzb21lc2FsdA$RdescudvJCsgt3ub+b+dWRWJTmaaJObG",
        "$argon2id$v=19$m=19456,t=2,p=1,p=1$c29tZXNhbHRzb21lc2FsdA$RdescudvJCsgt3ub+b+dWRWJTmaaJObG",
        "$argon2id$v=19$m=19456,t=2,p=1$c29tZXNhbHRzb21lc2FsdA$RdescudvJCsgt3ub+b+dWRWJTmaaJObG$x",
        "$argon2id$v=19$m=19456,t=0,p=1$c29tZXNhbHRzb21lc2FsdA$RdescudvJCsgt3ub+b+dWRWJTmaaJObG",
        "$argon2id$v=19$m=19456,t=2,p=1$c2FsdA$RdescudvJCsgt3ub+b+dWRWJTmaaJObG",
        "$argon2id$v=19$m=19456,t=2,p=1$c29tZXNhbHRzb21lc2FsdA$AA",
        "$argon2id$v=19$m=19456,t=2,p=1,keyid=AAAAAAAAAAAAAAAAAAAA$c29tZXNhbHRzb21lc2FsdA$RdescudvJCsgt3ub+b+dWRWJTmaaJObG",
        "$argon2id$v=4294967296$m=19456,t=2,p=1$c29tZXNhbHRzb21lc2FsdA$RdescudvJCsgt3ub+b+dWRWJTmaaJObG",
        "\u{0}",
        "密码",
    ];
    for verifier in odd {
        match verify_credentials("password", verifier) {
            Ok(accepted) => assert!(!accepted),
            Err(e) => assert_eq!(e.kind, ErrorKind::MalformedVerifier),
        }
    }
}
