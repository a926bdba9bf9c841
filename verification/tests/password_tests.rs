use auth_core::errors::AuthError;
use auth_core::password::{hash_password, verify_password, HASH_COST};

#[test]
fn a_hash_verifies_against_its_password() {
    let hash = hash_password("hunter2").unwrap();
    assert_eq!(verify_password("hunter2", &hash), Ok(true));
}

#[test]
fn a_hash_does_not_verify_against_another_password() {
    let hash = hash_password("hunter2").unwrap();
    assert_eq!(verify_password("hunter3", &hash), Ok(false));
    assert_eq!(verify_password("", &hash), Ok(false));
}

#[test]
fn a_hash_is_not_the_plaintext() {
    let hash = hash_password("hunter2").unwrap();
    assert_ne!(hash, "hunter2");
    assert!(!hash.contains("hunter2"));
}

#[test]
fn a_hash_has_the_bcrypt_shape_and_the_configured_cost() {
    assert_eq!(HASH_COST, 4);
    let hash = hash_password("hunter2").unwrap();
    assert_eq!(hash.len(), 60);
    assert!(hash.starts_with("$2b$04$"));
}

#[test]
fn two_hashes_of_one_password_differ_and_both_verify() {
    let first = hash_password("correct horse").unwrap();
    let second = hash_password("correct horse").unwrap();
    assert_ne!(first, second);
    assert_eq!(verify_password("correct horse", &first), Ok(true));
    assert_eq!(verify_password("correct horse", &second), Ok(true));
}

#[test]
fn the_empty_password_can_be_hashed_and_verified() {
    let hash = hash_password("").unwrap();
    assert_eq!(verify_password("", &hash), Ok(true));
    assert_eq!(verify_password("x", &hash), Ok(false));
}

#[test]
fn a_password_beyond_ascii_can_be_hashed_and_verified() {
    let hash = hash_password("pässwörd \u{1F512}").unwrap();
    assert_eq!(verify_password("pässwörd \u{1F512}", &hash), Ok(true));
    assert_eq!(verify_password("passwoerd", &hash), Ok(false));
}

#[test]
fn hashes_made_elsewhere_verify() {
    let made_in_python = "$2b$04$EGdrhbKUv8Oc9vGiXX0HQOxSg445d458Muh7DAHskb6QbtCvdxcie";
    assert_eq!(verify_password("correctbatteryhorsestapler", made_in_python), Ok(true));
    assert_eq!(verify_password("wrong", made_in_python), Ok(false));
    let with_cost_five = "$2y$05$HlFShUxTu4ZHHfOLJwfmCeDj/kuKFKboanXtDJXxCC7aIPTUgxNDe";
    assert_eq!(verify_password("My S3cre7 P@55w0rd!", with_cost_five), Ok(true));
}

#[test]
fn a_malformed_hash_is_an_error_and_no_panic() {
    assert_eq!(verify_password("pw", ""), Err(AuthError::HashMalformed));
    assert_eq!(verify_password("pw", "pw"), Err(AuthError::HashMalformed));
    assert_eq!(verify_password("pw", "not a hash at all"), Err(AuthError::HashMalformed));
    // too short after the cost
    assert_eq!(
        verify_password("pw", "$2a$04$tjARW6ZON3PhrAIRW2LG/u9a."),
        Err(AuthError::HashMalformed)
    );
    // an unknown scheme
    assert_eq!(
        verify_password("pw", "$9z$04$EGdrhbKUv8Oc9vGiXX0HQOxSg445d458Muh7DAHskb6QbtCvdxcie"),
        Err(AuthError::HashMalformed)
    );
    // a cost that is no number
    assert_eq!(
        verify_password("pw", "$2b$ab$EGdrhbKUv8Oc9vGiXX0HQOxSg445d458Muh7DAHskb6QbtCvdxcie"),
        Err(AuthError::HashMalformed)
    );
    // a cost below the least that bcrypt takes
    assert_eq!(
        verify_password("pw", "$2b$03$EGdrhbKUv8Oc9vGiXX0HQOxSg445d458Muh7DAHskb6QbtCvdxcie"),
        Err(AuthError::HashMalformed)
    );
    // a character of two bytes across the end of the salt
    assert_eq!(
        verify_password("", "2a$$$0$OOOOOOOOOOOOOOOOOOOOO£OOOOOOOOOOOOOOOOOOOOOOOOOOOOOO"),
        Err(AuthError::HashMalformed)
    );
}
