use portal_core::auth::password::{HashingFault, HASH_LEN};
use portal_core::auth::token::Auth;

const KNOWN_HASH: &str = "$2b$04$EGdrhbKUv8Oc9vGiXX0HQOxSg445d458Muh7DAHskb6QbtCvdxcie";

#[test]
fn hashed_password_verifies() {
    let hash = Auth::hash_password("p@ss1").unwrap();
    assert_eq!(Auth::verify_password("p@ss1", &hash), Ok(true));
}

#[test]
fn other_password_does_not_verify() {
    let hash = Auth::hash_password("p@ss1").unwrap();
    assert_eq!(Auth::verify_password("p@ss2", &hash), Ok(false));
}

#[test]
fn hash_has_the_fixed_length_and_is_not_the_password() {
    let hash = Auth::hash_password("p@ss1").unwrap();
    assert_eq!(hash.chars().count(), HASH_LEN);
    assert_eq!(HASH_LEN, 60);
    assert!(hash.starts_with("$2b$12$"));
    assert!(!hash.contains("p@ss1"));
}

#[test]
fn each_hash_has_a_fresh_salt() {
    let first = Auth::hash_password("p@ss1").unwrap();
    let second = Auth::hash_password("p@ss1").unwrap();
    assert_ne!(first, second);
}

#[test]
fn empty_password_hashes_and_verifies() {
    let hash = Auth::hash_password("").unwrap();
    assert_eq!(Auth::verify_password("", &hash), Ok(true));
}

#[test]
fn known_hash_verifies_its_password() {
    assert_eq!(Auth::verify_password("correctbatteryhorsestapler", KNOWN_HASH), Ok(true));
}

#[test]
fn known_hash_refuses_another_password() {
    assert_eq!(Auth::verify_password("wrong", KNOWN_HASH), Ok(false));
    assert_eq!(Auth::verify_password("", KNOWN_HASH), Ok(false));
    assert_eq!(Auth::verify_password(KNOWN_HASH, KNOWN_HASH), Ok(false));
}

#[test]
fn mismatch_is_no_error() {
    assert!(Auth::verify_password("Correctbatteryhorsestapler", KNOWN_HASH).is_ok());
}

#[test]
fn answer_of_the_primitive_is_handed_on() {
    assert_eq!(Auth::hashed(Ok(KNOWN_HASH.to_string())), Ok(KNOWN_HASH.to_string()));
    assert_eq!(Auth::hashed(Ok(String::new())), Ok(String::new()));
    assert_eq!(Auth::hashed(Err(bcrypt::BcryptError::InvalidSaltLen(3))), Err(HashingFault));
    assert_eq!(Auth::hashed(Err(bcrypt::BcryptError::CostNotAllowed(99))), Err(HashingFault));
}

#[test]
fn malformed_hash_is_a_fault() {
    assert_eq!(Auth::verify_password("p@ss1", ""), Err(HashingFault));
    assert_eq!(Auth::verify_password("p@ss1", "p@ss1"), Err(HashingFault));
    assert_eq!(Auth::verify_password("p@ss1", "$2b$04$tooshort"), Err(HashingFault));
    assert_eq!(
        Auth::verify_password(
            "p@ss1",
            "$9z$04$EGdrhbKUv8Oc9vGiXX0HQOxSg445d458Muh7DAHskb6QbtCvdxcie"
        ),
        Err(HashingFault)
    );
    assert_eq!(
        Auth::verify_password(
            "p@ss1",
            "$2b$xy$EGdrhbKUv8Oc9vGiXX0HQOxSg445d458Muh7DAHskb6QbtCvdxcie"
        ),
        Err(HashingFault)
    );
}
