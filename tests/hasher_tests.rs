use vinylkeeper::hasher::{hash_password, hash_password_with_salt, verify_password, HashError};

#[test]
fn hash_then_verify() {
    let h = hash_password("correct horse").unwrap();
    assert!(h.starts_with("$argon2id$"));
    assert!(!h.contains("correct horse"));
    assert_eq!(verify_password("correct horse", &h), Ok(true));
    assert_eq!(verify_password("correct horsf", &h), Ok(false));
    assert_eq!(verify_password("", &h), Ok(false));
}

#[test]
fn salts_differ_between_hashes() {
    let a = hash_password("same").unwrap();
    let b = hash_password("same").unwrap();
    assert_ne!(a, b);
    assert_eq!(verify_password("same", &a), Ok(true));
    assert_eq!(verify_password("same", &b), Ok(true));
}

#[test]
fn hashing_under_a_given_salt_is_deterministic() {
    let salt = vec![7u8; 16];
    let a = hash_password_with_salt("pw", &salt).unwrap();
    let b = hash_password_with_salt("pw", &salt).unwrap();
    assert_eq!(a, b);
    assert_ne!(a, hash_password_with_salt("pw2", &salt).unwrap());
}

#[test]
fn malformed_records_are_reported() {
    assert_eq!(verify_password("pw", "plaintext"), Err(HashError::MalformedHash));
    assert_eq!(verify_password("pw", ""), Err(HashError::MalformedHash));
}

#[test]
fn salt_length_bounds() {
    assert_eq!(hash_password_with_salt("pw", &vec![1u8; 3]), Err(HashError::HashingUnavailable));
    assert_eq!(hash_password_with_salt("pw", &vec![1u8; 7]), Err(HashError::HashingUnavailable));
    assert!(hash_password_with_salt("pw", &vec![1u8; 8]).is_ok());
    assert!(hash_password_with_salt("pw", &vec![1u8; 48]).is_ok());
    assert_eq!(hash_password_with_salt("pw", &vec![1u8; 49]), Err(HashError::HashingUnavailable));
}
