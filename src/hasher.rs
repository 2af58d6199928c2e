use vstd::prelude::*;
use argon2::password_hash::{PasswordHash, PasswordHasher, PasswordVerifier, SaltString};
use rand_core::RngCore;
use vstd::string::StringSliceAdditionalSpecFns;

verus! {

/// Length in bytes of a freshly drawn salt.
pub const SALT_LEN: usize = 16;

/// Fewest salt bytes Argon2 accepts.
pub const SALT_MIN: usize = 8;

/// Most salt bytes a PHC salt string can carry.
pub const SALT_MAX: usize = 48;

/// Longest password, in UTF-8 bytes, Argon2 accepts.
pub const PASSWORD_MAX_BYTES: u64 = 0xffff_ffff;

/// Why hashing or verification could not be done.
#[derive(Debug, Clone, Copy, PartialEq, Eq, Structural)]
pub enum HashError {
    /// No entropy for a salt, or the hashing primitive refused its input.
    HashingUnavailable,
    /// The stored record is not a parsable PHC string.
    MalformedHash,
}

/// The PHC string that Argon2id with default parameters produces for
/// `password` under the salt bytes `salt`.
pub uninterp spec fn argon2_phc(password: Seq<char>, salt: Seq<u8>) -> Seq<char>;

/// What Argon2 verification of `password` against the PHC string `phc` gives:
/// `None` when `phc` cannot be parsed, else whether the password matches.
pub uninterp spec fn argon2_verdict(password: Seq<char>, phc: Seq<char>) -> Option<bool>;

/// Relies on `rand_core::OsRng::try_fill_bytes`: fresh random salt bytes from
/// the operating system, or an error when it has no entropy to give.
#[verifier::external_body]
fn random_salt() -> (r: Result<Vec<u8>, ()>)
    ensures
        r matches Ok(s) ==> s@.len() == SALT_LEN,
{
    let mut buf = [0u8; SALT_LEN];
    rand_core::OsRng.try_fill_bytes(&mut buf).map_err(|_| ())?;
    Ok(buf.to_vec())
}

/// Relies on `PasswordHasher::hash_password` of `argon2::Argon2::default()`,
/// with the salt bytes encoded by `SaltString::encode_b64`; the PHC string it
/// returns verifies against the same password (`PasswordVerifier` recomputes
/// the hash with the parameters and salt that the string records). A salt
/// of fewer than three bytes would make `SaltString::as_salt` panic; Argon2
/// refuses salts under eight bytes and `encode_b64` those over 48 with an
/// error, and nothing else fails for a password of at most `u32::MAX` bytes.
#[verifier::external_body]
fn argon2_hash(password: &str, salt: &[u8]) -> (r: Result<String, ()>)
    requires
        salt@.len() >= 3,
    ensures
        r matches Ok(h) ==> h@ == argon2_phc(password@, salt@) && argon2_verdict(password@, h@)
            == Some(true),
        r is Err ==> !(SALT_MIN <= salt@.len() <= SALT_MAX && password.spec_bytes().len()
            <= PASSWORD_MAX_BYTES),
{
    let salt = SaltString::encode_b64(salt).map_err(|_| ())?;
    argon2::Argon2::default()
        .hash_password(password.as_bytes(), &salt)
        .map(|h| h.to_string())
        .map_err(|_| ())
}

/// Relies on `PasswordHash::new` to parse the record and on
/// `PasswordVerifier::verify_password` of `argon2::Argon2::default()`, whose
/// output comparison is constant-time.
#[verifier::external_body]
fn argon2_check(password: &str, phc: &str) -> (r: Result<bool, ()>)
    ensures
        r matches Ok(b) ==> argon2_verdict(password@, phc@) == Some(b),
        r is Err ==> argon2_verdict(password@, phc@) is None,
{
    let parsed = PasswordHash::new(phc).map_err(|_| ())?;
    Ok(argon2::Argon2::default().verify_password(password.as_bytes(), &parsed).is_ok())
}

/// Hashes `password` under the given salt bytes; this succeeds for a salt of
/// `SALT_MIN` to `SALT_MAX` bytes and a password of at most
/// `PASSWORD_MAX_BYTES` bytes.
pub fn hash_password_with_salt(password: &str, salt: &Vec<u8>) -> (r: Result<String, HashError>)
    requires
        salt@.len() >= 3,
    ensures
        SALT_MIN <= salt@.len() <= SALT_MAX && password.spec_bytes().len() <= PASSWORD_MAX_BYTES
            ==> r is Ok,
        r matches Ok(h) ==> h@ == argon2_phc(password@, salt@) && argon2_verdict(password@, h@)
            == Some(true),
        r is Err ==> r == Err::<String, HashError>(HashError::HashingUnavailable),
{
    match argon2_hash(password, salt.as_slice()) {
        Ok(h) => Ok(h),
        Err(_) => Err(HashError::HashingUnavailable),
    }
}

/// Hashes `password` under a freshly drawn random salt. The record it returns
/// verifies against `password`.
pub fn hash_password(password: &str) -> (r: Result<String, HashError>)
    ensures
        r matches Ok(h) ==> argon2_verdict(password@, h@) == Some(true) && exists|salt: Seq<u8>|
            salt.len() == SALT_LEN && h@ == #[trigger] argon2_phc(password@, salt),
        r is Err ==> r == Err::<String, HashError>(HashError::HashingUnavailable),
{
    match random_salt() {
        Ok(salt) => hash_password_with_salt(password, &salt),
        Err(_) => Err(HashError::HashingUnavailable),
    }
}

/// Whether `password` matches the stored record `record`.
pub fn verify_password(password: &str, record: &str) -> (r: Result<bool, HashError>)
    ensures
        r == match argon2_verdict(password@, record@) {
            Some(b) => Ok::<bool, HashError>(b),
            None => Err(HashError::MalformedHash),
        },
{
    match argon2_check(password, record) {
        Ok(b) => Ok(b),
        Err(_) => Err(HashError::MalformedHash),
    }
}

} // verus!
