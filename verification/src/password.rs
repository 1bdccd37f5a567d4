//! Password hashing for the passwords of shared files and of accounts:
//! Argon2 with a random salt for every hash, in the PHC string format.

use argon2::password_hash::{PasswordHash, PasswordHasher, PasswordVerifier, SaltString};
use argon2::Argon2;
use vstd::prelude::*;
use vstd::utf8::encode_utf8;
use crate::cipher::fresh_bytes;
use crate::error::ErrorMessage;

verus! {

/// The longest password that is hashed, in bytes.
pub const MAX_PASSWORD_LENGTH: usize = 64;

/// Whether `password` matches the PHC string `hash` under Argon2: `None`
/// where `hash` is no PHC string.
pub uninterp spec fn phc_verified(password: Seq<char>, hash: Seq<char>) -> Option<bool>;

/// Why a password of this shape is not worked on, if it is not.
pub open spec fn password_fault(password: Seq<char>) -> Option<ErrorMessage> {
    if password.len() == 0 {
        Some(ErrorMessage::EmptyPassword)
    } else if encode_utf8(password).len() > MAX_PASSWORD_LENGTH {
        Some(ErrorMessage::ExceededMaxPasswordLength(MAX_PASSWORD_LENGTH))
    } else {
        None
    }
}

/// Bytes of the salt that a password is hashed under.
pub const SALT_LENGTH: usize = 16;

/// The PHC string that Argon2 with its default parameters makes of
/// `password` under `salt`; `None` where it refuses them.
pub uninterp spec fn argon2_phc(password: Seq<char>, salt: Seq<u8>) -> Option<Seq<char>>;

/// What hashing `password` under `salt` gives: the fault of the password
/// where it has one, `HashingError` for a salt of another length than
/// `SALT_LENGTH` or where the hashing refuses, and else the hash.
pub open spec fn hashed_with(password: Seq<char>, salt: Seq<u8>) -> Result<Seq<char>, ErrorMessage> {
    match password_fault(password) {
        Some(fault) => Err(fault),
        None => if salt.len() != SALT_LENGTH {
            Err(ErrorMessage::HashingError)
        } else {
            match argon2_phc(password, salt) {
                Some(hash) => Ok(hash),
                None => Err(ErrorMessage::HashingError),
            }
        },
    }
}

/// Calls `SaltString::encode_b64` of `password-hash` and
/// `Argon2::default().hash_password` of `argon2`, and turns the hash into
/// its PHC string. Claims that the result is the named function of
/// password and salt, and that a hash that comes back verifies against the
/// password it was made from.
#[verifier::external_body]
fn argon2_hash(password: &str, salt: &[u8]) -> (res: Option<String>)
    requires
        salt@.len() == SALT_LENGTH,
    ensures
        res.is_some() == argon2_phc(password@, salt@).is_some(),
        res matches Some(hash) ==> argon2_phc(password@, salt@) == Some(hash@) && phc_verified(
            password@,
            hash@,
        ) == Some(true),
{
    let salt = match SaltString::encode_b64(salt) {
        Ok(salt) => salt,
        Err(_) => return None,
    };
    match Argon2::default().hash_password(password.as_bytes(), &salt) {
        Ok(hash) => Some(hash.to_string()),
        Err(_) => None,
    }
}

/// Calls `PasswordHash::new` of `password-hash` and
/// `Argon2::default().verify_password` of `argon2`. Claims that the result
/// is the named function of password and hash: nothing where the hash does
/// not parse, else whether the password verifies.
#[verifier::external_body]
fn argon2_verify(password: &str, hash: &str) -> (res: Option<bool>)
    ensures
        res == phc_verified(password@, hash@),
{
    let parsed = match PasswordHash::new(hash) {
        Ok(parsed) => parsed,
        Err(_) => return None,
    };
    Some(Argon2::default().verify_password(password.as_bytes(), &parsed).is_ok())
}

/// Refuses a password that is empty or longer than `MAX_PASSWORD_LENGTH`
/// bytes.
pub fn check_password(password: &str) -> (res: Result<(), ErrorMessage>)
    ensures
        match res {
            Ok(()) => password_fault(password@).is_none(),
            Err(e) => password_fault(password@) == Some(e),
        },
{
    if password.is_empty() {
        return Err(ErrorMessage::EmptyPassword);
    }
    if password.as_bytes().len() > MAX_PASSWORD_LENGTH {
        return Err(ErrorMessage::ExceededMaxPasswordLength(MAX_PASSWORD_LENGTH));
    }
    Ok(())
}

/// Hashes `password` under the salt that it is given. An empty or overlong
/// password is refused first; a hash that comes back verifies against
/// `password`.
pub fn hash_with_salt(password: &str, salt: &[u8]) -> (res: Result<String, ErrorMessage>)
    ensures
        match res {
            Ok(hashed) => hashed_with(password@, salt@) == Ok::<Seq<char>, ErrorMessage>(hashed@)
                && phc_verified(password@, hashed@) == Some(true),
            Err(e) => hashed_with(password@, salt@) == Err::<Seq<char>, ErrorMessage>(e),
        },
{
    match check_password(password) {
        Ok(()) => {},
        Err(e) => return Err(e),
    }
    if salt.len() != SALT_LENGTH {
        return Err(ErrorMessage::HashingError);
    }
    match argon2_hash(password, salt) {
        Some(hashed) => Ok(hashed),
        None => Err(ErrorMessage::HashingError),
    }
}

/// Hashes `password` under a fresh random salt. An empty or overlong
/// password is refused whatever the generator does; otherwise the generator
/// decides whether there is a salt, and the result is what `hash_with_salt`
/// gives for the salt that was drawn: a hash that verifies against
/// `password`, or `HashingError`.
pub fn hash(password: &str) -> (res: Result<String, ErrorMessage>)
    ensures
        match res {
            Ok(hashed) => {
                &&& password_fault(password@).is_none()
                &&& phc_verified(password@, hashed@) == Some(true)
                &&& exists|salt: Seq<u8>|
                    salt.len() == SALT_LENGTH && #[trigger] argon2_phc(password@, salt) == Some(
                        hashed@,
                    )
            },
            Err(e) => match password_fault(password@) {
                Some(fault) => e == fault,
                None => e == ErrorMessage::HashingError,
            },
        },
{
    match check_password(password) {
        Ok(()) => {},
        Err(e) => return Err(e),
    }
    let salt = match fresh_bytes(SALT_LENGTH) {
        Some(salt) => salt,
        None => return Err(ErrorMessage::HashingError),
    };
    hash_with_salt(password, salt.as_slice())
}

/// What `compare` returns.
pub open spec fn compared(password: Seq<char>, hashed_password: Seq<char>) -> Result<
    bool,
    ErrorMessage,
> {
    match password_fault(password) {
        Some(fault) => Err(fault),
        None => match phc_verified(password, hashed_password) {
            Some(matches) => Ok(matches),
            None => Err(ErrorMessage::InvalidHashFormat),
        },
    }
}

/// Says whether `password` matches `hashed_password`. An empty or overlong
/// password is refused before the hash is looked at; a hash that is no PHC
/// string is `InvalidHashFormat`.
pub fn compare(password: &str, hashed_password: &str) -> (res: Result<bool, ErrorMessage>)
    ensures
        res == compared(password@, hashed_password@),
{
    match check_password(password) {
        Ok(()) => {},
        Err(e) => return Err(e),
    }
    match argon2_verify(password, hashed_password) {
        Some(matches) => Ok(matches),
        None => Err(ErrorMessage::InvalidHashFormat),
    }
}

/// A password that was hashed matches its hash.
pub proof fn lemma_hashed_password_matches(password: Seq<char>, hashed: Seq<char>)
    requires
        password_fault(password).is_none(),
        phc_verified(password, hashed) == Some(true),
    ensures
        compared(password, hashed) == Ok::<bool, ErrorMessage>(true),
{
}

} // verus!
