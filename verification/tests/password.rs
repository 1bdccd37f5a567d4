use secure_share::error::ErrorMessage;
use secure_share::password::{
    check_password, compare, hash, hash_with_salt, MAX_PASSWORD_LENGTH, SALT_LENGTH,
};

#[test]
fn hash_refuses_an_empty_password() {
    assert_eq!(hash(""), Err(ErrorMessage::EmptyPassword));
}

#[test]
fn hash_refuses_an_overlong_password() {
    let long = "a".repeat(65);
    assert_eq!(hash(&long), Err(ErrorMessage::ExceededMaxPasswordLength(64)));
    assert_eq!(MAX_PASSWORD_LENGTH, 64);
}

#[test]
fn password_length_is_counted_in_bytes() {
    let accented = "é".repeat(33);
    assert_eq!(check_password(&accented), Err(ErrorMessage::ExceededMaxPasswordLength(64)));
    let fits = "é".repeat(32);
    assert_eq!(check_password(&fits), Ok(()));
}

#[test]
fn hash_takes_the_longest_password() {
    let longest = "b".repeat(64);
    let hashed = hash(&longest).unwrap();
    assert_eq!(compare(&longest, &hashed), Ok(true));
}

#[test]
fn hash_is_a_phc_string_and_not_the_password() {
    let hashed = hash("correct horse").unwrap();
    assert!(hashed.starts_with("$argon2"));
    assert_ne!(hashed, "correct horse");
}

#[test]
fn hashed_password_matches() {
    let hashed = hash("correct horse").unwrap();
    assert_eq!(compare("correct horse", &hashed), Ok(true));
}

#[test]
fn other_password_does_not_match() {
    let hashed = hash("correct horse").unwrap();
    assert_eq!(compare("wrong horse", &hashed), Ok(false));
}

#[test]
fn two_hashes_of_one_password_differ() {
    let first = hash("correct horse").unwrap();
    let second = hash("correct horse").unwrap();
    assert_ne!(first, second);
}

#[test]
fn compare_refuses_an_empty_password() {
    assert_eq!(compare("", "$argon2id$v=19$m=19456,t=2,p=1$c2FsdHNhbHQ$aGFzaA"), Err(ErrorMessage::EmptyPassword));
}

#[test]
fn compare_refuses_an_overlong_password() {
    let long = "a".repeat(65);
    assert_eq!(compare(&long, "whatever"), Err(ErrorMessage::ExceededMaxPasswordLength(64)));
}

#[test]
fn compare_refuses_a_malformed_hash() {
    assert_eq!(compare("secret", "not a hash"), Err(ErrorMessage::InvalidHashFormat));
    assert_eq!(compare("secret", ""), Err(ErrorMessage::InvalidHashFormat));
}

#[test]
fn messages_have_their_texts() {
    assert_eq!(ErrorMessage::EmptyPassword.message(), "Password cannot be empty");
    assert_eq!(
        ErrorMessage::ExceededMaxPasswordLength(64).message(),
        "Password is longer than the limit allows"
    );
    assert_eq!(ErrorMessage::HashingError.message(), "Error while hashing password");
    assert_eq!(ErrorMessage::InvalidHashFormat.message(), "Invalid password hash format");
    assert_eq!(ErrorMessage::InvalidToken.message(), "Authentication token is invalid or expired");
}

#[test]
fn hash_is_fixed_by_password_and_salt() {
    let salt = [1u8; SALT_LENGTH];
    let first = hash_with_salt("correct horse", &salt).unwrap();
    let again = hash_with_salt("correct horse", &salt).unwrap();
    assert_eq!(first, again);
    assert!(first.starts_with("$argon2id$"));
    assert!(first.contains("AQEBAQEBAQEBAQEBAQEBAQ"));
    assert_eq!(compare("correct horse", &first), Ok(true));
    assert_eq!(compare("Correct horse", &first), Ok(false));
    assert_eq!(compare("correct hors", &first), Ok(false));
    let other_salt = hash_with_salt("correct horse", &[2u8; SALT_LENGTH]).unwrap();
    assert_ne!(first, other_salt);
    let other_password = hash_with_salt("wrong horse", &salt).unwrap();
    assert_ne!(first, other_password);
}

#[test]
fn hash_with_salt_refuses_bad_passwords_first() {
    let long = "a".repeat(65);
    assert_eq!(hash_with_salt("", &[1u8; 3]), Err(ErrorMessage::EmptyPassword));
    assert_eq!(
        hash_with_salt(&long, &[1u8; SALT_LENGTH]),
        Err(ErrorMessage::ExceededMaxPasswordLength(64))
    );
}

#[test]
fn hash_with_salt_refuses_a_salt_of_another_length() {
    assert_eq!(hash_with_salt("secret", &[]), Err(ErrorMessage::HashingError));
    assert_eq!(hash_with_salt("secret", &[1u8; 1]), Err(ErrorMessage::HashingError));
    assert_eq!(hash_with_salt("secret", &[1u8; 15]), Err(ErrorMessage::HashingError));
    assert_eq!(hash_with_salt("secret", &[1u8; 17]), Err(ErrorMessage::HashingError));
    assert_eq!(hash_with_salt("secret", &[1u8; 64]), Err(ErrorMessage::HashingError));
}
