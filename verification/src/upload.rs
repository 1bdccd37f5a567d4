//! The upload pipeline: a submission is validated in a fixed order, the
//! payload is sealed for the recipient, and only then a record is stored.

use validator::ValidateEmail;
use vstd::prelude::*;
use crate::cipher::{encrypt_for, sealed_for};
use crate::error::{status_of, ErrorKind};
use crate::keys::{decode_public_key, first_with_email, UserView};
use crate::password::{check_password, hash, password_fault, phc_verified};
use crate::record::{FileStatus, FileView, SharedFile};
use crate::state::AppState;

verus! {

/// Whether `text` is an e-mail address by the rules of the HTML5
/// specification.
pub uninterp spec fn email_syntax_ok(text: Seq<char>) -> bool;

/// The moment that the RFC 3339 date-and-time `text` names, in seconds
/// since the epoch; `None` where it is no such text.
pub uninterp spec fn rfc3339_timestamp(text: Seq<char>) -> Option<i64>;

/// The fields of a submission that come beside the file.
#[derive(Debug)]
pub struct FileUploadDtos {
    pub recipient_email: String,
    /// the password that guards the download, where the uploader sets one.
    pub password: Option<String>,
    /// When the file expires, as RFC 3339 text.
    pub expiration_date: String,
}

/// Why a submission was turned down.
#[derive(Clone, Copy, Debug, PartialEq, Eq, Structural)]
pub enum UploadError {
    InvalidEmail,
    RecipientNotFound,
    RecipientHasNoKey,
    InvalidExpiration,
    EmptyFile,
    FileTooLarge,
    InvalidPassword,
    HashingFailed,
    EncryptionFailed,
    Storage,
}

/// The kind that an upload error is reported as.
pub open spec fn upload_error_kind(e: UploadError) -> ErrorKind {
    match e {
        UploadError::InvalidEmail => ErrorKind::Validation,
        UploadError::RecipientNotFound => ErrorKind::NotFound,
        UploadError::RecipientHasNoKey => ErrorKind::Validation,
        UploadError::InvalidExpiration => ErrorKind::Validation,
        UploadError::EmptyFile => ErrorKind::Validation,
        UploadError::FileTooLarge => ErrorKind::Validation,
        UploadError::InvalidPassword => ErrorKind::Validation,
        UploadError::HashingFailed => ErrorKind::Crypto,
        UploadError::EncryptionFailed => ErrorKind::Crypto,
        UploadError::Storage => ErrorKind::Storage,
    }
}

impl UploadError {
    /// The kind this error is reported as.
    pub fn kind(&self) -> (kind: ErrorKind)
        ensures
            kind == upload_error_kind(*self),
    {
        match self {
            UploadError::InvalidEmail => ErrorKind::Validation,
            UploadError::RecipientNotFound => ErrorKind::NotFound,
            UploadError::RecipientHasNoKey => ErrorKind::Validation,
            UploadError::InvalidExpiration => ErrorKind::Validation,
            UploadError::EmptyFile => ErrorKind::Validation,
            UploadError::FileTooLarge => ErrorKind::Validation,
            UploadError::InvalidPassword => ErrorKind::Validation,
            UploadError::HashingFailed => ErrorKind::Crypto,
            UploadError::EncryptionFailed => ErrorKind::Crypto,
            UploadError::Storage => ErrorKind::Storage,
        }
    }
}

/// The expiry that a submission asks for, where it parsed and lies strictly
/// after `now`.
pub open spec fn accepted_expiration(parsed: Option<i64>, now: i64) -> Option<i64> {
    match parsed {
        Some(at) => if at > now {
            Some(at)
        } else {
            None
        },
        None => None,
    }
}

/// Why a payload of `len` bytes is not taken, if it is not.
pub open spec fn file_fault(len: nat, max_file_size: usize) -> Option<UploadError> {
    if len == 0 {
        Some(UploadError::EmptyFile)
    } else if len > max_file_size {
        Some(UploadError::FileTooLarge)
    } else {
        None
    }
}

/// The first rule that a submission breaks, in the order in which the rules
/// are held against it: the address, the recipient, the recipient's key,
/// the expiry, the payload, the password.
pub open spec fn upload_fault(
    users: Seq<UserView>,
    email: Seq<char>,
    password: Option<Seq<char>>,
    expiration_date: Seq<char>,
    file_len: nat,
    max_file_size: usize,
    now: i64,
) -> Option<UploadError> {
    if !email_syntax_ok(email) {
        Some(UploadError::InvalidEmail)
    } else {
        match first_with_email(users, email) {
            None => Some(UploadError::RecipientNotFound),
            Some(recipient) => if recipient.usable_public_key().is_none() {
                Some(UploadError::RecipientHasNoKey)
            } else if accepted_expiration(rfc3339_timestamp(expiration_date), now).is_none() {
                Some(UploadError::InvalidExpiration)
            } else if file_fault(file_len, max_file_size).is_some() {
                file_fault(file_len, max_file_size)
            } else {
                match password {
                    Some(p) => if password_fault(p).is_some() {
                        Some(UploadError::InvalidPassword)
                    } else {
                        None
                    },
                    None => None,
                }
            },
        }
    }
}

/// `record` is what an accepted submission is stored as.
pub open spec fn uploaded(
    record: FileView,
    owner_id: u128,
    recipient: UserView,
    file_name: Seq<char>,
    data: Seq<u8>,
    password: Option<Seq<char>>,
    expires_at: i64,
    now: i64,
) -> bool {
    &&& record.owner_id == owner_id
    &&& record.recipient_id == recipient.id
    &&& record.filename == file_name
    &&& record.size_bytes == data.len()
    &&& recipient.usable_public_key() matches Some(public_key) && sealed_for(
        data,
        public_key,
        record.ciphertext,
        record.wrapped_key,
    )
    &&& match password {
        Some(p) => record.access_password_hash matches Some(h) && phc_verified(p, h) == Some(true),
        None => record.access_password_hash.is_none(),
    }
    &&& record.created_at == now
    &&& record.expires_at == expires_at
    &&& record.status == FileStatus::Active
}

/// Calls `validate_email` of `validator`. Claims that the result is the
/// named function of the text.
#[verifier::external_body]
fn valid_email(text: &str) -> (res: bool)
    ensures
        res == email_syntax_ok(text@),
{
    text.validate_email()
}

/// Calls `DateTime::parse_from_rfc3339` and `timestamp` of `chrono`.
/// Claims that the result is the named function of the text.
#[verifier::external_body]
fn parse_timestamp(text: &str) -> (res: Option<i64>)
    ensures
        res == rfc3339_timestamp(text@),
{
    match chrono::DateTime::parse_from_rfc3339(text) {
        Ok(moment) => Some(moment.timestamp()),
        Err(_) => None,
    }
}

/// Holds a parsed expiry against `now`: it must be there and lie strictly
/// in the future.
pub fn check_expiration(parsed: Option<i64>, now: i64) -> (res: Result<i64, UploadError>)
    ensures
        match res {
            Ok(at) => accepted_expiration(parsed, now) == Some(at),
            Err(e) => e == UploadError::InvalidExpiration && accepted_expiration(parsed, now)
                .is_none(),
        },
{
    match parsed {
        Some(at) => if at > now {
            Ok(at)
        } else {
            Err(UploadError::InvalidExpiration)
        },
        None => Err(UploadError::InvalidExpiration),
    }
}

/// Holds the size of a payload against the configured maximum.
pub fn check_file(len: usize, max_file_size: usize) -> (res: Result<(), UploadError>)
    ensures
        match res {
            Ok(()) => file_fault(len as nat, max_file_size).is_none(),
            Err(e) => file_fault(len as nat, max_file_size) == Some(e),
        },
{
    if len == 0 {
        Err(UploadError::EmptyFile)
    } else if len > max_file_size {
        Err(UploadError::FileTooLarge)
    } else {
        Ok(())
    }
}

/// Takes a submission of `user_id`: validates it, seals the payload for the
/// recipient and stores one new `Active` record, whose identifier it
/// returns. Every refusal leaves the state as it was. The rules decide
/// which refusal comes first; a submission that breaks none is refused only
/// where hashing, encryption or the store fail.
pub fn upload_file(
    app_state: &mut AppState,
    user_id: u128,
    file_name: String,
    file_data: Vec<u8>,
    form_data: FileUploadDtos,
    now: i64,
) -> (res: Result<u64, UploadError>)
    requires
        old(app_state).wf(),
    ensures
        final(app_state).wf(),
        final(app_state).env == old(app_state).env,
        final(app_state).db_client.users@ == old(app_state).db_client.users@,
        match res {
            Ok(id) => {
                let before = old(app_state).db_client.files@;
                let after = final(app_state).db_client.files@;
                &&& upload_fault(
                    old(app_state).db_client.users@,
                    form_data.recipient_email@,
                    option_text(form_data.password),
                    form_data.expiration_date@,
                    file_data@.len(),
                    old(app_state).env.max_file_size,
                    now,
                ).is_none()
                &&& after.len() == before.len() + 1
                &&& after.drop_last() == before
                &&& after.last().id == id
                &&& id == old(app_state).db_client.files.next_id()
                &&& final(app_state).db_client.files.next_id() == id + 1
                &&& uploaded(
                    after.last(),
                    user_id,
                    first_with_email(old(app_state).db_client.users@, form_data.recipient_email@)
                        .unwrap(),
                    file_name@,
                    file_data@,
                    option_text(form_data.password),
                    rfc3339_timestamp(form_data.expiration_date@).unwrap(),
                    now,
                )
            },
            Err(e) => {
                &&& final(app_state).db_client.files@ == old(app_state).db_client.files@
                &&& final(app_state).db_client.files.next_id() == old(
                    app_state,
                ).db_client.files.next_id()
                &&& match upload_fault(
                    old(app_state).db_client.users@,
                    form_data.recipient_email@,
                    option_text(form_data.password),
                    form_data.expiration_date@,
                    file_data@.len(),
                    old(app_state).env.max_file_size,
                    now,
                ) {
                    Some(fault) => e == fault,
                    None => {
                        ||| e == UploadError::HashingFailed && form_data.password.is_some()
                        ||| e == UploadError::EncryptionFailed
                        ||| e == UploadError::Storage && old(app_state).db_client.files.next_id()
                            == u64::MAX
                    },
                }
            },
        },
{
    if !valid_email(form_data.recipient_email.as_str()) {
        return Err(UploadError::InvalidEmail);
    }
    let recipient = match app_state.db_client.users.get_user_by_email(
        form_data.recipient_email.as_str(),
    ) {
        Some(recipient) => recipient,
        None => return Err(UploadError::RecipientNotFound),
    };
    let recipient_id = recipient.id;
    let public_key = match decode_public_key(recipient) {
        Ok(public_key) => public_key,
        Err(_) => return Err(UploadError::RecipientHasNoKey),
    };
    let expires_at = match check_expiration(
        parse_timestamp(form_data.expiration_date.as_str()),
        now,
    ) {
        Ok(expires_at) => expires_at,
        Err(e) => return Err(e),
    };
    match check_file(file_data.len(), app_state.env.max_file_size) {
        Ok(()) => {},
        Err(e) => return Err(e),
    }
    let access_password_hash = match &form_data.password {
        Some(password) => {
            match check_password(password.as_str()) {
                Ok(()) => {},
                Err(_) => return Err(UploadError::InvalidPassword),
            }
            match hash(password.as_str()) {
                Ok(hashed) => Some(hashed),
                Err(_) => return Err(UploadError::HashingFailed),
            }
        },
        None => None,
    };
    let envelope = match encrypt_for(file_data.as_slice(), public_key.as_slice()) {
        Ok(envelope) => envelope,
        Err(_) => return Err(UploadError::EncryptionFailed),
    };
    let record = SharedFile {
        id: 0,
        owner_id: user_id,
        recipient_id,
        filename: file_name,
        size_bytes: file_data.len() as u64,
        ciphertext: envelope.ciphertext,
        wrapped_key: envelope.wrapped_key,
        access_password_hash,
        created_at: now,
        expires_at,
        status: FileStatus::Active,
    };
    let ghost before = app_state.db_client.files@;
    match app_state.db_client.files.create(record) {
        Ok(id) => {
            proof {
                let after = app_state.db_client.files@;
                assert(after.drop_last() =~= before);
            }
            Ok(id)
        },
        Err(_) => Err(UploadError::Storage),
    }
}

/// The status that answers an upload: `201` for a record that was created,
/// else the status of the error's kind.
pub open spec fn upload_status_of(res: Result<u64, UploadError>) -> u16 {
    match res {
        Ok(_) => 201,
        Err(e) => status_of(upload_error_kind(e)),
    }
}

/// The status that answers an upload.
pub fn upload_status(res: &Result<u64, UploadError>) -> (code: u16)
    ensures
        code == upload_status_of(*res),
{
    match res {
        Ok(_) => 201,
        Err(e) => e.kind().status(),
    }
}

/// The text of an optional string.
pub open spec fn option_text(text: Option<String>) -> Option<Seq<char>> {
    match text {
        Some(t) => Some(t@),
        None => None,
    }
}

} // verus!
