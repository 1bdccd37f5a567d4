//! The retrieval pipeline: the caller is held against the record's
//! recipient, the file's password and the expiry before any key is touched;
//! then the private key is unwrapped for this one use and the payload
//! decrypted.

use vstd::prelude::*;
use vstd::utf8::encode_utf8;
use crate::cipher::{decrypt_with, key_pair, lemma_round_trip, opened};
use crate::error::{status_of, ErrorKind};
use crate::keys::{private_key_of, UserView};
use crate::password::{compare, compared, password_fault};
use crate::record::{FileStatus, FileView, SharedFile};
use crate::state::AppState;
use crate::store::{lookup, position};
use crate::upload::{option_text, uploaded};

verus! {

/// What the caller sends to retrieve a file.
#[derive(Debug)]
pub struct RetrieveFileDto {
    /// The password of the file, where the caller supplies one.
    pub password: Option<String>,
    /// The caller's own password, which unwraps their private key.
    pub account_password: String,
}

/// A retrieved file.
#[derive(Debug)]
pub struct Download {
    pub filename: String,
    pub plaintext: Vec<u8>,
}

/// Why a file was not handed out.
#[derive(Clone, Copy, Debug, PartialEq, Eq, Structural)]
pub enum RetrievalError {
    /// The caller is not the recipient, there is no such record, or the
    /// caller's private key could not be had.
    Forbidden,
    /// The file's password is missing or wrong.
    InvalidPassword,
    /// The record's lifetime is over.
    Expired,
    /// The record was retrieved before and may be retrieved only once.
    AlreadyConsumed,
    /// The payload did not decrypt.
    DecryptionFailed,
}

/// The kind that a retrieval error is reported as.
pub open spec fn retrieval_error_kind(e: RetrievalError) -> ErrorKind {
    match e {
        RetrievalError::Forbidden => ErrorKind::Authorization,
        RetrievalError::InvalidPassword => ErrorKind::Authorization,
        RetrievalError::Expired => ErrorKind::Expired,
        RetrievalError::AlreadyConsumed => ErrorKind::Expired,
        RetrievalError::DecryptionFailed => ErrorKind::Crypto,
    }
}

impl RetrievalError {
    /// The kind this error is reported as.
    pub fn kind(&self) -> (kind: ErrorKind)
        ensures
            kind == retrieval_error_kind(*self),
    {
        match self {
            RetrievalError::Forbidden => ErrorKind::Authorization,
            RetrievalError::InvalidPassword => ErrorKind::Authorization,
            RetrievalError::Expired => ErrorKind::Expired,
            RetrievalError::AlreadyConsumed => ErrorKind::Expired,
            RetrievalError::DecryptionFailed => ErrorKind::Crypto,
        }
    }
}

/// `supplied` unlocks `record`: the record has no password, or the
/// password is there and matches the stored hash.
pub open spec fn unlocks(record: FileView, supplied: Option<Seq<char>>) -> bool {
    match record.access_password_hash {
        None => true,
        Some(hash) => match supplied {
            Some(password) => compared(password, hash) == Ok::<bool, crate::error::ErrorMessage>(
                true,
            ),
            None => false,
        },
    }
}

/// The record is over at `now`, whatever its status says: it is marked
/// `Expired` or `Deleted`, or its expiry has come.
pub open spec fn over(record: FileView, now: i64) -> bool {
    ||| record.status == FileStatus::Expired
    ||| record.status == FileStatus::Deleted
    ||| record.past_expiry(now)
}

/// Why `requester` does not get the record that was found for an
/// identifier, if they do not: in this order, they are not its recipient
/// (or nothing was found), the password does not unlock it, the record is
/// over, or it was consumed.
pub open spec fn retrieval_fault(
    found: Option<FileView>,
    requester: u128,
    supplied: Option<Seq<char>>,
    single_retrieval: bool,
    now: i64,
) -> Option<RetrievalError> {
    match found {
        None => Some(RetrievalError::Forbidden),
        Some(record) => if record.recipient_id != requester {
            Some(RetrievalError::Forbidden)
        } else if !unlocks(record, supplied) {
            Some(RetrievalError::InvalidPassword)
        } else if over(record, now) {
            Some(RetrievalError::Expired)
        } else if single_retrieval && record.status == FileStatus::Retrieved {
            Some(RetrievalError::AlreadyConsumed)
        } else {
            None
        },
    }
}

/// Says whether `supplied` unlocks `record`.
pub fn password_unlocks(record: &SharedFile, supplied: &Option<String>) -> (res: bool)
    ensures
        res == unlocks(record@, option_text(*supplied)),
{
    match &record.access_password_hash {
        None => true,
        Some(hash) => match supplied {
            Some(password) => match compare(password.as_str(), hash.as_str()) {
                Ok(matches) => matches,
                Err(_) => false,
            },
            None => false,
        },
    }
}

/// Decides whether `requester` may have the record that was found.
pub fn authorize_retrieval(
    found: Option<&SharedFile>,
    requester: u128,
    supplied: &Option<String>,
    single_retrieval: bool,
    now: i64,
) -> (res: Result<(), RetrievalError>)
    ensures
        match res {
            Ok(()) => retrieval_fault(
                option_view(found),
                requester,
                option_text(*supplied),
                single_retrieval,
                now,
            ).is_none(),
            Err(e) => retrieval_fault(
                option_view(found),
                requester,
                option_text(*supplied),
                single_retrieval,
                now,
            ) == Some(e),
        },
{
    let record = match found {
        Some(record) => record,
        None => return Err(RetrievalError::Forbidden),
    };
    if record.recipient_id != requester {
        return Err(RetrievalError::Forbidden);
    }
    if !password_unlocks(record, supplied) {
        return Err(RetrievalError::InvalidPassword);
    }
    let marked_over = match record.status {
        FileStatus::Expired | FileStatus::Deleted => true,
        _ => false,
    };
    if marked_over || record.expires_at <= now {
        return Err(RetrievalError::Expired);
    }
    let retrieved = match record.status {
        FileStatus::Retrieved => true,
        _ => false,
    };
    if single_retrieval && retrieved {
        return Err(RetrievalError::AlreadyConsumed);
    }
    Ok(())
}

/// The content of a record that may be there.
pub open spec fn option_view(found: Option<&SharedFile>) -> Option<FileView> {
    match found {
        Some(record) => Some(record@),
        None => None,
    }
}

/// Hands the file `file_id` to `user_id`. The caller must be the
/// recipient, know the file's password, and come before the expiry; then their private
/// key is unwrapped with their own password, the payload decrypted, and the
/// record marked `Retrieved`. Every refusal leaves the state as it was.
pub fn retrieve_file(
    app_state: &mut AppState,
    user_id: u128,
    file_id: u64,
    body: &RetrieveFileDto,
    now: i64,
) -> (res: Result<Download, RetrievalError>)
    requires
        old(app_state).wf(),
    ensures
        final(app_state).wf(),
        final(app_state).env == old(app_state).env,
        final(app_state).db_client.users@ == old(app_state).db_client.users@,
        final(app_state).db_client.files.next_id() == old(app_state).db_client.files.next_id(),
        ({
            let files = old(app_state).db_client.files@;
            let fault = retrieval_fault(
                lookup(files, file_id),
                user_id,
                option_text(body.password),
                old(app_state).env.single_retrieval,
                now,
            );
            let key = private_key_of(
                old(app_state).db_client.users@,
                user_id,
                encode_utf8(body.account_password@),
            );
            match res {
                Ok(download) => {
                    let record = lookup(files, file_id).unwrap();
                    &&& fault.is_none()
                    &&& key matches Ok(private_key) && opened(
                        record.ciphertext,
                        record.wrapped_key,
                        private_key,
                    ) == Some(download.plaintext@)
                    &&& download.filename@ == record.filename
                    &&& final(app_state).db_client.files@ == files.update(
                        position(files, file_id),
                        record.with_status(FileStatus::Retrieved),
                    )
                },
                Err(e) => {
                    &&& final(app_state).db_client.files@ == files
                    &&& match fault {
                        Some(f) => e == f,
                        None => match key {
                            Ok(private_key) => {
                                let record = lookup(files, file_id).unwrap();
                                &&& e == RetrievalError::DecryptionFailed
                                &&& opened(record.ciphertext, record.wrapped_key, private_key)
                                    .is_none()
                            },
                            Err(_) => e == RetrievalError::Forbidden,
                        },
                    }
                },
            }
        }),
{
    let found = app_state.db_client.files.load_for_authorization(file_id);
    match authorize_retrieval(
        found,
        user_id,
        &body.password,
        app_state.env.single_retrieval,
        now,
    ) {
        Ok(()) => {},
        Err(e) => return Err(e),
    }
    let record = match found {
        Some(record) => record,
        None => return Err(RetrievalError::Forbidden),
    };
    let private_key = match app_state.db_client.users.unwrap_private_key(
        user_id,
        body.account_password.as_str(),
    ) {
        Ok(private_key) => private_key,
        Err(_) => return Err(RetrievalError::Forbidden),
    };
    let plaintext = match decrypt_with(
        record.ciphertext.as_slice(),
        record.wrapped_key.as_slice(),
        private_key.as_slice(),
    ) {
        Ok(plaintext) => plaintext,
        Err(_) => return Err(RetrievalError::DecryptionFailed),
    };
    let filename = record.filename.clone();
    let _ = app_state.db_client.files.mark_retrieved(file_id);
    Ok(Download { filename, plaintext })
}

/// The status that answers a retrieval: `200` with the file, else the
/// status of the error's kind.
pub fn retrieval_status(res: &Result<Download, RetrievalError>) -> (code: u16)
    ensures
        code == match *res {
            Ok(_) => 200u16,
            Err(e) => status_of(retrieval_error_kind(e)),
        },
{
    match res {
        Ok(_) => 200,
        Err(e) => e.kind().status(),
    }
}

/// Authorization boundary: whoever is not the recipient of a record gets
/// for it what they get for an identifier that names no record.
pub proof fn lemma_non_recipient_sees_nothing(
    record: FileView,
    requester: u128,
    supplied: Option<Seq<char>>,
    single_retrieval: bool,
    now: i64,
)
    requires
        record.recipient_id != requester,
    ensures
        retrieval_fault(Some(record), requester, supplied, single_retrieval, now)
            == retrieval_fault(None, requester, supplied, single_retrieval, now),
        retrieval_fault(Some(record), requester, supplied, single_retrieval, now) == Some(
            RetrievalError::Forbidden,
        ),
{
}

/// Expiry enforcement: a record whose expiry has come is never handed out,
/// whatever its status says and whether or not the janitor has passed; to
/// its recipient, with the right password, the answer is `Expired`.
pub proof fn lemma_expired_is_never_returned(
    record: FileView,
    requester: u128,
    supplied: Option<Seq<char>>,
    single_retrieval: bool,
    now: i64,
)
    requires
        record.expires_at <= now,
    ensures
        retrieval_fault(Some(record), requester, supplied, single_retrieval, now).is_some(),
        record.recipient_id == requester && unlocks(record, supplied) ==> retrieval_fault(
            Some(record),
            requester,
            supplied,
            single_retrieval,
            now,
        ) == Some(RetrievalError::Expired),
{
}

/// What was uploaded is handed out: before its expiry, the recipient of an
/// uploaded record who supplies the password it was uploaded with is not
/// refused, and the private key of their key pair opens the record to the
/// very bytes that were uploaded, under the name they were uploaded with.
pub proof fn lemma_uploaded_file_is_handed_out(
    record: FileView,
    owner_id: u128,
    recipient: UserView,
    file_name: Seq<char>,
    data: Seq<u8>,
    password: Option<Seq<char>>,
    expires_at: i64,
    uploaded_at: i64,
    private_key: Seq<u8>,
    single_retrieval: bool,
    now: i64,
)
    requires
        uploaded(record, owner_id, recipient, file_name, data, password, expires_at, uploaded_at),
        recipient.usable_public_key() matches Some(public_key) && key_pair(
            public_key,
            private_key,
        ),
        password matches Some(p) ==> password_fault(p).is_none(),
        now < expires_at,
    ensures
        retrieval_fault(Some(record), recipient.id, password, single_retrieval, now).is_none(),
        opened(record.ciphertext, record.wrapped_key, private_key) == Some(data),
        record.filename == file_name,
        record.size_bytes == data.len(),
{
    lemma_round_trip(
        data,
        recipient.usable_public_key().unwrap(),
        private_key,
        record.ciphertext,
        record.wrapped_key,
    );
}

} // verus!
