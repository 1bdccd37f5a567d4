//! The shared-file record and its lifecycle states.

use vstd::prelude::*;

verus! {

/// Where a shared file stands in its life.
#[derive(Clone, Copy, Debug, PartialEq, Eq, Structural)]
pub enum FileStatus {
    Active,
    Retrieved,
    Expired,
    Deleted,
}

/// A shared file as the store keeps it.
#[derive(Debug)]
pub struct SharedFile {
    pub id: u64,
    pub owner_id: u128,
    pub recipient_id: u128,
    pub filename: String,
    pub size_bytes: u64,
    pub ciphertext: Vec<u8>,
    pub wrapped_key: Vec<u8>,
    pub access_password_hash: Option<String>,
    pub created_at: i64,
    pub expires_at: i64,
    pub status: FileStatus,
}

/// The mathematical content of a [`SharedFile`].
pub struct FileView {
    pub id: u64,
    pub owner_id: u128,
    pub recipient_id: u128,
    pub filename: Seq<char>,
    pub size_bytes: u64,
    pub ciphertext: Seq<u8>,
    pub wrapped_key: Seq<u8>,
    pub access_password_hash: Option<Seq<char>>,
    pub created_at: i64,
    pub expires_at: i64,
    pub status: FileStatus,
}

impl View for SharedFile {
    type V = FileView;

    open spec fn view(&self) -> FileView {
        FileView {
            id: self.id,
            owner_id: self.owner_id,
            recipient_id: self.recipient_id,
            filename: self.filename@,
            size_bytes: self.size_bytes,
            ciphertext: self.ciphertext@,
            wrapped_key: self.wrapped_key@,
            access_password_hash: match self.access_password_hash {
                Some(h) => Some(h@),
                None => None,
            },
            created_at: self.created_at,
            expires_at: self.expires_at,
            status: self.status,
        }
    }
}

impl FileView {
    /// What every persisted record satisfies: both blobs are present and the
    /// record expires strictly after it was created.
    pub open spec fn well_formed(self) -> bool {
        &&& self.ciphertext.len() > 0
        &&& self.wrapped_key.len() > 0
        &&& self.created_at < self.expires_at
    }

    /// The lifetime of the record is over at `now`.
    pub open spec fn past_expiry(self, now: i64) -> bool {
        self.expires_at <= now
    }

    /// The same record in another state.
    pub open spec fn with_status(self, status: FileStatus) -> FileView {
        FileView { status, ..self }
    }
}

/// How far along its life a record in this state is.
pub open spec fn status_rank(status: FileStatus) -> int {
    match status {
        FileStatus::Active => 0,
        FileStatus::Retrieved => 1,
        FileStatus::Expired => 2,
        FileStatus::Deleted => 3,
    }
}

/// The transitions the lifecycle allows: a retrieval takes `Active` to
/// `Retrieved`, the janitor takes `Active` and `Retrieved` to `Expired`,
/// and removal takes any other state to `Deleted`.
pub open spec fn may_move(from: FileStatus, to: FileStatus) -> bool {
    match (from, to) {
        (FileStatus::Active, FileStatus::Retrieved) => true,
        (FileStatus::Active, FileStatus::Expired) => true,
        (FileStatus::Retrieved, FileStatus::Expired) => true,
        (FileStatus::Active, FileStatus::Deleted) => true,
        (FileStatus::Retrieved, FileStatus::Deleted) => true,
        (FileStatus::Expired, FileStatus::Deleted) => true,
        _ => false,
    }
}

/// The lifecycle only moves forward: every transition leads to a later
/// state, so no record ever returns to a state it has left, and nothing
/// leaves `Deleted`.
pub proof fn lemma_lifecycle_moves_forward(from: FileStatus, to: FileStatus)
    requires
        may_move(from, to),
    ensures
        status_rank(from) < status_rank(to),
        from != FileStatus::Deleted,
{
}

} // verus!
