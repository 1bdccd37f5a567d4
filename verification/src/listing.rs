//! The list of files shared with a user, a page at a time.

use vstd::prelude::*;
use crate::error::HttpError;
use crate::record::{FileStatus, FileView, SharedFile};
use crate::state::AppState;
use crate::store::shared_with;

verus! {

/// The page that is served where the caller names none.
pub const DEFAULT_PAGE: usize = 1;

/// The page size that is served where the caller names none.
pub const DEFAULT_LIMIT: usize = 10;

/// The largest page size a caller may ask for.
pub const MAX_LIMIT: usize = 50;

/// Which page of the list the caller wants.
#[derive(Clone, Copy, Debug)]
pub struct RequestQueryDto {
    /// The page, counted from 1.
    pub page: Option<usize>,
    /// The number of entries on a page, from 1 to `MAX_LIMIT`.
    pub limit: Option<usize>,
}

/// What the list tells of a shared file: everything but its content.
#[derive(Debug)]
pub struct FileSummary {
    pub id: u64,
    pub owner_id: u128,
    pub filename: String,
    pub size_bytes: u64,
    pub created_at: i64,
    pub expires_at: i64,
    pub status: FileStatus,
}

/// The mathematical content of a [`FileSummary`].
pub struct SummaryView {
    pub id: u64,
    pub owner_id: u128,
    pub filename: Seq<char>,
    pub size_bytes: u64,
    pub created_at: i64,
    pub expires_at: i64,
    pub status: FileStatus,
}

impl View for FileSummary {
    type V = SummaryView;

    open spec fn view(&self) -> SummaryView {
        SummaryView {
            id: self.id,
            owner_id: self.owner_id,
            filename: self.filename@,
            size_bytes: self.size_bytes,
            created_at: self.created_at,
            expires_at: self.expires_at,
            status: self.status,
        }
    }
}

/// What the list tells of `record`.
pub open spec fn summary_of(record: FileView) -> SummaryView {
    SummaryView {
        id: record.id,
        owner_id: record.owner_id,
        filename: record.filename,
        size_bytes: record.size_bytes,
        created_at: record.created_at,
        expires_at: record.expires_at,
        status: record.status,
    }
}

/// The query asks for a page or a page size that does not exist.
pub open spec fn query_invalid(query: RequestQueryDto) -> bool {
    ||| query.page == Some(0usize)
    ||| query.limit == Some(0usize)
    ||| query.limit matches Some(limit) && limit > MAX_LIMIT
}

/// The page the query asks for.
pub open spec fn page_of(query: RequestQueryDto) -> int {
    match query.page {
        Some(page) => page as int,
        None => DEFAULT_PAGE as int,
    }
}

/// The page size the query asks for.
pub open spec fn limit_of(query: RequestQueryDto) -> int {
    match query.limit {
        Some(limit) => limit as int,
        None => DEFAULT_LIMIT as int,
    }
}

/// Where page `page` of `limit` entries starts in a list of `total`.
pub open spec fn page_start(total: int, page: int, limit: int) -> int {
    if (page - 1) * limit < total {
        (page - 1) * limit
    } else {
        total
    }
}

/// Where that page ends.
pub open spec fn page_end(total: int, page: int, limit: int) -> int {
    if page_start(total, page, limit) + limit < total {
        page_start(total, page, limit) + limit
    } else {
        total
    }
}

/// The entries on the page that `query` asks for, of the files shared with
/// `recipient`.
pub open spec fn listed(s: Seq<FileView>, recipient: u128, query: RequestQueryDto) -> Seq<
    SummaryView,
> {
    let all = shared_with(s, recipient);
    let start = page_start(all.len() as int, page_of(query), limit_of(query));
    let end = page_end(all.len() as int, page_of(query), limit_of(query));
    Seq::new((end - start) as nat, |i: int| summary_of(all[start + i]))
}

/// Holds a query against the limits.
pub fn check_query(query: &RequestQueryDto) -> (ok: bool)
    ensures
        ok == !query_invalid(*query),
{
    let page_ok = match query.page {
        Some(page) => page >= 1,
        None => true,
    };
    let limit_ok = match query.limit {
        Some(limit) => 1 <= limit && limit <= MAX_LIMIT,
        None => true,
    };
    page_ok && limit_ok
}

/// What the list tells of a record.
pub fn summarize(record: &SharedFile) -> (summary: FileSummary)
    ensures
        summary@ == summary_of(record@),
{
    FileSummary {
        id: record.id,
        owner_id: record.owner_id,
        filename: record.filename.clone(),
        size_bytes: record.size_bytes,
        created_at: record.created_at,
        expires_at: record.expires_at,
        status: record.status,
    }
}

/// The files shared with `user_id`, in the order of their creation, one
/// page at a time. A query outside the limits is answered with `400`.
pub fn get_user_shared_files(app_state: &AppState, user_id: u128, query_params: &RequestQueryDto)
    -> (res: Result<Vec<FileSummary>, HttpError>)
    ensures
        match res {
            Ok(list) => {
                let expected = listed(app_state.db_client.files@, user_id, *query_params);
                &&& !query_invalid(*query_params)
                &&& list@.len() == expected.len()
                &&& forall|i: int| 0 <= i < list@.len() ==> (#[trigger] list@[i])@ == expected[i]
            },
            Err(e) => {
                &&& query_invalid(*query_params)
                &&& e.status == 400
                &&& e.message@ == "Invalid page or limit"@
            },
        },
{
    if !check_query(query_params) {
        return Err(HttpError::bad_request("Invalid page or limit".to_owned()));
    }
    let page = match query_params.page {
        Some(page) => page,
        None => DEFAULT_PAGE,
    };
    let limit = match query_params.limit {
        Some(limit) => limit,
        None => DEFAULT_LIMIT,
    };
    let found = app_state.db_client.files.files_for_recipient(user_id);
    let total = found.len();
    let start = match (page - 1).checked_mul(limit) {
        Some(start) => if start < total {
            start
        } else {
            total
        },
        None => total,
    };
    let end = if limit < total - start {
        start + limit
    } else {
        total
    };
    let ghost all = shared_with(app_state.db_client.files@, user_id);
    assert(start == page_start(total as int, page as int, limit as int));
    assert(end == page_end(total as int, page as int, limit as int));
    let mut list: Vec<FileSummary> = Vec::new();
    let mut i: usize = start;
    while i < end
        invariant
            start <= i <= end <= total,
            total == found@.len(),
            total == all.len(),
            forall|j: int| 0 <= j < total ==> (#[trigger] found@[j])@ == all[j],
            list@.len() == i - start,
            forall|j: int| 0 <= j < list@.len() ==> (#[trigger] list@[j])@ == summary_of(
                all[start + j],
            ),
        decreases end - i,
    {
        let summary = summarize(found[i]);
        list.push(summary);
        i += 1;
    }
    Ok(list)
}

} // verus!
