//! The expiry janitor: one pass reclaims every record whose lifetime is
//! over. The pass takes the time from its caller, so a scheduler runs it
//! with the clock and a test with any moment it likes.

use vstd::prelude::*;
use crate::record::FileView;
use crate::retrieval::over;
use crate::state::AppState;
use crate::store::{count_due, due, swept};

verus! {

/// What one pass of the janitor did.
#[derive(Clone, Copy, Debug, PartialEq, Eq, Structural)]
pub struct JanitorReport {
    /// Records that were due and were marked `Expired`.
    pub marked: usize,
    /// Records that were removed.
    pub deleted: usize,
}

/// One pass of the janitor at `now`, in two phases: every record that is
/// due is marked `Expired`, then every record marked so is removed. A pass
/// that was interrupted between the phases is made good by the next.
pub fn run_once(app_state: &mut AppState, now: i64) -> (report: JanitorReport)
    requires
        old(app_state).wf(),
    ensures
        final(app_state).wf(),
        final(app_state).env == old(app_state).env,
        final(app_state).db_client.users@ == old(app_state).db_client.users@,
        final(app_state).db_client.files@ == swept(old(app_state).db_client.files@, now),
        final(app_state).db_client.files.next_id() == old(app_state).db_client.files.next_id(),
        report.marked == count_due(old(app_state).db_client.files@, now),
        report.deleted == old(app_state).db_client.files@.len()
            - final(app_state).db_client.files@.len(),
{
    let marked = app_state.db_client.files.mark_expired(now);
    let deleted = app_state.db_client.files.remove_expired();
    JanitorReport { marked, deleted }
}

/// The janitor takes nothing that a retrieval at the same moment would
/// still hand out: what is due is over.
pub proof fn lemma_due_is_over(record: FileView, now: i64)
    requires
        due(record, now),
    ensures
        over(record, now),
{
}

} // verus!
