//! The keeper of shared-file records: it alone creates records, moves them
//! through their lifecycle and removes them.

use vstd::prelude::*;
use crate::record::{may_move, FileStatus, FileView, SharedFile};

verus! {

/// Some record of `s` carries `id`.
pub open spec fn holds(s: Seq<FileView>, id: u64) -> bool {
    exists|i: int| 0 <= i < s.len() && (#[trigger] s[i]).id == id
}

/// The place of the record that carries `id`, where there is one.
pub open spec fn position(s: Seq<FileView>, id: u64) -> int {
    choose|i: int| 0 <= i < s.len() && (#[trigger] s[i]).id == id
}

/// The record that carries `id`, if any.
pub open spec fn lookup(s: Seq<FileView>, id: u64) -> Option<FileView> {
    if holds(s, id) {
        Some(s[position(s, id)])
    } else {
        None
    }
}

/// The invariant of a store: every record is well formed, is never in the
/// terminal state, has an identifier the store handed out, and shares it
/// with no other record.
pub open spec fn consistent(s: Seq<FileView>, next_id: u64) -> bool {
    &&& forall|i: int|
        0 <= i < s.len() ==> {
            &&& (#[trigger] s[i]).well_formed()
            &&& s[i].id < next_id
            &&& s[i].status != FileStatus::Deleted
        }
    &&& forall|i: int, j: int|
        0 <= i < j < s.len() ==> (#[trigger] s[i]).id != (#[trigger] s[j]).id
}

/// The janitor takes this record at `now`: it is still in use and its
/// lifetime is over.
pub open spec fn due(r: FileView, now: i64) -> bool {
    &&& r.past_expiry(now)
    &&& (r.status == FileStatus::Active || r.status == FileStatus::Retrieved)
}

/// First phase of reclamation: every due record is marked `Expired`.
pub open spec fn marked(s: Seq<FileView>, now: i64) -> Seq<FileView> {
    Seq::new(
        s.len(),
        |i: int|
            if due(s[i], now) {
                s[i].with_status(FileStatus::Expired)
            } else {
                s[i]
            },
    )
}

/// How many records of `s` are due at `now`.
pub open spec fn count_due(s: Seq<FileView>, now: i64) -> nat
    decreases s.len(),
{
    if s.len() == 0 {
        0
    } else {
        count_due(s.drop_last(), now) + if due(s.last(), now) {
            1nat
        } else {
            0nat
        }
    }
}

/// Second phase of reclamation: the records marked `Expired` are gone, the
/// others stay in their order.
pub open spec fn without_expired(s: Seq<FileView>) -> Seq<FileView>
    decreases s.len(),
{
    if s.len() == 0 {
        s
    } else if s.last().status == FileStatus::Expired {
        without_expired(s.drop_last())
    } else {
        without_expired(s.drop_last()).push(s.last())
    }
}

/// Both phases: what a store holds after the janitor has passed at `now`.
pub open spec fn swept(s: Seq<FileView>, now: i64) -> Seq<FileView> {
    without_expired(marked(s, now))
}

/// What a record is stored as: under the identifier the store assigns, and
/// `Active`.
pub open spec fn admitted(r: FileView, id: u64) -> FileView {
    FileView { id, status: FileStatus::Active, ..r }
}

/// The records of `s` that are meant for `recipient`, in their order.
pub open spec fn shared_with(s: Seq<FileView>, recipient: u128) -> Seq<FileView>
    decreases s.len(),
{
    if s.len() == 0 {
        s
    } else if s.last().recipient_id == recipient {
        shared_with(s.drop_last(), recipient).push(s.last())
    } else {
        shared_with(s.drop_last(), recipient)
    }
}

/// Why a record was not stored.
#[derive(Clone, Copy, Debug, PartialEq, Eq, Structural)]
pub enum StoreError {
    /// A blob is empty, or the record would not expire after its creation.
    InvalidRecord,
    /// No identifier is left.
    Full,
}

/// The records of the service, in the order of their creation.
#[derive(Debug)]
pub struct RecordStore {
    records: Vec<SharedFile>,
    next_id: u64,
}

impl View for RecordStore {
    type V = Seq<FileView>;

    closed spec fn view(&self) -> Seq<FileView> {
        Seq::new(self.records@.len(), |i: int| self.records@[i]@)
    }
}

impl RecordStore {
    /// The identifier that the next record will get.
    pub closed spec fn next_id(&self) -> u64 {
        self.next_id
    }

    /// The store's invariant holds.
    pub open spec fn wf(&self) -> bool {
        consistent(self@, self.next_id())
    }

    /// A store without records.
    pub fn new() -> (store: RecordStore)
        ensures
            store.wf(),
            store@ == Seq::<FileView>::empty(),
            store.next_id() == 0,
    {
        RecordStore { records: Vec::new(), next_id: 0 }
    }

    /// A store that holds `records` in their order and hands out
    /// identifiers from `next_id` on, as one is read back from where it was
    /// kept. Records that break the store's invariant are refused as a
    /// whole.
    pub fn restore(records: Vec<SharedFile>, next_id: u64) -> (res: Option<RecordStore>)
        ensures
            match res {
                Some(store) => {
                    &&& store.wf()
                    &&& store.next_id() == next_id
                    &&& store@.len() == records@.len()
                    &&& forall|i: int| 0 <= i < records@.len() ==> store@[i] == records@[i]@
                },
                None => !consistent(Seq::new(records@.len(), |i: int| records@[i]@), next_id),
            },
    {
        let ghost views = Seq::new(records@.len(), |i: int| records@[i]@);
        let mut i: usize = 0;
        while i < records.len()
            invariant
                i <= records.len(),
                views == Seq::new(records@.len(), |k: int| records@[k]@),
                forall|k: int|
                    0 <= k < i ==> {
                        &&& (#[trigger] views[k]).well_formed()
                        &&& views[k].id < next_id
                        &&& views[k].status != FileStatus::Deleted
                    },
                forall|k: int, j: int| 0 <= k < j < i ==> (#[trigger] views[k]).id != (
                #[trigger] views[j]).id,
            decreases records.len() - i,
        {
            let record = &records[i];
            assert(record@ == views[i as int]);
            let terminal = match record.status {
                FileStatus::Deleted => true,
                _ => false,
            };
            if record.ciphertext.len() == 0 || record.wrapped_key.len() == 0 || record.created_at
                >= record.expires_at || record.id >= next_id || terminal {
                assert(!(views[i as int].well_formed() && views[i as int].id < next_id
                    && views[i as int].status != FileStatus::Deleted));
                return None;
            }
            let mut j: usize = 0;
            while j < i
                invariant
                    j <= i < records.len(),
                    views == Seq::new(records@.len(), |k: int| records@[k]@),
                    forall|k: int| 0 <= k < j ==> (#[trigger] views[k]).id != views[i as int].id,
                decreases i - j,
            {
                if records[j].id == records[i].id {
                    assert(views[j as int].id == views[i as int].id);
                    return None;
                }
                j += 1;
            }
            i += 1;
        }
        let store = RecordStore { records, next_id };
        assert(store@ =~= views);
        Some(store)
    }

    /// The records kept, in the order of their creation.
    pub fn records(&self) -> (all: &Vec<SharedFile>)
        ensures
            all@.len() == self@.len(),
            forall|i: int| 0 <= i < all@.len() ==> (#[trigger] all@[i])@ == self@[i],
    {
        &self.records
    }

    /// The identifier that the next record will get.
    pub fn next_record_id(&self) -> (id: u64)
        ensures
            id == self.next_id(),
    {
        self.next_id
    }

    /// The number of records kept.
    pub fn len(&self) -> (n: usize)
        ensures
            n == self@.len(),
    {
        self.records.len()
    }

    /// Stores `record` as a new `Active` record under a fresh identifier,
    /// which it returns. The identifier and the status that `record`
    /// arrives with are not used. An invalid record, or a store that has
    /// run out of identifiers, leaves the store as it was.
    pub fn create(&mut self, record: SharedFile) -> (res: Result<u64, StoreError>)
        requires
            old(self).wf(),
        ensures
            final(self).wf(),
            match res {
                Ok(id) => {
                    &&& record@.well_formed()
                    &&& id == old(self).next_id()
                    &&& final(self).next_id() == id + 1
                    &&& !holds(old(self)@, id)
                    &&& final(self)@ == old(self)@.push(admitted(record@, id))
                },
                Err(e) => {
                    &&& final(self)@ == old(self)@
                    &&& final(self).next_id() == old(self).next_id()
                    &&& e == StoreError::InvalidRecord <==> !record@.well_formed()
                    &&& e == StoreError::Full <==> record@.well_formed() && old(self).next_id()
                        == u64::MAX
                },
            },
    {
        if record.ciphertext.len() == 0 || record.wrapped_key.len() == 0 || record.created_at
            >= record.expires_at {
            return Err(StoreError::InvalidRecord);
        }
        if self.next_id == u64::MAX {
            return Err(StoreError::Full);
        }
        let id = self.next_id;
        let ghost before = self@;
        let mut stored = record;
        stored.id = id;
        stored.status = FileStatus::Active;
        self.records.push(stored);
        self.next_id = id + 1;
        assert(self@ =~= before.push(admitted(record@, id)));
        Ok(id)
    }

    /// The record that carries `id`, for the retrieval path to decide on.
    pub fn load_for_authorization(&self, id: u64) -> (res: Option<&SharedFile>)
        requires
            self.wf(),
        ensures
            match res {
                Some(r) => lookup(self@, id) == Some(r@),
                None => lookup(self@, id).is_none(),
            },
    {
        let mut i: usize = 0;
        while i < self.records.len()
            invariant
                i <= self.records.len(),
                self.wf(),
                forall|j: int| 0 <= j < i ==> (#[trigger] self@[j]).id != id,
            decreases self.records.len() - i,
        {
            if self.records[i].id == id {
                assert(self@[i as int].id == id);
                assert(holds(self@, id));
                assert(position(self@, id) == i as int) by {
                    let p = position(self@, id);
                    if p < i as int {
                        assert(self@[p].id != self@[i as int].id);
                    } else if p > i as int {
                        assert(self@[i as int].id != self@[p].id);
                    }
                }
                return Some(&self.records[i]);
            }
            i += 1;
        }
        None
    }

    /// The records that are meant for `recipient`, in the order of their
    /// creation.
    pub fn files_for_recipient(&self, recipient: u128) -> (found: Vec<&SharedFile>)
        ensures
            found@.len() == shared_with(self@, recipient).len(),
            forall|i: int|
                0 <= i < found@.len() ==> (#[trigger] found@[i])@ == shared_with(
                    self@,
                    recipient,
                )[i],
    {
        let mut found: Vec<&SharedFile> = Vec::new();
        let mut i: usize = 0;
        while i < self.records.len()
            invariant
                i <= self.records.len(),
                self@.len() == self.records.len(),
                found@.len() == shared_with(self@.take(i as int), recipient).len(),
                forall|j: int|
                    0 <= j < found@.len() ==> (#[trigger] found@[j])@ == shared_with(
                        self@.take(i as int),
                        recipient,
                    )[j],
            decreases self.records.len() - i,
        {
            let ghost upto = self@.take(i as int + 1);
            assert(upto.drop_last() =~= self@.take(i as int));
            assert(upto.last() == self@[i as int]);
            if self.records[i].recipient_id == recipient {
                found.push(&self.records[i]);
            }
            i += 1;
        }
        assert(self@.take(i as int) =~= self@);
        found
    }

    /// Records a successful retrieval of the record that carries `id`: an
    /// `Active` record becomes `Retrieved`. Says whether there is such a
    /// record and it is `Active` or `Retrieved`; otherwise nothing changes.
    pub fn mark_retrieved(&mut self, id: u64) -> (done: bool)
        requires
            old(self).wf(),
        ensures
            final(self).wf(),
            final(self).next_id() == old(self).next_id(),
            done == (lookup(old(self)@, id) matches Some(r) && (r.status == FileStatus::Active
                || r.status == FileStatus::Retrieved)),
            done ==> final(self)@ == old(self)@.update(
                position(old(self)@, id),
                old(self)@[position(old(self)@, id)].with_status(FileStatus::Retrieved),
            ),
            !done ==> final(self)@ == old(self)@,
    {
        let mut i: usize = 0;
        while i < self.records.len()
            invariant
                i <= self.records.len(),
                self.wf(),
                self@ == old(self)@,
                self.next_id() == old(self).next_id(),
                forall|j: int| 0 <= j < i ==> (#[trigger] self@[j]).id != id,
            decreases self.records.len() - i,
        {
            if self.records[i].id == id {
                let ghost before = self@;
                assert(before[i as int].id == id);
                assert(holds(before, id));
                assert(position(before, id) == i as int) by {
                    let p = position(before, id);
                    if p < i as int {
                        assert(before[p].id != before[i as int].id);
                    } else if p > i as int {
                        assert(before[i as int].id != before[p].id);
                    }
                }
                match self.records[i].status {
                    FileStatus::Active | FileStatus::Retrieved => {
                        self.records[i].status = FileStatus::Retrieved;
                        assert(self@ =~= before.update(
                            i as int,
                            before[i as int].with_status(FileStatus::Retrieved),
                        ));
                        return true;
                    },
                    _ => {
                        return false;
                    },
                }
            }
            i += 1;
        }
        false
    }

    /// First phase of reclamation: marks every record that is due at `now`
    /// as `Expired`, and returns how many it marked.
    pub fn mark_expired(&mut self, now: i64) -> (count: usize)
        requires
            old(self).wf(),
        ensures
            final(self).wf(),
            final(self).next_id() == old(self).next_id(),
            final(self)@ == marked(old(self)@, now),
            count == count_due(old(self)@, now),
    {
        let mut count: usize = 0;
        let mut i: usize = 0;
        while i < self.records.len()
            invariant
                i <= self.records.len(),
                self.wf(),
                self.next_id() == old(self).next_id(),
                self@.len() == old(self)@.len(),
                forall|j: int| 0 <= j < i ==> #[trigger] self@[j] == marked(old(self)@, now)[j],
                forall|j: int| i <= j < self@.len() ==> #[trigger] self@[j] == old(self)@[j],
                count <= i,
                count == count_due(old(self)@.take(i as int), now),
            decreases self.records.len() - i,
        {
            let ghost before = self@;
            let ghost upto = old(self)@.take(i as int + 1);
            assert(upto.drop_last() =~= old(self)@.take(i as int));
            assert(upto.last() == old(self)@[i as int]);
            let is_due = self.records[i].expires_at <= now && match self.records[i].status {
                FileStatus::Active | FileStatus::Retrieved => true,
                _ => false,
            };
            assert(is_due == due(before[i as int], now));
            if is_due {
                self.records[i].status = FileStatus::Expired;
                count += 1;
                assert(self@ =~= before.update(
                    i as int,
                    before[i as int].with_status(FileStatus::Expired),
                ));
            }
            i += 1;
        }
        assert(old(self)@.take(i as int) =~= old(self)@);
        assert(self@ =~= marked(old(self)@, now));
        count
    }

    /// Second phase of reclamation: removes the records marked `Expired`
    /// and returns how many it removed.
    pub fn remove_expired(&mut self) -> (count: usize)
        requires
            old(self).wf(),
        ensures
            final(self).wf(),
            final(self).next_id() == old(self).next_id(),
            final(self)@ == without_expired(old(self)@),
            count == old(self)@.len() - final(self)@.len(),
    {
        let mut count: usize = 0;
        let mut i: usize = 0;
        let ghost mut k: int = 0;
        assert(self@.len() == self.records.len());
        while i < self.records.len()
            invariant
                i <= self.records.len(),
                self.wf(),
                self.next_id() == old(self).next_id(),
                0 <= k <= old(self)@.len(),
                k == i + count,
                self@.len() + count == old(self)@.len(),
                old(self)@.len() <= usize::MAX,
                self@.take(i as int) == without_expired(old(self)@.take(k)),
                self@.skip(i as int) == old(self)@.skip(k),
            decreases self.records.len() - i,
        {
            let ghost before = self@;
            let ghost upto = old(self)@.take(k + 1);
            assert(before[i as int] == before.skip(i as int)[0]);
            assert(before[i as int] == old(self)@[k]);
            assert(upto.drop_last() =~= old(self)@.take(k));
            assert(upto.last() == old(self)@[k]);
            assert forall|m: int| i < m < before.len() implies #[trigger] before[m] == old(
                self,
            )@[m - i + k] by {
                assert(before.skip(i as int)[m - i] == old(self)@.skip(k)[m - i]);
            }
            match self.records[i].status {
                FileStatus::Expired => {
                    self.records.remove(i);
                    count += 1;
                    assert(self@ =~= before.remove(i as int));
                    assert(self@.take(i as int) =~= before.take(i as int));
                    assert(self@.skip(i as int) =~= old(self)@.skip(k + 1));
                },
                _ => {
                    assert(before.take(i as int + 1) =~= before.take(i as int).push(
                        before[i as int],
                    ));
                    assert(before.skip(i as int + 1) =~= old(self)@.skip(k + 1));
                    i += 1;
                },
            }
            proof {
                k = k + 1;
            }
        }
        assert(self@.take(i as int) =~= self@);
        assert(old(self)@.take(k) =~= old(self)@);
        count
    }

    /// The janitor's pass at `now`: marks every due record as `Expired`,
    /// then removes all records marked so, and returns how many it removed.
    pub fn delete_expired(&mut self, now: i64) -> (count: usize)
        requires
            old(self).wf(),
        ensures
            final(self).wf(),
            final(self).next_id() == old(self).next_id(),
            final(self)@ == swept(old(self)@, now),
            count == old(self)@.len() - final(self)@.len(),
    {
        let _ = self.mark_expired(now);
        self.remove_expired()
    }
}

/// Marking follows the lifecycle: a record that the first phase touches
/// makes an allowed transition, and every other record keeps its state.
pub proof fn lemma_marking_follows_lifecycle(s: Seq<FileView>, now: i64, i: int)
    requires
        0 <= i < s.len(),
    ensures
        marked(s, now)[i] == s[i] || (marked(s, now)[i] == s[i].with_status(FileStatus::Expired)
            && may_move(s[i].status, FileStatus::Expired)),
{
}

/// Removal keeps what is left in its order: every record that stays after
/// the second phase was there before and is not marked `Expired`.
pub proof fn lemma_removal_keeps_the_rest(s: Seq<FileView>, i: int)
    requires
        0 <= i < without_expired(s).len(),
    ensures
        without_expired(s)[i].status != FileStatus::Expired,
        s.contains(without_expired(s)[i]),
    decreases s.len(),
{
    if s.len() > 0 {
        let front = s.drop_last();
        if i < without_expired(front).len() {
            lemma_removal_keeps_the_rest(front, i);
            let j = choose|j: int| 0 <= j < front.len() && front[j] == without_expired(front)[i];
            assert(s[j] == without_expired(s)[i]);
        } else {
            assert(s[s.len() - 1] == without_expired(s)[i]);
        }
    }
}

/// Nothing in `s` is left for the janitor at `now`: no record is due and
/// none is marked `Expired`.
pub open spec fn settled(s: Seq<FileView>, now: i64) -> bool {
    forall|i: int|
        0 <= i < s.len() ==> !due(#[trigger] s[i], now) && s[i].status != FileStatus::Expired
}

proof fn lemma_removal_settles(s: Seq<FileView>, now: i64)
    requires
        forall|i: int| 0 <= i < s.len() ==> !due(#[trigger] s[i], now),
    ensures
        settled(without_expired(s), now),
    decreases s.len(),
{
    if s.len() > 0 {
        let front = s.drop_last();
        assert forall|i: int| 0 <= i < front.len() implies !due(#[trigger] front[i], now) by {
            assert(front[i] == s[i]);
        }
        lemma_removal_settles(front, now);
    }
}

proof fn lemma_settled_is_fixed(s: Seq<FileView>, now: i64)
    requires
        settled(s, now),
    ensures
        without_expired(s) == s,
        count_due(s, now) == 0,
        marked(s, now) == s,
    decreases s.len(),
{
    assert(marked(s, now) =~= s);
    if s.len() > 0 {
        let front = s.drop_last();
        assert forall|i: int| 0 <= i < front.len() implies !due(#[trigger] front[i], now)
            && front[i].status != FileStatus::Expired by {
            assert(front[i] == s[i]);
        }
        lemma_settled_is_fixed(front, now);
        assert(front.push(s.last()) =~= s);
    }
}

/// After the janitor has passed at `now`, nothing is left for it at `now`.
pub proof fn lemma_swept_is_settled(s: Seq<FileView>, now: i64)
    ensures
        settled(swept(s, now), now),
{
    let m = marked(s, now);
    assert forall|i: int| 0 <= i < m.len() implies !due(#[trigger] m[i], now) by {}
    lemma_removal_settles(m, now);
}

/// Purging is idempotent. A second pass of the janitor at the same time
/// finds no record due, changes nothing and removes nothing, so the count
/// it reports is zero; and removing the marked records twice removes them
/// once.
pub proof fn lemma_purge_idempotent(s: Seq<FileView>, now: i64)
    ensures
        count_due(swept(s, now), now) == 0,
        marked(swept(s, now), now) == swept(s, now),
        swept(swept(s, now), now) == swept(s, now),
        swept(s, now).len() - swept(swept(s, now), now).len() == 0,
        without_expired(without_expired(s)) == without_expired(s),
{
    lemma_swept_is_settled(s, now);
    lemma_settled_is_fixed(swept(s, now), now);
    lemma_without_expired_once(s);
}

proof fn lemma_without_expired_once(s: Seq<FileView>)
    ensures
        forall|i: int|
            0 <= i < without_expired(s).len() ==> (#[trigger] without_expired(s)[i]).status
                != FileStatus::Expired,
        without_expired(without_expired(s)) == without_expired(s),
    decreases s.len(),
{
    if s.len() > 0 {
        lemma_without_expired_once(s.drop_last());
        if s.last().status != FileStatus::Expired {
            let kept = without_expired(s.drop_last());
            let all = kept.push(s.last());
            assert(all.drop_last() =~= kept);
            assert(all.last() == s.last());
        }
    }
}

/// A record that was just stored is found under its identifier, and is the
/// last of the records shared with its recipient, behind those that were
/// shared with them before.
pub proof fn lemma_new_record_is_found_and_shared(s: Seq<FileView>, record: FileView)
    requires
        !holds(s, record.id),
    ensures
        lookup(s.push(record), record.id) == Some(record),
        shared_with(s.push(record), record.recipient_id) == shared_with(
            s,
            record.recipient_id,
        ).push(record),
{
    let after = s.push(record);
    assert(after.drop_last() =~= s);
    assert(after.last() == record);
    assert(after[s.len() as int].id == record.id);
    assert(holds(after, record.id));
    let p = position(after, record.id);
    if p < s.len() {
        assert(s[p].id == record.id);
        assert(holds(s, record.id));
    }
}

} // verus!
