//! The warning ledger: an append-only list of warning records, counted and
//! listed per member, and cleared per member as a whole.

use crate::error::ModerationError;
use crate::timestamp::Timestamp;
use vstd::prelude::*;

verus! {

/// One warning, as the ledger keeps it.
#[derive(Debug)]
pub struct WarningRecord {
    /// Identifier given by the ledger; later records have larger ones.
    pub id: u64,
    /// The warned member.
    pub subject_id: u64,
    /// The moderator who issued the warning.
    pub moderator_id: u64,
    /// Why the member was warned; never empty in a ledger.
    pub reason: String,
    /// When the ledger took the record.
    pub created_at: Timestamp,
}

/// A warning record as a mathematical value.
pub struct RecordView {
    pub id: u64,
    pub subject_id: u64,
    pub moderator_id: u64,
    pub reason: Seq<char>,
    pub created_at: i64,
}

impl View for WarningRecord {
    type V = RecordView;

    open spec fn view(&self) -> RecordView {
        RecordView {
            id: self.id,
            subject_id: self.subject_id,
            moderator_id: self.moderator_id,
            reason: self.reason@,
            created_at: self.created_at.spec_seconds(),
        }
    }
}

impl WarningRecord {
    /// A copy of the record.
    pub fn duplicate(&self) -> (copy: WarningRecord)
        ensures
            copy@ == self@,
    {
        WarningRecord {
            id: self.id,
            subject_id: self.subject_id,
            moderator_id: self.moderator_id,
            reason: self.reason.clone(),
            created_at: self.created_at,
        }
    }
}

/// One line of a member's warning list: the reason and when it was recorded.
#[derive(Debug)]
pub struct WarningEntry {
    pub reason: String,
    pub created_at: Timestamp,
}

/// A warning list entry as a mathematical value.
pub struct EntryView {
    pub reason: Seq<char>,
    pub created_at: i64,
}

impl View for WarningEntry {
    type V = EntryView;

    open spec fn view(&self) -> EntryView {
        EntryView { reason: self.reason@, created_at: self.created_at.spec_seconds() }
    }
}

/// One line of the global history: who was warned, why and when.
#[derive(Debug)]
pub struct HistoryEntry {
    pub subject_id: u64,
    pub reason: String,
    pub created_at: Timestamp,
}

/// A history entry as a mathematical value.
pub struct HistoryView {
    pub subject_id: u64,
    pub reason: Seq<char>,
    pub created_at: i64,
}

impl View for HistoryEntry {
    type V = HistoryView;

    open spec fn view(&self) -> HistoryView {
        HistoryView {
            subject_id: self.subject_id,
            reason: self.reason@,
            created_at: self.created_at.spec_seconds(),
        }
    }
}

/// The views of `records`, in order.
pub open spec fn record_views(records: Seq<WarningRecord>) -> Seq<RecordView> {
    records.map_values(|r: WarningRecord| r@)
}

/// The views of `entries`, in order.
pub open spec fn entry_views(entries: Seq<WarningEntry>) -> Seq<EntryView> {
    entries.map_values(|e: WarningEntry| e@)
}

/// The views of `entries`, in order.
pub open spec fn history_views(entries: Seq<HistoryEntry>) -> Seq<HistoryView> {
    entries.map_values(|e: HistoryEntry| e@)
}

/// The records of `records` that warn `subject_id`, in ledger order.
pub open spec fn records_of(records: Seq<RecordView>, subject_id: u64) -> Seq<RecordView> {
    records.filter(|r: RecordView| r.subject_id == subject_id)
}

/// How many records of `records` warn `subject_id`.
pub open spec fn count_of(records: Seq<RecordView>, subject_id: u64) -> nat {
    records_of(records, subject_id).len()
}

/// The records of `records` that warn anyone but `subject_id`, in ledger order.
pub open spec fn records_except(records: Seq<RecordView>, subject_id: u64) -> Seq<RecordView> {
    records.filter(|r: RecordView| r.subject_id != subject_id)
}

/// The last `limit` records of `records`, or all of them if there are fewer,
/// the latest first.
pub open spec fn most_recent(records: Seq<RecordView>, limit: nat) -> Seq<RecordView> {
    let n = if limit < records.len() {
        limit
    } else {
        records.len()
    };
    Seq::new(n, |i: int| records[records.len() - 1 - i])
}

/// What a member's warning list shows of a record.
pub open spec fn entry_of(record: RecordView) -> EntryView {
    EntryView { reason: record.reason, created_at: record.created_at }
}

/// What the history shows of a record.
pub open spec fn history_of(record: RecordView) -> HistoryView {
    HistoryView {
        subject_id: record.subject_id,
        reason: record.reason,
        created_at: record.created_at,
    }
}

/// A member's warning list: what `records` holds of `subject_id`, oldest first.
pub open spec fn entries_of(records: Seq<RecordView>, subject_id: u64) -> Seq<EntryView> {
    records_of(records, subject_id).map_values(|r: RecordView| entry_of(r))
}

/// The global history: the last `limit` records of `records`, latest first.
pub open spec fn history_entries(records: Seq<RecordView>, limit: nat) -> Seq<HistoryView> {
    most_recent(records, limit).map_values(|r: RecordView| history_of(r))
}

/// The time the ledger gives a record that arrives at `now`: never earlier
/// than that of the record before it.
pub open spec fn stamp_after(records: Seq<RecordView>, now: i64) -> i64 {
    if records.len() > 0 && records.last().created_at > now {
        records.last().created_at
    } else {
        now
    }
}

/// The record that the ledger makes of a warning that arrives at `now`, when it
/// holds `records` and `next_id` is the next identifier.
pub open spec fn new_record(
    records: Seq<RecordView>,
    next_id: u64,
    subject_id: u64,
    moderator_id: u64,
    reason: Seq<char>,
    now: i64,
) -> RecordView {
    RecordView {
        id: next_id,
        subject_id,
        moderator_id,
        reason,
        created_at: stamp_after(records, now),
    }
}

/// The records of a ledger after it has taken a warning: the new record comes
/// last.
pub open spec fn with_warning(
    records: Seq<RecordView>,
    next_id: u64,
    subject_id: u64,
    moderator_id: u64,
    reason: Seq<char>,
    now: i64,
) -> Seq<RecordView> {
    records.push(new_record(records, next_id, subject_id, moderator_id, reason, now))
}

/// The ledger's order: identifiers grow strictly and stay under `next_id`,
/// times never go back, and no reason is empty.
pub open spec fn well_ordered(records: Seq<RecordView>, next_id: u64) -> bool {
    &&& forall|i: int| 0 <= i < records.len() ==> (#[trigger] records[i]).id < next_id
    &&& forall|i: int| 0 <= i < records.len() ==> (#[trigger] records[i]).reason.len() > 0
    &&& forall|i: int, j: int|
        0 <= i < j < records.len() ==> (#[trigger] records[i]).id < (#[trigger] records[j]).id
            && records[i].created_at <= records[j].created_at
}

/// The warning ledger.
#[derive(Debug)]
pub struct Ledger {
    records: Vec<WarningRecord>,
    next_id: u64,
}

impl View for Ledger {
    type V = Seq<RecordView>;

    closed spec fn view(&self) -> Seq<RecordView> {
        record_views(self.records@)
    }
}

impl Ledger {
    #[verifier::type_invariant]
    spec fn ordered(&self) -> bool {
        well_ordered(record_views(self.records@), self.next_id)
    }

    /// The identifier that the next record gets.
    pub closed spec fn spec_next_id(&self) -> u64 {
        self.next_id
    }

    /// An empty ledger, whose first record gets the identifier 1.
    pub fn new() -> (ledger: Ledger)
        ensures
            ledger@ == Seq::<RecordView>::empty(),
            ledger.spec_next_id() == 1,
    {
        let ledger = Ledger { records: Vec::new(), next_id: 1 };
        assert(ledger@ =~= Seq::<RecordView>::empty());
        ledger
    }

    /// The identifier that the next record gets.
    #[verifier::when_used_as_spec(spec_next_id)]
    pub fn next_id(&self) -> (next_id: u64)
        ensures
            next_id == self.spec_next_id(),
            well_ordered(self@, next_id),
    {
        proof {
            use_type_invariant(self);
        }
        self.next_id
    }

    /// How many records the ledger holds.
    pub fn len(&self) -> (len: usize)
        ensures
            len == self@.len(),
    {
        self.records.len()
    }

    /// A copy of the ledger: the same records and the same next identifier.
    pub fn duplicate(&self) -> (copy: Ledger)
        ensures
            copy@ == self@,
            copy.spec_next_id() == self.spec_next_id(),
    {
        proof {
            use_type_invariant(self);
        }
        let mut records: Vec<WarningRecord> = Vec::new();
        let mut i: usize = 0;
        while i < self.records.len()
            invariant
                i <= self.records.len(),
                record_views(records@) == record_views(self.records@).take(i as int),
            decreases self.records.len() - i,
        {
            let ghost before = record_views(records@);
            records.push(self.records[i].duplicate());
            proof {
                record_views(self.records@).lemma_take_succ_push(i as int);
                assert(record_views(records@) =~= before.push(self.records[i as int]@));
            }
            i = i + 1;
        }
        assert(record_views(self.records@).take(self.records.len() as int) =~= record_views(
            self.records@,
        ));
        Ledger { records, next_id: self.next_id }
    }

    /// Records a warning of `subject_id` by `moderator_id` that arrives at
    /// `now`. The record gets the next identifier, and a time that is `now`, or
    /// the time of the record before it where that is later. An empty reason is
    /// refused; so is every record once the identifiers have run out.
    pub fn insert(
        &mut self,
        subject_id: u64,
        moderator_id: u64,
        reason: String,
        now: Timestamp,
    ) -> (result: Result<WarningRecord, ModerationError>)
        ensures
            well_ordered(final(self)@, final(self).spec_next_id()),
            reason@.len() == 0 ==> result == Err::<WarningRecord, ModerationError>(
                ModerationError::Validation,
            ),
            reason@.len() > 0 && old(self).spec_next_id() == u64::MAX ==> result == Err::<
                WarningRecord,
                ModerationError,
            >(ModerationError::StoreUnavailable),
            reason@.len() > 0 && old(self).spec_next_id() < u64::MAX ==> result is Ok,
            result is Err ==> final(self)@ == old(self)@ && final(self).spec_next_id() == old(
                self,
            ).spec_next_id(),
            result matches Ok(record) ==> {
                &&& record@ == new_record(
                    old(self)@,
                    old(self).spec_next_id(),
                    subject_id,
                    moderator_id,
                    reason@,
                    now.spec_seconds(),
                )
                &&& final(self)@ == with_warning(
                    old(self)@,
                    old(self).spec_next_id(),
                    subject_id,
                    moderator_id,
                    reason@,
                    now.spec_seconds(),
                )
                &&& final(self).spec_next_id() == old(self).spec_next_id() + 1
            },
    {
        proof {
            use_type_invariant(&*self);
        }
        if reason.as_str().is_empty() {
            return Err(ModerationError::Validation);
        }
        if self.next_id == u64::MAX {
            return Err(ModerationError::StoreUnavailable);
        }
        let count = self.records.len();
        let created_at = if count > 0 && self.records[count - 1].created_at.seconds()
            > now.seconds() {
            self.records[count - 1].created_at
        } else {
            now
        };
        let record = WarningRecord {
            id: self.next_id,
            subject_id,
            moderator_id,
            reason,
            created_at,
        };
        let copy = record.duplicate();
        let ghost before = record_views(self.records@);
        proof {
            assert(created_at.spec_seconds() == stamp_after(before, now.spec_seconds()));
            assert(well_ordered(before.push(record@), (self.next_id + 1) as u64));
            assert(record_views(self.records@.push(record)) =~= before.push(record@));
        }
        let mut records: Vec<WarningRecord> = Vec::new();
        core::mem::swap(&mut self.records, &mut records);
        records.push(record);
        self.next_id = self.next_id + 1;
        self.records = records;
        Ok(copy)
    }

    /// The number of warnings that `subject_id` has.
    pub fn count_for(&self, subject_id: u64) -> (count: u64)
        ensures
            count == count_of(self@, subject_id),
    {
        let mut count: u64 = 0;
        let mut i: usize = 0;
        while i < self.records.len()
            invariant
                i <= self.records.len(),
                count <= i,
                count == count_of(record_views(self.records@).take(i as int), subject_id),
            decreases self.records.len() - i,
        {
            proof {
                let views = record_views(self.records@);
                views.lemma_take_succ_push(i as int);
                views.take(i as int).lemma_filter_push(
                    views[i as int],
                    |r: RecordView| r.subject_id == subject_id,
                );
            }
            if self.records[i].subject_id == subject_id {
                count = count + 1;
            }
            i = i + 1;
        }
        proof {
            let views = record_views(self.records@);
            assert(views.take(self.records.len() as int) =~= views);
        }
        count
    }

    /// The warnings of `subject_id`, oldest first.
    pub fn list_for(&self, subject_id: u64) -> (entries: Vec<WarningEntry>)
        ensures
            entry_views(entries@) == entries_of(self@, subject_id),
    {
        let mut entries: Vec<WarningEntry> = Vec::new();
        let mut i: usize = 0;
        while i < self.records.len()
            invariant
                i <= self.records.len(),
                entry_views(entries@) == entries_of(
                    record_views(self.records@).take(i as int),
                    subject_id,
                ),
            decreases self.records.len() - i,
        {
            let ghost views = record_views(self.records@);
            let ghost shown = entry_views(entries@);
            proof {
                views.lemma_take_succ_push(i as int);
                views.take(i as int).lemma_filter_push(
                    views[i as int],
                    |r: RecordView| r.subject_id == subject_id,
                );
            }
            if self.records[i].subject_id == subject_id {
                let entry = WarningEntry {
                    reason: self.records[i].reason.clone(),
                    created_at: self.records[i].created_at,
                };
                entries.push(entry);
                assert(entry_views(entries@) =~= shown.push(entry_of(views[i as int])));
                assert(entries_of(views.take(i + 1), subject_id) =~= shown.push(
                    entry_of(views[i as int]),
                ));
            }
            i = i + 1;
        }
        proof {
            let views = record_views(self.records@);
            assert(views.take(self.records.len() as int) =~= views);
        }
        entries
    }

    /// The last `limit` warnings recorded, of whatever member, latest first.
    pub fn list_recent(&self, limit: usize) -> (entries: Vec<HistoryEntry>)
        ensures
            history_views(entries@) == history_entries(self@, limit as nat),
    {
        let total = self.records.len();
        let wanted = if limit < total {
            limit
        } else {
            total
        };
        let mut entries: Vec<HistoryEntry> = Vec::new();
        let mut i: usize = 0;
        while i < wanted
            invariant
                i <= wanted <= total,
                total == self.records.len(),
                entries.len() == i,
                forall|k: int|
                    0 <= k < i ==> (#[trigger] entries[k])@ == history_of(
                        self.records[total - 1 - k]@,
                    ),
            decreases wanted - i,
        {
            let record = &self.records[total - 1 - i];
            entries.push(
                HistoryEntry {
                    subject_id: record.subject_id,
                    reason: record.reason.clone(),
                    created_at: record.created_at,
                },
            );
            i = i + 1;
        }
        assert(history_views(entries@) =~= history_entries(self@, limit as nat));
        entries
    }

    /// Deletes every warning of `subject_id` and says how many there were. The
    /// other records stay, in their order; identifiers are not given again.
    pub fn clear_for(&mut self, subject_id: u64) -> (deleted: u64)
        ensures
            deleted == count_of(old(self)@, subject_id),
            final(self)@ == records_except(old(self)@, subject_id),
            final(self).spec_next_id() == old(self).spec_next_id(),
            well_ordered(final(self)@, final(self).spec_next_id()),
    {
        proof {
            use_type_invariant(&*self);
        }
        let ghost views = record_views(self.records@);
        let mut kept: Vec<WarningRecord> = Vec::new();
        let mut deleted: u64 = 0;
        let mut i: usize = 0;
        while i < self.records.len()
            invariant
                i <= self.records.len(),
                views == record_views(self.records@),
                well_ordered(views, self.next_id),
                deleted <= i,
                deleted == count_of(views.take(i as int), subject_id),
                record_views(kept@) == records_except(views.take(i as int), subject_id),
                well_ordered(record_views(kept@), self.next_id),
                forall|k: int, j: int|
                    0 <= k < kept.len() && i <= j < views.len() ==> (#[trigger] kept[k])@.id < (
                    #[trigger] views[j]).id && kept[k]@.created_at <= views[j].created_at,
            decreases self.records.len() - i,
        {
            let ghost held = record_views(kept@);
            proof {
                views.lemma_take_succ_push(i as int);
                views.take(i as int).lemma_filter_push(
                    views[i as int],
                    |r: RecordView| r.subject_id == subject_id,
                );
                views.take(i as int).lemma_filter_push(
                    views[i as int],
                    |r: RecordView| r.subject_id != subject_id,
                );
            }
            if self.records[i].subject_id == subject_id {
                deleted = deleted + 1;
            } else {
                let record = self.records[i].duplicate();
                kept.push(record);
                proof {
                    assert(record_views(kept@) =~= held.push(views[i as int]));
                    assert forall|k: int, j: int|
                        0 <= k < kept.len() && i + 1 <= j < views.len() implies (
                    #[trigger] kept[k])@.id < (#[trigger] views[j]).id && kept[k]@.created_at
                        <= views[j].created_at by {
                        if k == kept.len() - 1 {
                            assert(kept[k]@ == views[i as int]);
                        } else {
                            assert(kept[k]@ == held[k]);
                        }
                    }
                    assert forall|a: int, b: int|
                        0 <= a < b < kept.len() implies (#[trigger] record_views(kept@)[a]).id < (
                    #[trigger] record_views(kept@)[b]).id && record_views(kept@)[a].created_at
                        <= record_views(kept@)[b].created_at by {
                        if b == kept.len() - 1 {
                            assert(record_views(kept@)[a] == held[a]);
                            assert(record_views(kept@)[b] == views[i as int]);
                        } else {
                            assert(record_views(kept@)[a] == held[a]);
                            assert(record_views(kept@)[b] == held[b]);
                        }
                    }
                }
            }
            i = i + 1;
        }
        proof {
            assert(views.take(self.records.len() as int) =~= views);
        }
        self.records = kept;
        deleted
    }

    /// Rebuilds a ledger from the records it held, in their order, and the
    /// identifier that the next record gets; `None` unless they are in the
    /// ledger's order.
    pub fn restore(records: Vec<WarningRecord>, next_id: u64) -> (ledger: Option<Ledger>)
        ensures
            ledger is Some <==> well_ordered(record_views(records@), next_id),
            ledger matches Some(l) ==> l@ == record_views(records@) && l.spec_next_id()
                == next_id,
    {
        let ghost views = record_views(records@);
        let mut i: usize = 0;
        while i < records.len()
            invariant
                i <= records.len(),
                views == record_views(records@),
                well_ordered(views.take(i as int), next_id),
            decreases records.len() - i,
        {
            let record = &records[i];
            assert(views[i as int] == record@);
            if record.id >= next_id || record.reason.as_str().is_empty() {
                return None;
            }
            if i > 0 {
                let before = &records[i - 1];
                assert(views[i - 1] == before@);
                if before.id >= record.id || before.created_at.seconds()
                    > record.created_at.seconds() {
                    return None;
                }
            }
            proof {
                let shorter = views.take(i as int);
                let longer = views.take(i + 1);
                assert forall|a: int, b: int| 0 <= a < b < longer.len() implies (
                #[trigger] longer[a]).id < (#[trigger] longer[b]).id && longer[a].created_at
                    <= longer[b].created_at by {
                    assert(longer[a] == shorter[a]);
                    if b < i {
                        assert(longer[b] == shorter[b]);
                    } else if a < i - 1 {
                        assert(shorter[i - 1] == views[i - 1]);
                    }
                }
                assert forall|a: int| 0 <= a < longer.len() implies (#[trigger] longer[a]).id
                    < next_id && longer[a].reason.len() > 0 by {
                    if a < i {
                        assert(longer[a] == shorter[a]);
                    }
                }
            }
            i = i + 1;
        }
        assert(views.take(records.len() as int) =~= views);
        Some(Ledger { records, next_id })
    }
}

} // verus!
