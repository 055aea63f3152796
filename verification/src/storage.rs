//! The ledger at rest: its records as rows of a table, and back.
//!
//! A row holds the identifier as a signed integer, the member and the
//! moderator in decimal notation, the reason, and the time as
//! `YYYY-MM-DD HH:MM:SS` in UTC.

use crate::error::ModerationError;
use crate::ledger::{record_views, well_ordered, Ledger, RecordView, WarningRecord};
use crate::text::{decimal, decimal_text, parse_decimal, parsed_decimal};
use crate::timestamp::{stamp_text, utc_seconds, utc_text, Timestamp};
use vstd::prelude::*;

verus! {

/// A row of the table of warnings.
#[derive(Debug)]
pub struct StoredRow {
    pub id: i64,
    pub user_id: String,
    pub moderator_id: String,
    pub reason: String,
    pub timestamp: String,
}

/// A row as a mathematical value.
pub struct StoredRowView {
    pub id: i64,
    pub user_id: Seq<char>,
    pub moderator_id: Seq<char>,
    pub reason: Seq<char>,
    pub timestamp: Seq<char>,
}

impl View for StoredRow {
    type V = StoredRowView;

    open spec fn view(&self) -> StoredRowView {
        StoredRowView {
            id: self.id,
            user_id: self.user_id@,
            moderator_id: self.moderator_id@,
            reason: self.reason@,
            timestamp: self.timestamp@,
        }
    }
}

/// The views of `rows`, in order.
pub open spec fn row_views(rows: Seq<StoredRow>) -> Seq<StoredRowView> {
    rows.map_values(|row: StoredRow| row@)
}

/// The row that keeps `record`.
pub open spec fn row_of(record: RecordView) -> StoredRowView {
    StoredRowView {
        id: record.id as i64,
        user_id: decimal_text(record.subject_id as nat),
        moderator_id: decimal_text(record.moderator_id as nat),
        reason: record.reason,
        timestamp: stamp_text(record.created_at),
    }
}

/// The record that `row` keeps, if it keeps one: its identifier is not
/// negative, its member and moderator are numbers that fit, and its time is an
/// instant that has a text form.
pub open spec fn record_of(row: StoredRowView) -> Option<RecordView> {
    match (
        parsed_decimal(row.user_id),
        parsed_decimal(row.moderator_id),
        utc_seconds(row.timestamp),
    ) {
        (Some(subject), Some(moderator), Some(seconds)) => if row.id >= 0 && subject <= u64::MAX
            && moderator <= u64::MAX && utc_text(seconds) is Some {
            Some(
                RecordView {
                    id: row.id as u64,
                    subject_id: subject as u64,
                    moderator_id: moderator as u64,
                    reason: row.reason,
                    created_at: seconds,
                },
            )
        } else {
            None
        },
        _ => None,
    }
}

/// The records that `rows` keep, in order, if every row keeps one.
pub open spec fn records_of_rows(rows: Seq<StoredRowView>) -> Option<Seq<RecordView>>
    decreases rows.len(),
{
    if rows.len() == 0 {
        Some(Seq::empty())
    } else {
        match (records_of_rows(rows.drop_last()), record_of(rows.last())) {
            (Some(front), Some(last)) => Some(front.push(last)),
            _ => None,
        }
    }
}

/// The identifier that follows the largest one ever given: the larger of the
/// last record's and the table's counter `sequence`, plus one.
pub open spec fn next_identifier(records: Seq<RecordView>, sequence: Option<i64>) -> int {
    let last: int = if records.len() > 0 {
        records.last().id as int
    } else {
        0
    };
    let given: int = match sequence {
        Some(counter) => if counter > 0 {
            counter as int
        } else {
            0
        },
        None => 0,
    };
    if last > given {
        last + 1
    } else {
        given + 1
    }
}

/// The view of an optional record.
pub open spec fn record_view(record: Option<WarningRecord>) -> Option<RecordView> {
    match record {
        Some(r) => Some(r@),
        None => None,
    }
}

/// Rows of which a beginning keeps no records keep none.
proof fn beginning_decides(rows: Seq<StoredRowView>, i: int)
    requires
        0 <= i <= rows.len(),
        records_of_rows(rows.take(i)) is None,
    ensures
        records_of_rows(rows) is None,
    decreases rows.len() - i,
{
    if i < rows.len() {
        assert(rows.drop_last().take(i) =~= rows.take(i));
        beginning_decides(rows.drop_last(), i);
    } else {
        assert(rows.take(i) =~= rows);
    }
}

/// Writes the row that keeps `record`; there is none where the identifier does
/// not fit the row's.
pub fn row_of_record(record: &WarningRecord) -> (row: Option<StoredRow>)
    ensures
        row is Some <==> record.id <= i64::MAX,
        row matches Some(r) ==> r@ == row_of(record@),
{
    if record.id > i64::MAX as u64 {
        return None;
    }
    Some(
        StoredRow {
            id: record.id as i64,
            user_id: decimal(record.subject_id),
            moderator_id: decimal(record.moderator_id),
            reason: record.reason.clone(),
            timestamp: record.created_at.text(),
        },
    )
}

/// Reads the record that `row` keeps, if it keeps one.
pub fn record_of_row(row: &StoredRow) -> (record: Option<WarningRecord>)
    ensures
        record_view(record) == record_of(row@),
{
    if row.id < 0 {
        return None;
    }
    let subject_id = match parse_decimal(row.user_id.as_str()) {
        Some(id) => id,
        None => { return None; },
    };
    let moderator_id = match parse_decimal(row.moderator_id.as_str()) {
        Some(id) => id,
        None => { return None; },
    };
    let created_at = match Timestamp::parse(row.timestamp.as_str()) {
        Some(stamp) => stamp,
        None => { return None; },
    };
    Some(
        WarningRecord {
            id: row.id as u64,
            subject_id,
            moderator_id,
            reason: row.reason.clone(),
            created_at,
        },
    )
}

/// Rebuilds the ledger from the rows of its table, in the order of their
/// identifiers, and the table's counter of identifiers given. The store is
/// unavailable where a row keeps no record, the records are not in the
/// ledger's order, or no identifier is left.
pub fn load_ledger(rows: &Vec<StoredRow>, sequence: Option<i64>) -> (result: Result<
    Ledger,
    ModerationError,
>)
    ensures
        match records_of_rows(row_views(rows@)) {
            Some(records) => if next_identifier(records, sequence) <= u64::MAX && well_ordered(
                records,
                next_identifier(records, sequence) as u64,
            ) {
                &&& result matches Ok(ledger)
                &&& ledger@ == records
                &&& ledger.spec_next_id() == next_identifier(records, sequence)
            } else {
                result matches Err(ModerationError::StoreUnavailable)
            },
            None => result matches Err(ModerationError::StoreUnavailable),
        },
{
    let ghost views = row_views(rows@);
    let mut records: Vec<WarningRecord> = Vec::new();
    let mut i: usize = 0;
    assert(views.take(0) =~= Seq::empty());
    assert(record_views(records@) =~= Seq::empty());
    while i < rows.len()
        invariant
            i <= rows.len(),
            views == row_views(rows@),
            records_of_rows(views.take(i as int)) == Some(record_views(records@)),
        decreases rows.len() - i,
    {
        let ghost before = record_views(records@);
        proof {
            assert(views.take(i + 1).drop_last() =~= views.take(i as int));
            assert(views.take(i + 1).last() == rows[i as int]@);
        }
        match record_of_row(&rows[i]) {
            Some(record) => {
                records.push(record);
                assert(record_views(records@) =~= before.push(record@));
            },
            None => {
                proof {
                    beginning_decides(views, i + 1);
                }
                return Err(ModerationError::StoreUnavailable);
            },
        }
        i = i + 1;
    }
    assert(views.take(rows.len() as int) =~= views);
    let last: u64 = if records.len() > 0 {
        records[records.len() - 1].id
    } else {
        0
    };
    let given: u64 = match sequence {
        Some(counter) => if counter > 0 {
            counter as u64
        } else {
            0
        },
        None => 0,
    };
    let largest = if last > given {
        last
    } else {
        given
    };
    if largest == u64::MAX {
        return Err(ModerationError::StoreUnavailable);
    }
    match Ledger::restore(records, largest + 1) {
        Some(ledger) => Ok(ledger),
        None => Err(ModerationError::StoreUnavailable),
    }
}

} // verus!
