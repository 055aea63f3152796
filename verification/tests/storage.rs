use auto_punish::error::ModerationError;
use auto_punish::ledger::{Ledger, WarningRecord};
use auto_punish::storage::{load_ledger, record_of_row, row_of_record, StoredRow};
use auto_punish::text::{decimal, parse_decimal};
use auto_punish::timestamp::Timestamp;

fn row(id: i64, user_id: &str, moderator_id: &str, reason: &str, timestamp: &str) -> StoredRow {
    StoredRow {
        id,
        user_id: user_id.to_string(),
        moderator_id: moderator_id.to_string(),
        reason: reason.to_string(),
        timestamp: timestamp.to_string(),
    }
}

fn fields(row: &StoredRow) -> (i64, &str, &str, &str, &str) {
    (row.id, &row.user_id, &row.moderator_id, &row.reason, &row.timestamp)
}

#[test]
fn parse_decimal_reads_numbers() {
    assert_eq!(parse_decimal("0"), Some(0));
    assert_eq!(parse_decimal("7"), Some(7));
    assert_eq!(parse_decimal("42"), Some(42));
    assert_eq!(parse_decimal("007"), Some(7));
    assert_eq!(parse_decimal("123456789012345678"), Some(123456789012345678));
    assert_eq!(parse_decimal("18446744073709551615"), Some(u64::MAX));
    assert_eq!(parse_decimal("00018446744073709551615"), Some(u64::MAX));
}

#[test]
fn parse_decimal_refuses_what_is_no_number() {
    assert_eq!(parse_decimal(""), None);
    assert_eq!(parse_decimal("18446744073709551616"), None);
    assert_eq!(parse_decimal("99999999999999999999"), None);
    assert_eq!(parse_decimal("184467440737095516150"), None);
    assert_eq!(parse_decimal("+7"), None);
    assert_eq!(parse_decimal("-7"), None);
    assert_eq!(parse_decimal("7 "), None);
    assert_eq!(parse_decimal("1x2"), None);
    assert_eq!(parse_decimal("x"), None);
    assert_eq!(parse_decimal("٣"), None);
    assert_eq!(parse_decimal("1é"), None);
}

#[test]
fn parse_decimal_reads_back_what_decimal_wrote() {
    for n in [0u64, 1, 9, 10, 11, 99, 100, 1_000_000, u64::MAX - 1, u64::MAX] {
        assert_eq!(parse_decimal(&decimal(n)), Some(n));
    }
}

#[test]
fn timestamp_parse_reads_utc_date_and_time() {
    assert_eq!(Timestamp::parse("1970-01-01 00:00:00").unwrap().seconds(), 0);
    assert_eq!(Timestamp::parse("2023-11-14 22:13:20").unwrap().seconds(), 1_700_000_000);
    assert_eq!(Timestamp::parse("1969-12-31 23:59:59").unwrap().seconds(), -1);
    assert!(Timestamp::parse("").is_none());
    assert!(Timestamp::parse("2023-11-14").is_none());
    assert!(Timestamp::parse("2023-13-14 22:13:20").is_none());
    assert!(Timestamp::parse("2023-11-14T22:13:20Z").is_none());
    assert!(Timestamp::parse("1700000000").is_none());
}

#[test]
fn timestamp_parse_reads_back_its_text() {
    for seconds in [0i64, 1, -1, 951_782_400, 1_700_000_000, 4_102_444_799] {
        let stamp = Timestamp::from_unix(seconds).unwrap();
        assert_eq!(Timestamp::parse(&stamp.text()).unwrap().seconds(), seconds);
    }
}

#[test]
fn a_record_becomes_a_row() {
    let record = WarningRecord {
        id: 12,
        subject_id: 123456789012345678,
        moderator_id: 42,
        reason: "spam".to_string(),
        created_at: Timestamp::from_unix(1_700_000_000).unwrap(),
    };
    let made = row_of_record(&record).unwrap();
    assert_eq!(fields(&made), (12, "123456789012345678", "42", "spam", "2023-11-14 22:13:20"));
    let large = WarningRecord { id: (i64::MAX as u64) + 1, ..record.duplicate() };
    assert!(row_of_record(&large).is_none());
    let largest = WarningRecord { id: i64::MAX as u64, ..record };
    assert_eq!(row_of_record(&largest).unwrap().id, i64::MAX);
}

#[test]
fn a_row_becomes_a_record() {
    let record =
        record_of_row(&row(12, "123456789012345678", "42", "spam", "2023-11-14 22:13:20")).unwrap();
    assert_eq!(record.id, 12);
    assert_eq!(record.subject_id, 123456789012345678);
    assert_eq!(record.moderator_id, 42);
    assert_eq!(record.reason, "spam");
    assert_eq!(record.created_at.seconds(), 1_700_000_000);
}

#[test]
fn rows_that_keep_no_record_are_refused() {
    assert!(record_of_row(&row(-1, "1", "2", "spam", "2023-11-14 22:13:20")).is_none());
    assert!(record_of_row(&row(1, "alice", "2", "spam", "2023-11-14 22:13:20")).is_none());
    assert!(record_of_row(&row(1, "1", "", "spam", "2023-11-14 22:13:20")).is_none());
    assert!(record_of_row(&row(1, "1", "2", "spam", "yesterday")).is_none());
    assert!(record_of_row(&row(1, "18446744073709551616", "2", "spam", "2023-11-14 22:13:20"))
        .is_none());
}

#[test]
fn record_and_row_round_trip() {
    let mut ledger = Ledger::new();
    let record = ledger
        .insert(5, 6, "spam, again".to_string(), Timestamp::from_unix(1_700_000_000).unwrap())
        .unwrap();
    let back = record_of_row(&row_of_record(&record).unwrap()).unwrap();
    assert_eq!(back.id, record.id);
    assert_eq!(back.subject_id, record.subject_id);
    assert_eq!(back.moderator_id, record.moderator_id);
    assert_eq!(back.reason, record.reason);
    assert_eq!(back.created_at.seconds(), record.created_at.seconds());
}

#[test]
fn load_ledger_rebuilds_the_ledger() {
    let rows = vec![
        row(1, "7", "9", "a", "2023-11-14 22:13:20"),
        row(3, "8", "9", "b", "2023-11-14 22:13:20"),
        row(4, "7", "9", "c", "2023-11-14 22:13:21"),
    ];
    let ledger = load_ledger(&rows, Some(6)).unwrap();
    assert_eq!(ledger.len(), 3);
    assert_eq!(ledger.next_id(), 7);
    assert_eq!(ledger.count_for(7), 2);
    assert_eq!(ledger.list_recent(1)[0].reason, "c");
    assert_eq!(load_ledger(&rows, None).unwrap().next_id(), 5);
    assert_eq!(load_ledger(&rows, Some(2)).unwrap().next_id(), 5);
    assert_eq!(load_ledger(&rows, Some(-3)).unwrap().next_id(), 5);
}

#[test]
fn load_ledger_of_an_empty_table() {
    let ledger = load_ledger(&Vec::new(), None).unwrap();
    assert_eq!(ledger.len(), 0);
    assert_eq!(ledger.next_id(), 1);
    assert_eq!(load_ledger(&Vec::new(), Some(9)).unwrap().next_id(), 10);
}

#[test]
fn load_ledger_refuses_a_broken_table() {
    let unavailable = |rows: Vec<StoredRow>, sequence: Option<i64>| {
        assert_eq!(load_ledger(&rows, sequence).unwrap_err(), ModerationError::StoreUnavailable);
    };
    unavailable(vec![row(1, "x", "9", "a", "2023-11-14 22:13:20")], None);
    unavailable(
        vec![row(1, "7", "9", "a", "2023-11-14 22:13:20"), row(2, "7", "9", "b", "nonsense")],
        None,
    );
    unavailable(
        vec![
            row(2, "7", "9", "a", "2023-11-14 22:13:20"),
            row(1, "7", "9", "b", "2023-11-14 22:13:21"),
        ],
        None,
    );
    unavailable(
        vec![
            row(1, "7", "9", "a", "2023-11-14 22:13:21"),
            row(2, "7", "9", "b", "2023-11-14 22:13:20"),
        ],
        None,
    );
    unavailable(vec![row(1, "7", "9", "", "2023-11-14 22:13:20")], None);
    unavailable(vec![row(-1, "7", "9", "a", "2023-11-14 22:13:20")], None);
}

#[test]
fn a_ledger_survives_being_stored() {
    let mut ledger = Ledger::new();
    let mut rows = Vec::new();
    for n in 0..6i64 {
        let made = ledger
            .insert(1 + (n % 2) as u64, 9, format!("r{}", n), Timestamp::from_unix(100 + n).unwrap())
            .unwrap();
        rows.push(row_of_record(&made).unwrap());
    }
    let restored = load_ledger(&rows, Some(6)).unwrap();
    assert_eq!(restored.len(), ledger.len());
    assert_eq!(restored.next_id(), ledger.next_id());
    for subject in 1..=2 {
        assert_eq!(restored.count_for(subject), ledger.count_for(subject));
    }
    let shown: Vec<String> = restored.list_recent(10).into_iter().map(|e| e.reason).collect();
    assert_eq!(shown, vec!["r5", "r4", "r3", "r2", "r1", "r0"]);
}
