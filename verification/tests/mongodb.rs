use ronin_wally::mongodb::{
    Adapter, Scan, BATCH_SIZE, DECODED_TRANSACTIONS, DEFAULT_DATABASE, TRANSACTIONS,
};
use ronin_wally::pipeline::Event;
use ronin_wally::roninrest::RRDecodedTransaction;

fn record(block_number: u64) -> RRDecodedTransaction {
    RRDecodedTransaction {
        from: "0xa".to_string(),
        to: "0xb".to_string(),
        hash: format!("0x{}", block_number),
        block_number,
        input: Some(serde_json::Value::Null),
        output: Some(serde_json::Value::Null),
    }
}

fn store() -> Adapter {
    Adapter::new("mongodb://127.0.0.1:27017", Some("ronin"))
}

#[test]
fn store_is_named_by_uri_and_database() {
    let named = Adapter::new("mongodb://db:27017", Some("chain"));
    assert_eq!(named.uri, "mongodb://db:27017");
    assert_eq!(named.database, "chain");
}

#[test]
fn database_defaults_to_ronin() {
    let unnamed = Adapter::new("mongodb://127.0.0.1:27017", None);
    assert_eq!(unnamed.database, "ronin");
    assert_eq!(DEFAULT_DATABASE, "ronin");
    assert_eq!(TRANSACTIONS, "transactions");
    assert_eq!(DECODED_TRANSACTIONS, "decoded_transactions");
}

#[test]
fn resume_point_is_zero_where_nothing_is_enriched() {
    assert_eq!(store().last_block(None), 0);
}

#[test]
fn resume_point_is_the_block_of_the_newest_record() {
    assert_eq!(store().last_block(Some(&record(100))), 100);
    assert_eq!(store().last_block(Some(&record(u64::MAX))), u64::MAX);
}

#[test]
fn scan_starts_strictly_after_the_resume_point() {
    let scan = store().transactions(100);
    assert_eq!(scan, Scan { after: 100, batch_size: 100, no_cursor_timeout: true });
    assert_eq!(BATCH_SIZE, 100);
    assert!(!(100i64 > scan.after));
    assert!(101i64 > scan.after);
}

#[test]
fn scan_after_a_block_beyond_the_signed_range_yields_nothing() {
    assert_eq!(store().transactions(i64::MAX as u64).after, i64::MAX);
    assert_eq!(store().transactions(i64::MAX as u64 + 1).after, i64::MAX);
    assert_eq!(store().transactions(u64::MAX).after, i64::MAX);
    assert!(!((u32::MAX as i64) > store().transactions(u64::MAX).after));
    assert_eq!(store().transactions(0).after, 0);
}

#[test]
fn batch_is_stored_only_if_all_of_it_was_written() {
    let batch = vec![record(1), record(2), record(3)];
    assert!(matches!(store().insert_decoded(&batch, Some(3)), Event::Flushed));
    assert!(matches!(store().insert_decoded(&batch, Some(2)), Event::FlushFailed));
    assert!(matches!(store().insert_decoded(&batch, Some(0)), Event::FlushFailed));
    assert!(matches!(store().insert_decoded(&batch, Some(4)), Event::FlushFailed));
    assert!(matches!(store().insert_decoded(&batch, None), Event::FlushFailed));
}
