use bkeeper::aggregate::{aggregate_mints, aggregate_table, TransferTable};
use bkeeper::errors::{CastError, ConfigError, FetchError};
use bkeeper::fetch::{fetch_all_transfers, fetch_begin, fetch_finish, fetch_on_page};
use bkeeper::normalize::{normalize, normalize_all};
use bkeeper::numstr::{
    i64_to_string, parse_i64, parse_u32, parse_u64, u64_to_string, u64_to_two_digits,
};
use bkeeper::record::{RawTransferRecord, TransferRow};

const ZERO: &str = "0x0000000000000000000000000000000000000000";

fn mk_rec(block: &str, ts: &str, hash: &str, from: &str, token_name: &str) -> RawTransferRecord {
    RawTransferRecord {
        block_number: block.to_string(),
        timestamp: ts.to_string(),
        hash: hash.to_string(),
        nonce: "7".to_string(),
        block_hash: "0xbh".to_string(),
        contract_address: "0xc0".to_string(),
        to_address: "0xaa".to_string(),
        from_address: from.to_string(),
        token_id: "42".to_string(),
        token_name: token_name.to_string(),
        token_symbol: "TKN".to_string(),
        token_decimal: "0".to_string(),
        transaction_index: "1".to_string(),
        gas: "21000".to_string(),
        gas_price: "1000000000".to_string(),
        gas_used: "20000".to_string(),
        cumulative_gas_used: "300000".to_string(),
        confirmations: "12".to_string(),
    }
}

fn mk_row(ts_ms: u64, hash: &str, from: &str, token_name: &str) -> TransferRow {
    TransferRow {
        block_number: 1,
        timestamp_ms: ts_ms,
        hash: hash.to_string(),
        nonce: 7,
        block_hash: "0xbh".to_string(),
        contract_address: "0xc0".to_string(),
        to_address: "0xaa".to_string(),
        from_address: from.to_string(),
        token_id: 42,
        token_name: token_name.to_string(),
        token_symbol: "TKN".to_string(),
        token_decimals: 0,
        transaction_index: "1".to_string(),
        gas: "21000".to_string(),
        gas_price: 1000000000,
        gas_used: 20000,
        cumulative_gas_used: 300000,
        confirmations: 12,
    }
}

const DAY_MS: u64 = 86_400_000;

#[test]
fn parse_u64_accepts_digit_strings() {
    assert_eq!(parse_u64("0"), Some(0));
    assert_eq!(parse_u64("123"), Some(123));
    assert_eq!(parse_u64("007"), Some(7));
    assert_eq!(parse_u64("18446744073709551615"), Some(u64::MAX));
}

#[test]
fn parse_u64_rejects_non_numbers() {
    assert_eq!(parse_u64(""), None);
    assert_eq!(parse_u64("12a"), None);
    assert_eq!(parse_u64("-3"), None);
    assert_eq!(parse_u64("1.5"), None);
    assert_eq!(parse_u64("18446744073709551616"), None);
}

#[test]
fn parse_u32_bounds() {
    assert_eq!(parse_u32("4294967295"), Some(u32::MAX));
    assert_eq!(parse_u32("4294967296"), None);
}

#[test]
fn parse_i64_handles_signs_and_bounds() {
    assert_eq!(parse_i64("0"), Some(0));
    assert_eq!(parse_i64("-0"), Some(0));
    assert_eq!(parse_i64("-7"), Some(-7));
    assert_eq!(parse_i64("9223372036854775807"), Some(i64::MAX));
    assert_eq!(parse_i64("9223372036854775808"), None);
    assert_eq!(parse_i64("-9223372036854775808"), Some(i64::MIN));
    assert_eq!(parse_i64("-9223372036854775809"), None);
    assert_eq!(parse_i64("-"), None);
    assert_eq!(parse_i64("--1"), None);
    assert_eq!(parse_i64("1-2"), None);
}

#[test]
fn number_rendering() {
    assert_eq!(u64_to_string(0), "0");
    assert_eq!(u64_to_string(12345), "12345");
    assert_eq!(u64_to_two_digits(5), "05");
    assert_eq!(u64_to_two_digits(50), "50");
    assert_eq!(i64_to_string(-7), "-7");
    assert_eq!(i64_to_string(0), "0");
}

#[test]
fn normalize_types_every_field() {
    let rec = mk_rec("4321", "1640995200", "0xh1", ZERO, "Bears Deluxe");
    let row = normalize(&rec).unwrap();
    assert_eq!(row.block_number, 4321);
    assert_eq!(row.timestamp_ms, 1_640_995_200_000);
    assert_eq!(row.nonce, 7);
    assert_eq!(row.token_id, 42);
    assert_eq!(row.token_decimals, 0);
    assert_eq!(row.gas_price, 1_000_000_000);
    assert_eq!(row.gas_used, 20000);
    assert_eq!(row.cumulative_gas_used, 300000);
    assert_eq!(row.confirmations, 12);
    assert_eq!(row.from_address, ZERO);
    assert_eq!(row.token_name, "Bears Deluxe");
    assert_eq!(row.gas, "21000");
    assert_eq!(row.transaction_index, "1");
}

#[test]
fn normalize_names_the_offending_field() {
    let mut rec = mk_rec("4321", "1640995200", "0xh1", ZERO, "Bears Deluxe");
    rec.nonce = "many".to_string();
    let CastError { field } = normalize(&rec).unwrap_err();
    assert_eq!(field, "nonce");
}

#[test]
fn normalize_rejects_timestamp_whose_milliseconds_overflow() {
    let mut rec = mk_rec("4321", "18446744073709551615", "0xh1", ZERO, "Bears Deluxe");
    rec.timestamp = "18446744073709551615".to_string();
    let CastError { field } = normalize(&rec).unwrap_err();
    assert_eq!(field, "timeStamp");
}

#[test]
fn normalize_all_stops_at_first_bad_record() {
    let good = mk_rec("1", "86400", "0xh1", ZERO, "T");
    let mut bad = mk_rec("2", "86400", "0xh2", ZERO, "T");
    bad.block_number = "xyz".to_string();
    let rows = normalize_all(&vec![good.clone(), good.clone()]).unwrap();
    assert_eq!(rows.len(), 2);
    let CastError { field } = normalize_all(&vec![good, bad]).unwrap_err();
    assert_eq!(field, "blockNumber");
}

#[test]
fn pagination_collects_every_page_and_terminates() {
    // Page k's last block is page (k+1)'s start block; the final page
    // repeats its own last block, signalling the end.
    let page1 = vec![
        mk_rec("1", "86400", "0xa1", ZERO, "T"),
        mk_rec("2", "86400", "0xa2", ZERO, "T"),
    ];
    let page2 = vec![
        mk_rec("2", "86400", "0xa2", ZERO, "T"),
        mk_rec("3", "86400", "0xa3", ZERO, "T"),
    ];
    let page3 = vec![mk_rec("3", "86400", "0xa3", ZERO, "T")];
    let records = fetch_all_transfers(&vec![page1, page2, page3]).unwrap();
    assert_eq!(records.len(), 5);
    let blocks: Vec<&str> = records.iter().map(|r| r.block_number.as_str()).collect();
    assert_eq!(blocks, vec!["1", "2", "2", "3", "3"]);
}

#[test]
fn pagination_with_no_records_is_an_error() {
    let empty_page: Vec<RawTransferRecord> = vec![];
    let err = fetch_all_transfers(&vec![empty_page]).unwrap_err();
    assert!(matches!(err, FetchError::EmptyResult));
}

#[test]
fn pagination_that_outruns_its_pages_is_an_error() {
    let page1 = vec![mk_rec("5", "86400", "0xa1", ZERO, "T")];
    let err = fetch_all_transfers(&vec![page1]).unwrap_err();
    assert!(matches!(err, FetchError::PagesExhausted));
}

#[test]
fn pagination_rejects_an_unreadable_block_number() {
    let page1 = vec![mk_rec("abc", "86400", "0xa1", ZERO, "T")];
    let err = fetch_all_transfers(&vec![page1]).unwrap_err();
    assert!(matches!(err, FetchError::InvalidBlockNumber));
}

#[test]
fn fetch_state_advances_its_cursor() {
    let mut st = fetch_begin();
    assert_eq!(st.start_block, 0);
    let page1 = vec![mk_rec("8", "86400", "0xa1", ZERO, "T")];
    assert!(fetch_on_page(&mut st, &page1).unwrap());
    assert_eq!(st.start_block, 8);
    let page2 = vec![mk_rec("8", "86400", "0xa1", ZERO, "T")];
    assert!(!fetch_on_page(&mut st, &page2).unwrap());
    assert!(st.done);
    let records = fetch_finish(st).unwrap();
    assert_eq!(records.len(), 2);
}

#[test]
fn dedup_keeps_first_occurrence_in_order() {
    let a = mk_row(0, "0xh1", ZERO, "T");
    let b = mk_row(DAY_MS, "0xh2", "0xbb", "T");
    let table = TransferTable::build(&vec![a.clone(), b.clone(), a.clone()]);
    assert_eq!(table.rows.len(), 2);
    assert_eq!(table.rows[0].hash, "0xh1");
    assert_eq!(table.rows[1].hash, "0xh2");
}

#[test]
fn dedup_tells_rows_apart_by_every_column() {
    let a = mk_row(0, "0xh1", ZERO, "T");
    let mut b = a.clone();
    b.confirmations = 13;
    let table = TransferTable::build(&vec![a, b]);
    assert_eq!(table.rows.len(), 2);
}

#[test]
fn dedup_is_idempotent() {
    let a = mk_row(0, "0xh1", ZERO, "T");
    let b = mk_row(DAY_MS, "0xh2", ZERO, "T");
    let once = TransferTable::build(&vec![a.clone(), a.clone(), b.clone(), a.clone()]);
    let twice = TransferTable::build(&once.rows);
    assert_eq!(once.rows.len(), twice.rows.len());
    assert_eq!(once.rows.len(), 2);
}

#[test]
fn mint_counts_sum_to_the_zero_address_rows() {
    let rows = vec![
        mk_row(0, "0xh1", ZERO, "A"),
        mk_row(0, "0xh2", "0xbb", "A"),
        mk_row(DAY_MS, "0xh3", ZERO, "A"),
        mk_row(DAY_MS, "0xh4", ZERO, "B"),
        mk_row(2 * DAY_MS, "0xh5", "0xcc", "B"),
    ];
    let mints = aggregate_mints(&rows);
    let total: u64 = mints.iter().map(|m| m.mint_count).sum();
    assert_eq!(total, 3);
}

#[test]
fn aggregation_groups_by_day_and_token_sorted_by_day() {
    let rows = vec![
        mk_row(10, "0xh1", ZERO, "A"),
        mk_row(20, "0xh2", ZERO, "A"),
        mk_row(5, "0xh3", ZERO, "B"),
        mk_row(DAY_MS + 1, "0xh4", ZERO, "A"),
    ];
    let mints = aggregate_mints(&rows);
    assert_eq!(mints.len(), 3);
    assert_eq!((mints[0].date_day, mints[0].token_name.as_str(), mints[0].mint_count), (0, "A", 2));
    assert_eq!((mints[1].date_day, mints[1].token_name.as_str(), mints[1].mint_count), (0, "B", 1));
    assert_eq!((mints[2].date_day, mints[2].token_name.as_str(), mints[2].mint_count), (1, "A", 1));
}

#[test]
fn aggregation_of_no_mints_is_empty_not_an_error() {
    let rows = vec![mk_row(0, "0xh1", "0xbb", "A")];
    let mints = aggregate_mints(&rows);
    assert!(mints.is_empty());
    let none: Vec<TransferRow> = vec![];
    assert!(aggregate_mints(&none).is_empty());
}

#[test]
fn aggregation_counts_the_page_boundary_overlap_once() {
    let page1 = vec![
        mk_rec("1", "86400", "0xa1", ZERO, "T"),
        mk_rec("2", "86400", "0xa2", ZERO, "T"),
    ];
    let page2 = vec![mk_rec("2", "86400", "0xa2", ZERO, "T")];
    let records = fetch_all_transfers(&vec![page1, page2]).unwrap();
    assert_eq!(records.len(), 3);
    let rows = normalize_all(&records).unwrap();
    let table = TransferTable::build(&rows);
    assert_eq!(table.rows.len(), 2);
    let mints = aggregate_table(&table);
    let total: u64 = mints.iter().map(|m| m.mint_count).sum();
    assert_eq!(total, 2);
}

#[test]
fn missing_config_key_error_carries_the_key() {
    let e = ConfigError::MissingKey("es_key".to_string());
    assert!(matches!(e, ConfigError::MissingKey(k) if k == "es_key"));
}
