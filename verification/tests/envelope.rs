use bkeeper::errors::FetchError;
use bkeeper::json::{extract_record, parse_page};

fn record_json(with_hash: bool) -> String {
    let mut s = String::new();
    s.push_str("{\"blockNumber\":\"14316894\",\"timeStamp\":\"1646092800\",");
    if with_hash {
        s.push_str("\"hash\":\"0xh1\",");
    }
    s.push_str("\"nonce\":\"5\",\"blockHash\":\"0xbh\",\"contractAddress\":\"0xc0\",");
    s.push_str("\"to\":\"0xaa\",\"from\":\"0x0000000000000000000000000000000000000000\",");
    s.push_str("\"tokenID\":\"77\",\"tokenName\":\"Bears Deluxe\",\"tokenSymbol\":\"BD\",");
    s.push_str("\"tokenDecimal\":\"0\",\"transactionIndex\":\"3\",\"gas\":\"21000\",");
    s.push_str("\"gasPrice\":\"9000000000\",\"gasUsed\":\"20000\",");
    s.push_str("\"cumulativeGasUsed\":\"400000\",\"confirmations\":\"99\"}");
    s
}

fn envelope(records: &[String]) -> String {
    format!(
        "{{\"status\":\"1\",\"message\":\"OK\",\"result\":[{}]}}",
        records.join(",")
    )
}

#[test]
fn a_complete_transfer_object_extracts_every_field() {
    let v: serde_json::Value = serde_json::from_str(&record_json(true)).unwrap();
    let rec = extract_record(&v).unwrap();
    assert_eq!(rec.block_number, "14316894");
    assert_eq!(rec.timestamp, "1646092800");
    assert_eq!(rec.hash, "0xh1");
    assert_eq!(rec.from_address, "0x0000000000000000000000000000000000000000");
    assert_eq!(rec.token_name, "Bears Deluxe");
    assert_eq!(rec.confirmations, "99");
}

#[test]
fn a_missing_field_is_named() {
    let v: serde_json::Value = serde_json::from_str(&record_json(false)).unwrap();
    let err = extract_record(&v).unwrap_err();
    assert!(matches!(err, FetchError::MissingField(f) if f == "hash"));
}

#[test]
fn a_non_string_field_is_missing_for_extraction() {
    let body = record_json(true).replace("\"nonce\":\"5\"", "\"nonce\":5");
    let v: serde_json::Value = serde_json::from_str(&body).unwrap();
    let err = extract_record(&v).unwrap_err();
    assert!(matches!(err, FetchError::MissingField(f) if f == "nonce"));
}

#[test]
fn a_page_parses_into_its_records() {
    let body = envelope(&[record_json(true), record_json(true)]);
    let page = parse_page(&body).unwrap();
    assert_eq!(page.len(), 2);
    assert_eq!(page[0].block_number, "14316894");
}

#[test]
fn an_empty_result_array_is_an_empty_page() {
    let body = envelope(&[]);
    let page = parse_page(&body).unwrap();
    assert!(page.is_empty());
}

#[test]
fn a_body_that_is_not_json_fails() {
    let err = parse_page("<html>rate limited</html>").unwrap_err();
    assert!(matches!(err, FetchError::InvalidJson));
}

#[test]
fn an_envelope_without_a_result_array_fails() {
    let err = parse_page("{\"status\":\"0\",\"message\":\"NOTOK\"}").unwrap_err();
    assert!(matches!(err, FetchError::MissingResultArray));
    let err = parse_page("{\"status\":\"1\",\"result\":\"Max rate limit reached\"}").unwrap_err();
    assert!(matches!(err, FetchError::MissingResultArray));
}
