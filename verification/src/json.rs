//! The explorer response envelope: `{status, message, result: [...]}` with
//! every record field a JSON string. The JSON tree itself comes from
//! serde_json behind a small trusted surface; everything decided about the
//! envelope — which fields a record must carry, which field failed first,
//! when the page as a whole fails — is verified here.

use vstd::prelude::*;

use crate::errors::FetchError;
use crate::record::{RawRecordModel, RawTransferRecord};

verus! {

/// Declares serde_json's JSON tree so that values of it can be carried
/// through; nothing inside one is visible here.
#[verifier::external_type_specification]
#[verifier::external_body]
pub struct ExValue(serde_json::Value);

/// Declares serde_json's parse error so that the parse wrapper can return
/// it; it is mapped at once to this crate's own error.
#[verifier::external_type_specification]
#[verifier::external_body]
pub struct ExJsonError(serde_json::Error);

/// The string-valued fields of a JSON value: every key of an object whose
/// value is a JSON string, mapped to that string's characters.
pub uninterp spec fn json_str_fields(v: serde_json::Value) -> Map<Seq<char>, Seq<char>>;

/// Whether a body is a well-formed JSON document.
pub uninterp spec fn json_wf(s: Seq<char>) -> bool;

/// What a well-formed document holds under its "result" key: the
/// string-valued fields of each array element, in order — or nothing, when
/// no "result" array is present.
pub uninterp spec fn json_result_fields_of(s: Seq<char>) -> Option<Seq<Map<Seq<char>, Seq<char>>>>;

/// Relies on serde_json::from_str::<Value>, Value::get and Value::as_array:
/// parsing succeeds exactly on a well-formed JSON document, and the
/// elements under the document's "result" key — present exactly when that
/// key holds an array — are a function of the body alone, each element
/// carrying the body's string fields for its position.
#[verifier::external_body]
fn json_parse_result(body: &str) -> (r: Result<Option<Vec<serde_json::Value>>, serde_json::Error>)
    ensures
        r is Ok <==> json_wf(body@),
        r matches Ok(arr) ==> ((arr is Some <==> json_result_fields_of(body@) is Some) && (
        arr matches Some(items) ==> (json_result_fields_of(body@) matches Some(fields)
            && items@.len() == fields.len() && forall|i: int|
            0 <= i < items@.len() ==> #[trigger] json_str_fields(items@[i]) == fields[i]))),
{
    match serde_json::from_str::<serde_json::Value>(body) {
        Ok(v) => Ok(v.get("result").and_then(|x| x.as_array()).cloned()),
        Err(e) => Err(e),
    }
}

/// Relies on Value::get and Value::as_str: looks a key up in a JSON object
/// and hands its value back when that value is a string — exactly the
/// string-valued fields of the value.
#[verifier::external_body]
fn json_get_str(v: &serde_json::Value, key: &str) -> (r: Option<String>)
    ensures
        r is Some <==> json_str_fields(*v).dom().contains(key@),
        r matches Some(s) ==> s@ == json_str_fields(*v)[key@],
{
    match v.get(key) {
        Some(x) => match x.as_str() {
            Some(s) => Some(s.to_owned()),
            None => None,
        },
        None => None,
    }
}

/// The transfer object carries every field a raw record needs, as a string.
pub open spec fn spec_record_complete(m: Map<Seq<char>, Seq<char>>) -> bool {
    &&& m.dom().contains("blockNumber"@)
    &&& m.dom().contains("timeStamp"@)
    &&& m.dom().contains("hash"@)
    &&& m.dom().contains("nonce"@)
    &&& m.dom().contains("blockHash"@)
    &&& m.dom().contains("contractAddress"@)
    &&& m.dom().contains("to"@)
    &&& m.dom().contains("from"@)
    &&& m.dom().contains("tokenID"@)
    &&& m.dom().contains("tokenName"@)
    &&& m.dom().contains("tokenSymbol"@)
    &&& m.dom().contains("tokenDecimal"@)
    &&& m.dom().contains("transactionIndex"@)
    &&& m.dom().contains("gas"@)
    &&& m.dom().contains("gasPrice"@)
    &&& m.dom().contains("gasUsed"@)
    &&& m.dom().contains("cumulativeGasUsed"@)
    &&& m.dom().contains("confirmations"@)
}

/// The raw record a complete transfer object denotes.
pub open spec fn spec_record_of(m: Map<Seq<char>, Seq<char>>) -> RawRecordModel
    recommends
        spec_record_complete(m),
{
    RawRecordModel {
        block_number: m["blockNumber"@],
        timestamp: m["timeStamp"@],
        hash: m["hash"@],
        nonce: m["nonce"@],
        block_hash: m["blockHash"@],
        contract_address: m["contractAddress"@],
        to_address: m["to"@],
        from_address: m["from"@],
        token_id: m["tokenID"@],
        token_name: m["tokenName"@],
        token_symbol: m["tokenSymbol"@],
        token_decimal: m["tokenDecimal"@],
        transaction_index: m["transactionIndex"@],
        gas: m["gas"@],
        gas_price: m["gasPrice"@],
        gas_used: m["gasUsed"@],
        cumulative_gas_used: m["cumulativeGasUsed"@],
        confirmations: m["confirmations"@],
    }
}

/// The first field, in extraction order, a transfer object lacks.
pub open spec fn spec_first_missing_field(m: Map<Seq<char>, Seq<char>>) -> Seq<char> {
    if !m.dom().contains("blockNumber"@) {
        "blockNumber"@
    } else if !m.dom().contains("timeStamp"@) {
        "timeStamp"@
    } else if !m.dom().contains("hash"@) {
        "hash"@
    } else if !m.dom().contains("nonce"@) {
        "nonce"@
    } else if !m.dom().contains("blockHash"@) {
        "blockHash"@
    } else if !m.dom().contains("contractAddress"@) {
        "contractAddress"@
    } else if !m.dom().contains("to"@) {
        "to"@
    } else if !m.dom().contains("from"@) {
        "from"@
    } else if !m.dom().contains("tokenID"@) {
        "tokenID"@
    } else if !m.dom().contains("tokenName"@) {
        "tokenName"@
    } else if !m.dom().contains("tokenSymbol"@) {
        "tokenSymbol"@
    } else if !m.dom().contains("tokenDecimal"@) {
        "tokenDecimal"@
    } else if !m.dom().contains("transactionIndex"@) {
        "transactionIndex"@
    } else if !m.dom().contains("gas"@) {
        "gas"@
    } else if !m.dom().contains("gasPrice"@) {
        "gasPrice"@
    } else if !m.dom().contains("gasUsed"@) {
        "gasUsed"@
    } else if !m.dom().contains("cumulativeGasUsed"@) {
        "cumulativeGasUsed"@
    } else {
        "confirmations"@
    }
}

/// Extract one raw record from a transfer object of the result array.
///
/// Succeeds exactly when every field is present as a string; otherwise the
/// error names the first missing field.
pub fn extract_record(v: &serde_json::Value) -> (r: Result<RawTransferRecord, FetchError>)
    ensures
        r is Ok <==> spec_record_complete(json_str_fields(*v)),
        r matches Ok(rec) ==> rec@ == spec_record_of(json_str_fields(*v)),
        r matches Err(e) ==> (e matches FetchError::MissingField(f) && f@
            == spec_first_missing_field(json_str_fields(*v))),
{
    let block_number = match json_get_str(v, "blockNumber") {
        Some(s) => s,
        None => {
            return Err(FetchError::MissingField(String::from_str("blockNumber")));
        },
    };
    let timestamp = match json_get_str(v, "timeStamp") {
        Some(s) => s,
        None => {
            return Err(FetchError::MissingField(String::from_str("timeStamp")));
        },
    };
    let hash = match json_get_str(v, "hash") {
        Some(s) => s,
        None => {
            return Err(FetchError::MissingField(String::from_str("hash")));
        },
    };
    let nonce = match json_get_str(v, "nonce") {
        Some(s) => s,
        None => {
            return Err(FetchError::MissingField(String::from_str("nonce")));
        },
    };
    let block_hash = match json_get_str(v, "blockHash") {
        Some(s) => s,
        None => {
            return Err(FetchError::MissingField(String::from_str("blockHash")));
        },
    };
    let contract_address = match json_get_str(v, "contractAddress") {
        Some(s) => s,
        None => {
            return Err(FetchError::MissingField(String::from_str("contractAddress")));
        },
    };
    let to_address = match json_get_str(v, "to") {
        Some(s) => s,
        None => {
            return Err(FetchError::MissingField(String::from_str("to")));
        },
    };
    let from_address = match json_get_str(v, "from") {
        Some(s) => s,
        None => {
            return Err(FetchError::MissingField(String::from_str("from")));
        },
    };
    let token_id = match json_get_str(v, "tokenID") {
        Some(s) => s,
        None => {
            return Err(FetchError::MissingField(String::from_str("tokenID")));
        },
    };
    let token_name = match json_get_str(v, "tokenName") {
        Some(s) => s,
        None => {
            return Err(FetchError::MissingField(String::from_str("tokenName")));
        },
    };
    let token_symbol = match json_get_str(v, "tokenSymbol") {
        Some(s) => s,
        None => {
            return Err(FetchError::MissingField(String::from_str("tokenSymbol")));
        },
    };
    let token_decimal = match json_get_str(v, "tokenDecimal") {
        Some(s) => s,
        None => {
            return Err(FetchError::MissingField(String::from_str("tokenDecimal")));
        },
    };
    let transaction_index = match json_get_str(v, "transactionIndex") {
        Some(s) => s,
        None => {
            return Err(FetchError::MissingField(String::from_str("transactionIndex")));
        },
    };
    let gas = match json_get_str(v, "gas") {
        Some(s) => s,
        None => {
            return Err(FetchError::MissingField(String::from_str("gas")));
        },
    };
    let gas_price = match json_get_str(v, "gasPrice") {
        Some(s) => s,
        None => {
            return Err(FetchError::MissingField(String::from_str("gasPrice")));
        },
    };
    let gas_used = match json_get_str(v, "gasUsed") {
        Some(s) => s,
        None => {
            return Err(FetchError::MissingField(String::from_str("gasUsed")));
        },
    };
    let cumulative_gas_used = match json_get_str(v, "cumulativeGasUsed") {
        Some(s) => s,
        None => {
            return Err(FetchError::MissingField(String::from_str("cumulativeGasUsed")));
        },
    };
    let confirmations = match json_get_str(v, "confirmations") {
        Some(s) => s,
        None => {
            return Err(FetchError::MissingField(String::from_str("confirmations")));
        },
    };
    Ok(
        RawTransferRecord {
            block_number,
            timestamp,
            hash,
            nonce,
            block_hash,
            contract_address,
            to_address,
            from_address,
            token_id,
            token_name,
            token_symbol,
            token_decimal,
            transaction_index,
            gas,
            gas_price,
            gas_used,
            cumulative_gas_used,
            confirmations,
        },
    )
}

/// Every element of a result array carries all the fields of a record.
pub open spec fn all_records_complete(fields: Seq<Map<Seq<char>, Seq<char>>>) -> bool {
    forall|i: int| 0 <= i < fields.len() ==> spec_record_complete(#[trigger] fields[i])
}

/// Parse one explorer response body into a page of raw records.
///
/// The envelope's status and message are advisory: a body that is not JSON
/// fails; a well-formed body without a result array — the fatal condition
/// the explorer signals by withholding it — fails; a result array present
/// despite a failure status passes through. With the array present, the
/// page succeeds exactly when every element is a complete transfer object,
/// yields those records in order, and otherwise names the first missing
/// field of the first incomplete element.
pub fn parse_page(body: &str) -> (r: Result<Vec<RawTransferRecord>, FetchError>)
    ensures
        r matches Err(FetchError::InvalidJson) <==> !json_wf(body@),
        json_wf(body@) ==> ((r matches Err(FetchError::MissingResultArray)) <==> json_result_fields_of(
            body@,
        ) is None),
        json_wf(body@) ==> (json_result_fields_of(body@) matches Some(fields) ==> {
            &&& (r is Ok <==> all_records_complete(fields))
            &&& (r matches Ok(page) ==> page@.len() == fields.len() && forall|i: int|
                0 <= i < page@.len() ==> (#[trigger] page@[i])@ == spec_record_of(fields[i]))
            &&& (r matches Err(e) ==> exists|k: int|
                #![auto]
                0 <= k < fields.len() && !spec_record_complete(fields[k]) && (forall|j: int|
                    0 <= j < k ==> spec_record_complete(fields[j])) && (
                e matches FetchError::MissingField(f) && f@ == spec_first_missing_field(fields[k])))
        }),
{
    let arr_opt = match json_parse_result(body) {
        Ok(a) => a,
        Err(_) => {
            return Err(FetchError::InvalidJson);
        },
    };
    let arr = match arr_opt {
        Some(a) => a,
        None => {
            return Err(FetchError::MissingResultArray);
        },
    };
    let ghost fields = json_result_fields_of(body@)->Some_0;
    let mut out: Vec<RawTransferRecord> = Vec::new();
    let mut i: usize = 0;
    while i < arr.len()
        invariant
            0 <= i <= arr@.len(),
            json_wf(body@),
            json_result_fields_of(body@) matches Some(f) && f == fields,
            arr@.len() == fields.len(),
            forall|k: int| 0 <= k < arr@.len() ==> #[trigger] json_str_fields(arr@[k]) == fields[k],
            out@.len() == i,
            forall|j: int|
                0 <= j < i ==> spec_record_complete(#[trigger] fields[j]) && out@[j]@
                    == spec_record_of(fields[j]),
        decreases arr@.len() - i,
    {
        match extract_record(&arr[i]) {
            Ok(rec) => {
                out.push(rec);
            },
            Err(e) => {
                proof {
                    assert(json_str_fields(arr@[i as int]) == fields[i as int]);
                }
                return Err(e);
            },
        }
        i = i + 1;
    }
    Ok(out)
}

} // verus!
