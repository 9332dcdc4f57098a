//! Typed normalization of raw transfer records: every string-encoded field
//! is cast into its numeric or temporal domain, field by field, and the
//! first field that does not cast fails the whole record by name — a bad
//! field is a fatal ingestion error, never a silent default.

use vstd::prelude::*;

use crate::errors::CastError;
use crate::numstr::{dec_val, is_dec_string, parse_u32, parse_u64};
use crate::record::{RawRecordModel, RawTransferRecord, TransferRow, TransferRowModel};

verus! {

/// The field casts to an unsigned 64-bit integer.
pub open spec fn fits_u64(s: Seq<char>) -> bool {
    is_dec_string(s) && dec_val(s) <= u64::MAX
}

/// The field casts to an unsigned 32-bit integer.
pub open spec fn fits_u32(s: Seq<char>) -> bool {
    is_dec_string(s) && dec_val(s) <= u32::MAX
}

/// The field casts to unix seconds whose millisecond form still fits 64 bits.
pub open spec fn fits_timestamp(s: Seq<char>) -> bool {
    is_dec_string(s) && dec_val(s) * 1000 <= u64::MAX
}

/// Every typed field of the record casts.
pub open spec fn spec_normalizable(r: RawRecordModel) -> bool {
    &&& fits_u64(r.block_number)
    &&& fits_timestamp(r.timestamp)
    &&& fits_u32(r.nonce)
    &&& fits_u32(r.token_id)
    &&& fits_u64(r.token_decimal)
    &&& fits_u64(r.gas_price)
    &&& fits_u32(r.gas_used)
    &&& fits_u64(r.cumulative_gas_used)
    &&& fits_u64(r.confirmations)
}

/// The typed row a castable record normalizes to. The timestamp becomes a
/// millisecond instant: the source's unix seconds times 1000, no timezone
/// adjustment. Text fields pass through unchanged.
pub open spec fn spec_normalize(r: RawRecordModel) -> TransferRowModel
    recommends
        spec_normalizable(r),
{
    TransferRowModel {
        block_number: dec_val(r.block_number) as u64,
        timestamp_ms: (dec_val(r.timestamp) * 1000) as u64,
        hash: r.hash,
        nonce: dec_val(r.nonce) as u32,
        block_hash: r.block_hash,
        contract_address: r.contract_address,
        to_address: r.to_address,
        from_address: r.from_address,
        token_id: dec_val(r.token_id) as u32,
        token_name: r.token_name,
        token_symbol: r.token_symbol,
        token_decimals: dec_val(r.token_decimal) as u64,
        transaction_index: r.transaction_index,
        gas: r.gas,
        gas_price: dec_val(r.gas_price) as u64,
        gas_used: dec_val(r.gas_used) as u32,
        cumulative_gas_used: dec_val(r.cumulative_gas_used) as u64,
        confirmations: dec_val(r.confirmations) as u64,
    }
}

/// The name of the first field, in cast order, that fails to cast.
pub open spec fn spec_first_bad_field(r: RawRecordModel) -> Seq<char> {
    if !fits_u64(r.block_number) {
        "blockNumber"@
    } else if !fits_timestamp(r.timestamp) {
        "timeStamp"@
    } else if !fits_u32(r.nonce) {
        "nonce"@
    } else if !fits_u32(r.token_id) {
        "tokenID"@
    } else if !fits_u64(r.token_decimal) {
        "tokenDecimal"@
    } else if !fits_u64(r.gas_price) {
        "gasPrice"@
    } else if !fits_u32(r.gas_used) {
        "gasUsed"@
    } else if !fits_u64(r.cumulative_gas_used) {
        "cumulativeGasUsed"@
    } else {
        "confirmations"@
    }
}

/// Normalize one raw record into a typed row.
///
/// Succeeds exactly when every typed field casts; otherwise the error names
/// the first offending field.
pub fn normalize(r: &RawTransferRecord) -> (out: Result<TransferRow, CastError>)
    ensures
        out is Ok <==> spec_normalizable(r@),
        out matches Ok(row) ==> row@ == spec_normalize(r@),
        out matches Err(e) ==> e.field@ == spec_first_bad_field(r@),
{
    let block_number = match parse_u64(r.block_number.as_str()) {
        Some(v) => v,
        None => {
            return Err(CastError { field: String::from_str("blockNumber") });
        },
    };
    let secs = match parse_u64(r.timestamp.as_str()) {
        Some(v) => v,
        None => {
            return Err(CastError { field: String::from_str("timeStamp") });
        },
    };
    if secs > u64::MAX / 1000 {
        proof {
            assert(secs * 1000 > u64::MAX) by (nonlinear_arith)
                requires
                    secs > u64::MAX / 1000,
            ;
        }
        return Err(CastError { field: String::from_str("timeStamp") });
    }
    proof {
        assert(secs * 1000 <= u64::MAX) by (nonlinear_arith)
            requires
                secs <= u64::MAX / 1000,
        ;
    }
    let timestamp_ms = secs * 1000;
    let nonce = match parse_u32(r.nonce.as_str()) {
        Some(v) => v,
        None => {
            return Err(CastError { field: String::from_str("nonce") });
        },
    };
    let token_id = match parse_u32(r.token_id.as_str()) {
        Some(v) => v,
        None => {
            return Err(CastError { field: String::from_str("tokenID") });
        },
    };
    let token_decimals = match parse_u64(r.token_decimal.as_str()) {
        Some(v) => v,
        None => {
            return Err(CastError { field: String::from_str("tokenDecimal") });
        },
    };
    let gas_price = match parse_u64(r.gas_price.as_str()) {
        Some(v) => v,
        None => {
            return Err(CastError { field: String::from_str("gasPrice") });
        },
    };
    let gas_used = match parse_u32(r.gas_used.as_str()) {
        Some(v) => v,
        None => {
            return Err(CastError { field: String::from_str("gasUsed") });
        },
    };
    let cumulative_gas_used = match parse_u64(r.cumulative_gas_used.as_str()) {
        Some(v) => v,
        None => {
            return Err(CastError { field: String::from_str("cumulativeGasUsed") });
        },
    };
    let confirmations = match parse_u64(r.confirmations.as_str()) {
        Some(v) => v,
        None => {
            return Err(CastError { field: String::from_str("confirmations") });
        },
    };
    Ok(
        TransferRow {
            block_number,
            timestamp_ms,
            hash: r.hash.clone(),
            nonce,
            block_hash: r.block_hash.clone(),
            contract_address: r.contract_address.clone(),
            to_address: r.to_address.clone(),
            from_address: r.from_address.clone(),
            token_id,
            token_name: r.token_name.clone(),
            token_symbol: r.token_symbol.clone(),
            token_decimals,
            transaction_index: r.transaction_index.clone(),
            gas: r.gas.clone(),
            gas_price,
            gas_used,
            cumulative_gas_used,
            confirmations,
        },
    )
}

/// The records of an exec record sequence, as models.
pub open spec fn raw_model(s: Seq<RawTransferRecord>) -> Seq<RawRecordModel> {
    s.map_values(|r: RawTransferRecord| r@)
}

/// Normalize a whole record sequence into typed rows, in order.
///
/// Succeeds exactly when every record normalizes; otherwise the run aborts
/// at the first record with an uncastable field, naming that field.
pub fn normalize_all(records: &Vec<RawTransferRecord>) -> (out: Result<Vec<TransferRow>, CastError>)
    ensures
        out is Ok <==> (forall|k: int|
            0 <= k < records@.len() ==> spec_normalizable(#[trigger] raw_model(records@)[k])),
        out matches Ok(rows) ==> rows@.map_values(|r: TransferRow| r@) == raw_model(
            records@,
        ).map_values(|m: RawRecordModel| spec_normalize(m)),
        out matches Err(e) ==> (exists|k: int|
            #![auto]
            0 <= k < records@.len() && !spec_normalizable(raw_model(records@)[k]) && (forall|j: int|
                0 <= j < k ==> spec_normalizable(#[trigger] raw_model(records@)[j])) && e.field@
                == spec_first_bad_field(raw_model(records@)[k])),
{
    let ghost full = raw_model(records@);
    let mut out: Vec<TransferRow> = Vec::new();
    let mut i: usize = 0;
    while i < records.len()
        invariant
            0 <= i <= records@.len(),
            full == raw_model(records@),
            forall|j: int| 0 <= j < i ==> spec_normalizable(#[trigger] full[j]),
            out@.len() == i,
            forall|j: int|
                0 <= j < i ==> (#[trigger] out@[j])@ == spec_normalize(full[j]),
        decreases records@.len() - i,
    {
        proof {
            assert(raw_model(records@).len() == records@.len());
            assert(full[i as int] == records@[i as int]@);
        }
        match normalize(&records[i]) {
            Ok(row) => {
                out.push(row);
            },
            Err(e) => {
                return Err(e);
            },
        }
        i = i + 1;
    }
    proof {
        assert(out@.map_values(|r: TransferRow| r@) =~= full.map_values(
            |m: RawRecordModel| spec_normalize(m),
        ));
    }
    Ok(out)
}

} // verus!
