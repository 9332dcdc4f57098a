//! The data model of the pipeline: raw transfer records as the explorer
//! delivers them (every field a string), typed rows after normalization, and
//! the daily mint aggregate.

use vstd::prelude::*;

verus! {

/// One transfer object from an explorer response page, all fields as
/// received. Produced per page, consumed by normalization; not retained.
#[derive(Debug)]
pub struct RawTransferRecord {
    pub block_number: String,
    pub timestamp: String,
    pub hash: String,
    pub nonce: String,
    pub block_hash: String,
    pub contract_address: String,
    pub to_address: String,
    pub from_address: String,
    pub token_id: String,
    pub token_name: String,
    pub token_symbol: String,
    pub token_decimal: String,
    pub transaction_index: String,
    pub gas: String,
    pub gas_price: String,
    pub gas_used: String,
    pub cumulative_gas_used: String,
    pub confirmations: String,
}

/// Mathematical view of a raw record: each field as a character sequence.
pub ghost struct RawRecordModel {
    pub block_number: Seq<char>,
    pub timestamp: Seq<char>,
    pub hash: Seq<char>,
    pub nonce: Seq<char>,
    pub block_hash: Seq<char>,
    pub contract_address: Seq<char>,
    pub to_address: Seq<char>,
    pub from_address: Seq<char>,
    pub token_id: Seq<char>,
    pub token_name: Seq<char>,
    pub token_symbol: Seq<char>,
    pub token_decimal: Seq<char>,
    pub transaction_index: Seq<char>,
    pub gas: Seq<char>,
    pub gas_price: Seq<char>,
    pub gas_used: Seq<char>,
    pub cumulative_gas_used: Seq<char>,
    pub confirmations: Seq<char>,
}

impl View for RawTransferRecord {
    type V = RawRecordModel;

    open spec fn view(&self) -> RawRecordModel {
        RawRecordModel {
            block_number: self.block_number@,
            timestamp: self.timestamp@,
            hash: self.hash@,
            nonce: self.nonce@,
            block_hash: self.block_hash@,
            contract_address: self.contract_address@,
            to_address: self.to_address@,
            from_address: self.from_address@,
            token_id: self.token_id@,
            token_name: self.token_name@,
            token_symbol: self.token_symbol@,
            token_decimal: self.token_decimal@,
            transaction_index: self.transaction_index@,
            gas: self.gas@,
            gas_price: self.gas_price@,
            gas_used: self.gas_used@,
            cumulative_gas_used: self.cumulative_gas_used@,
            confirmations: self.confirmations@,
        }
    }
}

impl Clone for RawTransferRecord {
    fn clone(&self) -> (r: Self)
        ensures
            r@ == self@,
    {
        RawTransferRecord {
            block_number: self.block_number.clone(),
            timestamp: self.timestamp.clone(),
            hash: self.hash.clone(),
            nonce: self.nonce.clone(),
            block_hash: self.block_hash.clone(),
            contract_address: self.contract_address.clone(),
            to_address: self.to_address.clone(),
            from_address: self.from_address.clone(),
            token_id: self.token_id.clone(),
            token_name: self.token_name.clone(),
            token_symbol: self.token_symbol.clone(),
            token_decimal: self.token_decimal.clone(),
            transaction_index: self.transaction_index.clone(),
            gas: self.gas.clone(),
            gas_price: self.gas_price.clone(),
            gas_used: self.gas_used.clone(),
            cumulative_gas_used: self.cumulative_gas_used.clone(),
            confirmations: self.confirmations.clone(),
        }
    }
}

/// A normalized transfer: every field cast to its typed domain. A record
/// with an uncastable field never becomes a row. The two decimal-valued
/// columns of the feed, token decimals and gas price, are whole numbers in
/// every explorer response and are held as unsigned integers here.
#[derive(Debug)]
pub struct TransferRow {
    pub block_number: u64,
    /// Milliseconds since the epoch: the source's unix seconds times 1000.
    pub timestamp_ms: u64,
    pub hash: String,
    pub nonce: u32,
    pub block_hash: String,
    pub contract_address: String,
    pub to_address: String,
    pub from_address: String,
    pub token_id: u32,
    pub token_name: String,
    pub token_symbol: String,
    pub token_decimals: u64,
    pub transaction_index: String,
    pub gas: String,
    pub gas_price: u64,
    pub gas_used: u32,
    pub cumulative_gas_used: u64,
    pub confirmations: u64,
}

/// Mathematical view of a normalized row.
pub ghost struct TransferRowModel {
    pub block_number: u64,
    pub timestamp_ms: u64,
    pub hash: Seq<char>,
    pub nonce: u32,
    pub block_hash: Seq<char>,
    pub contract_address: Seq<char>,
    pub to_address: Seq<char>,
    pub from_address: Seq<char>,
    pub token_id: u32,
    pub token_name: Seq<char>,
    pub token_symbol: Seq<char>,
    pub token_decimals: u64,
    pub transaction_index: Seq<char>,
    pub gas: Seq<char>,
    pub gas_price: u64,
    pub gas_used: u32,
    pub cumulative_gas_used: u64,
    pub confirmations: u64,
}

impl View for TransferRow {
    type V = TransferRowModel;

    open spec fn view(&self) -> TransferRowModel {
        TransferRowModel {
            block_number: self.block_number,
            timestamp_ms: self.timestamp_ms,
            hash: self.hash@,
            nonce: self.nonce,
            block_hash: self.block_hash@,
            contract_address: self.contract_address@,
            to_address: self.to_address@,
            from_address: self.from_address@,
            token_id: self.token_id,
            token_name: self.token_name@,
            token_symbol: self.token_symbol@,
            token_decimals: self.token_decimals,
            transaction_index: self.transaction_index@,
            gas: self.gas@,
            gas_price: self.gas_price,
            gas_used: self.gas_used,
            cumulative_gas_used: self.cumulative_gas_used,
            confirmations: self.confirmations,
        }
    }
}

impl Clone for TransferRow {
    fn clone(&self) -> (r: Self)
        ensures
            r@ == self@,
    {
        TransferRow {
            block_number: self.block_number,
            timestamp_ms: self.timestamp_ms,
            hash: self.hash.clone(),
            nonce: self.nonce,
            block_hash: self.block_hash.clone(),
            contract_address: self.contract_address.clone(),
            to_address: self.to_address.clone(),
            from_address: self.from_address.clone(),
            token_id: self.token_id,
            token_name: self.token_name.clone(),
            token_symbol: self.token_symbol.clone(),
            token_decimals: self.token_decimals,
            transaction_index: self.transaction_index.clone(),
            gas: self.gas.clone(),
            gas_price: self.gas_price,
            gas_used: self.gas_used,
            cumulative_gas_used: self.cumulative_gas_used,
            confirmations: self.confirmations,
        }
    }
}

/// Full-row equality, the identity used when the table is deduplicated.
pub fn row_eq(a: &TransferRow, b: &TransferRow) -> (r: bool)
    ensures
        r == (a@ == b@),
{
    a.block_number == b.block_number && a.timestamp_ms == b.timestamp_ms && a.hash == b.hash
        && a.nonce == b.nonce && a.block_hash == b.block_hash && a.contract_address
        == b.contract_address && a.to_address == b.to_address && a.from_address == b.from_address
        && a.token_id == b.token_id && a.token_name == b.token_name && a.token_symbol
        == b.token_symbol && a.token_decimals == b.token_decimals && a.transaction_index
        == b.transaction_index && a.gas == b.gas && a.gas_price == b.gas_price && a.gas_used
        == b.gas_used && a.cumulative_gas_used == b.cumulative_gas_used && a.confirmations
        == b.confirmations
}

/// The canonical zero address: the 42-character hex literal of all zeros.
pub open spec fn zero_address() -> Seq<char> {
    "0x0000000000000000000000000000000000000000"@
}

/// A transfer is a mint exactly when its sender is the zero address.
pub open spec fn spec_is_mint(r: TransferRowModel) -> bool {
    r.from_address == zero_address()
}

/// Decide whether a row records a mint transfer.
pub fn is_mint(r: &TransferRow) -> (b: bool)
    ensures
        b == spec_is_mint(r@),
{
    let zero: String = String::from_str("0x0000000000000000000000000000000000000000");
    r.from_address == zero
}

/// One daily mint bucket: how many mint transfers of a token fell on a
/// calendar day (counted in whole days since the epoch).
#[derive(Debug)]
pub struct MintRow {
    pub date_day: u64,
    pub token_name: String,
    pub mint_count: u64,
}

/// Mathematical view of a mint bucket; the count is unbounded here.
pub ghost struct MintRowModel {
    pub date_day: u64,
    pub token_name: Seq<char>,
    pub mint_count: nat,
}

impl View for MintRow {
    type V = MintRowModel;

    open spec fn view(&self) -> MintRowModel {
        MintRowModel {
            date_day: self.date_day,
            token_name: self.token_name@,
            mint_count: self.mint_count as nat,
        }
    }
}

impl Clone for MintRow {
    fn clone(&self) -> (r: Self)
        ensures
            r@ == self@,
    {
        MintRow {
            date_day: self.date_day,
            token_name: self.token_name.clone(),
            mint_count: self.mint_count,
        }
    }
}

} // verus!
