//! Typed failures of the pipeline. Every error is fatal for the invocation
//! that raised it: no step recovers locally or substitutes a default.

use vstd::prelude::*;

verus! {

/// Failure while reconstructing the transfer history from the explorer feed.
#[derive(Debug)]
pub enum FetchError {
    /// The HTTP layer reported a network failure; the caller supplies the text.
    Transport(String),
    /// The response body could not be parsed as JSON.
    InvalidJson,
    /// The response envelope carried no result array.
    MissingResultArray,
    /// A transfer object lacked the named string field.
    MissingField(String),
    /// The block number of a page's last record was not a decimal number.
    InvalidBlockNumber,
    /// The page source was exhausted before the cursor loop came to rest.
    PagesExhausted,
    /// Pagination finished without collecting a single record.
    EmptyResult,
}

/// A field of a raw record could not be cast to its typed domain.
/// `field` names the offending column.
#[derive(Debug)]
pub struct CastError {
    pub field: String,
}

/// A configuration value was outside its allowed domain.
#[derive(Debug)]
pub enum ConfigError {
    /// The lookback window was negative or above the allowed maximum.
    LookbackOutOfRange(i64),
    /// A required configuration key was absent.
    MissingKey(String),
}

/// A media upload, status query, or post submission failed.
/// `reason` carries the platform-reported cause.
#[derive(Debug)]
pub struct PublishError {
    pub reason: String,
}

} // verus!
