//! Transfer ingestion and mint-aggregation pipeline for an ERC-721 token
//! contract: a cursor-paginated fetch of transfer records from a block
//! explorer, typed normalization of the string-encoded fields, detection of
//! mint transfers (those sent from the zero address), day-level aggregation,
//! report and chart-table building, and the state machine of a two-phase
//! media publish.

pub mod aggregate;
pub mod errors;
pub mod fetch;
pub mod json;
pub mod normalize;
pub mod numstr;
pub mod publish;
pub mod record;
pub mod report;
