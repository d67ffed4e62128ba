//! Resolution of on-chain token metadata and its off-chain enrichment.
//!
//! The crate holds the decisions of a fetch, decode and enrich pipeline:
//! deriving the metadata address of a token, interpreting the account bytes
//! that a ledger node returns, judging the reply of the enrichment fetch
//! and assembling the response. All input and output stays with the caller,
//! who drives [`pipeline::step`] with the outcome of each outside action.

pub mod address;
pub mod decode;
pub mod network;
pub mod pipeline;
pub mod state;
pub mod text;
