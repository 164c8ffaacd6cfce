//! Resumable enrichment of raw Ronin transactions with decoded method-call
//! and receipt data.
//!
//! The crate holds the decisions of the enrichment run and none of its I/O:
//! the caller talks to the record store and to the decoding service and
//! hands each outcome to the state machines defined here.

pub mod history;
pub mod json;
pub mod mongodb;
pub mod pipeline;
pub mod retry;
pub mod roninrest;
