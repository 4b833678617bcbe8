//! Connection-pooled client runtime for a tabular-data wire protocol.
//!
//! The crate covers the pool lifecycle, the statement classifier, the
//! parameter encoder, the row materializer and the error taxonomy of a
//! SQL Server client. Network transport and the host-language embedding
//! live outside the library; the library states and proves what the
//! pure core computes.

pub mod azure;
pub mod bytes_util;
pub mod classifier;
pub mod columns;
pub mod config;
pub mod engine;
pub mod errors;
pub mod host_value;
pub mod materialize;
pub mod params;
pub mod pool;
pub mod query;
pub mod ssl;
pub mod target;
pub mod textfmt;
pub mod wire_tag;
