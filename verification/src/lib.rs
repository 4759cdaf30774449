//! A bridge from a versioned, transactional table format to a lazy query
//! engine: given a resolved table snapshot and scan options, it constructs a
//! single lazy scan plan over the table's data files, reconciling schema
//! evolution and hive-style partition encoding into one correctly typed
//! result, without reading any data at planning time.

pub mod schema;
pub mod error;
pub mod gate;
pub mod config;
pub mod union;
pub mod cast;
pub mod snapshot;
pub mod plan;
pub mod engine;
pub mod bridge;
