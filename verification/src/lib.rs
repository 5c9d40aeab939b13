//! A read-only query layer over a chain store: projections of blocks,
//! transactions, cells and scripts that resolve their relationships on demand
//! against one immutable snapshot of the store.

pub mod encoding;
pub mod error;
pub mod input_types;
pub mod memory_store;
pub mod packed;
pub mod query;
pub mod relations;
pub mod scalars;
pub mod snapshot;
pub mod store;
pub mod types;
