//! Metadata catalog for a data-movement orchestration platform.
//!
//! The catalog records named external data endpoints ("peers") and named
//! data-movement definitions ("flows") that reference those peers. This
//! crate holds the verified core: connection-string assembly, the binary
//! codec for the four backend configuration shapes, table-identifier
//! normalization, schema-migration bookkeeping, and the catalog state
//! machine itself. The asynchronous database plumbing around it lives in
//! the accompanying application crate.

pub mod codec;
pub mod config;
pub mod errors;
pub mod flows;
pub mod migrations;
pub mod peers;
pub mod store;

pub use config::CatalogConfig;
pub use errors::CatalogError;
pub use flows::{FlowJob, TableMapping};
pub use migrations::Migration;
pub use peers::{Config, DbType, Peer};
pub use store::{Catalog, ExecutorHandle};
