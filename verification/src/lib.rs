//! A manager for one embedded, durable store whose records live in named
//! collections, on top of the `sled` storage engine.

pub mod collection;
pub mod config;
pub mod database;
pub mod engine;
pub mod error;
pub mod model;
pub mod names;

pub use collection::DiskMap;
pub use config::StoreConfig;
pub use database::Database;
pub use error::{DropOutcome, StoreError};
