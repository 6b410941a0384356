//! A verified core for a vacancy-tracking data service.
//!
//! The library models the service's relational table as an explicit
//! in-memory [`store::Store`], and proves the repository operations —
//! list, get, create, update, delete — together with the error-translation
//! rules that turn store-level outcomes into field-level results.

pub mod models;
pub mod store;
pub mod data;
pub mod db;
pub mod context;
pub mod graphql;
