//! Persistence: errors, records and the Oracle repository.
pub mod error;
pub mod models;
pub mod oracle;
