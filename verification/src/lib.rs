//! The Oracle persistence layer of the Wurzburg card platform.
pub mod db;
pub mod digest;
pub mod domain;
pub mod json;
pub mod text;
pub mod time;
pub mod uuid;
