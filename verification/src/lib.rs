//! Client library for the KRX (Korea Exchange) Open API.
//!
//! The library models the whole request/response pipeline of the API:
//! request builders that accumulate a base date, syntactic validation of that
//! date, classification of the HTTP outcome into a small error taxonomy,
//! decoding of the all-strings JSON envelope into typed records, and assembly
//! of those records into columnar tables.  The HTTP round trip itself is the
//! caller's concern: every builder exposes the pure steps around it.

pub mod api;
pub mod client;
pub mod data;
pub mod date;
pub mod error;
pub mod logging;
pub mod num;
pub mod table;

pub use client::{Client, ClientBuilder};
pub use error::Error;
pub use logging::LoggingConfig;
pub use table::Table;
