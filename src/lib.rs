//! A persistent cache with an offline fallback for a remote time-series API.
//!
//! The library decides; the caller performs the file and network work that
//! each decision asks for and reports back what happened.
pub mod date;
pub mod error;
pub mod request;
pub mod scan;
pub mod config;
pub mod source;
pub mod fetch;
pub mod inflight;
