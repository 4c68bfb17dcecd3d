//! A verified core for a URL-shortening service.
//!
//! Short alphanumeric codes map to target URLs. The crate provides the
//! code-allocation algorithm (collision handling under a retry budget,
//! custom-code conflicts), the redirect decision pipeline (existence,
//! expiration, visit recording) and the statistics aggregation query,
//! all specified and proved with Verus. Persistence is modelled by an
//! in-memory [`store::Store`] holding the mapping and visit tables.

pub mod allocation;
pub mod codegen;
pub mod error;
pub mod laws;
pub mod models;
pub mod qr;
pub mod resolve;
pub mod service;
pub mod stats;
pub mod store;
pub mod validate;
