//! A typed client library for the Amber Electric pricing API.
//!
//! The library holds the verified core of the client: the retry policy for
//! rate-limited requests, the construction of endpoint paths and query
//! parameters, and the decoding of the API's tagged JSON responses into
//! strongly typed models. Network transport is left to the embedding
//! application.

pub mod client;
pub mod datetime;
pub mod decode;
pub mod decimal;
pub mod error;
pub mod json;
pub mod laws;
pub mod models;
pub mod retry;
pub mod text;

pub use client::{Amber, AmberBuilder};
pub use error::AmberError;

