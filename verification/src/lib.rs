//! Verified request-building and response-handling logic of a client for the
//! Firebase Remote Config API, v1.
//!
//! The library holds the settings of a hub, the call builders of its two
//! methods, and the decision procedure that a call runs: which query
//! parameters and which URL a request carries, when it fails before anything
//! is sent, and how each reply and each answer of the caller's delegate is
//! turned into a retry, a success or an error.

pub mod api;
pub mod error;

pub use error::Error;
