//! Validation and planning for a handler that stores a short text as an
//! object in a storage bucket.
//!
//! The library decides; its caller performs. Every function here works on
//! plain values: the request, the environment as it was read, and the outcome
//! of the upload once it has been attempted.

pub mod client;
pub mod handler;
pub mod hoge;
pub mod message;
pub mod upload;
pub mod validate;
