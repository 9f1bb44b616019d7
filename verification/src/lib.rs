//! A small record service: identifier assignment, payload text handling and
//! the decisions that tie a create or fetch request to the outcome reported
//! by a storage backend.
//!
//! The backend itself is driven from outside this library. The library
//! decides what is handed to it and what each of its answers means.

pub mod codec;
pub mod identifier;
pub mod record;
pub mod surface;
pub mod request;
pub mod service;
pub mod store;
pub mod laws;
