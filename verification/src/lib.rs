//! Core of a small URL-shortening service.
//!
//! A storage engine answers each statement with a dynamically shaped value.
//! This crate models that response shape ([`raw`]), decodes it into typed
//! records ([`decode`]), extracts links from the decoded records ([`links`]),
//! turns a lookup into a redirect outcome ([`resolve`]), and provides an
//! in-memory store ([`store`]) that answers the same statements the service
//! issues, against which the round-trip laws are proved.

pub mod decode;
pub mod links;
pub mod raw;
pub mod resolve;
pub mod store;
