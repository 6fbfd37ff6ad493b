//! A typed client library for a social-media REST API.
//!
//! The crate is organised around one request-dispatch pipeline: credential
//! validation, URL checking, request preparation (verb and body rules), and
//! normalization of the transport's reply into a response envelope or a
//! typed error. Endpoint helpers build the URLs and payloads that the
//! pipeline consumes.

pub mod api;
pub mod types;
