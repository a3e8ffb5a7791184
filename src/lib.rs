//! Typed client library for a search-engine service: schema derivation for
//! record types, request paths for the collection and document endpoints,
//! and interpretation of the service's responses.

pub mod schema;
pub mod endpoint;
pub mod response;
