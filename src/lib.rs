//! Client core for a vector-database service's HTTP API: configuration,
//! URL construction, request framing, response decoding and error mapping.
//! The transport itself is supplied by the caller, which performs each
//! request that the client asks for and hands back what came of it.

pub mod client;
pub mod collection;
pub mod error;
pub mod http;
pub mod json;
