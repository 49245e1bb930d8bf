//! Building blocks for a chess server's HTTP/NDJSON client.
//!
//! The crate covers the decoding pipeline that turns a raw, chunked byte
//! stream into typed application events, and the classification of HTTP
//! exchanges into success, application error, or transport failure:
//!
//! * [`lines`] reassembles text lines from arbitrarily cut byte chunks;
//! * [`filter`] drops the blank keep-alive lines;
//! * [`json`] models JSON documents and the shapes a caller can ask for;
//! * [`decode`] turns surviving lines into decoded JSON items;
//! * [`classify`] decides the outcome of a unary HTTP exchange;
//! * [`extract`] reads the fields the client needs out of a response;
//! * [`endpoints`] builds the request paths and form bodies.
//!
//! The network itself (connections, authentication headers, cancellation)
//! lives outside this crate; everything here is pure computation on bytes.

pub mod classify;
pub mod decode;
pub mod endpoints;
pub mod extract;
pub mod filter;
pub mod json;
pub mod lines;
