//! Benchmarking harness for record stores reached over HTTP.
//!
//! The crate plans the wire requests that a benchmark run issues, decodes the
//! responses, and derives timing metrics; the surrounding binary performs the
//! actual network traffic and hands every response back as plain data.

pub mod client;
pub mod helixdb;
pub mod json;
pub mod neo4j;
pub mod runner;
pub mod store;
pub mod text;
pub mod types;
pub mod wire;
