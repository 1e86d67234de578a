//! Meili: a library for reading, writing and exchanging highly-typed information
//! between federated servers and their clients.
pub mod client;
pub mod config;
pub mod error;
pub mod http;
pub mod server;
pub mod tls;
pub mod util;
pub mod wire;
