//! Request handling, validation and batching rules of an internal token faucet.
//!
//! The service mints test tokens from fungible faucet accounts. Everything that
//! decides what happens to a request (configuration checks, request validation,
//! batching of mint jobs, the replies sent back) lives here and is verified;
//! the network, the proving client and the HTTP server drive it from outside.

pub mod text;
pub mod mint;
pub mod config;
pub mod http;
pub mod worker;
pub mod startup;
pub mod create_faucet;
