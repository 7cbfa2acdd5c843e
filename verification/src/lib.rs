//! Building blocks of a greeting relay: a service that answers the four
//! request/response shapes of one RPC contract itself, or forwards them to a
//! next hop.
//!
//! The service itself is in `server`, with the response synthesizer and the
//! streams of the four shapes. Around it stand the pool of connections to
//! the next hop (`pool`), retrying under backoff (`error_mapper`), the
//! metadata that is handed on (`metadata`), the counters (`metrics`) and the
//! orderly stop (`shutdown_handler`). The client side, the settings of a
//! connection and what a desktop shell is told are in `client`,
//! `grpc_client`, `commands` and `platform`.
//!
//! The library reads the clock and draws random numbers. The settings of the
//! process, the network and the file system are left to the program around
//! it, which hands over plain values.

pub mod client;
pub mod commands;
pub mod conn;
pub mod error_mapper;
pub mod grpc_client;
pub mod kv;
pub mod landing;
pub mod log_formatter;
pub mod logging_config;
pub mod metadata;
pub mod metrics;
pub mod platform;
pub mod pool;
pub mod server;
pub mod shutdown_handler;
pub mod text;
pub mod trans;
pub mod utils;
