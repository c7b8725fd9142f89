//! Verified core of an asynchronous HTTP client bridge: request validation,
//! admission bookkeeping, response streaming, tracing hooks and their
//! side-channel extension data.

pub mod errors;
pub mod utils;
pub mod proxy_config;
pub mod async_response;
pub mod async_client;
pub mod extensions;
pub mod trace;
