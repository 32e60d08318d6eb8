//! A verified core of the leaf proxy: packet classification, framing,
//! the user-space network stack's socket bookkeeping, configuration
//! rewriting and the small state machines that drive the inbounds.
pub mod wire;
pub mod addr;
pub mod classify;
pub mod stack;
pub mod text;
pub mod inbound;
pub mod netsh;
pub mod config;
pub mod stats;
pub mod endpoint;
pub mod runtime;
pub mod outbound;
pub mod services;
pub mod console;
