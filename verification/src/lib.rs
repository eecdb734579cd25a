//! A no-op audio backend: it answers the capability queries of an audio
//! host abstraction with fixed descriptors, enumerates no devices, and
//! drives an output-stream rendering callback from a background context
//! that can be cancelled deterministically and torn down idempotently.

pub mod config;
pub mod errors;
pub mod host;
pub mod stream;
