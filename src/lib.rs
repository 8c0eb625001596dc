//! Classification of protocol implementation blocks into dispatch bindings.
pub mod binding;
pub mod error;
pub mod laws;
pub mod registry;
