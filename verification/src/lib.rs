//! Identity-and-provisioning pipeline for a WireGuard client configuration:
//! key-encoding helpers, registration-request composition, response decoding
//! and configuration synthesis.

pub mod config;
pub mod encoding;
pub mod identity;
pub mod json;
pub mod keys;
pub mod pipeline;
pub mod request;
