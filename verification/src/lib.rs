//! Transport and client configuration logic for QUIC over long-delay links.

pub mod host;
pub mod varint;
pub mod text;
pub mod transport;
pub mod rate_limit_cc;
pub mod trust;
pub mod client;
