//! The decision core of an mTLS HTTP/2 CONNECT gateway: configuration rules, byte
//! rate limiting per client identity, and the handling of a CONNECT request.

pub mod audit;
pub mod clock;
pub mod config;
pub mod destination;
pub mod policy;
pub mod proxy;
pub mod rate_limit;
pub mod text;
