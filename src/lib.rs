//! An edge HTTP server's request-dispatch and edge-policy engine: ordered
//! route resolution, reverse-proxy forwarding, a fixed-window rate limiter
//! and a tiered security-header policy.

pub mod config;
pub mod paths;
pub mod rate_limit;
pub mod router;
pub mod security;
pub mod text;
