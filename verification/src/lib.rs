//! Security core of a TLS-terminating reverse proxy.
//!
//! The crate holds the decisions the proxy takes for each request, free of
//! any socket or runtime: configuration rules, the per-client sliding-window
//! rate limiter, the request predicates, the hot-swappable security snapshot,
//! the metrics registry and the request pipeline itself. Every function is
//! verified against its contract; the few calls into other crates stand in
//! small wrappers whose contracts are taken on trust and say so.

pub mod configuration;
pub mod headers;
pub mod metrics;
pub mod model;
pub mod proxy;
pub mod rate_limit;
pub mod security;
pub mod snapshot;
pub mod text;
