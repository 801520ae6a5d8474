//! A minimal network gateway core: a credential store of shared secrets, an
//! authentication interceptor that gates a route scope behind an API key, a
//! router over a fixed set of endpoints, and a per-connection session state
//! machine for the bidirectional frame channel.

pub mod config;
pub mod handlers;
pub mod pipeline;
pub mod session;
pub mod store;
pub mod timefmt;
pub mod strutil;
