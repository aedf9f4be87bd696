//! A verified core for a reverse-proxy gateway that fronts several
//! AI-inference HTTP APIs behind one OpenAI-style ingress surface.
//!
//! The crate covers the request-transformation and provider-dispatch
//! pipeline: the closed error taxonomy with its canonical HTTP status and
//! JSON-body mapping, the time-bounded credential cache, the key-mapper
//! decision logic that rewrites an inbound bearer credential into the
//! resolved upstream credential, and the per-provider header and path
//! rules. Network I/O and the HTTP server framing live outside this crate;
//! they hand these functions plain values and act on what comes back.

pub mod cache;
pub mod error;
pub mod fireworks;
pub mod headers;
pub mod key_mapper;
pub mod text;

pub use error::AppError;
