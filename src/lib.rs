//! Request risk classification and access decisions for a small web decoy.
//!
//! The library inspects request metadata (user-agent, path, an optional
//! credential), produces a bounded risk score with an ordered audit trail of
//! reasons, and decides which response a trap endpoint serves and how long it
//! waits before answering.

pub mod intel;
pub mod policy;
pub mod risk;
pub mod text;
