//! Forwarding of structured trace events to a remote webhook.
//!
//! The crate filters incoming events with regex-based inclusion and
//! exclusion rules, assembles a JSON payload for the survivors, and
//! models the background worker that delivers payloads over HTTP with
//! bounded retry and graceful shutdown. The channel between formatter
//! and worker is unbounded by design: the instrumented application is
//! never stalled, at the cost of unbounded memory under sustained
//! overload.

pub mod filters;
pub mod json;
pub mod layer;
pub mod level;
pub mod message;
pub mod slack;
pub mod worker;
