//! A loopback HTTP bridge between an external charting signal source and a
//! desktop trading UI: it serves the current trading settings, forwards
//! position notifications as events, and for trade-execution requests holds
//! the HTTP reply until the UI reports an outcome or a deadline passes.
//!
//! Everything that decides or computes lives here, verified: request routing,
//! the wire format of every reply, the JSON object grammar for inbound
//! bodies, the settings record, and the keyed correlation table that matches
//! an asynchronous trade result to the request that is waiting for it. The
//! listener itself, the UI event bus and the platform services around them
//! are unverified shells that call into this crate with plain values.

pub mod json;
pub mod mailbox;
pub mod replies;
pub mod requests;
pub mod settings;
pub mod support;
pub mod text;
