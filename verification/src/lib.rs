//! Event-envelope normalizer.
//!
//! Converts upstream gateway events into canonical wire envelopes for an
//! internal message bus. The core is a pure mapping from one upstream event
//! plus its shard identifier to either a canonical envelope or nothing
//! (the event is intentionally dropped).

pub mod codec;
pub mod envelope;
pub mod event;
pub mod json;
pub mod normalize;
