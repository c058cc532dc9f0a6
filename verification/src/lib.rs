//! Out-of-band event delivery for a compression-accounting engine.
//!
//! The host runtime truncates its textual log channel at a fixed size quota,
//! which is too small for many compression events. This crate provides the
//! escape hatch: a canonical, self-describing binary envelope for event
//! values ([`codec`]), a versioned wrapper that lifts arbitrary caller bytes
//! into the event hierarchy ([`events`]), and a side-channel dispatcher that
//! hands the encoded envelope to a fixed no-op receiver program whose call
//! data is never truncated ([`noop`]).

pub mod codec;
pub mod events;
pub mod noop;
