//! Core of a binding layer that exposes a native real-time media engine to a
//! dynamic scripting host.
//!
//! The part of the binding worth proving is its cross-boundary dispatch
//! subsystem: monotonically increasing request identifiers for asynchronous
//! native operations, a registry of one-shot completion callbacks keyed by
//! request id, per-stream renderer callbacks, cached state snapshots, and an
//! event router that turns a native event envelope into at most one host
//! callback invocation.  Host callbacks are opaque to this crate: every type
//! here is generic over the callback handle `T`, and the functions return a
//! description of which callback to invoke with which arguments.  The
//! unverified host glue performs the actual invocation and the native calls.

pub mod client;
pub mod color;
pub mod context;
pub mod devices;
pub mod error;
pub mod event;
pub mod json;
pub mod registry;
pub mod renderers;
pub mod snapshots;
pub mod text;
