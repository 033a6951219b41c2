//! Human-readable rendering of a virtual machine's per-transaction
//! execution trace, and selection of the immutable system-contract bundle
//! a node uses for a given execution intent.
//!
//! The renderers (`calls`, `events`, `storage`, `summary`) turn a finished
//! trace into structured lines of styled text; they never perform I/O.
//! Selector resolution is an external, best-effort service: a renderer
//! first reports which selectors it would resolve, the caller gathers the
//! answers into a `resolver::ResolutionMap`, and rendering falls back to
//! raw hex for anything unresolved. The `directory` holds the immutable
//! address dataset; `bundles` builds and selects the system-contract
//! bundles, each program carrying a content digest as its identity.

pub mod bundles;
pub mod bytes;
pub mod calls;
pub mod directory;
pub mod events;
pub mod hexfmt;
pub mod resolver;
pub mod storage;
pub mod style;
pub mod summary;
