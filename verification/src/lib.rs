//! Core logic of a read-through, disk-backed image cache.
//!
//! A client asks for an image by a `(type, file)` pair; the service serves a
//! locally cached copy if it is fresh, otherwise fetches the image from an
//! origin server, persists it, and streams it to the client while persisting.
//!
//! This crate holds the decision logic of that pipeline, verified: key and
//! URL construction, TTL-based cache validation, origin content validation,
//! the dual-sink (disk + client) streaming transfer, the single-use response
//! handoff, and the per-key single-flight registry. Process bootstrap, HTTP
//! routing and the actual file and network I/O live outside the crate and
//! drive these state machines with plain values.

pub mod fetcher;
pub mod keys;
pub mod orchestrator;
pub mod response;
pub mod singleflight;
pub mod settings;
pub mod transfer;
pub mod validator;
