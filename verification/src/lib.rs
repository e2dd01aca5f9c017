//! A supervisor for a companion backend process embedded in a desktop host.
//!
//! The library holds the decision logic of the supervisor: building the
//! prioritised list of places the backend executable may live, picking the
//! first candidate that exists, choosing between a bundled launch and a
//! development-tree fallback, the single-handle lifecycle of the launched
//! process, and the depth-bounded directory listing used for diagnostics.
//! The surrounding host process performs the filesystem probes and the
//! actual spawning and killing, feeding plain values in and out.

pub mod launch;
pub mod listing;
pub mod locator;
pub mod path;
pub mod supervisor;
