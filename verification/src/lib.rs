//! Query layer over a completed parse of a content-definition language.
//!
//! A parse session owns the front-end's output for the lifetime of one
//! parse — the contributing file list, the recorded diagnostics, the
//! declaration tree and the categorized special-file lists — and exposes
//! read-only queries over it. Every query renders its result as a JSON
//! document and installs it in the session's single reusable export
//! buffer for cross-boundary handoff.

pub mod json;
pub mod model;
pub mod session;
