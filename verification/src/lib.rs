//! Incremental document analysis engine for a WGSL language service.
//!
//! The engine tracks the text and version of every open shader document,
//! coalesces bursts of edits with a per-document debounce timer, runs the
//! external parser and validator over the latest stored text, records results
//! under a "freshest version wins" rule, and turns error spans into
//! editor-addressable line/column ranges.

pub mod analysis;
pub mod diagnostics;
pub mod engine;
pub mod position;
pub mod schedule;
pub mod store;
