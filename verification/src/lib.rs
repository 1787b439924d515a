//! Memory-mapped, append-oriented storage segments with reference-counted
//! accessor handles and a timeout-bounded close protocol.
//!
//! A segment is one file-backed byte region, mapped either writable or
//! read-only for its whole life.  Callers lease access through handles; a
//! close request marks the segment as closing, waits for the live handles to
//! drain, and (for writable segments) flushes the mapped bytes before the
//! segment value is consumed.

pub mod kv;
pub mod mapping;
pub mod state;
pub mod store;
