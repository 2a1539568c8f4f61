//! A content cache for byte payloads keyed by URL.
//!
//! Lookups are answered from an in-memory result store when possible. On a
//! miss, at most one fetch per key is scheduled at a time; the fetch races a
//! read of a local shadow file against a network request, and the first
//! successful payload is stored, delivered and (when it came from the
//! network) persisted. The decisions live here as verified state machines;
//! the I/O that performs them is left to the caller.

use vstd::prelude::*;

pub mod payload;
pub mod store;
pub mod key;
pub mod disk;
pub mod race;
pub mod cache;
pub mod laws;

verus! {

/// A layout axis, for views that lay out cached payloads side by side.
#[derive(Clone, Copy, PartialEq, Eq, Debug)]
pub enum Orientation {
    Horizontal,
    Vertical,
}

} // verus!
