//! Defensive filesystem path helpers: idempotent removal of a path, and
//! canonicalization of a folder that creates the folder when it is missing.
//!
//! The decisions of both operations live here as verified functions from
//! plain values to plain values; an unverified shell performs the actual
//! system calls and feeds their outcomes back in. A ghost model of the
//! filesystem states and proves what the operations do to the tree.

pub mod canonical;
pub mod errors;
pub mod model;
pub mod removal;
