//! Error values for the filesystem helpers.
//!
//! Every failure carries the operation that failed, the path it was applied
//! to, and the text of the underlying system error, so that a caller can tell
//! which path and which operation went wrong without looking anywhere else.

use vstd::prelude::*;

verus! {

/// The filesystem operation that an error arose from.
#[derive(Clone, Copy, Debug, PartialEq, Eq, Structural)]
pub enum FsOp {
    /// Querying a path's metadata.
    Metadata,
    /// Recursively deleting a directory tree.
    RecursiveDelete,
    /// Deleting a single non-directory entry.
    FileDelete,
    /// Creating a directory together with its missing ancestors.
    DirectoryCreate,
    /// Resolving a path right after its directory was created.
    CanonicalizeAfterCreate,
}

/// A failed filesystem operation: which operation, on which path, and the
/// text of the underlying cause.
#[derive(Debug, PartialEq, Eq)]
pub struct FsError {
    pub op: FsOp,
    pub path: String,
    pub cause: String,
}

} // verus!
