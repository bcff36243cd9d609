//! The decision logic of idempotent path removal.
//!
//! Removing a path proceeds in two steps, each driven by the outcome of one
//! system call that an unverified shell performs:
//!
//! 1. the shell queries the path's metadata and reports a [`MetadataProbe`];
//!    [`plan_removal`] turns it into the action to take — delete a directory
//!    tree, delete a single file, do nothing (the path is already absent,
//!    which counts as success), or fail with a metadata error;
//! 2. if a deletion was performed, the shell reports whether it succeeded,
//!    and [`conclude_removal`] turns that outcome into the final result.

use vstd::prelude::*;

use crate::errors::{FsError, FsOp};

verus! {

/// The outcome of querying a path's metadata, as plain values.
#[derive(Debug)]
pub enum MetadataProbe {
    /// The path exists; `is_dir` tells whether it is a directory.
    Found { is_dir: bool },
    /// The path does not exist.
    Missing,
    /// The query failed for some other reason (permissions, I/O, ...).
    Failed { cause: String },
}

/// Which kind of deletion to perform.
#[derive(Clone, Copy, Debug, PartialEq, Eq, Structural)]
pub enum DeleteKind {
    /// Delete the directory and everything under it.
    Directory,
    /// Delete the single non-directory entry.
    File,
}

/// What the removal of a path requires next.
#[derive(Debug, PartialEq, Eq, Structural)]
pub enum RemovalAction {
    /// Perform a deletion of the given kind on the path.
    Delete(DeleteKind),
    /// The path is already absent: nothing to do, the removal succeeded.
    Nothing,
}

/// The error operation that reporting a failed deletion of `kind` uses.
pub open spec fn delete_op(kind: DeleteKind) -> FsOp {
    match kind {
        DeleteKind::Directory => FsOp::RecursiveDelete,
        DeleteKind::File => FsOp::FileDelete,
    }
}

/// Decide what removing `path` requires, given the outcome of the metadata
/// query on it.
///
/// An existing directory is deleted recursively, any other existing entry is
/// deleted as a single file, an absent path is left alone (success), and any
/// other metadata failure is surfaced as a metadata error on `path`.
pub fn plan_removal(path: String, probe: MetadataProbe) -> (r: Result<RemovalAction, FsError>)
    ensures
        probe matches MetadataProbe::Found { is_dir } ==> r == Ok::<_, FsError>(
            RemovalAction::Delete(
                if is_dir { DeleteKind::Directory } else { DeleteKind::File },
            ),
        ),
        probe is Missing ==> r == Ok::<_, FsError>(RemovalAction::Nothing),
        probe matches MetadataProbe::Failed { cause } ==> r == Err::<RemovalAction, _>(
            (FsError { op: FsOp::Metadata, path: path, cause: cause }),
        ),
{
    match probe {
        MetadataProbe::Found { is_dir } => {
            if is_dir {
                Ok(RemovalAction::Delete(DeleteKind::Directory))
            } else {
                Ok(RemovalAction::Delete(DeleteKind::File))
            }
        },
        MetadataProbe::Missing => Ok(RemovalAction::Nothing),
        MetadataProbe::Failed { cause } => Err(FsError { op: FsOp::Metadata, path, cause }),
    }
}

/// Turn the outcome of the deletion that [`plan_removal`] asked for into the
/// final result of the removal.
///
/// `failure` is `None` when the deletion succeeded, and otherwise carries the
/// text of the system error; a failed recursive deletion and a failed file
/// deletion are reported as distinct operations, both naming `path`.
pub fn conclude_removal(path: String, kind: DeleteKind, failure: Option<String>) -> (r: Result<
    (),
    FsError,
>)
    ensures
        failure is None ==> r == Ok::<(), FsError>(()),
        failure matches Some(cause) ==> r == Err::<(), _>(
            (FsError { op: delete_op(kind), path: path, cause: cause }),
        ),
{
    match failure {
        None => Ok(()),
        Some(cause) => Err(
            FsError {
                op: match kind {
                    DeleteKind::Directory => FsOp::RecursiveDelete,
                    DeleteKind::File => FsOp::FileDelete,
                },
                path,
                cause,
            },
        ),
    }
}

} // verus!
